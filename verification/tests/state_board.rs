use evolution_board::model::{ModelDispatcher, ModelRequest, ModelResponse};
use evolution_board::time::Timestamp;
use evolution_board::state_board::{
    advice_reply, EventEntry, EventLevel, StateBoard, TaskStage, NOTHING_PENDING,
};

struct Canned(Result<String, String>);

impl ModelDispatcher for Canned {
    fn dispatch(&self, _req: ModelRequest) -> Result<ModelResponse, String> {
        match &self.0 {
            Ok(c) => Ok(ModelResponse { content: c.clone(), model: "m".to_string(), tokens_used: 1 }),
            Err(e) => Err(e.clone()),
        }
    }

    fn available_models(&self) -> Vec<String> {
        Vec::new()
    }
}

#[test]
fn test_create_and_get_task() {
    let mut board = StateBoard::new();
    let id = board.create_task("測試任務".into());
    assert!(!id.is_empty());
    assert_eq!(board.get_task(&id).unwrap().name, "測試任務");
}

#[test]
fn test_stage_transition() {
    let mut board = StateBoard::new();
    let id = board.create_task("test".into());
    assert_eq!(board.get_task(&id).unwrap().stage, TaskStage::Pending);

    board.update_stage(&id, TaskStage::Planning, None, None);
    assert_eq!(board.get_task(&id).unwrap().stage, TaskStage::Planning);

    let history = &board.get_task(&id).unwrap().history;
    assert_eq!(history.len(), 1);
    assert_eq!(history[0].from, TaskStage::Pending);
    assert_eq!(history[0].to, TaskStage::Planning);
}

#[test]
fn test_done_generates_event() {
    let mut board = StateBoard::new();
    let id = board.create_task("my-task".into());
    board.update_stage(&id, TaskStage::Executing, None, None);
    board.update_stage(&id, TaskStage::Done, None, None);

    let events: Vec<EventEntry> = board.undelivered_events().into_iter().cloned().collect();
    assert_eq!(events.len(), 1);
    assert_eq!(events[0].level, EventLevel::Done);
    assert_eq!(events[0].task_id.as_deref(), Some(id.as_str()));
}

#[test]
fn test_blocked_generates_event() {
    let mut board = StateBoard::new();
    let id = board.create_task("my-task".into());
    board.update_stage(&id, TaskStage::Blocked, None, None);

    let events: Vec<EventEntry> = board.undelivered_events().into_iter().cloned().collect();
    assert_eq!(events.len(), 1);
    assert_eq!(events[0].level, EventLevel::NeedsUser);
}

#[test]
fn test_remove_task() {
    let mut board = StateBoard::new();
    let id = board.create_task("to-delete".into());
    assert!(board.remove_task(&id));
    assert!(board.get_task(&id).is_none());
    assert!(!board.remove_task(&id));
}

#[test]
fn test_snapshot_roundtrip() {
    let mut board = StateBoard::new();
    board.create_task("t1".into());
    let id2 = board.create_task("t2".into());
    board.update_stage(&id2, TaskStage::Done, None, None);

    let snap = board.snapshot();
    let restored = StateBoard::from_snapshot(snap);

    assert_eq!(restored.list_tasks().len(), 2);
    assert_eq!(restored.snapshot().events.len(), 1);
}

#[test]
fn task_ids_have_uuid_shape() {
    let mut board = StateBoard::new();
    let id = board.create_task("x".into());
    assert_eq!(id.len(), 36);
    assert_eq!(id.chars().filter(|c| *c == '-').count(), 4);
    assert!(id.chars().all(|c| c == '-' || c.is_ascii_digit() || ('a'..='f').contains(&c)));
}

#[test]
fn event_messages_use_rule_reading_without_backend() {
    let mut board = StateBoard::new();
    let id = board.create_task("庫存".into());
    board.update_stage(&id, TaskStage::Done, None, None);
    let id2 = board.create_task("部落格".into());
    board.update_stage(&id2, TaskStage::Blocked, Some("卡住".into()), None);
    let ev = board.undelivered_events();
    assert_eq!(ev[0].message, "任務「庫存」已完成 — 任務已完成，成果可供檢視");
    assert_eq!(ev[1].message, "任務「部落格」需要你做決定 — 任務遇到需要使用者決定的環節");
    assert_eq!(board.get_task(&id2).unwrap().history[0].note.as_deref(), Some("卡住"));
}

#[test]
fn backend_reading_is_appended_to_event() {
    let mut board = StateBoard::new();
    let id = board.create_task("庫存".into());
    let b = Canned(Ok("系統規劃完成，準備執行\n".to_string()));
    board.update_stage(&id, TaskStage::Done, None, Some(&b));
    assert_eq!(board.undelivered_events()[0].message, "任務「庫存」已完成 — 系統規劃完成，準備執行");
}

#[test]
fn update_unknown_task_changes_nothing() {
    let mut board = StateBoard::new();
    board.create_task("a".into());
    assert!(!board.update_stage("nope", TaskStage::Done, None, None));
    assert_eq!(board.undelivered_events().len(), 0);
    assert_eq!(board.list_tasks()[0].stage, TaskStage::Pending);
}

#[test]
fn clear_done_removes_only_done() {
    let mut board = StateBoard::new();
    let a = board.create_task("a".into());
    let _b = board.create_task("b".into());
    let c = board.create_task("c".into());
    board.update_stage(&a, TaskStage::Done, None, None);
    board.update_stage(&c, TaskStage::Done, None, None);
    assert_eq!(board.clear_done(), 2);
    assert_eq!(board.list_tasks().len(), 1);
    assert_eq!(board.list_tasks()[0].name, "b");
    assert_eq!(board.clear_done(), 0);
}

#[test]
fn drain_delivers_each_undelivered_event_once() {
    let mut board = StateBoard::new();
    let a = board.create_task("a".into());
    let b = board.create_task("b".into());
    board.update_stage(&a, TaskStage::Done, None, None);
    board.update_stage(&b, TaskStage::Blocked, None, None);
    let first_id = board.undelivered_events()[0].id.clone();
    assert!(board.mark_event_delivered(&first_id));
    assert!(!board.mark_event_delivered("missing"));
    let drained = board.drain_undelivered();
    assert_eq!(drained.len(), 1);
    assert!(drained[0].delivered);
    assert_eq!(drained[0].task_id.as_deref(), Some(b.as_str()));
    assert!(board.undelivered_events().is_empty());
    assert!(board.drain_undelivered().is_empty());
}

#[test]
fn summary_counts_by_stage() {
    let mut board = StateBoard::new();
    let a = board.create_task("a".into());
    board.create_task("b".into());
    board.create_task("c".into());
    board.update_stage(&a, TaskStage::Executing, None, None);
    let s = board.summary();
    assert_eq!(s.total, 3);
    assert_eq!(s.by_stage, vec![("Pending".to_string(), 2), ("Executing".to_string(), 1)]);
    assert_eq!(s.undelivered_events, 0);
    assert!(s.is_alive);
}

#[test]
fn tasks_by_stage_and_get_task_mut() {
    let mut board = StateBoard::new();
    let a = board.create_task("a".into());
    board.create_task("b".into());
    board.update_stage(&a, TaskStage::Planning, None, None);
    assert_eq!(board.tasks_by_stage(&TaskStage::Planning).len(), 1);
    assert_eq!(board.tasks_by_stage(&TaskStage::Pending).len(), 1);
    board.get_task_mut(&a).unwrap().name = "renamed".to_string();
    assert_eq!(board.get_task(&a).unwrap().name, "renamed");
    assert!(board.get_task_mut("missing").is_none());
}

#[test]
fn pushed_events_and_levels() {
    let mut board = StateBoard::new();
    board.push_event(EventEntry::new(EventLevel::Info, "hello".into(), None));
    board.push_event(EventEntry::new(EventLevel::Warning, "careful".into(), Some("t".into())).with_interpretation("x".into()));
    let ev = board.undelivered_events();
    assert_eq!(ev.len(), 2);
    assert_eq!(ev[1].interpretation.as_deref(), Some("x"));
    assert_eq!(EventLevel::NeedsUser.as_str(), "NEEDS_USER");
    assert_eq!(EventLevel::Info.to_string(), "INFO");
    assert_eq!(TaskStage::Executing.to_string(), "Executing");
}

#[test]
fn advice_with_nothing_pending() {
    let board = StateBoard::new();
    let b = Canned(Ok("建議".to_string()));
    assert_eq!(board.understand_events(&b).unwrap(), NOTHING_PENDING);
}

#[test]
fn advice_from_model_reply() {
    let mut board = StateBoard::new();
    let a = board.create_task("a".into());
    board.update_stage(&a, TaskStage::Blocked, None, None);
    let p = board.advice_prompt();
    assert!(p.starts_with("以下是 Evolution OS 的系統狀態"));
    assert!(p.contains("任務「a」需要你做決定"));
    let b = Canned(Ok("  先處理 a  ".to_string()));
    assert_eq!(board.understand_events(&b).unwrap(), "先處理 a");
    let b = Canned(Err("down".to_string()));
    assert!(board.understand_events(&b).is_err());
    assert!(advice_reply(Err("e".to_string())).is_err());
}

#[test]
fn heartbeat_keeps_presence_alive() {
    let mut board = StateBoard::new();
    board.heartbeat();
    assert!(board.presence().is_alive);
    assert_eq!(board.presence().system_name, "EvolutionOS");
}

#[test]
fn test_heartbeat() {
    let mut board = StateBoard::new();
    let before = board.presence().last_heartbeat;
    while Timestamp::now().micros() < before.micros() + 10_000 {}
    board.heartbeat();
    assert!(board.presence().last_heartbeat.micros() > before.micros());
}

#[test]
fn advice_request_is_fixed() {
    let mut board = StateBoard::new();
    let a = board.create_task("a".into());
    board.update_stage(&a, TaskStage::Done, None, None);
    let req = board.advice_request();
    assert_eq!(req.model, "gemma4:e2b");
    assert_eq!(req.prompt, board.advice_prompt());
    assert!(req.system_prompt.is_none());
    assert_eq!(req.temperature_pct, 40);
    assert_eq!(req.max_tokens, Some(300));
}
