use evolution_board::intent_router::IntentRouter;
use evolution_board::model::{ModelDispatcher, ModelRequest, ModelResponse};
use evolution_board::process::RunOutcome;
use evolution_board::shell::{
    begin_cli_run, calendar_reply, classify_intent, classify_request, cli_arguments,
    evolution_action, extract_task_name_from_cli, extract_yaml_field, fallback, finish_cli_run,
    general_reply, handle_system, intent_from_reply, is_opencode_request, opencode_reply,
    read_shell_input, respond, route_request, shell_root, Action, Intent, Route, ShellInput,
    INVALID_COMMAND,
};
use evolution_board::state_board::{EventLevel, StateBoard, TaskStage};
use std::cell::RefCell;

struct Scripted {
    replies: RefCell<Vec<Result<String, String>>>,
    prompts: RefCell<Vec<String>>,
}

impl Scripted {
    fn new(replies: Vec<Result<&str, &str>>) -> Self {
        Scripted {
            replies: RefCell::new(
                replies.into_iter().map(|r| r.map(|s| s.to_string()).map_err(|e| e.to_string())).collect(),
            ),
            prompts: RefCell::new(Vec::new()),
        }
    }
}

impl ModelDispatcher for Scripted {
    fn dispatch(&self, req: ModelRequest) -> Result<ModelResponse, String> {
        self.prompts.borrow_mut().push(req.prompt.clone());
        let r = self.replies.borrow_mut().remove(0);
        r.map(|c| ModelResponse { content: c, model: req.model, tokens_used: 1 })
    }

    fn available_models(&self) -> Vec<String> {
        vec!["gemma4:e2b".to_string()]
    }
}

fn ok(s: &str) -> Result<ModelResponse, String> {
    Ok(ModelResponse { content: s.to_string(), model: "m".to_string(), tokens_used: 1 })
}

#[test]
fn coding_keywords_are_found_case_insensitively() {
    assert!(is_opencode_request("請幫我寫一個函式"));
    assert!(is_opencode_request("Some CODE please"));
    assert!(!is_opencode_request("今天天氣如何"));
}

#[test]
fn classification_reply_is_read_in_order() {
    assert_eq!(intent_from_reply(ok("  System  ")), Intent::System);
    assert_eq!(intent_from_reply(ok("evolution or calendar")), Intent::Evolution);
    assert_eq!(intent_from_reply(ok("CALENDAR")), Intent::Calendar);
    assert_eq!(intent_from_reply(ok("opencode")), Intent::Opencode);
    assert_eq!(intent_from_reply(ok("???")), Intent::General);
    assert_eq!(intent_from_reply(Err("x".to_string())), Intent::General);
}

#[test]
fn classify_skips_model_for_coding_requests() {
    let b = Scripted::new(vec![]);
    assert_eq!(classify_intent(&b, "幫我寫程式"), Intent::Opencode);
    assert!(b.prompts.borrow().is_empty());
    let b = Scripted::new(vec![Ok("calendar")]);
    assert_eq!(classify_intent(&b, "明天開會"), Intent::Calendar);
    let req = classify_request("明天開會");
    assert_eq!(b.prompts.borrow()[0], req.prompt);
    assert_eq!(req.temperature_pct, 10);
    assert_eq!(req.max_tokens, Some(10));
}

#[test]
fn task_names_from_command_lines() {
    assert_eq!(extract_task_name_from_cli("evolution analyze 建庫存"), "analyze 建庫存");
    assert_eq!(extract_task_name_from_cli("evolution board status"), "board status");
    assert_eq!(extract_task_name_from_cli("evolution status"), "status");
    assert_eq!(extract_task_name_from_cli("evolution"), "未知任務");
    assert_eq!(cli_arguments("evolution  new   project x"), vec!["new", "project", "x"]);
}

#[test]
fn yaml_fields_are_extracted() {
    assert_eq!(extract_yaml_field("時間：「明天」\n事項：「開會」", "事項"), "開會");
    assert_eq!(extract_yaml_field("事項: \"開會\"", "事項"), "開會");
    assert_eq!(extract_yaml_field("地點：「」", "地點"), "");
    assert_eq!(extract_yaml_field("hello", "事項"), "");
    let yaml = "時間：「明天下午三點」\r\n  事項:「開會」  \n地點: \"會議室\"\n";
    assert_eq!(extract_yaml_field(yaml, "時間"), "明天下午三點");
    assert_eq!(extract_yaml_field(yaml, "事項"), "開會");
    assert_eq!(extract_yaml_field(yaml, "地點"), "會議室");
    assert_eq!(extract_yaml_field(yaml, "人物"), "");
}

#[test]
fn calendar_answers() {
    let r = calendar_reply(ok("時間：「」\n事項：「買牛奶」\n地點：「」"));
    assert_eq!(r, "📅 記事已準備：\n  時間：時間待確認\n  事項：買牛奶\n  地點：未指定\n\n要幫你寫入行事曆嗎？");
    let r = calendar_reply(ok("時間：「九點」\n事項：「開會」\n地點：「公司」"));
    assert_eq!(r, "📅 記事已準備：\n  時間：九點\n  事項：開會\n  地點：公司\n\n要幫你寫入行事曆嗎？");
    let r = calendar_reply(ok("時間：「九點」\n事項：「」"));
    assert_eq!(r, "我需要知道你要記錄什麼事件，請重新說明一次。");
    assert_eq!(calendar_reply(Err("boom".to_string())), "LLM 錯誤：boom");
}

#[test]
fn handler_answers() {
    assert_eq!(
        handle_system("開檔"),
        "🔧 系統操作：開檔\n\n[系統操作需要更多細節才能執行，例如：開啟哪個檔案、執行什麼命令]"
    );
    assert_eq!(opencode_reply(ok(" 寫一個爬蟲 ")), "🤖 OpenCode 任務：寫一個爬蟲\n\n[任務委派中...]");
    assert_eq!(opencode_reply(Err("e".to_string())), "無法處理：e");
    assert_eq!(general_reply(ok("  你好！ ")), "你好！");
    assert_eq!(general_reply(Err("e".to_string())), "抱歉，系統有點慢：e");
    match evolution_action(ok(" evolution analyze x \n")) {
        Action::Run(c) => assert_eq!(c, "evolution analyze x"),
        Action::Say(_) => panic!("expected a command"),
    }
    match evolution_action(ok("不需要CLI")) {
        Action::Say(s) => assert_eq!(s, "不需要 Evolution CLI：不需要CLI"),
        Action::Run(_) => panic!("expected an answer"),
    }
}

#[test]
fn respond_and_fallback() {
    let b = Scripted::new(vec![Ok("  嗨  ")]);
    match respond(&b, Intent::General, "hi") {
        Action::Say(s) => assert_eq!(s, "嗨"),
        Action::Run(_) => panic!("expected an answer"),
    }
    assert!(b.prompts.borrow()[0].ends_with("使用者：hi\n小E："));
    let b = Scripted::new(vec![Ok("system")]);
    match fallback(&b, "打開檔案") {
        Action::Say(s) => assert!(s.starts_with("🔧 系統操作：打開檔案")),
        Action::Run(_) => panic!("expected an answer"),
    }
}

#[test]
fn routing_prefers_model_then_keyword_then_classification() {
    let router = IntentRouter::new();
    let b = Scripted::new(vec![Ok("board_status")]);
    match route_request(&router, &b, "隨便") {
        Route::Model(m) => assert_eq!(m.command_id, "board_status"),
        _ => panic!("expected a model route"),
    }
    let b = Scripted::new(vec![Err("down")]);
    match route_request(&router, &b, "看一下系統狀態") {
        Route::Keyword(m) => assert_eq!(m.command_id, "board_status"),
        _ => panic!("expected a keyword route"),
    }
    let b = Scripted::new(vec![Ok("none"), Ok("calendar")]);
    match route_request(&router, &b, "這個問題很奇怪") {
        Route::Fallback(i) => assert_eq!(i, Intent::Calendar),
        _ => panic!("expected a fallback"),
    }
}

#[test]
fn a_successful_run_is_tracked_to_done() {
    let mut board = StateBoard::new();
    let run = begin_cli_run(&mut board, "evolution board status").ok().unwrap();
    assert_eq!(run.args, vec!["board", "status"]);
    let t = board.get_task(&run.task_id).unwrap();
    assert_eq!(t.name, "board status");
    assert_eq!(t.stage, TaskStage::Executing);
    let out = finish_cli_run(
        &mut board,
        &run.task_id,
        RunOutcome::Exited { success: true, stdout: "  \n".into(), stderr: " note ".into() },
    );
    assert_eq!(out, "note");
    assert_eq!(board.get_task(&run.task_id).unwrap().stage, TaskStage::Done);
    assert_eq!(board.undelivered_events()[0].level, EventLevel::Done);
}

#[test]
fn failed_runs_block_the_task() {
    let mut board = StateBoard::new();
    let run = begin_cli_run(&mut board, "evolution analyze x").ok().unwrap();
    let out = finish_cli_run(
        &mut board,
        &run.task_id,
        RunOutcome::Exited { success: false, stdout: "".into(), stderr: " bad \n".into() },
    );
    assert_eq!(out, "❌ 命令執行失敗\nbad");
    let t = board.get_task(&run.task_id).unwrap();
    assert_eq!(t.stage, TaskStage::Blocked);
    assert_eq!(t.history[1].note.as_deref(), Some("執行失敗: bad"));
    let run2 = begin_cli_run(&mut board, "evolution status").ok().unwrap();
    let out = finish_cli_run(&mut board, &run2.task_id, RunOutcome::NotStarted("no cargo".into()));
    assert_eq!(out, "❌ 無法執行命令：no cargo");
    assert_eq!(board.get_task(&run2.task_id).unwrap().history[1].note.as_deref(), Some("無法執行: no cargo"));
}

#[test]
fn an_empty_command_line_is_invalid_and_blocked() {
    let mut board = StateBoard::new();
    let e = begin_cli_run(&mut board, "evolution   ").err().unwrap();
    assert_eq!(e, INVALID_COMMAND);
    assert_eq!(board.list_tasks().len(), 1);
    let t = &board.list_tasks()[0];
    assert_eq!(t.name, "未知任務");
    assert_eq!(t.stage, TaskStage::Blocked);
    assert_eq!(t.history.len(), 2);
    assert_eq!(t.history[1].note.as_deref(), Some(INVALID_COMMAND));
    assert_eq!(board.undelivered_events()[0].level, EventLevel::NeedsUser);
}

#[test]
fn shell_input_lines() {
    assert!(matches!(read_shell_input("   \n"), ShellInput::Skip));
    assert!(matches!(read_shell_input(" exit\n"), ShellInput::Quit));
    assert!(matches!(read_shell_input("再見"), ShellInput::Quit));
    match read_shell_input("  看板  \n") {
        ShellInput::Request(s) => assert_eq!(s, "看板"),
        _ => panic!("expected a request"),
    }
}

#[test]
fn configured_root_wins() {
    assert_eq!(shell_root(Some("/tmp/evo".to_string())), "/tmp/evo");
    assert!(shell_root(None).ends_with(".evolution"));
}
