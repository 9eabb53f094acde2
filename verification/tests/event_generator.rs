use evolution_board::event_generator::{describe_reply, EventGenerator};
use evolution_board::model::{ModelDispatcher, ModelRequest, ModelResponse};
use evolution_board::state_board::TaskStage;

struct Canned(Result<String, String>);

impl ModelDispatcher for Canned {
    fn dispatch(&self, _req: ModelRequest) -> Result<ModelResponse, String> {
        match &self.0 {
            Ok(c) => Ok(ModelResponse { content: c.clone(), model: "m".to_string(), tokens_used: 1 }),
            Err(e) => Err(e.clone()),
        }
    }

    fn available_models(&self) -> Vec<String> {
        Vec::new()
    }
}

#[test]
fn test_build_prompt() {
    let prompt = EventGenerator::build_prompt("建庫存系統", &TaskStage::Planning, &TaskStage::Executing);
    assert!(prompt.contains("建庫存系統"));
    assert!(prompt.contains("Planning"));
    assert!(prompt.contains("Executing"));
}

#[test]
fn build_prompt_exact_opening() {
    let prompt = EventGenerator::build_prompt("t", &TaskStage::Pending, &TaskStage::Done);
    assert!(prompt.starts_with("任務「t」的狀態從 [Pending] 變成 [Done]。\n\n請用繁體中文"));
    assert!(prompt.ends_with("直接回覆描述句，不要加標題或前後文。"));
}

#[test]
fn no_backend_gives_rule_reading() {
    let g = EventGenerator::new();
    assert_eq!(g.default_model(), "gemma4:e2b");
    assert_eq!(
        g.interpret_transition("建庫存系統", &TaskStage::Planning, &TaskStage::Executing, None),
        Some("系統規劃完成，正在啟動規劃執行流程".to_string())
    );
    assert_eq!(
        g.interpret_transition("t", &TaskStage::Pending, &TaskStage::Executing, None).as_deref(),
        Some("任務開始執行，系統正在處理")
    );
    assert_eq!(
        g.interpret_transition("t", &TaskStage::Pending, &TaskStage::Done, None).as_deref(),
        Some("任務已完成，成果可供檢視")
    );
    assert_eq!(
        g.interpret_transition("t", &TaskStage::Executing, &TaskStage::Blocked, None).as_deref(),
        Some("任務遇到需要使用者決定的環節")
    );
    assert_eq!(
        g.interpret_transition("t", &TaskStage::Blocked, &TaskStage::Pending, None).as_deref(),
        Some("任務回到待處理，等待重新安排")
    );
    assert_eq!(
        g.interpret_transition("t", &TaskStage::Pending, &TaskStage::Planning, None).as_deref(),
        Some("系統開始分析任務，正在規劃執行步驟")
    );
}

#[test]
fn interpretation_is_first_trimmed_line() {
    let g = EventGenerator::new();
    let b = Canned(Ok("  系統規劃完成，準備執行  \n第二行".to_string()));
    let r = g.interpret_transition("t", &TaskStage::Planning, &TaskStage::Executing, Some(&b));
    assert_eq!(r.as_deref(), Some("系統規劃完成，準備執行"));
}

#[test]
fn short_or_failed_replies_give_nothing() {
    let g = EventGenerator::new();
    let b = Canned(Ok("abc".to_string()));
    assert!(g.interpret_transition("t", &TaskStage::Planning, &TaskStage::Done, Some(&b)).is_none());
    let b = Canned(Err("x".to_string()));
    assert!(g.interpret_transition_with_model("t", &TaskStage::Planning, &TaskStage::Done, &b, "m").is_none());
    assert_eq!(describe_reply("abcde").as_deref(), Some("abcde"));
    assert!(describe_reply("   ").is_none());
}
