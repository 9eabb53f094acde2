use evolution_board::intent_router::{IntentRouter, NOT_UNDERSTOOD};
use evolution_board::model::{ModelDispatcher, ModelRequest, ModelResponse};

struct Canned {
    reply: Result<String, String>,
}

impl ModelDispatcher for Canned {
    fn dispatch(&self, _req: ModelRequest) -> Result<ModelResponse, String> {
        match &self.reply {
            Ok(c) => Ok(ModelResponse { content: c.clone(), model: "m".to_string(), tokens_used: 1 }),
            Err(e) => Err(e.clone()),
        }
    }

    fn available_models(&self) -> Vec<String> {
        vec!["m".to_string()]
    }
}

#[test]
fn test_keyword_matching() {
    let router = IntentRouter::new();

    let result = router.route_keyword("看一下系統狀態").unwrap();
    assert_eq!(result.command_id, "board_status");

    let result = router.route_keyword("有什麼新消息").unwrap();
    assert_eq!(result.command_id, "board_events");

    let result = router.route_keyword("幫我規劃一個庫存系統").unwrap();
    assert_eq!(result.command_id, "planner_analyze");

    let result = router.route_keyword("嗨").unwrap();
    assert_eq!(result.command_id, "query_hello");

    let result = router.route_keyword("這個問題很奇怪");
    assert!(result.is_none());
}

#[test]
fn test_command_ids() {
    let router = IntentRouter::new();
    let ids = router.db().command_ids();
    assert!(ids.contains(&"board_status"));
    assert!(ids.contains(&"planner_analyze"));
    assert!(ids.contains(&"system_boot"));
}

#[test]
fn test_build_cli() {
    let router = IntentRouter::new();
    let cli = router.db().build_cli(
        "planner_analyze",
        &[("task_description".into(), "建立一個部落格系統".into())],
    );
    assert!(cli.is_some());
    assert!(cli.unwrap().contains("analyze"));
}

#[test]
fn keyword_route_has_cli_and_confidence() {
    let router = IntentRouter::new();
    let m = router.route_keyword("看一下系統狀態").unwrap();
    assert_eq!(m.confidence_pct, 70);
    assert!(m.cli.starts_with("evolution "));
    assert!(m.slots.is_empty());
}

#[test]
fn build_cli_unknown_command_is_none() {
    let router = IntentRouter::new();
    assert!(router.db().build_cli("no_such_command", &[]).is_none());
}

#[test]
fn model_reply_naming_a_command_routes_with_high_confidence() {
    let router = IntentRouter::new();
    let backend = Canned { reply: Ok("  BOARD_STATUS \n".to_string()) };
    let m = router.route_with_model("隨便", &backend).unwrap();
    assert_eq!(m.command_id, "board_status");
    assert_eq!(m.confidence_pct, 90);
}

#[test]
fn model_reply_none_falls_back_on_keywords() {
    let router = IntentRouter::new();
    let backend = Canned { reply: Ok("none".to_string()) };
    let m = router.route_with_model("有什麼新消息", &backend).unwrap();
    assert_eq!(m.command_id, "board_events");
    assert_eq!(m.confidence_pct, 70);
    let e = router.route_with_model("這個問題很奇怪", &backend).unwrap_err();
    assert_eq!(e, NOT_UNDERSTOOD);
}

#[test]
fn model_reply_unknown_command_is_an_error() {
    let router = IntentRouter::new();
    let backend = Canned { reply: Ok("Foo".to_string()) };
    let e = router.route_with_model("x", &backend).unwrap_err();
    assert_eq!(e, "模型回覆了不存在的 command_id: foo");
}

#[test]
fn model_failure_is_passed_on() {
    let router = IntentRouter::new();
    let backend = Canned { reply: Err("down".to_string()) };
    assert_eq!(router.route_with_model("x", &backend).unwrap_err(), "down");
}

#[test]
fn classification_prompt_lists_commands_and_input() {
    let router = IntentRouter::new();
    let p = router.classification_prompt("我的輸入");
    assert!(p.starts_with("你是一個意圖分類器。"));
    assert!(p.contains("- board_status ("));
    assert!(p.ends_with("\n\n用戶輸入：我的輸入\n\ncommand_id："));
}

#[test]
fn builtin_commands_by_category() {
    let router = IntentRouter::new();
    let db = router.db();
    assert_eq!(db.by_category("board").len(), 4);
    assert_eq!(db.by_category("planner").len(), 2);
    assert_eq!(db.by_category("system").len(), 3);
    assert_eq!(db.by_category("dev").len(), 1);
    assert_eq!(db.by_category("query").len(), 2);
    assert_eq!(db.command_ids().len(), 12);
    assert_eq!(db.get("board_clear").unwrap().id, "board_clear");
    assert!(db.get("nothing").is_none());
}

#[test]
fn routing_request_is_fixed() {
    let router = IntentRouter::new();
    let req = router.routing_request("看板");
    assert_eq!(req.model, "gemma4:e2b");
    assert_eq!(req.prompt, router.classification_prompt("看板"));
    assert_eq!(req.temperature_pct, 0);
    assert!(req.max_tokens.is_none());
    assert!(req.system_prompt.is_none());
}
