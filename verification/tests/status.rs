use evolution_board::model::{ModelDispatcher, ModelRequest, ModelResponse};
use evolution_board::process::RunOutcome;
use evolution_board::status::{evolution_root_under, make_line, projects_dir, SystemStatus};

struct Server(Vec<String>);

impl ModelDispatcher for Server {
    fn dispatch(&self, _req: ModelRequest) -> Result<ModelResponse, String> {
        Err("unused".to_string())
    }

    fn available_models(&self) -> Vec<String> {
        self.0.clone()
    }
}

#[test]
fn status_json_and_report() {
    let run = RunOutcome::Exited { success: true, stdout: "v1\n".into(), stderr: "".into() };
    let s = SystemStatus::collect(&Server(vec!["m".into()]), &run, "/home/u/.evolution".into(), 3);
    assert!(s.ollama_running);
    assert_eq!(
        s.to_json(),
        "{\n  \"ollama\": {\n    \"running\": true,\n    \"version\": \"v1\",\n    \"models\": [\"m\"]\n  },\n  \"evolution\": {\n    \"root\": \"/home/u/.evolution\",\n    \"projects_count\": 3\n  }\n}"
    );
    let r = s.report();
    assert_eq!(r[2], "  Evolution OS 系統狀態");
    assert_eq!(r[6..10], ["  ✅ 運行中", "  版本：v1", "  模型（1）：", "    • m"]);
    assert_eq!(r[r.len() - 3], "  專案數：3");
}

#[test]
fn status_when_server_is_down() {
    let s = SystemStatus::collect(&Server(vec![]), &RunOutcome::NotStarted("x".into()), "r".into(), 0);
    assert!(!s.ollama_running);
    assert!(s.ollama_version.is_none());
    let r = s.report();
    assert_eq!(r[6], "  ❌ 未運行");
    assert_eq!(r[7], "  安裝指令：brew install ollama  (macOS)");
}

#[test]
fn system_directories() {
    assert_eq!(evolution_root_under(Some("/home/u".into())), "/home/u/.evolution");
    assert_eq!(evolution_root_under(Some("/home/u/".into())), "/home/u/.evolution");
    assert_eq!(evolution_root_under(None), "./.evolution");
    assert_eq!(projects_dir("/r"), "/r/projects");
    assert_eq!(make_line("-", 4), "----");
}

#[test]
fn status_json_parses_with_special_characters() {
    let s = SystemStatus {
        ollama_running: true,
        ollama_version: Some("v\"1\"".to_string()),
        models: vec!["a\\b".to_string(), "tab\there".to_string()],
        evolution_root: "C:\\Users\\me\\.evolution".to_string(),
        projects_count: 2,
    };
    let v: serde_json::Value = serde_json::from_str(&s.to_json()).unwrap();
    assert_eq!(v["ollama"]["running"], true);
    assert_eq!(v["ollama"]["version"], "v\"1\"");
    assert_eq!(v["ollama"]["models"][0], "a\\b");
    assert_eq!(v["ollama"]["models"][1], "tab\there");
    assert_eq!(v["evolution"]["root"], "C:\\Users\\me\\.evolution");
    assert_eq!(v["evolution"]["projects_count"], 2);
}
