use evolution_board::model::{ModelDispatcher, ModelRequest, ModelResponse};
use evolution_board::ollama::{
    health_check, install_command_for, llm_call, llm_call_request, llm_call_with_model, list_models,
    make_line, start_command, OllamaStatus, SERVER_DOWN,
};
use evolution_board::process::RunOutcome;

struct Server {
    models: Vec<String>,
    reply: Result<String, String>,
}

impl ModelDispatcher for Server {
    fn dispatch(&self, req: ModelRequest) -> Result<ModelResponse, String> {
        match &self.reply {
            Ok(c) => Ok(ModelResponse { content: format!("{}:{}", req.model, c), model: req.model, tokens_used: 1 }),
            Err(e) => Err(e.clone()),
        }
    }

    fn available_models(&self) -> Vec<String> {
        self.models.clone()
    }
}

fn status(running: bool, version: Option<&str>, models: &[&str]) -> OllamaStatus {
    OllamaStatus {
        running,
        version: version.map(|v| v.to_string()),
        models: models.iter().map(|m| m.to_string()).collect(),
        install_command: "brew install ollama".to_string(),
    }
}

#[test]
fn status_json() {
    let s = status(true, Some("0.1"), &["a", "b"]);
    assert_eq!(
        s.to_json(),
        "{\n  \"ollama\": {\n    \"running\": true,\n    \"version\": \"0.1\",\n    \"models\": [\"a\", \"b\"],\n    \"install_command\": \"brew install ollama\"\n  }\n}"
    );
    let s = status(false, None, &[]);
    assert!(s.to_json().contains("\"version\": null,\n    \"models\": [],"));
}

#[test]
fn check_reads_models_and_version() {
    let server = Server { models: vec!["llama3".into()], reply: Ok("x".into()) };
    let run = RunOutcome::Exited { success: true, stdout: " ollama version 0.20.2\n".into(), stderr: "".into() };
    let s = OllamaStatus::check(&server, &run, "linux");
    assert!(s.running);
    assert_eq!(s.version.as_deref(), Some("ollama version 0.20.2"));
    assert_eq!(s.install_command, "curl -fsSL https://ollama.com/install.sh | sh");
    let down = Server { models: vec![], reply: Ok("x".into()) };
    let s = OllamaStatus::check(&down, &RunOutcome::NotStarted("no".into()), "windows");
    assert!(!s.running);
    assert!(s.version.is_none());
    assert_eq!(s.install_command, "winget install Ollama.Ollama");
    assert_eq!(install_command_for("macos"), "brew install ollama");
}

#[test]
fn starting_the_server() {
    let s = status(false, None, &[]);
    assert_eq!(s.try_start("linux", None).unwrap_err(), "請手動啟動 Ollama: ollama serve");
    assert!(start_command("linux").is_none());
    assert_eq!(start_command("macos").unwrap(), vec!["open", "-a", "Ollama"]);
    let ok = RunOutcome::Exited { success: true, stdout: "".into(), stderr: "".into() };
    assert!(s.try_start("macos", Some(ok)).is_ok());
    let bad = RunOutcome::Exited { success: false, stdout: "".into(), stderr: "".into() };
    assert_eq!(s.try_start("windows", Some(bad)).unwrap_err(), "Ollama 未安裝，請先執行 install");
    assert_eq!(
        s.try_start("windows", Some(RunOutcome::NotStarted("e".into()))).unwrap_err(),
        "無法啟動 Ollama service: e"
    );
    assert_eq!(s.try_start("macos", Some(RunOutcome::NotStarted("e".into()))).unwrap_err(), "無法啟動 Ollama: e");
}

#[test]
fn installing_the_default_model() {
    let up = status(true, None, &["a"]);
    assert!(!up.needs_install());
    assert!(up.install_default(None).is_ok());
    let down = status(false, None, &[]);
    assert!(down.needs_install());
    let failed = RunOutcome::Exited { success: false, stdout: "".into(), stderr: "no space".into() };
    assert_eq!(down.install_default(Some(failed)).unwrap_err(), "安裝失敗: no space");
    assert_eq!(down.install_default(Some(RunOutcome::NotStarted("x".into()))).unwrap_err(), "安裝失敗: x");
}

#[test]
fn report_lines() {
    let lines = status(true, Some("1.0"), &["m1"]).report();
    assert_eq!(lines[1], "=".repeat(50));
    let line = "=".repeat(50);
    assert_eq!(lines[5..], ["  ✅ Ollama 運行中", "     版本：1.0", "     模型：1 個", "       • m1", "", line.as_str()]);
    let lines = status(false, None, &[]).report();
    assert_eq!(lines[8], "    brew install ollama");
    assert_eq!(make_line(3), "===");
}

#[test]
fn system_calls() {
    let server = Server { models: vec!["first".into(), "second".into()], reply: Ok("hi".into()) };
    assert_eq!(llm_call(&server, "p").unwrap(), "first:hi");
    assert_eq!(llm_call_with_model(&server, "other", "p").unwrap(), "other:hi");
    assert_eq!(list_models(&server).len(), 2);
    assert!(health_check(&server));
    let empty = Server { models: vec![], reply: Ok("hi".into()) };
    assert_eq!(llm_call(&empty, "p").unwrap_err(), SERVER_DOWN);
    assert!(!health_check(&empty));
    let failing = Server { models: vec!["m".into()], reply: Err("timeout".into()) };
    assert_eq!(llm_call(&failing, "p").unwrap_err(), "LLM call failed: timeout");
    let req = llm_call_request(&["a".to_string()], "q").unwrap();
    assert_eq!(req.model, "a");
    assert_eq!(req.prompt, "q");
}

#[test]
fn server_json_parses_with_special_characters() {
    let mut s = status(false, Some("x\\y"), &["m\"1"]);
    s.install_command = "echo \"hi\"\n".to_string();
    let v: serde_json::Value = serde_json::from_str(&s.to_json()).unwrap();
    assert_eq!(v["ollama"]["version"], "x\\y");
    assert_eq!(v["ollama"]["models"][0], "m\"1");
    assert_eq!(v["ollama"]["install_command"], "echo \"hi\"\n");
}
