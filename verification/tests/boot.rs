use evolution_board::boot::{
    advance_boot, boot_status_word, boot_subdirs, check_model, check_ollama_service,
    environment_failed, environment_ready, first_phase, home_variable, init_failed, init_ready,
    model_tested, ready_lines, BootAction, BootDetails, BootPhase, SystemFile,
};
use evolution_board::model::{ModelDispatcher, ModelRequest, ModelResponse};

struct Server {
    models: Vec<String>,
    reply: Result<String, String>,
}

impl ModelDispatcher for Server {
    fn dispatch(&self, _req: ModelRequest) -> Result<ModelResponse, String> {
        self.reply.clone().map(|c| ModelResponse { content: c, model: "m".into(), tokens_used: 1 })
    }

    fn available_models(&self) -> Vec<String> {
        self.models.clone()
    }
}

#[test]
fn phase_names() {
    assert_eq!(BootPhase::VirtualOSInit.json_name(), "virtual_os_init");
    assert_eq!(BootPhase::ModelVerification.done_word(), "model");
    assert_eq!(BootPhase::EnvironmentCheck.banner(), "[Phase 1/4] 環境檢查...");
    assert_eq!(boot_status_word(false), "failed");
    assert_eq!(boot_subdirs(), vec!["projects", "tests", "logs"]);
    assert_eq!(home_variable("windows"), "USERPROFILE");
    assert_eq!(home_variable("linux"), "HOME");
    assert_eq!(ready_lines().len(), 11);
}

#[test]
fn environment_messages() {
    let r = environment_failed("denied", None);
    assert!(!r.success);
    assert_eq!(r.message, "無法建立目錄: denied");
    let r = environment_failed("denied", Some(("logs", "/r/logs")));
    assert_eq!(r.message, "無法建立目錄 logs: denied");
    assert!(matches!(r.details, BootDetails::EnvironmentFailed { path: Some(ref p), .. } if p == "/r/logs"));
    let r = environment_ready("linux", "x86_64", "/r");
    assert!(r.success);
    assert_eq!(r.message, "linux (x86_64) 環境就緒");
}

#[test]
fn server_and_model_checks() {
    let down = Server { models: vec![], reply: Err("x".into()) };
    let r = check_ollama_service(&down);
    assert!(!r.success);
    assert_eq!(r.message, "Ollama 服務未運行");
    let up = Server { models: vec!["gemma4:e2b".into(), "llama3".into()], reply: Ok("OK".into()) };
    let r = check_ollama_service(&up);
    assert!(r.success);
    assert_eq!(r.message, "Ollama 服務正常 (2 models)");
    let r = check_model(&up);
    assert!(r.success);
    assert_eq!(r.message, "gemma4:e2b 模型正常");
    let missing = Server { models: vec!["llama3".into()], reply: Ok("OK".into()) };
    let r = check_model(&missing);
    assert!(!r.success);
    assert_eq!(r.message, "gemma4:e2b 模型未安裝");
    let failing = Server { models: vec!["x/gemma4:e2b-q4".into()], reply: Err("timeout".into()) };
    let r = check_model(&failing);
    assert_eq!(r.message, "模型推理測試失敗: timeout");
}

#[test]
fn model_preview_is_fifty_characters() {
    let long: String = "字".repeat(60);
    let r = model_tested(Ok(ModelResponse { content: long, model: "m".into(), tokens_used: 1 }));
    match r.details {
        BootDetails::ModelReady { preview } => assert_eq!(preview.chars().count(), 50),
        _ => panic!("expected a preview"),
    }
}

#[test]
fn system_file_messages() {
    assert_eq!(init_failed(SystemFile::Version, "ro").message, "無法寫入 VERSION: ro");
    assert_eq!(init_failed(SystemFile::SystemMd, "ro").message, "無法建立 SYSTEM.md: ro");
    assert_eq!(init_ready("/r/SYSTEM.md", "/r/VERSION").message, "虛擬 OS 環境已初始化");
}

#[test]
fn phases_follow_each_other_until_ready() {
    let mut done: Vec<String> = Vec::new();
    assert_eq!(first_phase(), BootPhase::EnvironmentCheck);
    let a = advance_boot(&mut done, environment_ready("linux", "x", "/r"), "linux", "/r");
    assert!(matches!(a, BootAction::Run(BootPhase::OllamaVerification)));
    let up = Server { models: vec!["gemma4:e2b".into()], reply: Ok("OK".into()) };
    let a = advance_boot(&mut done, check_ollama_service(&up), "linux", "/r");
    assert!(matches!(a, BootAction::Run(BootPhase::ModelVerification)));
    let a = advance_boot(&mut done, check_model(&up), "linux", "/r");
    assert!(matches!(a, BootAction::Run(BootPhase::VirtualOSInit)));
    match advance_boot(&mut done, init_ready("a", "b"), "linux", "/r") {
        BootAction::Finish(r) => {
            assert!(r.success);
            assert_eq!(r.phase, BootPhase::Ready);
            assert_eq!(r.message, "Evolution OS ready");
            match r.details {
                BootDetails::Ready { phases_completed, .. } => {
                    assert_eq!(phases_completed, vec!["environment", "ollama", "model", "virtual_os"])
                },
                _ => panic!("expected the ready details"),
            }
        },
        BootAction::Run(_) => panic!("expected the end"),
    }
}

#[test]
fn a_failed_phase_ends_the_start() {
    let mut done: Vec<String> = vec!["environment".into()];
    let down = Server { models: vec![], reply: Err("x".into()) };
    match advance_boot(&mut done, check_ollama_service(&down), "linux", "/r") {
        BootAction::Finish(r) => assert_eq!(r.phase, BootPhase::OllamaVerification),
        BootAction::Run(_) => panic!("expected the end"),
    }
    assert_eq!(done, vec!["environment"]);
}
