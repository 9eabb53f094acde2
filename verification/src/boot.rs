//! Starting the system: the four phases (environment, model server, model,
//! system files), what each phase's outcome is reported as, and how the
//! phases follow each other. The file-system work and the JSON output are
//! left to the caller; the model server is reached through a backend.
use vstd::prelude::*;
use crate::model::{ModelDispatcher, ModelRequest, ModelResponse};
use crate::text::{
    chars_of, contains_chars, contains_spec, decimal, decimal_spec, owned, same_text, string_of,
    string_views, sub_chars,
};

verus! {

/// A phase of starting the system.
#[derive(Debug, Clone, Copy, PartialEq, Eq, Structural)]
pub enum BootPhase {
    EnvironmentCheck,
    OllamaVerification,
    ModelVerification,
    VirtualOSInit,
    Ready,
}

impl BootPhase {
    /// The phase's name in the JSON report.
    pub open spec fn spec_json_name(self) -> Seq<char> {
        match self {
            BootPhase::EnvironmentCheck => "environment_check"@,
            BootPhase::OllamaVerification => "ollama_verification"@,
            BootPhase::ModelVerification => "model_verification"@,
            BootPhase::VirtualOSInit => "virtual_os_init"@,
            BootPhase::Ready => "ready"@,
        }
    }

    /// The phase's name in the JSON report.
    pub fn json_name(&self) -> (s: &'static str)
        ensures
            s@ == self.spec_json_name(),
    {
        match self {
            BootPhase::EnvironmentCheck => "environment_check",
            BootPhase::OllamaVerification => "ollama_verification",
            BootPhase::ModelVerification => "model_verification",
            BootPhase::VirtualOSInit => "virtual_os_init",
            BootPhase::Ready => "ready",
        }
    }

    /// The word recorded once the phase completed.
    pub open spec fn spec_done_word(self) -> Seq<char> {
        match self {
            BootPhase::EnvironmentCheck => "environment"@,
            BootPhase::OllamaVerification => "ollama"@,
            BootPhase::ModelVerification => "model"@,
            BootPhase::VirtualOSInit => "virtual_os"@,
            BootPhase::Ready => "ready"@,
        }
    }

    /// The word recorded once the phase completed.
    pub fn done_word(&self) -> (s: &'static str)
        ensures
            s@ == self.spec_done_word(),
    {
        match self {
            BootPhase::EnvironmentCheck => "environment",
            BootPhase::OllamaVerification => "ollama",
            BootPhase::ModelVerification => "model",
            BootPhase::VirtualOSInit => "virtual_os",
            BootPhase::Ready => "ready",
        }
    }

    /// The line announcing the phase in verbose mode.
    pub open spec fn spec_banner(self) -> Seq<char> {
        match self {
            BootPhase::EnvironmentCheck => "[Phase 1/4] 環境檢查..."@,
            BootPhase::OllamaVerification => "[Phase 2/4] Ollama 服務確認..."@,
            BootPhase::ModelVerification => "[Phase 3/4] gemma4:e2b 模型驗證..."@,
            BootPhase::VirtualOSInit => "[Phase 4/4] 虛擬 OS 環境初始化..."@,
            BootPhase::Ready => "✓ Evolution OS 已就緒"@,
        }
    }

    /// The line announcing the phase in verbose mode.
    pub fn banner(&self) -> (s: &'static str)
        ensures
            s@ == self.spec_banner(),
    {
        match self {
            BootPhase::EnvironmentCheck => "[Phase 1/4] 環境檢查...",
            BootPhase::OllamaVerification => "[Phase 2/4] Ollama 服務確認...",
            BootPhase::ModelVerification => "[Phase 3/4] gemma4:e2b 模型驗證...",
            BootPhase::VirtualOSInit => "[Phase 4/4] 虛擬 OS 環境初始化...",
            BootPhase::Ready => "✓ Evolution OS 已就緒",
        }
    }
}

/// The status word of the JSON report.
pub fn boot_status_word(success: bool) -> (s: &'static str)
    ensures
        s@ == (if success {
            "ready"@
        } else {
            "failed"@
        }),
{
    if success {
        "ready"
    } else {
        "failed"
    }
}

/// The version the system files are stamped with.
pub const BOOT_VERSION: &'static str = "0.4.0-dev";

/// The model the system is checked with.
pub const BOOT_MODEL: &'static str = "gemma4:e2b";

/// The version of the model server reported once it answers.
pub const SERVER_VERSION: &'static str = "0.20.2";

/// What a phase found, as plain values (the caller renders them as JSON).
#[derive(Debug)]
pub enum BootDetails {
    /// A directory could not be made; the error and, for a subdirectory,
    /// its path.
    EnvironmentFailed { error: String, path: Option<String> },
    /// The platform, the processor family and the system's directory.
    EnvironmentReady { platform: String, arch: String, root: String },
    /// The model server does not answer.
    OllamaDown,
    /// The models the server lists.
    OllamaUp { models: Vec<String> },
    /// The checked model is not among the listed models.
    ModelMissing { models: Vec<String> },
    /// The model failed the test request.
    ModelFailed { error: String },
    /// The start of the model's test reply.
    ModelReady { preview: String },
    /// A system file could not be written.
    InitFailed { error: String },
    /// The system files written.
    InitReady { system_md: String, version_file: String },
    /// The platform, the completed phases and the system's directory.
    Ready { platform: String, phases_completed: Vec<String>, root: String },
}

/// The outcome of a phase, or of the whole start.
#[derive(Debug)]
pub struct BootResult {
    pub success: bool,
    pub phase: BootPhase,
    pub message: String,
    pub details: BootDetails,
}

/// The subdirectories the system keeps.
pub fn boot_subdirs() -> (r: Vec<&'static str>)
    ensures
        r@.map_values(|s: &str| s@) == seq!["projects"@, "tests"@, "logs"@],
{
    let r = vec!["projects", "tests", "logs"];
    assert(r@.map_values(|s: &str| s@) =~= seq!["projects"@, "tests"@, "logs"@]);
    r
}

/// The environment variable that names the home directory on platform `os`.
pub fn home_variable(os: &str) -> (v: &'static str)
    ensures
        v@ == (if os@ == "windows"@ {
            "USERPROFILE"@
        } else {
            "HOME"@
        }),
{
    if same_text(os, "windows") {
        "USERPROFILE"
    } else {
        "HOME"
    }
}

/// The message when a directory cannot be made: the system's directory, or
/// the subdirectory `sub`.
pub open spec fn mkdir_failure(sub: Option<Seq<char>>, error: Seq<char>) -> Seq<char> {
    match sub {
        Some(s) => "無法建立目錄 "@ + s + ": "@ + error,
        None => "無法建立目錄: "@ + error,
    }
}

/// The first phase failed: a directory could not be made. `failed_at` is the
/// subdirectory and its path, where the failure was there.
pub fn environment_failed(error: &str, failed_at: Option<(&str, &str)>) -> (r: BootResult)
    ensures
        !r.success,
        r.phase == BootPhase::EnvironmentCheck,
        r.message@ == mkdir_failure(
            match failed_at {
                Some((s, _)) => Some(s@),
                None => None,
            },
            error@,
        ),
        r.details matches BootDetails::EnvironmentFailed { error: e, path } && e@ == error@ && (
        match failed_at {
            Some((_, p)) => path matches Some(q) && q@ == p@,
            None => path is None,
        }),
{
    match failed_at {
        Some((sub, path)) => {
            let mut m = owned("無法建立目錄 ");
            m.append(sub);
            m.append(": ");
            m.append(error);
            BootResult {
                success: false,
                phase: BootPhase::EnvironmentCheck,
                message: m,
                details: BootDetails::EnvironmentFailed { error: owned(error), path: Some(owned(path)) },
            }
        },
        None => {
            let mut m = owned("無法建立目錄: ");
            m.append(error);
            BootResult {
                success: false,
                phase: BootPhase::EnvironmentCheck,
                message: m,
                details: BootDetails::EnvironmentFailed { error: owned(error), path: None },
            }
        },
    }
}

/// The first phase succeeded on platform `platform` (`arch`), with the
/// system's directory `root`.
pub fn environment_ready(platform: &str, arch: &str, root: &str) -> (r: BootResult)
    ensures
        r.success,
        r.phase == BootPhase::EnvironmentCheck,
        r.message@ == platform@ + " ("@ + arch@ + ") 環境就緒"@,
        r.details matches BootDetails::EnvironmentReady { platform: p, arch: a, root: d } && p@
            == platform@ && a@ == arch@ && d@ == root@,
{
    let mut m = owned(platform);
    m.append(" (");
    m.append(arch);
    m.append(") 環境就緒");
    BootResult {
        success: true,
        phase: BootPhase::EnvironmentCheck,
        message: m,
        details: BootDetails::EnvironmentReady {
            platform: owned(platform),
            arch: owned(arch),
            root: owned(root),
        },
    }
}

/// The second phase: the model server must answer; then its models are
/// listed.
pub fn check_ollama_service(backend: &dyn ModelDispatcher) -> (r: BootResult)
    ensures
        r.phase == BootPhase::OllamaVerification,
        !r.success ==> r.message@ == "Ollama 服務未運行"@ && r.details is OllamaDown,
        r.success ==> (r.details matches BootDetails::OllamaUp { models } && r.message@
            == "Ollama 服務正常 ("@ + decimal_spec(models@.len()) + " models)"@),
{
    if !backend.health_check() {
        return BootResult {
            success: false,
            phase: BootPhase::OllamaVerification,
            message: owned("Ollama 服務未運行"),
            details: BootDetails::OllamaDown,
        };
    }
    let models = backend.available_models();
    let mut m = owned("Ollama 服務正常 (");
    m.append(decimal(models.len()).as_str());
    m.append(" models)");
    BootResult {
        success: true,
        phase: BootPhase::OllamaVerification,
        message: m,
        details: BootDetails::OllamaUp { models },
    }
}

/// Some listed model's name holds the checked model's name.
pub open spec fn lists_model(models: Seq<Seq<char>>) -> bool {
    exists|i: int| 0 <= i < models.len() && contains_spec(#[trigger] models[i], BOOT_MODEL@)
}

/// Whether some listed model's name holds the checked model's name.
pub fn has_boot_model(models: &[String]) -> (r: bool)
    ensures
        r == lists_model(string_views(models@)),
{
    let m = chars_of(BOOT_MODEL);
    let n = models.len();
    for i in 0..n
        invariant
            n == models@.len(),
            m@ == BOOT_MODEL@,
            forall|j: int| 0 <= j < i ==> !contains_spec(#[trigger] string_views(models@)[j], BOOT_MODEL@),
    {
        let c = chars_of(models[i].as_str());
        if contains_chars(c.as_slice(), m.as_slice()) {
            assert(contains_spec(string_views(models@)[i as int], BOOT_MODEL@));
            return true;
        }
    }
    false
}

/// The prompt the model is tested with.
pub const TEST_PROMPT: &'static str = "回覆 OK 如果你能看到這段文字";

/// The request the model is tested with.
pub fn model_test_request() -> (r: ModelRequest)
    ensures
        r.model@ == BOOT_MODEL@,
        r.prompt@ == TEST_PROMPT@,
        r.system_prompt is None,
        r.temperature_pct == 10,
        r.max_tokens == Some(50u32),
{
    ModelRequest::new(BOOT_MODEL, TEST_PROMPT).with_temperature_pct(10).with_max_tokens(50)
}

/// The third phase failed: the checked model is not among `models`.
pub fn model_missing(models: Vec<String>) -> (r: BootResult)
    ensures
        !r.success,
        r.phase == BootPhase::ModelVerification,
        r.message@ == "gemma4:e2b 模型未安裝"@,
        r.details matches BootDetails::ModelMissing { models: m } && m@ == models@,
{
    BootResult {
        success: false,
        phase: BootPhase::ModelVerification,
        message: owned("gemma4:e2b 模型未安裝"),
        details: BootDetails::ModelMissing { models },
    }
}

/// At most the first `n` characters of `s`.
pub open spec fn prefix_upto(s: Seq<char>, n: nat) -> Seq<char> {
    if s.len() <= n {
        s
    } else {
        s.take(n as int)
    }
}

/// The third phase given the model's reply to the test request: the
/// failure, or success with the reply's first 50 characters.
pub fn model_tested(reply: Result<ModelResponse, String>) -> (r: BootResult)
    ensures
        r.phase == BootPhase::ModelVerification,
        match reply {
            Ok(resp) => {
                &&& r.success
                &&& r.message@ == "gemma4:e2b 模型正常"@
                &&& r.details matches BootDetails::ModelReady { preview } && preview@ == prefix_upto(
                    resp.content@,
                    50,
                )
            },
            Err(e) => {
                &&& !r.success
                &&& r.message@ == "模型推理測試失敗: "@ + e@
                &&& r.details matches BootDetails::ModelFailed { error } && error@ == e@
            },
        },
{
    match reply {
        Ok(resp) => {
            let c = chars_of(resp.content.as_str());
            let end = if c.len() <= 50 {
                c.len()
            } else {
                50
            };
            let p = sub_chars(c.as_slice(), 0, end);
            assert(p@ =~= prefix_upto(resp.content@, 50));
            BootResult {
                success: true,
                phase: BootPhase::ModelVerification,
                message: owned("gemma4:e2b 模型正常"),
                details: BootDetails::ModelReady { preview: string_of(p.as_slice()) },
            }
        },
        Err(e) => {
            let mut m = owned("模型推理測試失敗: ");
            m.append(e.as_str());
            BootResult {
                success: false,
                phase: BootPhase::ModelVerification,
                message: m,
                details: BootDetails::ModelFailed { error: e },
            }
        },
    }
}

/// The third phase: the checked model must be listed, then answer a test
/// request.
pub fn check_model(backend: &dyn ModelDispatcher) -> (r: BootResult)
    ensures
        r.phase == BootPhase::ModelVerification,
        r.details matches BootDetails::ModelMissing { models } ==> (!r.success
            && !lists_model(string_views(models@)) && r.message@ == "gemma4:e2b 模型未安裝"@),
        r.details matches BootDetails::ModelFailed { error } ==> (!r.success && r.message@
            == "模型推理測試失敗: "@ + error@),
        r.details matches BootDetails::ModelReady { preview } ==> (r.success && r.message@
            == "gemma4:e2b 模型正常"@ && preview@.len() <= 50),
        r.details is ModelMissing || r.details is ModelFailed || r.details is ModelReady,
{
    let models = backend.available_models();
    if !has_boot_model(models.as_slice()) {
        return model_missing(models);
    }
    model_tested(backend.dispatch(model_test_request()))
}

/// What the system's version file holds.
pub const VERSION_TEXT: &'static str = "0.4.0-dev\n";

/// What the system's description file holds when it is first written.
pub const SYSTEM_MD_TEXT: &'static str = "# Evolution OS 系統描述\n\n## 版本\n0.4.0-dev (Prototype)\n\n## 核心模型\n- 預設模型: gemma4:e2b (2B 參數)\n- 備用模型: gemma4:e4b, llama3, mistral:7b\n\n## 路徑結構\n- projects/: 專案儲存\n- tests/: 測試記錄\n- logs/: 操作日誌\n\n## 模型對應硬體需求\n| 模型 | 參數 | 最低 RAM |\n|------|------|----------|\n| gemma4:e2b | 2B | 4GB |\n| gemma4:e4b | 4B | 8GB |\n| llama3 | 8B | 16GB |\n\nGenerated by Evolution OS boot\n";

/// A file the fourth phase writes.
#[derive(Debug, Clone, Copy, PartialEq, Eq, Structural)]
pub enum SystemFile {
    Version,
    SystemMd,
}

/// The message when a system file cannot be written.
pub open spec fn write_failure(file: SystemFile, error: Seq<char>) -> Seq<char> {
    match file {
        SystemFile::Version => "無法寫入 VERSION: "@ + error,
        SystemFile::SystemMd => "無法建立 SYSTEM.md: "@ + error,
    }
}

/// The fourth phase failed: `file` could not be written.
pub fn init_failed(file: SystemFile, error: &str) -> (r: BootResult)
    ensures
        !r.success,
        r.phase == BootPhase::VirtualOSInit,
        r.message@ == write_failure(file, error@),
        r.details matches BootDetails::InitFailed { error: e } && e@ == error@,
{
    let mut m = match file {
        SystemFile::Version => owned("無法寫入 VERSION: "),
        SystemFile::SystemMd => owned("無法建立 SYSTEM.md: "),
    };
    m.append(error);
    BootResult {
        success: false,
        phase: BootPhase::VirtualOSInit,
        message: m,
        details: BootDetails::InitFailed { error: owned(error) },
    }
}

/// The fourth phase succeeded, with the files at these paths.
pub fn init_ready(system_md: &str, version_file: &str) -> (r: BootResult)
    ensures
        r.success,
        r.phase == BootPhase::VirtualOSInit,
        r.message@ == "虛擬 OS 環境已初始化"@,
        r.details matches BootDetails::InitReady { system_md: s, version_file: v } && s@
            == system_md@ && v@ == version_file@,
{
    BootResult {
        success: true,
        phase: BootPhase::VirtualOSInit,
        message: owned("虛擬 OS 環境已初始化"),
        details: BootDetails::InitReady {
            system_md: owned(system_md),
            version_file: owned(version_file),
        },
    }
}

/// What comes next in starting the system.
#[derive(Debug)]
pub enum BootAction {
    /// Run this phase and report its result.
    Run(BootPhase),
    /// Starting is over, with this result.
    Finish(BootResult),
}

/// `r` reports the system ready on `platform` with directory `root`, after
/// the phases `completed`.
pub open spec fn is_ready_result(
    r: BootResult,
    platform: Seq<char>,
    completed: Seq<Seq<char>>,
    root: Seq<char>,
) -> bool {
    &&& r.success
    &&& r.phase == BootPhase::Ready
    &&& r.message@ == "Evolution OS ready"@
    &&& match r.details {
        BootDetails::Ready { platform: p, phases_completed: c, root: d } => p@ == platform
            && string_views(c@) == completed && d@ == root,
        _ => false,
    }
}

/// The phase after `p`.
pub open spec fn next_phase(p: BootPhase) -> BootPhase {
    match p {
        BootPhase::EnvironmentCheck => BootPhase::OllamaVerification,
        BootPhase::OllamaVerification => BootPhase::ModelVerification,
        BootPhase::ModelVerification => BootPhase::VirtualOSInit,
        _ => BootPhase::Ready,
    }
}

/// The phase starting the system begins with.
pub fn first_phase() -> (p: BootPhase)
    ensures
        p == BootPhase::EnvironmentCheck,
{
    BootPhase::EnvironmentCheck
}

/// Takes in the result of a phase: a failed phase ends the start with its
/// result; a phase that succeeded is recorded in `completed`, and either
/// the next phase runs or, after the last one, the system is ready on
/// `platform` with its directory `root`.
pub fn advance_boot(completed: &mut Vec<String>, result: BootResult, platform: &str, root: &str) -> (a:
    BootAction)
    requires
        result.phase != BootPhase::Ready,
    ensures
        !result.success ==> final(completed)@ == old(completed)@,
        !result.success ==> (a matches BootAction::Finish(r) && r == result),
        result.success ==> string_views(final(completed)@) == string_views(old(completed)@).push(
            result.phase.spec_done_word(),
        ),
        result.success && result.phase != BootPhase::VirtualOSInit ==> a == BootAction::Run(
            next_phase(result.phase),
        ),
        result.success && result.phase == BootPhase::VirtualOSInit ==> (a matches BootAction::Finish(
            r,
        ) && is_ready_result(r, platform@, string_views(final(completed)@), root@)),
{
    if !result.success {
        return BootAction::Finish(result);
    }
    let ghost before = string_views(completed@);
    let w = owned(result.phase.done_word());
    completed.push(w);
    assert(string_views(completed@) =~= before.push(result.phase.spec_done_word()));
    match result.phase {
        BootPhase::EnvironmentCheck => BootAction::Run(BootPhase::OllamaVerification),
        BootPhase::OllamaVerification => BootAction::Run(BootPhase::ModelVerification),
        BootPhase::ModelVerification => BootAction::Run(BootPhase::VirtualOSInit),
        _ => {
            let c = clone_words(completed);
            BootAction::Finish(
                BootResult {
                    success: true,
                    phase: BootPhase::Ready,
                    message: owned("Evolution OS ready"),
                    details: BootDetails::Ready {
                        platform: owned(platform),
                        phases_completed: c,
                        root: owned(root),
                    },
                },
            )
        },
    }
}

fn clone_words(v: &Vec<String>) -> (r: Vec<String>)
    ensures
        string_views(r@) == string_views(v@),
{
    let mut r: Vec<String> = Vec::new();
    let n = v.len();
    for i in 0..n
        invariant
            n == v@.len(),
            string_views(r@) == string_views(v@).take(i as int),
    {
        let w = v[i].clone();
        let ghost before = r@;
        r.push(w);
        assert(string_views(r@) =~= string_views(before).push(w@));
        assert(string_views(v@).take(i + 1) =~= string_views(v@).take(i as int).push(v@[i as int]@));
    }
    assert(string_views(v@).take(n as int) =~= string_views(v@));
    r
}

/// The lines shown in verbose mode once the system is ready.
pub fn ready_lines() -> (r: Vec<&'static str>)
    ensures
        r@.map_values(|s: &str| s@) == seq![
            ""@,
            "✓ Evolution OS 已就緒"@,
            ""@,
            "  模型: gemma4:e2b (2B 參數)"@,
            "  路徑: ~/.evolution/"@,
            "  版本: 0.4.0-dev"@,
            ""@,
            "  可用命令:"@,
            "    evolution analyze \"任務描述\""@,
            "    evolution status"@,
            "    evolution ollama check"@,
        ],
{
    let r = vec![
        "",
        "✓ Evolution OS 已就緒",
        "",
        "  模型: gemma4:e2b (2B 參數)",
        "  路徑: ~/.evolution/",
        "  版本: 0.4.0-dev",
        "",
        "  可用命令:",
        "    evolution analyze \"任務描述\"",
        "    evolution status",
        "    evolution ollama check",
    ];
    assert(r@.map_values(|s: &str| s@) =~= seq![
        ""@,
        "✓ Evolution OS 已就緒"@,
        ""@,
        "  模型: gemma4:e2b (2B 參數)"@,
        "  路徑: ~/.evolution/"@,
        "  版本: 0.4.0-dev"@,
        ""@,
        "  可用命令:"@,
        "    evolution analyze \"任務描述\""@,
        "    evolution status"@,
        "    evolution ollama check"@,
    ]);
    r
}

} // verus!
