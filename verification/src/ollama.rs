//! The local model server: its status and the reports on it, what starting
//! it and installing the default model come to, and the system calls that
//! reach a model through it. Probing the server's program, starting it and
//! pulling models are left to the caller, which reports each run's outcome.
use vstd::prelude::*;
use crate::model::{ModelDispatcher, ModelRequest, ModelResponse};
use crate::process::{output_if_success, success_output, RunOutcome};
use crate::text::{
    bool_str, bool_text, join_spec, json_quoted, json_string, opt_text, owned, quote_or_null, quoted_all, quoted_list,
    quoted_or_null, repeat, repeat_spec, same_text, string_views,
};

verus! {

/// Status of the model server.
#[derive(Debug)]
pub struct OllamaStatus {
    pub running: bool,
    pub version: Option<String>,
    pub models: Vec<String>,
    pub install_command: String,
}

/// The JSON text of a server status.
pub open spec fn ollama_status_json(
    running: bool,
    version: Option<Seq<char>>,
    models: Seq<Seq<char>>,
    install: Seq<char>,
) -> Seq<char> {
    "{\n  \"ollama\": {\n    \"running\": "@ + bool_text(running) + ",\n    \"version\": "@
        + quoted_or_null(version) + ",\n    \"models\": ["@ + join_spec(quoted_all(models), ", "@)
        + "],\n    \"install_command\": "@ + json_string(install) + "\n  }\n}"@
}

/// The command that installs the server on platform `os` (a name as std's
/// `env::consts::OS` gives it).
pub open spec fn install_command_spec(os: Seq<char>) -> Seq<char> {
    if os == "windows"@ {
        "winget install Ollama.Ollama"@
    } else if os == "macos"@ {
        "brew install ollama"@
    } else {
        "curl -fsSL https://ollama.com/install.sh | sh"@
    }
}

/// The command that installs the server on platform `os`.
pub fn install_command_for(os: &str) -> (s: &'static str)
    ensures
        s@ == install_command_spec(os@),
{
    if same_text(os, "windows") {
        "winget install Ollama.Ollama"
    } else if same_text(os, "macos") {
        "brew install ollama"
    } else {
        "curl -fsSL https://ollama.com/install.sh | sh"
    }
}

/// Answer when the server cannot be started because it is missing.
pub const NOT_INSTALLED: &'static str = "Ollama 未安裝，請先執行 install";

/// Answer on a platform where the server is started by hand.
pub const START_BY_HAND: &'static str = "請手動啟動 Ollama: ollama serve";

/// The program and arguments that start the server on platform `os`; none
/// where it is started by hand.
pub open spec fn start_command_spec(os: Seq<char>) -> Option<Seq<Seq<char>>> {
    if os == "macos"@ {
        Some(seq!["open"@, "-a"@, "Ollama"@])
    } else if os == "windows"@ {
        Some(seq!["sc"@, "start"@, "Ollama"@])
    } else {
        None
    }
}

/// The program and arguments that start the server on platform `os`.
pub fn start_command(os: &str) -> (r: Option<Vec<&'static str>>)
    ensures
        match start_command_spec(os@) {
            Some(c) => r matches Some(v) && v@.map_values(|a: &str| a@) == c,
            None => r is None,
        },
{
    if same_text(os, "macos") {
        let v = vec!["open", "-a", "Ollama"];
        assert(v@.map_values(|a: &str| a@) =~= seq!["open"@, "-a"@, "Ollama"@]);
        Some(v)
    } else if same_text(os, "windows") {
        let v = vec!["sc", "start", "Ollama"];
        assert(v@.map_values(|a: &str| a@) =~= seq!["sc"@, "start"@, "Ollama"@]);
        Some(v)
    } else {
        None
    }
}

/// What starting the server on platform `os` comes to, given how its start
/// command ran.
pub open spec fn start_result_spec(os: Seq<char>, launched: Option<RunOutcome>) -> Result<
    (),
    Seq<char>,
> {
    if os == "macos"@ || os == "windows"@ {
        match launched {
            Some(RunOutcome::NotStarted(e)) => Err(
                (if os == "macos"@ {
                    "無法啟動 Ollama: "@
                } else {
                    "無法啟動 Ollama service: "@
                }) + e@,
            ),
            Some(RunOutcome::Exited { success: true, .. }) => Ok(()),
            _ => Err(NOT_INSTALLED@),
        }
    } else {
        Err(START_BY_HAND@)
    }
}

/// The text of a failure, as plain values.
pub open spec fn unit_text(r: Result<(), String>) -> Result<(), Seq<char>> {
    match r {
        Ok(()) => Ok(()),
        Err(e) => Err(e@),
    }
}

/// The model the server is given when it has none.
pub const DEFAULT_PULL: &'static str = "llama3";

/// What installing the default model comes to: nothing to do where the
/// server already runs, else the outcome of pulling it.
pub open spec fn install_result_spec(running: bool, pulled: Option<RunOutcome>) -> Result<
    (),
    Seq<char>,
> {
    if running {
        Ok(())
    } else {
        match pulled {
            Some(RunOutcome::NotStarted(e)) => Err("安裝失敗: "@ + e@),
            Some(RunOutcome::Exited { success, stderr, .. }) => if success {
                Ok(())
            } else {
                Err("安裝失敗: "@ + stderr@)
            },
            None => Ok(()),
        }
    }
}

/// The lines of the report on a running server.
pub open spec fn running_lines(version: Option<Seq<char>>, models: Seq<Seq<char>>) -> Seq<
    Seq<char>,
> {
    seq!["  ✅ Ollama 運行中"@] + (match version {
        Some(v) => seq!["     版本："@ + v],
        None => Seq::<Seq<char>>::empty(),
    }) + seq!["     模型："@ + crate::text::decimal_spec(models.len()) + " 個"@] + models.map_values(
        |m: Seq<char>| "       • "@ + m,
    )
}

/// The lines of the report on a server that does not run.
pub open spec fn down_lines(install: Seq<char>) -> Seq<Seq<char>> {
    seq![
        "  ❌ Ollama 未運行或未安裝"@,
        ""@,
        "  安裝指令："@,
        "    "@ + install,
        ""@,
        "  或從 https://ollama.com 下載"@,
    ]
}

/// The lines of the report on the server.
pub open spec fn ollama_report_lines(
    running: bool,
    version: Option<Seq<char>>,
    models: Seq<Seq<char>>,
    install: Seq<char>,
) -> Seq<Seq<char>> {
    let line = repeat_spec("="@, 50);
    seq![""@, line, "  Ollama 狀態檢查"@, line, ""@] + (if running {
        running_lines(version, models)
    } else {
        down_lines(install)
    }) + seq![""@, line]
}

impl OllamaStatus {
    /// The status from the server's model list (the server runs when it
    /// lists a model), the outcome of running `ollama --version`, and the
    /// platform `os`.
    pub fn check(backend: &dyn ModelDispatcher, version_run: &RunOutcome, os: &str) -> (s:
        OllamaStatus)
        ensures
            s.running == (s.models@.len() > 0),
            opt_text(s.version) == success_output(*version_run),
            s.install_command@ == install_command_spec(os@),
    {
        let models = backend.available_models();
        let running = models.len() > 0;
        OllamaStatus {
            running,
            version: output_if_success(version_run),
            models,
            install_command: owned(install_command_for(os)),
        }
    }

    /// What starting the server on platform `os` comes to, given how the
    /// start command (see `start_command`) ran; nothing is run where the
    /// server is started by hand.
    pub fn try_start(&self, os: &str, launched: Option<RunOutcome>) -> (r: Result<(), String>)
        requires
            start_command_spec(os@) is Some ==> launched is Some,
        ensures
            unit_text(r) == start_result_spec(os@, launched),
    {
        let mac = same_text(os, "macos");
        if mac || same_text(os, "windows") {
            match launched {
                Some(RunOutcome::NotStarted(e)) => {
                    let mut m = if mac {
                        owned("無法啟動 Ollama: ")
                    } else {
                        owned("無法啟動 Ollama service: ")
                    };
                    m.append(e.as_str());
                    Err(m)
                },
                Some(RunOutcome::Exited { success, .. }) => if success {
                    Ok(())
                } else {
                    Err(owned(NOT_INSTALLED))
                },
                None => Err(owned(NOT_INSTALLED)),
            }
        } else {
            Err(owned(START_BY_HAND))
        }
    }

    /// Whether installing the default model is called for: not where the
    /// server runs with models.
    pub fn needs_install(&self) -> (r: bool)
        ensures
            r == !(self.running && self.models@.len() > 0),
    {
        !(self.running && self.models.len() > 0)
    }

    /// What installing the default model comes to, given how pulling it
    /// (`ollama pull llama3`) ran; nothing is pulled where the server runs.
    pub fn install_default(&self, pulled: Option<RunOutcome>) -> (r: Result<(), String>)
        requires
            !self.running ==> pulled is Some,
        ensures
            unit_text(r) == install_result_spec(self.running, pulled),
    {
        if self.running {
            return Ok(());
        }
        match pulled {
            Some(RunOutcome::NotStarted(e)) => {
                let mut m = owned("安裝失敗: ");
                m.append(e.as_str());
                Err(m)
            },
            Some(RunOutcome::Exited { success, stderr, .. }) => if success {
                Ok(())
            } else {
                let mut m = owned("安裝失敗: ");
                m.append(stderr.as_str());
                Err(m)
            },
            None => Ok(()),
        }
    }

    /// The status as JSON text.
    pub fn to_json(&self) -> (s: String)
        ensures
            s@ == ollama_status_json(
                self.running,
                opt_text(self.version),
                string_views(self.models@),
                self.install_command@,
            ),
    {
        let mut s = owned("{\n  \"ollama\": {\n    \"running\": ");
        s.append(bool_str(self.running));
        s.append(",\n    \"version\": ");
        s.append(quote_or_null(&self.version).as_str());
        s.append(",\n    \"models\": [");
        s.append(quoted_list(self.models.as_slice()).as_str());
        s.append("],\n    \"install_command\": ");
        s.append(json_quoted(self.install_command.as_str()).as_str());
        s.append("\n  }\n}");
        s
    }

    /// The lines of the report on the server.
    pub fn report(&self) -> (r: Vec<String>)
        ensures
            string_views(r@) == ollama_report_lines(
                self.running,
                opt_text(self.version),
                string_views(self.models@),
                self.install_command@,
            ),
    {
        let line = make_line(50);
        let mut r: Vec<String> = Vec::new();
        r.push(owned(""));
        r.push(line.clone());
        r.push(owned("  Ollama 狀態檢查"));
        r.push(line.clone());
        r.push(owned(""));
        let ghost head = string_views(r@);
        assert(head =~= seq![""@, line@, "  Ollama 狀態檢查"@, line@, ""@]);
        let body = if self.running {
            self.running_report()
        } else {
            down_report(self.install_command.as_str())
        };
        let ghost bv = string_views(body@);
        let mut body = body;
        r.append(&mut body);
        assert(string_views(r@) =~= head + bv);
        let ghost mid = string_views(r@);
        r.push(owned(""));
        r.push(line);
        assert(string_views(r@) =~= mid + seq![""@, repeat_spec("="@, 50)]);
        r
    }

    fn running_report(&self) -> (r: Vec<String>)
        ensures
            string_views(r@) == running_lines(opt_text(self.version), string_views(self.models@)),
    {
        let mut r: Vec<String> = Vec::new();
        r.push(owned("  ✅ Ollama 運行中"));
        match &self.version {
            Some(v) => {
                let mut l = owned("     版本：");
                l.append(v.as_str());
                r.push(l);
            },
            None => {},
        }
        let mut l = owned("     模型：");
        l.append(crate::text::decimal(self.models.len()).as_str());
        l.append(" 個");
        r.push(l);
        let ghost mv = string_views(self.models@);
        let ghost before = string_views(r@);
        assert(before =~= seq!["  ✅ Ollama 運行中"@] + (match opt_text(self.version) {
            Some(v) => seq!["     版本："@ + v],
            None => Seq::<Seq<char>>::empty(),
        }) + seq!["     模型："@ + crate::text::decimal_spec(mv.len()) + " 個"@]);
        let n = self.models.len();
        for i in 0..n
            invariant
                n == self.models@.len(),
                mv == string_views(self.models@),
                string_views(r@) == before + mv.take(i as int).map_values(
                    |m: Seq<char>| "       • "@ + m,
                ),
        {
            let mut l = owned("       • ");
            l.append(self.models[i].as_str());
            let ghost prev = r@;
            r.push(l);
            assert(string_views(r@) =~= string_views(prev).push(l@));
            assert(mv.take(i + 1) =~= mv.take(i as int).push(mv[i as int]));
            assert(string_views(r@) =~= before + mv.take(i + 1).map_values(
                |m: Seq<char>| "       • "@ + m,
            ));
        }
        assert(mv.take(n as int) =~= mv);
        r
    }
}

fn down_report(install: &str) -> (r: Vec<String>)
    ensures
        string_views(r@) == down_lines(install@),
{
    let mut l = owned("    ");
    l.append(install);
    let r = vec![
        owned("  ❌ Ollama 未運行或未安裝"),
        owned(""),
        owned("  安裝指令："),
        l,
        owned(""),
        owned("  或從 https://ollama.com 下載"),
    ];
    assert(string_views(r@) =~= down_lines(install@));
    r
}

/// `=`, `len` times over (a rule line).
pub fn make_line(len: usize) -> (s: String)
    ensures
        s@ == repeat_spec("="@, len as nat),
{
    repeat("=", len)
}

// ───────────────────────────── system calls ─────────────────────────────

/// Answer of a system call when the server lists no model.
pub const SERVER_DOWN: &'static str = "Ollama 未運行，請先執行: evolution ollama install";

/// The model a system call uses: the first the server lists.
pub fn llm_call_request(models: &[String], prompt: &str) -> (r: Result<ModelRequest, String>)
    ensures
        match r {
            Ok(req) => models@.len() > 0 && req.model@ == models@[0]@ && req.prompt@ == prompt@
                && req.system_prompt is None && req.temperature_pct == 70 && req.max_tokens is None,
            Err(e) => models@.len() == 0 && e@ == SERVER_DOWN@,
        },
{
    if models.len() == 0 {
        Err(owned(SERVER_DOWN))
    } else {
        Ok(ModelRequest::new(models[0].as_str(), prompt))
    }
}

/// The answer of a system call: the reply's content, or the failure.
pub open spec fn call_answer(reply: Result<Seq<char>, Seq<char>>) -> Result<Seq<char>, Seq<char>> {
    match reply {
        Ok(c) => Ok(c),
        Err(e) => Err("LLM call failed: "@ + e),
    }
}

/// The answer of a system call.
pub fn llm_call_reply(reply: Result<ModelResponse, String>) -> (r: Result<String, String>)
    ensures
        crate::state_board::result_text(r) == call_answer(crate::intent_router::reply_chars(reply)),
{
    match reply {
        Ok(resp) => Ok(resp.content),
        Err(e) => {
            let mut m = owned("LLM call failed: ");
            m.append(e.as_str());
            Err(m)
        },
    }
}

/// Sends `prompt` to the first model the server lists.
pub fn llm_call(backend: &dyn ModelDispatcher, prompt: &str) -> (r: Result<String, String>)
    ensures
        (r matches Err(e) && e@ == SERVER_DOWN@) || exists|reply: Result<Seq<char>, Seq<char>>|
            crate::state_board::result_text(r) == #[trigger] call_answer(reply),
{
    let models = backend.available_models();
    let req = match llm_call_request(models.as_slice(), prompt) {
        Ok(req) => req,
        Err(e) => {
            return Err(e);
        },
    };
    let reply = backend.dispatch(req);
    let ghost rc = crate::intent_router::reply_chars(reply);
    let r = llm_call_reply(reply);
    assert(crate::state_board::result_text(r) == call_answer(rc));
    r
}

/// Sends `prompt` to `model`.
pub fn llm_call_with_model(backend: &dyn ModelDispatcher, model: &str, prompt: &str) -> (r: Result<
    String,
    String,
>)
    ensures
        exists|reply: Result<Seq<char>, Seq<char>>|
            crate::state_board::result_text(r) == #[trigger] call_answer(reply),
{
    let reply = backend.dispatch(ModelRequest::new(model, prompt));
    let ghost rc = crate::intent_router::reply_chars(reply);
    let r = llm_call_reply(reply);
    assert(crate::state_board::result_text(r) == call_answer(rc));
    r
}

/// The models the server lists.
pub fn list_models(backend: &dyn ModelDispatcher) -> Vec<String> {
    backend.available_models()
}

/// Whether the server lists any model.
pub fn health_check(backend: &dyn ModelDispatcher) -> (r: bool) {
    backend.available_models().len() > 0
}

} // verus!
