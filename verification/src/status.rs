//! System status: what is known of the model server and of the working
//! directory, its JSON form and its report. Running the server's program and
//! counting the project directories are left to the caller.
use vstd::prelude::*;
use crate::model::ModelDispatcher;
use crate::process::{output_if_success, success_output, RunOutcome};
use crate::storage::{join_path, path_join};
use crate::text::{
    bool_str, bool_text, decimal, decimal_spec, join_spec, opt_text, owned, quote_or_null,
    json_quoted, json_string, quoted_all, quoted_list, quoted_or_null, repeat, repeat_spec, string_views,
};

verus! {

/// Status of the model server and of the working directory.
#[derive(Debug)]
pub struct SystemStatus {
    pub ollama_running: bool,
    pub ollama_version: Option<String>,
    pub models: Vec<String>,
    pub evolution_root: String,
    pub projects_count: usize,
}

/// The system's directory under the home directory `home`, or under `.`
/// where there is none.
pub open spec fn root_under(home: Option<Seq<char>>) -> Seq<char> {
    path_join(
        match home {
            Some(h) => h,
            None => "."@,
        },
        ".evolution"@,
    )
}

/// The system's directory under the home directory `home`.
pub fn evolution_root_under(home: Option<String>) -> (r: String)
    ensures
        r@ == root_under(opt_text(home)),
{
    match home {
        Some(h) => join_path(h.as_str(), ".evolution"),
        None => join_path(".", ".evolution"),
    }
}

/// The system's directory under the user's home directory (as dirs finds
/// it).
pub fn home_evolution_root() -> (r: String)
    ensures
        exists|home: Option<Seq<char>>| r@ == root_under(home),
{
    let home = crate::ext::home_dir_text();
    let ghost h = opt_text(home);
    let r = evolution_root_under(home);
    assert(r@ == root_under(h));
    r
}

/// The directory that holds the projects, under the system's directory.
pub fn projects_dir(root: &str) -> (p: String)
    ensures
        p@ == path_join(root@, "projects"@),
{
    join_path(root, "projects")
}

/// The JSON text of a status.
pub open spec fn system_status_json(
    running: bool,
    version: Option<Seq<char>>,
    models: Seq<Seq<char>>,
    root: Seq<char>,
    projects: nat,
) -> Seq<char> {
    "{\n  \"ollama\": {\n    \"running\": "@ + bool_text(running) + ",\n    \"version\": "@
        + quoted_or_null(version) + ",\n    \"models\": ["@ + join_spec(quoted_all(models), ", "@)
        + "]\n  },\n  \"evolution\": {\n    \"root\": "@ + json_string(root) + ",\n    \"projects_count\": "@
        + decimal_spec(projects) + "\n  }\n}"@
}

/// The lines of the report on a running server.
pub open spec fn server_up_lines(version: Option<Seq<char>>, models: Seq<Seq<char>>) -> Seq<
    Seq<char>,
> {
    seq!["  ✅ 運行中"@] + (match version {
        Some(v) => seq!["  版本："@ + v],
        None => Seq::<Seq<char>>::empty(),
    }) + seq!["  模型（"@ + decimal_spec(models.len()) + "）："@] + models.map_values(
        |m: Seq<char>| "    • "@ + m,
    )
}

/// The lines of the report on a server that does not run.
pub open spec fn server_down_lines() -> Seq<Seq<char>> {
    seq![
        "  ❌ 未運行"@,
        "  安裝指令：brew install ollama  (macOS)"@,
        "              winget install Ollama (Windows)"@,
        "  或從 https://ollama.com 下載"@,
    ]
}

/// The lines of the status report.
pub open spec fn status_report_lines(
    running: bool,
    version: Option<Seq<char>>,
    models: Seq<Seq<char>>,
    root: Seq<char>,
    projects: nat,
) -> Seq<Seq<char>> {
    let line = repeat_spec("="@, 50);
    seq![""@, line, "  Evolution OS 系統狀態"@, line, ""@, "📦 Ollama"@] + (if running {
        server_up_lines(version, models)
    } else {
        server_down_lines()
    }) + seq![
        ""@,
        "📁 Evolution"@,
        "  根目錄："@ + root,
        "  專案數："@ + decimal_spec(projects),
        ""@,
        line,
    ]
}

impl SystemStatus {
    /// The status from the server's model list (the server runs when it
    /// lists a model), the outcome of running `ollama --version`, the system's
    /// directory and the number of project directories in it.
    pub fn collect(
        backend: &dyn ModelDispatcher,
        version_run: &RunOutcome,
        evolution_root: String,
        projects_count: usize,
    ) -> (s: SystemStatus)
        ensures
            s.ollama_running == (s.models@.len() > 0),
            opt_text(s.ollama_version) == success_output(*version_run),
            s.evolution_root == evolution_root,
            s.projects_count == projects_count,
    {
        let models = backend.available_models();
        SystemStatus {
            ollama_running: models.len() > 0,
            ollama_version: output_if_success(version_run),
            models,
            evolution_root,
            projects_count,
        }
    }

    /// The status as JSON text.
    pub fn to_json(&self) -> (s: String)
        ensures
            s@ == system_status_json(
                self.ollama_running,
                opt_text(self.ollama_version),
                string_views(self.models@),
                self.evolution_root@,
                self.projects_count as nat,
            ),
    {
        let mut s = owned("{\n  \"ollama\": {\n    \"running\": ");
        s.append(bool_str(self.ollama_running));
        s.append(",\n    \"version\": ");
        s.append(quote_or_null(&self.ollama_version).as_str());
        s.append(",\n    \"models\": [");
        s.append(quoted_list(self.models.as_slice()).as_str());
        s.append("]\n  },\n  \"evolution\": {\n    \"root\": ");
        s.append(json_quoted(self.evolution_root.as_str()).as_str());
        s.append(",\n    \"projects_count\": ");
        s.append(decimal(self.projects_count).as_str());
        s.append("\n  }\n}");
        s
    }

    /// The lines of the status report.
    pub fn report(&self) -> (r: Vec<String>)
        ensures
            string_views(r@) == status_report_lines(
                self.ollama_running,
                opt_text(self.ollama_version),
                string_views(self.models@),
                self.evolution_root@,
                self.projects_count as nat,
            ),
    {
        let line = make_line("=", 50);
        let mut r: Vec<String> = Vec::new();
        r.push(owned(""));
        r.push(line.clone());
        r.push(owned("  Evolution OS 系統狀態"));
        r.push(line.clone());
        r.push(owned(""));
        r.push(owned("📦 Ollama"));
        let ghost head = string_views(r@);
        assert(head =~= seq![""@, line@, "  Evolution OS 系統狀態"@, line@, ""@, "📦 Ollama"@]);
        let mut body = if self.ollama_running {
            self.server_up_report()
        } else {
            server_down_report()
        };
        let ghost bv = string_views(body@);
        r.append(&mut body);
        assert(string_views(r@) =~= head + bv);
        let ghost mid = string_views(r@);
        r.push(owned(""));
        r.push(owned("📁 Evolution"));
        let mut l = owned("  根目錄：");
        l.append(self.evolution_root.as_str());
        r.push(l);
        let mut l = owned("  專案數：");
        l.append(decimal(self.projects_count).as_str());
        r.push(l);
        r.push(owned(""));
        r.push(line);
        assert(string_views(r@) =~= mid + seq![
            ""@,
            "📁 Evolution"@,
            "  根目錄："@ + self.evolution_root@,
            "  專案數："@ + decimal_spec(self.projects_count as nat),
            ""@,
            repeat_spec("="@, 50),
        ]);
        r
    }

    fn server_up_report(&self) -> (r: Vec<String>)
        ensures
            string_views(r@) == server_up_lines(
                opt_text(self.ollama_version),
                string_views(self.models@),
            ),
    {
        let mut r: Vec<String> = Vec::new();
        r.push(owned("  ✅ 運行中"));
        match &self.ollama_version {
            Some(v) => {
                let mut l = owned("  版本：");
                l.append(v.as_str());
                r.push(l);
            },
            None => {},
        }
        let mut l = owned("  模型（");
        l.append(decimal(self.models.len()).as_str());
        l.append("）：");
        r.push(l);
        let ghost mv = string_views(self.models@);
        let ghost before = string_views(r@);
        assert(before =~= seq!["  ✅ 運行中"@] + (match opt_text(self.ollama_version) {
            Some(v) => seq!["  版本："@ + v],
            None => Seq::<Seq<char>>::empty(),
        }) + seq!["  模型（"@ + decimal_spec(mv.len()) + "）："@]);
        let n = self.models.len();
        for i in 0..n
            invariant
                n == self.models@.len(),
                mv == string_views(self.models@),
                string_views(r@) == before + mv.take(i as int).map_values(
                    |m: Seq<char>| "    • "@ + m,
                ),
        {
            let mut l = owned("    • ");
            l.append(self.models[i].as_str());
            let ghost prev = r@;
            r.push(l);
            assert(string_views(r@) =~= string_views(prev).push(l@));
            assert(mv.take(i + 1) =~= mv.take(i as int).push(mv[i as int]));
            assert(string_views(r@) =~= before + mv.take(i + 1).map_values(
                |m: Seq<char>| "    • "@ + m,
            ));
        }
        assert(mv.take(n as int) =~= mv);
        r
    }
}

fn server_down_report() -> (r: Vec<String>)
    ensures
        string_views(r@) == server_down_lines(),
{
    let r = vec![
        owned("  ❌ 未運行"),
        owned("  安裝指令：brew install ollama  (macOS)"),
        owned("              winget install Ollama (Windows)"),
        owned("  或從 https://ollama.com 下載"),
    ];
    assert(string_views(r@) =~= server_down_lines());
    r
}

/// `ch`, `len` times over (a rule line).
pub fn make_line(ch: &str, len: usize) -> (s: String)
    ensures
        s@ == repeat_spec(ch@, len as nat),
{
    repeat(ch, len)
}

} // verus!
