//! The background agent: reading its task from the command line, and the
//! publishing of finished work with git (status, stage, commit, push, tag,
//! push tags), one git command at a time. Running git and printing are left
//! to the caller, which reports each command's outcome.
use vstd::prelude::*;
use crate::ext::{format_utc, utc_text};
use crate::process::RunOutcome;
use crate::shell::{lines, lines_spec};
use crate::text::{
    chars_of, decimal, decimal_spec, join, join_spec, owned, repeat, repeat_spec, string_of,
    string_views, trim, trim_spec, views,
};
use crate::time::Timestamp;

verus! {

/// The agent's banner.
pub const AGENT_BANNER: &'static str = "\n╔══════════════════════════════════════════════╗\n║         Evolution Agent — v0.1.0            ║\n║   背景任務執行器 · OpenCode 協作 · Auto-push ║\n╚══════════════════════════════════════════════╝\n";

/// What the agent's command line asks for.
#[derive(Debug)]
pub enum AgentStart {
    /// No task was given: show the help.
    Help,
    /// The task is blank.
    Empty,
    /// The task: the arguments after the program's name, joined by spaces.
    Task(String),
}

/// What the agent's command line `args` (the program's name first) asks for.
pub fn agent_start(args: &[String]) -> (r: AgentStart)
    ensures
        args@.len() < 2 <==> r is Help,
        args@.len() >= 2 ==> ({
            let t = join_spec(string_views(args@).skip(1), " "@);
            &&& trim_spec(t).len() == 0 <==> r is Empty
            &&& r matches AgentStart::Task(s) ==> s@ == t
        }),
{
    if args.len() < 2 {
        return AgentStart::Help;
    }
    let mut rest: Vec<String> = Vec::new();
    let n = args.len();
    for i in 1..n
        invariant
            n == args@.len(),
            n >= 2,
            string_views(rest@) == string_views(args@).subrange(1, i as int),
    {
        let a = args[i].clone();
        let ghost before = rest@;
        rest.push(a);
        assert(string_views(rest@) =~= string_views(before).push(a@));
        assert(string_views(args@).subrange(1, i + 1) =~= string_views(args@).subrange(1, i as int).push(
            args@[i as int]@,
        ));
    }
    assert(string_views(args@).subrange(1, n as int) =~= string_views(args@).skip(1));
    let task = join(rest.as_slice(), " ");
    let t = trim(task.as_str());
    if t.as_str().is_empty() {
        AgentStart::Empty
    } else {
        AgentStart::Task(task)
    }
}

/// Where publishing stands: the git command whose outcome comes next.
#[derive(Debug, Clone, Copy, PartialEq, Eq, Structural)]
pub enum GitStage {
    Status,
    Add,
    Commit,
    Push,
    Tag,
    PushTags,
    Done,
}

/// Publishing in progress: its stage, the commit message and the tag once
/// they are chosen.
#[derive(Debug)]
pub struct GitFlow {
    pub stage: GitStage,
    pub commit_message: String,
    pub tag: String,
}

/// What to do next: the lines to show, then the git arguments to run (none
/// once publishing is over).
#[derive(Debug)]
pub struct GitStep {
    pub lines: Vec<String>,
    pub run: Option<Vec<String>>,
}

/// Publishing, as plain values.
pub struct GitFlowView {
    pub stage: GitStage,
    pub commit_message: Seq<char>,
    pub tag: Seq<char>,
}

/// A step, as plain values.
pub struct GitStepView {
    pub lines: Seq<Seq<char>>,
    pub run: Option<Seq<Seq<char>>>,
}

impl View for GitFlow {
    type V = GitFlowView;

    open spec fn view(&self) -> GitFlowView {
        GitFlowView { stage: self.stage, commit_message: self.commit_message@, tag: self.tag@ }
    }
}

impl View for GitStep {
    type V = GitStepView;

    open spec fn view(&self) -> GitStepView {
        GitStepView {
            lines: string_views(self.lines@),
            run: match self.run {
                Some(a) => Some(string_views(a@)),
                None => None,
            },
        }
    }
}

/// The lines shown when publishing is over.
pub open spec fn closing_lines() -> Seq<Seq<char>> {
    seq![
        ""@,
        repeat_spec("═"@, 50),
        "✅ Evolution Agent 完成"@,
        ""@,
        "💡 查看進度：git log --oneline"@,
        "💡 查看標籤：git tag"@,
        "💡 查看差異：git diff origin/main"@,
    ]
}

/// The commit message for work published at `micros`.
pub open spec fn commit_message_at(micros: i64) -> Seq<char> {
    "[Evolution Agent] 任務完成 @ "@ + utc_text(micros, "%Y-%m-%d %H:%M UTC"@)
}

/// The tag for work pushed at `micros`: `v0.N.0`, N the whole seconds since
/// the epoch modulo 1000.
pub open spec fn tag_at(micros: i64) -> Seq<char> {
    "v0."@ + decimal_spec(((micros / 1_000_000) % 1000) as nat) + ".0"@
}

/// The list of pending changes shown: the first ten lines of git's status
/// output, indented.
pub open spec fn pending_lines(stdout: Seq<char>) -> Seq<Seq<char>> {
    let ls = lines_spec(stdout);
    let shown = if ls.len() <= 10 {
        ls
    } else {
        ls.take(10)
    };
    seq!["  📝 待提交變更："@] + shown.map_values(|l: Seq<char>| "    "@ + l)
}

/// The outcome is a run that exited successfully.
pub open spec fn ok_run(o: RunOutcome) -> bool {
    o matches RunOutcome::Exited { success: true, .. }
}

/// The step after the outcome `o` of the git command of stage `f.stage`,
/// taken at `micros`, and the publishing state after it.
pub open spec fn git_next(f: GitFlowView, o: RunOutcome, micros: i64) -> (GitFlowView, GitStepView) {
    let done = GitFlowView { stage: GitStage::Done, ..f };
    match f.stage {
        GitStage::Status => match o {
            RunOutcome::NotStarted(e) => (
                done,
                GitStepView {
                    lines: seq!["  ⚠️  無法讀取 git status："@ + e@] + closing_lines(),
                    run: None,
                },
            ),
            RunOutcome::Exited { stdout, .. } => if trim_spec(stdout@).len() == 0 {
                (
                    done,
                    GitStepView { lines: seq!["  ✅ 沒有待提交的變更"@] + closing_lines(), run: None },
                )
            } else {
                (
                    GitFlowView { stage: GitStage::Add, ..f },
                    GitStepView {
                        lines: pending_lines(stdout@),
                        run: Some(seq!["add"@, "-A"@]),
                    },
                )
            },
        },
        GitStage::Add => match o {
            RunOutcome::NotStarted(_) => (
                done,
                GitStepView { lines: seq!["  ⚠️  無法 stage 變更"@] + closing_lines(), run: None },
            ),
            _ => {
                let msg = commit_message_at(micros);
                (
                    GitFlowView { stage: GitStage::Commit, commit_message: msg, ..f },
                    GitStepView {
                        lines: Seq::<Seq<char>>::empty(),
                        run: Some(seq!["commit"@, "-m"@, msg]),
                    },
                )
            },
        },
        GitStage::Commit => (
            GitFlowView { stage: GitStage::Push, ..f },
            GitStepView {
                lines: if ok_run(o) {
                    seq!["  ✅ 自動 commit 成功"@]
                } else {
                    seq!["  ℹ️  沒有變更需要 commit"@]
                },
                run: Some(seq!["push"@, "origin"@, "HEAD"@]),
            },
        ),
        GitStage::Push => if ok_run(o) {
            let tag = tag_at(micros);
            (
                GitFlowView { stage: GitStage::Tag, tag: tag, ..f },
                GitStepView {
                    lines: seq!["  ✅ Push 成功"@],
                    run: Some(seq!["tag"@, "-a"@, tag, "-m"@, f.commit_message]),
                },
            )
        } else {
            (
                done,
                GitStepView {
                    lines: seq!["  ⚠️  Push 失敗，請手動檢查"@] + closing_lines(),
                    run: None,
                },
            )
        },
        GitStage::Tag => if ok_run(o) {
            (
                GitFlowView { stage: GitStage::PushTags, ..f },
                GitStepView {
                    lines: seq!["  🏷️  Tag "@ + f.tag + " 已建立"@],
                    run: Some(seq!["push"@, "origin"@, "--tags"@]),
                },
            )
        } else {
            (done, GitStepView { lines: closing_lines(), run: None })
        },
        _ => (
            done,
            GitStepView {
                lines: if ok_run(o) {
                    seq!["  ✅ Tags pushed"@] + closing_lines()
                } else {
                    closing_lines()
                },
                run: None,
            },
        ),
    }
}

fn closing() -> (r: Vec<String>)
    ensures
        string_views(r@) == closing_lines(),
{
    let r = vec![
        owned(""),
        repeat("═", 50),
        owned("✅ Evolution Agent 完成"),
        owned(""),
        owned("💡 查看進度：git log --oneline"),
        owned("💡 查看標籤：git tag"),
        owned("💡 查看差異：git diff origin/main"),
    ];
    assert(string_views(r@) =~= closing_lines());
    r
}

/// `first` followed by the closing lines.
fn then_closing(first: String) -> (r: Vec<String>)
    ensures
        string_views(r@) == seq![first@] + closing_lines(),
{
    let mut r = vec![first];
    let mut c = closing();
    let ghost cv = string_views(c@);
    r.append(&mut c);
    assert(string_views(r@) =~= seq![first@] + cv);
    r
}

fn words_of(ws: Vec<&str>) -> (r: Vec<String>)
    ensures
        string_views(r@) == ws@.map_values(|w: &str| w@),
{
    let mut r: Vec<String> = Vec::new();
    let n = ws.len();
    for i in 0..n
        invariant
            n == ws@.len(),
            string_views(r@) == ws@.take(i as int).map_values(|w: &str| w@),
    {
        let w = owned(ws[i]);
        let ghost before = r@;
        r.push(w);
        assert(string_views(r@) =~= string_views(before).push(w@));
        assert(ws@.take(i + 1) =~= ws@.take(i as int).push(ws@[i as int]));
        assert(string_views(r@) =~= ws@.take(i + 1).map_values(|w: &str| w@));
    }
    assert(ws@.take(n as int) =~= ws@);
    r
}

fn pending(stdout: &str) -> (r: Vec<String>)
    ensures
        string_views(r@) == pending_lines(stdout@),
{
    let c = chars_of(stdout);
    let ls = lines(c.as_slice());
    let ghost lv = views(ls@);
    let m = if ls.len() <= 10 {
        ls.len()
    } else {
        10
    };
    let ghost shown = if lv.len() <= 10 {
        lv
    } else {
        lv.take(10)
    };
    assert(shown =~= lv.take(m as int));
    let mut r: Vec<String> = vec![owned("  📝 待提交變更：")];
    for i in 0..m
        invariant
            m <= ls@.len(),
            lv == views(ls@),
            shown == lv.take(m as int),
            string_views(r@) == seq!["  📝 待提交變更："@] + lv.take(i as int).map_values(
                |l: Seq<char>| "    "@ + l,
            ),
    {
        let mut l = owned("    ");
        let t = string_of(ls[i].as_slice());
        l.append(t.as_str());
        let ghost before = r@;
        r.push(l);
        assert(string_views(r@) =~= string_views(before).push(l@));
        assert(lv.take(i + 1) =~= lv.take(i as int).push(lv[i as int]));
        assert(string_views(r@) =~= seq!["  📝 待提交變更："@] + lv.take(i + 1).map_values(
            |l: Seq<char>| "    "@ + l,
        ));
    }
    r
}

/// Starts publishing: the first step shows the heading and runs
/// `git status --porcelain`.
pub fn git_flow_start() -> (r: (GitFlow, GitStep))
    ensures
        r.0@.stage == GitStage::Status,
        r.0@.commit_message.len() == 0,
        r.0@.tag.len() == 0,
        r.1@.lines == seq![""@, "📦 Step 3：Git Auto-push Workflow..."@, ""@],
        r.1@.run == Some(seq!["status"@, "--porcelain"@]),
{
    let lines = vec![owned(""), owned("📦 Step 3：Git Auto-push Workflow..."), owned("")];
    assert(string_views(lines@) =~= seq![""@, "📦 Step 3：Git Auto-push Workflow..."@, ""@]);
    let run = words_of(vec!["status", "--porcelain"]);
    assert(string_views(run@) =~= seq!["status"@, "--porcelain"@]);
    (
        GitFlow { stage: GitStage::Status, commit_message: String::new(), tag: String::new() },
        GitStep { lines, run: Some(run) },
    )
}

/// Takes in the outcome of the git command of the current stage, at time
/// `now`: moves publishing on and says what to show and run next (see
/// `git_next`).
pub fn git_flow_step(flow: &mut GitFlow, outcome: RunOutcome, now: Timestamp) -> (step: GitStep)
    requires
        old(flow)@.stage != GitStage::Done,
        now.spec_micros() >= 0,
    ensures
        (final(flow)@, step@) == git_next(old(flow)@, outcome, now.spec_micros()),
{
    let ghost f0 = flow@;
    let ghost o = outcome;
    match flow.stage {
        GitStage::Status => match outcome {
            RunOutcome::NotStarted(e) => {
                let mut l = owned("  ⚠️  無法讀取 git status：");
                l.append(e.as_str());
                flow.stage = GitStage::Done;
                GitStep { lines: then_closing(l), run: None }
            },
            RunOutcome::Exited { stdout, .. } => {
                let t = trim(stdout.as_str());
                if t.as_str().is_empty() {
                    flow.stage = GitStage::Done;
                    GitStep { lines: then_closing(owned("  ✅ 沒有待提交的變更")), run: None }
                } else {
                    flow.stage = GitStage::Add;
                    let run = words_of(vec!["add", "-A"]);
                    assert(string_views(run@) =~= seq!["add"@, "-A"@]);
                    GitStep { lines: pending(stdout.as_str()), run: Some(run) }
                }
            },
        },
        GitStage::Add => match outcome {
            RunOutcome::NotStarted(_) => {
                flow.stage = GitStage::Done;
                GitStep { lines: then_closing(owned("  ⚠️  無法 stage 變更")), run: None }
            },
            _ => {
                let mut msg = owned("[Evolution Agent] 任務完成 @ ");
                msg.append(format_utc(now.micros(), "%Y-%m-%d %H:%M UTC").as_str());
                let run = vec![owned("commit"), owned("-m"), msg.clone()];
                assert(string_views(run@) =~= seq!["commit"@, "-m"@, msg@]);
                flow.stage = GitStage::Commit;
                flow.commit_message = msg;
                let lines: Vec<String> = Vec::new();
                assert(string_views(lines@) =~= Seq::<Seq<char>>::empty());
                GitStep { lines, run: Some(run) }
            },
        },
        GitStage::Commit => {
            let ok = match &outcome {
                RunOutcome::Exited { success, .. } => *success,
                _ => false,
            };
            let l = if ok {
                owned("  ✅ 自動 commit 成功")
            } else {
                owned("  ℹ️  沒有變更需要 commit")
            };
            let lines = vec![l];
            assert(string_views(lines@) =~= seq![l@]);
            let run = words_of(vec!["push", "origin", "HEAD"]);
            assert(string_views(run@) =~= seq!["push"@, "origin"@, "HEAD"@]);
            flow.stage = GitStage::Push;
            GitStep { lines, run: Some(run) }
        },
        GitStage::Push => {
            let ok = match &outcome {
                RunOutcome::Exited { success, .. } => *success,
                _ => false,
            };
            if ok {
                let m = now.micros();
                let secs = m / 1_000_000;
                let k = secs % 1000;
                let mut tag = owned("v0.");
                tag.append(decimal(k as usize).as_str());
                tag.append(".0");
                assert(tag@ == tag_at(m));
                let run = vec![
                    owned("tag"),
                    owned("-a"),
                    tag.clone(),
                    owned("-m"),
                    flow.commit_message.clone(),
                ];
                assert(string_views(run@) =~= seq!["tag"@, "-a"@, tag@, "-m"@, f0.commit_message]);
                let lines = vec![owned("  ✅ Push 成功")];
                assert(string_views(lines@) =~= seq!["  ✅ Push 成功"@]);
                flow.stage = GitStage::Tag;
                flow.tag = tag;
                GitStep { lines, run: Some(run) }
            } else {
                flow.stage = GitStage::Done;
                GitStep { lines: then_closing(owned("  ⚠️  Push 失敗，請手動檢查")), run: None }
            }
        },
        GitStage::Tag => {
            let ok = match &outcome {
                RunOutcome::Exited { success, .. } => *success,
                _ => false,
            };
            if ok {
                let mut l = owned("  🏷️  Tag ");
                l.append(flow.tag.as_str());
                l.append(" 已建立");
                let lines = vec![l];
                assert(string_views(lines@) =~= seq![l@]);
                let run = words_of(vec!["push", "origin", "--tags"]);
                assert(string_views(run@) =~= seq!["push"@, "origin"@, "--tags"@]);
                flow.stage = GitStage::PushTags;
                GitStep { lines, run: Some(run) }
            } else {
                flow.stage = GitStage::Done;
                GitStep { lines: closing(), run: None }
            }
        },
        _ => {
            let ok = match &outcome {
                RunOutcome::Exited { success, .. } => *success,
                _ => false,
            };
            flow.stage = GitStage::Done;
            if ok {
                GitStep { lines: then_closing(owned("  ✅ Tags pushed")), run: None }
            } else {
                GitStep { lines: closing(), run: None }
            }
        },
    }
}

/// Takes in the outcome of the current git command at the current time.
pub fn git_flow_advance(flow: &mut GitFlow, outcome: RunOutcome) -> (step: GitStep)
    requires
        old(flow)@.stage != GitStage::Done,
    ensures
        exists|micros: i64|
            micros >= 0 && (final(flow)@, step@) == #[trigger] git_next(old(flow)@, outcome, micros),
{
    let now = Timestamp::now();
    git_flow_step(flow, outcome, now)
}

// ───────────────────────────── the worker's prompt ─────────────────────────────

/// How a plan shares out its work.
#[derive(Debug, Clone, Copy, PartialEq, Eq, Structural)]
pub enum WorkMode {
    Solo,
    Fork,
}

/// The label of a way of sharing out work.
pub open spec fn work_mode_label(m: WorkMode) -> Seq<char> {
    match m {
        WorkMode::Solo => "Solo（單一節點）"@,
        WorkMode::Fork => "Fork（多節點分工）"@,
    }
}

/// The label of a way of sharing out work.
pub fn work_mode_text(m: WorkMode) -> (s: &'static str)
    ensures
        s@ == work_mode_label(m),
{
    match m {
        WorkMode::Solo => "Solo（單一節點）",
        WorkMode::Fork => "Fork（多節點分工）",
    }
}

/// What the prompt reads of a task's plan. The complexity measure, a
/// fraction, comes as the text the caller printed it with (two decimals).
#[derive(Debug)]
pub struct PlanSummary {
    pub work_mode: WorkMode,
    pub reasoning_branches: u8,
    pub domain_diversity: u8,
    pub context_complexity_text: String,
    pub estimated_nodes: usize,
    pub domain_tags: Vec<String>,
    /// Each requirement with its domain.
    pub requirements: Vec<(String, String)>,
    /// Each open question: its identifier, the question and its category.
    pub questions: Vec<(String, String, String)>,
}

/// The closing instructions of the worker's prompt.
pub const PROMPT_CLOSING: &'static str = "\n請開始實作。完成後：\n1. 確保程式碼可以編譯（cargo build 或對應平台的 build 指令）\n2. 執行相關測試確認功能正常\n3. Commit 你的變更，格式：[Evolution] 完成任務：{}\n4. Push 到 origin\n5. 創建 tag，格式：v0.x.x（例如 v0.1.0）\n如果是複雜任務，自動分工給多個 worker 處理不同的領域。\n";

/// The numbered requirement lines.
pub open spec fn requirement_lines(reqs: Seq<(String, String)>) -> Seq<Seq<char>> {
    reqs.map(
        |i: int, r: (String, String)|
            "  "@ + decimal_spec((i + 1) as nat) + ". "@ + r.0@ + " ("@ + r.1@ + ")\n"@,
    )
}

/// The open-question lines.
pub open spec fn question_lines(qs: Seq<(String, String, String)>) -> Seq<Seq<char>> {
    qs.map_values(
        |q: (String, String, String)| "  - "@ + q.0@ + ": "@ + q.1@ + " ("@ + q.2@ + ")\n"@,
    )
}

/// The prompt given to the coding worker for `task` under plan `p`.
pub open spec fn opencode_prompt(task: Seq<char>, p: PlanSummary) -> Seq<char> {
    "你是 Evolution OS 的實作幫手。任務："@ + task + "\n\n"@ + "任務複雜度分析：\n"@
        + "  - 推理分支數："@ + decimal_spec(p.reasoning_branches as nat) + "\n"@
        + "  - 領域多樣性："@ + decimal_spec(p.domain_diversity as nat) + "\n"@
        + "  - 語境複雜度："@ + p.context_complexity_text@ + "\n"@ + "  - 分工模式："@
        + work_mode_label(p.work_mode) + "\n"@ + "  - 預估節點數："@ + decimal_spec(
        p.estimated_nodes as nat,
    ) + "\n"@ + (if p.domain_tags@.len() == 0 {
        Seq::<char>::empty()
    } else {
        "  - 領域標籤："@ + crate::ext::debug_list(string_views(p.domain_tags@)) + "\n"@
    }) + (if p.requirements@.len() == 0 {
        Seq::<char>::empty()
    } else {
        "\n需求項目：\n"@ + crate::text::concat_spec(requirement_lines(p.requirements@))
    }) + (if p.questions@.len() == 0 {
        Seq::<char>::empty()
    } else {
        "\n待確認問題：\n"@ + crate::text::concat_spec(question_lines(p.questions@))
    }) + PROMPT_CLOSING@
}

fn append_all(out: &mut String, lines: &Vec<String>)
    ensures
        final(out)@ == old(out)@ + crate::text::concat_spec(string_views(lines@)),
{
    let ghost start = out@;
    let n = lines.len();
    for i in 0..n
        invariant
            n == lines@.len(),
            out@ == start + crate::text::concat_spec(string_views(lines@).take(i as int)),
    {
        out.append(lines[i].as_str());
        assert(string_views(lines@).take(i + 1).drop_last() =~= string_views(lines@).take(i as int));
        assert(out@ =~= start + crate::text::concat_spec(string_views(lines@).take(i + 1)));
    }
    assert(string_views(lines@).take(n as int) =~= string_views(lines@));
}

/// The prompt given to the coding worker for `task` under plan `plan`.
#[verifier::rlimit(40)]
#[verifier::spinoff_prover]
pub fn build_opencode_prompt(task: &str, plan: &PlanSummary) -> (p: String)
    ensures
        p@ == opencode_prompt(task@, *plan),
{
    let mut p = owned("你是 Evolution OS 的實作幫手。任務：");
    p.append(task);
    p.append("\n\n");
    p.append("任務複雜度分析：\n");
    p.append("  - 推理分支數：");
    p.append(decimal(plan.reasoning_branches as usize).as_str());
    p.append("\n");
    p.append("  - 領域多樣性：");
    p.append(decimal(plan.domain_diversity as usize).as_str());
    p.append("\n");
    p.append("  - 語境複雜度：");
    p.append(plan.context_complexity_text.as_str());
    p.append("\n");
    p.append("  - 分工模式：");
    p.append(work_mode_text(plan.work_mode));
    p.append("\n");
    p.append("  - 預估節點數：");
    p.append(decimal(plan.estimated_nodes).as_str());
    p.append("\n");
    let ghost head = p@;
    if plan.domain_tags.len() > 0 {
        p.append("  - 領域標籤：");
        p.append(crate::ext::format_debug_list(plan.domain_tags.as_slice()).as_str());
        p.append("\n");
    }
    let ghost with_tags = p@;
    if plan.requirements.len() > 0 {
        p.append("\n需求項目：\n");
        let mut ls: Vec<String> = Vec::new();
        let n = plan.requirements.len();
        for i in 0..n
            invariant
                n == plan.requirements@.len(),
                string_views(ls@) == requirement_lines(plan.requirements@).take(i as int),
        {
            let mut l = owned("  ");
            l.append(decimal(i + 1).as_str());
            l.append(". ");
            l.append(plan.requirements[i].0.as_str());
            l.append(" (");
            l.append(plan.requirements[i].1.as_str());
            l.append(")\n");
            let ghost before = ls@;
            ls.push(l);
            assert(string_views(ls@) =~= string_views(before).push(l@));
            assert(requirement_lines(plan.requirements@).take(i + 1) =~= requirement_lines(
                plan.requirements@,
            ).take(i as int).push(l@));
        }
        assert(requirement_lines(plan.requirements@).take(n as int) =~= requirement_lines(
            plan.requirements@,
        ));
        append_all(&mut p, &ls);
    }
    let ghost with_reqs = p@;
    if plan.questions.len() > 0 {
        p.append("\n待確認問題：\n");
        let mut ls: Vec<String> = Vec::new();
        let n = plan.questions.len();
        for i in 0..n
            invariant
                n == plan.questions@.len(),
                string_views(ls@) == question_lines(plan.questions@).take(i as int),
        {
            let mut l = owned("  - ");
            l.append(plan.questions[i].0.as_str());
            l.append(": ");
            l.append(plan.questions[i].1.as_str());
            l.append(" (");
            l.append(plan.questions[i].2.as_str());
            l.append(")\n");
            let ghost before = ls@;
            ls.push(l);
            assert(string_views(ls@) =~= string_views(before).push(l@));
            assert(question_lines(plan.questions@).take(i + 1) =~= question_lines(
                plan.questions@,
            ).take(i as int).push(l@));
        }
        assert(question_lines(plan.questions@).take(n as int) =~= question_lines(plan.questions@));
        append_all(&mut p, &ls);
    }
    p.append(PROMPT_CLOSING);
    assert(p@ =~= opencode_prompt(task@, *plan));
    p
}

} // verus!
