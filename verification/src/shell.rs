//! The conversational shell's decisions: routing a request, classifying it
//! when no command fits, the prompts sent to the model for each kind of
//! request, what is answered from the model's replies, and how a command
//! run is tracked on the state board. Reading input, printing and running
//! programs are left to the caller.
use vstd::prelude::*;
use crate::intent_router::{
    reply_chars, routed, routes_to, selects, CommandDefView, IntentMatch, IntentRouter,
};
use crate::model::{ModelDispatcher, ModelRequest, ModelResponse};
use crate::ext::is_uuid_text;
use crate::seqs::{any, first_index};
use crate::state_board::{
    fresh_task, stage_updated, task_id_is, transitioned, StateBoard, StateBoardView, TaskEntryView,
    TaskStage,
};
use crate::process::RunOutcome;
use crate::time::Timestamp;
use crate::text::{
    chars_of, contains_chars, contains_spec, in_set, lowercase, owned, same_text, split_on, split_spec, starts_with_chars, starts_with_spec, string_of,
    string_views, strip_prefixes, strip_trailing, to_lowercase, trim, trim_chars, trim_end_char, trim_spec,
    trim_start_matches, views, words, words_spec,
};

verus! {

/// The model the shell asks.
pub const SHELL_MODEL: &'static str = "gemma4:e2b";

/// System prompt of the shell's conversation.
pub const SYSTEM_PROMPT: &'static str = "你是 Evolution OS 的語音介面精靈，命名為「小E」。\n\n你的職責：\n1. 理解使用者用自然語言錸达的指令（中文、英文或混合）\n2. 將意圖分類並執行對應動作\n3. 以繁體中文友善回覆\n\n規則：\n- 系統操作（開檔/執行）用口語說明即將發生的事，再執行\n- Evolution 任務直接執行並回報結果\n- 行事曆需求：先確認時間地點，再寫入\n- 不知道的事直接說不知道，不會胡亂回答\n- 回覆簡潔，不囉嗦";

/// Words that mark a request for coding work.
pub open spec fn opencode_keywords() -> Seq<Seq<char>> {
    seq!["opencode"@, "幫我寫"@, "寫程式"@, "coding"@, "程式設計"@, "開發"@, "code"@, "代碼"@]
}

/// The request, lower-cased, holds one of the coding keywords.
pub open spec fn is_opencode_spec(input: Seq<char>) -> bool {
    exists|k: int|
        0 <= k < opencode_keywords().len() && contains_spec(
            lowercase(input),
            #[trigger] opencode_keywords()[k],
        )
}

/// Whether the request asks for coding work.
pub fn is_opencode_request(input: &str) -> (r: bool)
    ensures
        r == is_opencode_spec(input@),
{
    let l = to_lowercase(input);
    let lc = chars_of(l.as_str());
    let kws = vec!["opencode", "幫我寫", "寫程式", "coding", "程式設計", "開發", "code", "代碼"];
    let ghost kv = kws@.map_values(|s: &str| s@);
    assert(kv =~= opencode_keywords());
    let n = kws.len();
    for k in 0..n
        invariant
            n == kws@.len(),
            kv == kws@.map_values(|s: &str| s@),
            kv == opencode_keywords(),
            lc@ == lowercase(input@),
            forall|j: int| 0 <= j < k ==> !contains_spec(lc@, #[trigger] kv[j]),
    {
        let kc = chars_of(kws[k]);
        assert(kc@ == kv[k as int]);
        if contains_chars(lc.as_slice(), kc.as_slice()) {
            return true;
        }
    }
    false
}

/// The kind of a request that no command fits.
#[derive(Debug, Clone, Copy, PartialEq, Eq, Structural)]
pub enum Intent {
    System,
    Evolution,
    Opencode,
    Calendar,
    General,
}

/// The kind named by a classification reply: the first of "system",
/// "evolution", "opencode", "calendar" that the trimmed, lower-cased reply
/// holds; else general.
pub open spec fn intent_of_reply(content: Seq<char>) -> Intent {
    let r = lowercase(trim_spec(content));
    if contains_spec(r, "system"@) {
        Intent::System
    } else if contains_spec(r, "evolution"@) {
        Intent::Evolution
    } else if contains_spec(r, "opencode"@) {
        Intent::Opencode
    } else if contains_spec(r, "calendar"@) {
        Intent::Calendar
    } else {
        Intent::General
    }
}

/// The kind named by a classification reply; general when the model failed.
pub fn intent_from_reply(reply: Result<ModelResponse, String>) -> (i: Intent)
    ensures
        i == match reply {
            Ok(resp) => intent_of_reply(resp.content@),
            Err(_) => Intent::General,
        },
{
    match reply {
        Ok(resp) => {
            let t = trim(resp.content.as_str());
            let l = to_lowercase(t.as_str());
            let c = chars_of(l.as_str());
            if contains_chars(c.as_slice(), chars_of("system").as_slice()) {
                Intent::System
            } else if contains_chars(c.as_slice(), chars_of("evolution").as_slice()) {
                Intent::Evolution
            } else if contains_chars(c.as_slice(), chars_of("opencode").as_slice()) {
                Intent::Opencode
            } else if contains_chars(c.as_slice(), chars_of("calendar").as_slice()) {
                Intent::Calendar
            } else {
                Intent::General
            }
        },
        Err(_) => Intent::General,
    }
}

/// The prompt asking the model for the kind of request `input`.
pub open spec fn classify_prompt(input: Seq<char>) -> Seq<char> {
    "輸入：「"@ + input + "」\n\n分類（只回一個英文單字）：\nsystem / evolution / opencode / calendar / general"@
}

/// The request asking the model for the kind of request `input`.
pub fn classify_request(input: &str) -> (r: ModelRequest)
    ensures
        r.model@ == SHELL_MODEL@,
        r.prompt@ == classify_prompt(input@),
        r.system_prompt matches Some(s) && s@ == SYSTEM_PROMPT@,
        r.temperature_pct == 10,
        r.max_tokens == Some(10u32),
{
    let mut p = owned("輸入：「");
    p.append(input);
    p.append("」\n\n分類（只回一個英文單字）：\nsystem / evolution / opencode / calendar / general");
    ModelRequest::new(SHELL_MODEL, p.as_str()).with_system_prompt(SYSTEM_PROMPT).with_temperature_pct(
        10,
    ).with_max_tokens(10)
}

/// The kind of request `input`: coding work when it holds a coding keyword
/// (without asking the model); else what the model's reply names.
pub fn classify_intent(backend: &dyn ModelDispatcher, input: &str) -> (i: Intent)
    ensures
        is_opencode_spec(input@) ==> i == Intent::Opencode,
        !is_opencode_spec(input@) ==> i == Intent::General || exists|content: Seq<char>|
            i == intent_of_reply(content),
{
    if is_opencode_request(input) {
        return Intent::Opencode;
    }
    let reply = backend.dispatch(classify_request(input));
    let ghost rc = reply_chars(reply);
    let i = intent_from_reply(reply);
    assert(rc matches Ok(c) ==> i == intent_of_reply(c));
    i
}

// ───────────────────────────── command lines ─────────────────────────────

/// The words of a command line after any leading "evolution".
pub open spec fn cli_words(cli: Seq<char>) -> Seq<Seq<char>> {
    words_spec(trim_spec(strip_prefixes(cli, "evolution"@)))
}

/// The words of a command line after any leading "evolution".
pub fn cli_arguments(cli: &str) -> (r: Vec<String>)
    ensures
        crate::text::string_views(r@) == cli_words(cli@),
{
    let c = chars_of(cli);
    let p = chars_of("evolution");
    let s = trim_start_matches(c.as_slice(), p.as_slice());
    let t = trim_chars(s.as_slice());
    let ws = words(t.as_slice());
    let mut r: Vec<String> = Vec::new();
    let n = ws.len();
    for i in 0..n
        invariant
            n == ws@.len(),
            views(ws@) == cli_words(cli@),
            crate::text::string_views(r@) == views(ws@).take(i as int),
    {
        let w = string_of(ws[i].as_slice());
        let ghost before = r@;
        r.push(w);
        assert(crate::text::string_views(r@) =~= views(ws@).take(i + 1)) by {
            assert(crate::text::string_views(r@) =~= crate::text::string_views(before).push(w@));
        }
    }
    assert(views(ws@).take(n as int) =~= views(ws@));
    r
}

/// The name a task gets from the command line it runs: its first two words
/// joined by a space, its only word, or a placeholder.
pub open spec fn task_name_of_cli(cli: Seq<char>) -> Seq<char> {
    let w = cli_words(cli);
    if w.len() >= 2 {
        w[0] + " "@ + w[1]
    } else if w.len() == 1 {
        w[0]
    } else {
        "未知任務"@
    }
}

/// The name a task gets from the command line it runs.
pub fn extract_task_name_from_cli(cli: &str) -> (name: String)
    ensures
        name@ == task_name_of_cli(cli@),
{
    let parts = cli_arguments(cli);
    if parts.len() >= 2 {
        let mut s = parts[0].clone();
        s.append(" ");
        s.append(parts[1].as_str());
        s
    } else if parts.len() == 1 {
        parts[0].clone()
    } else {
        owned("未知任務")
    }
}

// ───────────────────────────── YAML fields ─────────────────────────────

/// The lines of `s` as std's `str::lines` gives them: split at line feeds,
/// a carriage return dropped before each line feed, no line after a final
/// line feed, none at all in an empty text.
pub open spec fn lines_spec(s: Seq<char>) -> Seq<Seq<char>> {
    let parts = split_spec(s, in_set(seq!['\n']));
    let ended = strip_cr_all(parts.drop_last());
    if parts.last().len() == 0 {
        ended
    } else {
        ended.push(parts.last())
    }
}

/// Each of `ls` without one trailing carriage return.
pub open spec fn strip_cr_all(ls: Seq<Seq<char>>) -> Seq<Seq<char>> {
    ls.map_values(|l: Seq<char>| strip_cr(l))
}

/// `l` without one trailing carriage return.
pub open spec fn strip_cr(l: Seq<char>) -> Seq<char> {
    if l.len() > 0 && l.last() == '\r' {
        l.drop_last()
    } else {
        l
    }
}

/// The value after `field` in a line that introduces it: the text after
/// the key and its separator (`：「`, `: "` or `:「`, the first that the line
/// starts with), without the closing `」` or `"` at its end.
pub open spec fn field_value(line: Seq<char>, field: Seq<char>) -> Seq<char> {
    let k = if starts_with_spec(line, field + "：「"@) {
        (field + "：「"@).len()
    } else if starts_with_spec(line, field + ": \""@) {
        (field + ": \""@).len()
    } else {
        (field + ":「"@).len()
    };
    strip_trailing(strip_trailing(line.skip(k as int), '」'), '"')
}

/// The trimmed line introduces `field`.
pub open spec fn introduces(line: Seq<char>, field: Seq<char>) -> bool {
    ||| starts_with_spec(line, field + "：「"@)
    ||| starts_with_spec(line, field + ": \""@)
    ||| starts_with_spec(line, field + ":「"@)
}

/// The value of `field` in `yaml`: from the first line that, trimmed,
/// introduces the field; empty where none does.
pub open spec fn yaml_field(yaml: Seq<char>, field: Seq<char>) -> Seq<char>
    decreases lines_spec(yaml).len(),
{
    yaml_field_in(lines_spec(yaml), field)
}

/// The value of `field` from the first of `lines` that introduces it.
pub open spec fn yaml_field_in(lines: Seq<Seq<char>>, field: Seq<char>) -> Seq<char>
    decreases lines.len(),
{
    if lines.len() == 0 {
        Seq::<char>::empty()
    } else if introduces(trim_spec(lines[0]), field) {
        field_value(trim_spec(lines[0]), field)
    } else {
        yaml_field_in(lines.drop_first(), field)
    }
}

fn strip_cr_chars(l: &[char]) -> (r: Vec<char>)
    ensures
        r@ == strip_cr(l@),
{
    if l.len() > 0 && l[l.len() - 1] == '\r' {
        crate::text::sub_chars(l, 0, l.len() - 1)
    } else {
        crate::text::sub_chars(l, 0, l.len())
    }
}

/// The lines of `s`.
pub fn lines(s: &[char]) -> (r: Vec<Vec<char>>)
    ensures
        views(r@) == lines_spec(s@),
{
    let seps = vec!['\n'];
    let parts = split_on(s, seps.as_slice());
    assert(seps@ =~= seq!['\n']);
    let ghost pv = views(parts@);
    assert(pv == split_spec(s@, in_set(seq!['\n'])));
    proof {
        crate::text::lemma_split_nonempty(s@, in_set(seq!['\n']));
    }
    let n = parts.len();
    let mut r: Vec<Vec<char>> = Vec::new();
    for i in 0..n - 1
        invariant
            n == parts@.len(),
            n >= 1,
            pv == views(parts@),
            views(r@) == strip_cr_all(pv.take(i as int)),
    {
        assert(pv[i as int] == parts@[i as int]@);
        let l = strip_cr_chars(parts[i].as_slice());
        let ghost before = r@;
        r.push(l);
        assert(views(r@) =~= strip_cr_all(pv.take(i + 1))) by {
            assert(views(r@) =~= views(before).push(l@));
            assert(pv.take(i + 1) =~= pv.take(i as int).push(pv[i as int]));
            assert(strip_cr_all(pv.take(i + 1)) =~= strip_cr_all(pv.take(i as int)).push(
                strip_cr(pv[i as int]),
            ));
        }
    }
    assert(pv.take(n - 1) =~= pv.drop_last());
    assert(pv.last() == parts@[n - 1]@);
    if parts[n - 1].len() > 0 {
        let last = crate::text::sub_chars(parts[n - 1].as_slice(), 0, parts[n - 1].len());
        let ghost before = r@;
        r.push(last);
        assert(last@ =~= pv.last());
        assert(views(r@) =~= views(before).push(last@));
    }
    r
}

/// The value of `field` in `yaml`.
pub fn extract_yaml_field(yaml: &str, field: &str) -> (v: String)
    ensures
        v@ == yaml_field(yaml@, field@),
{
    let y = chars_of(yaml);
    let ls = lines(y.as_slice());
    let mut p1 = owned(field);
    p1.append("：「");
    let mut p2 = owned(field);
    p2.append(": \"");
    let mut p3 = owned(field);
    p3.append(":「");
    let c1 = chars_of(p1.as_str());
    let c2 = chars_of(p2.as_str());
    let c3 = chars_of(p3.as_str());
    let ghost lv = views(ls@);
    assert(lv.skip(0) =~= lv);
    let n = ls.len();
    for i in 0..n
        invariant
            n == ls@.len(),
            lv == views(ls@),
            lv == lines_spec(yaml@),
            c1@ == field@ + "：「"@,
            c2@ == field@ + ": \""@,
            c3@ == field@ + ":「"@,
            yaml_field(yaml@, field@) == yaml_field_in(lv.skip(i as int), field@),
    {
        assert(lv.skip(i as int)[0] == ls@[i as int]@);
        assert(lv.skip(i as int).drop_first() =~= lv.skip(i + 1));
        let line = trim_chars(ls[i].as_slice());
        let k: usize = if starts_with_chars(line.as_slice(), c1.as_slice()) {
            c1.len()
        } else if starts_with_chars(line.as_slice(), c2.as_slice()) {
            c2.len()
        } else if starts_with_chars(line.as_slice(), c3.as_slice()) {
            c3.len()
        } else {
            0
        };
        if k > 0 {
            assert(introduces(line@, field@));
            let rest = crate::text::sub_chars(line.as_slice(), k, line.len());
            assert(rest@ =~= line@.skip(k as int));
            let a = trim_end_char(rest.as_slice(), '」');
            let b = trim_end_char(a.as_slice(), '"');
            assert(b@ == field_value(line@, field@));
            assert(yaml_field_in(lv.skip(i as int), field@) == field_value(line@, field@));
            return string_of(b.as_slice());
        }
        assert(!introduces(line@, field@)) by {
            reveal_strlit("：「");
            reveal_strlit(": \"");
            reveal_strlit(":「");
            assert(c1@.len() > 0 && c2@.len() > 0 && c3@.len() > 0);
        }
    }
    assert(lv.skip(n as int) =~= Seq::<Seq<char>>::empty());
    String::new()
}

// ───────────────────────────── answers ─────────────────────────────

/// What the shell does with a request: answer with a text, or run an
/// Evolution command line.
#[derive(Debug)]
pub enum Action {
    Say(String),
    Run(String),
}

/// An action, as plain values.
pub enum ActionView {
    Say(Seq<char>),
    Run(Seq<char>),
}

impl View for Action {
    type V = ActionView;

    open spec fn view(&self) -> ActionView {
        match self {
            Action::Say(s) => ActionView::Say(s@),
            Action::Run(c) => ActionView::Run(c@),
        }
    }
}

/// Opening of the answer to a system request.
pub const SYSTEM_HEAD: &'static str = "🔧 系統操作：";

/// Closing of the answer to a system request.
pub const SYSTEM_TAIL: &'static str = "\n\n[系統操作需要更多細節才能執行，例如：開啟哪個檔案、執行什麼命令]";

/// The answer to a system request.
pub open spec fn system_answer(input: Seq<char>) -> Seq<char> {
    SYSTEM_HEAD@ + input + SYSTEM_TAIL@
}

/// The answer to a system request: what would be needed to act on it.
pub fn handle_system(input: &str) -> (r: String)
    ensures
        r@ == system_answer(input@),
{
    let mut r = owned(SYSTEM_HEAD);
    r.append(input);
    r.append(SYSTEM_TAIL);
    r
}

/// Opening shared by the handlers' prompts.
pub const INPUT_HEAD: &'static str = "輸入：「";

/// Rest of the prompt asking whether an Evolution command is wanted.
pub const EVOLUTION_TAIL: &'static str = "」\n\n判斷是否要呼叫 Evolution CLI（analyze / new project / status / init / list-skills / board）。\n如果是，回覆 CLI 命令格式（如 \"evolution analyze xxx\"）；如果不是，說「不需要CLI」。\n\n只回覆一行。";

/// Rest of the prompt asking whether the coding tool should take a request.
pub const OPENCODE_TAIL: &'static str = "」\n\n判斷這是否適合交給 OpenCode（軟體開發工具）處理。\n如果適合，說明要做什麼；如果不適合，說原因。\n\n只回覆繁體中文，一句話。";

/// Rest of the prompt asking for the fields of a calendar entry.
pub const CALENDAR_TAIL: &'static str = "」\n\n提取行事曆事件的：\n1. 時間（什麼時候）\n2. 事項（要做什麼）\n3. 地點（如果有）\n\nYAML 格式：\n\n時間：「」\n事項：「」\n地點：「」";

/// Opening of the prompt of a general conversation.
pub const GENERAL_HEAD: &'static str = "你是 Evolution OS 的小E精靈，使用繁體中文回答。\n\n使用者：";

/// Closing of the prompt of a general conversation.
pub const GENERAL_TAIL: &'static str = "\n小E：";

/// Opening of the answer when the model is slow or failing.
pub const SLOW_HEAD: &'static str = "抱歉，系統有點慢：";

/// `INPUT_HEAD`, the request, then `tail`.
pub open spec fn quoted_prompt(input: Seq<char>, tail: Seq<char>) -> Seq<char> {
    INPUT_HEAD@ + input + tail
}

fn quoted_prompt_text(input: &str, tail: &str) -> (p: String)
    ensures
        p@ == quoted_prompt(input@, tail@),
{
    let mut p = owned(INPUT_HEAD);
    p.append(input);
    p.append(tail);
    p
}

/// The request asking whether `input` wants an Evolution command.
pub fn evolution_request(input: &str) -> (r: ModelRequest)
    ensures
        r.model@ == SHELL_MODEL@,
        r.prompt@ == quoted_prompt(input@, EVOLUTION_TAIL@),
        r.system_prompt is None,
        r.temperature_pct == 0,
        r.max_tokens == Some(100u32),
{
    let p = quoted_prompt_text(input, EVOLUTION_TAIL);
    ModelRequest::new(SHELL_MODEL, p.as_str()).with_temperature_pct(0).with_max_tokens(100)
}

/// What the shell does with the reply on an Evolution request: runs the
/// trimmed reply when it starts with "evolution ", else says no command is
/// needed; on a failure, says the system is slow.
pub open spec fn evolution_answer(reply: Result<Seq<char>, Seq<char>>) -> ActionView {
    match reply {
        Ok(content) => {
            let cmd = trim_spec(content);
            if starts_with_spec(cmd, "evolution "@) {
                ActionView::Run(cmd)
            } else {
                ActionView::Say("不需要 Evolution CLI："@ + cmd)
            }
        },
        Err(e) => ActionView::Say(SLOW_HEAD@ + e),
    }
}

/// What the shell does with the reply on an Evolution request.
pub fn evolution_action(reply: Result<ModelResponse, String>) -> (a: Action)
    ensures
        a@ == evolution_answer(reply_chars(reply)),
{
    match reply {
        Ok(resp) => {
            let cmd = trim(resp.content.as_str());
            let c = chars_of(cmd.as_str());
            let p = chars_of("evolution ");
            if starts_with_chars(c.as_slice(), p.as_slice()) {
                Action::Run(cmd)
            } else {
                let mut s = owned("不需要 Evolution CLI：");
                s.append(cmd.as_str());
                Action::Say(s)
            }
        },
        Err(e) => {
            let mut s = owned(SLOW_HEAD);
            s.append(e.as_str());
            Action::Say(s)
        },
    }
}

/// Asks the model whether `input` wants an Evolution command, and acts on
/// the reply.
pub fn handle_evolution(backend: &dyn ModelDispatcher, input: &str) -> (a: Action)
    ensures
        exists|reply: Result<Seq<char>, Seq<char>>| a@ == evolution_answer(reply),
{
    let reply = backend.dispatch(evolution_request(input));
    let ghost rc = reply_chars(reply);
    let a = evolution_action(reply);
    assert(a@ == evolution_answer(rc));
    a
}

/// The request asking whether the coding tool should take `input`.
pub fn opencode_request(input: &str) -> (r: ModelRequest)
    ensures
        r.model@ == SHELL_MODEL@,
        r.prompt@ == quoted_prompt(input@, OPENCODE_TAIL@),
        r.system_prompt is None,
        r.temperature_pct == 30,
        r.max_tokens == Some(80u32),
{
    let p = quoted_prompt_text(input, OPENCODE_TAIL);
    ModelRequest::new(SHELL_MODEL, p.as_str()).with_temperature_pct(30).with_max_tokens(80)
}

/// The answer on a coding request: the trimmed reply framed as a delegated
/// task; on a failure, that it cannot be handled.
pub open spec fn opencode_answer(reply: Result<Seq<char>, Seq<char>>) -> Seq<char> {
    match reply {
        Ok(content) => "🤖 OpenCode 任務："@ + trim_spec(content) + "\n\n[任務委派中...]"@,
        Err(e) => "無法處理："@ + e,
    }
}

/// The answer on a coding request.
pub fn opencode_reply(reply: Result<ModelResponse, String>) -> (s: String)
    ensures
        s@ == opencode_answer(reply_chars(reply)),
{
    match reply {
        Ok(resp) => {
            let t = trim(resp.content.as_str());
            let mut s = owned("🤖 OpenCode 任務：");
            s.append(t.as_str());
            s.append("\n\n[任務委派中...]");
            s
        },
        Err(e) => {
            let mut s = owned("無法處理：");
            s.append(e.as_str());
            s
        },
    }
}

/// Asks the model about a coding request and answers.
pub fn handle_opencode(backend: &dyn ModelDispatcher, input: &str) -> (s: String)
    ensures
        exists|reply: Result<Seq<char>, Seq<char>>| s@ == opencode_answer(reply),
{
    let reply = backend.dispatch(opencode_request(input));
    let ghost rc = reply_chars(reply);
    let s = opencode_reply(reply);
    assert(s@ == opencode_answer(rc));
    s
}

/// The request asking for the fields of a calendar entry in `input`.
pub fn calendar_request(input: &str) -> (r: ModelRequest)
    ensures
        r.model@ == SHELL_MODEL@,
        r.prompt@ == quoted_prompt(input@, CALENDAR_TAIL@),
        r.system_prompt is None,
        r.temperature_pct == 10,
        r.max_tokens == Some(150u32),
{
    let p = quoted_prompt_text(input, CALENDAR_TAIL);
    ModelRequest::new(SHELL_MODEL, p.as_str()).with_temperature_pct(10).with_max_tokens(150)
}

/// Asked again when the reply names no event.
pub const CALENDAR_RETRY: &'static str = "我需要知道你要記錄什麼事件，請重新說明一次。";

/// `s`, or `placeholder` where `s` is empty.
pub open spec fn or_else(s: Seq<char>, placeholder: Seq<char>) -> Seq<char> {
    if s.len() == 0 {
        placeholder
    } else {
        s
    }
}

/// The answer on a calendar request: the entry read from the reply's
/// fields, with placeholders for a missing time or place; a request to say
/// it again where no event is named; the failure where the model failed.
pub open spec fn calendar_answer(reply: Result<Seq<char>, Seq<char>>) -> Seq<char> {
    match reply {
        Err(e) => "LLM 錯誤："@ + e,
        Ok(content) => {
            let event = yaml_field(content, "事項"@);
            if event.len() == 0 {
                CALENDAR_RETRY@
            } else {
                "📅 記事已準備：\n  時間："@ + or_else(yaml_field(content, "時間"@), "時間待確認"@)
                    + "\n  事項："@ + event + "\n  地點："@ + or_else(
                    yaml_field(content, "地點"@),
                    "未指定"@,
                ) + "\n\n要幫你寫入行事曆嗎？"@
            }
        },
    }
}

/// The answer on a calendar request.
pub fn calendar_reply(reply: Result<ModelResponse, String>) -> (s: String)
    ensures
        s@ == calendar_answer(reply_chars(reply)),
{
    let content = match reply {
        Ok(resp) => resp.content,
        Err(e) => {
            let mut s = owned("LLM 錯誤：");
            s.append(e.as_str());
            return s;
        },
    };
    let time = extract_yaml_field(content.as_str(), "時間");
    let event = extract_yaml_field(content.as_str(), "事項");
    let place = extract_yaml_field(content.as_str(), "地點");
    if event.as_str().is_empty() {
        return owned(CALENDAR_RETRY);
    }
    let mut s = owned("📅 記事已準備：\n  時間：");
    if time.as_str().is_empty() {
        s.append("時間待確認");
    } else {
        s.append(time.as_str());
    }
    s.append("\n  事項：");
    s.append(event.as_str());
    s.append("\n  地點：");
    if place.as_str().is_empty() {
        s.append("未指定");
    } else {
        s.append(place.as_str());
    }
    s.append("\n\n要幫你寫入行事曆嗎？");
    s
}

/// Asks the model for a calendar entry in `input` and answers.
pub fn handle_calendar(backend: &dyn ModelDispatcher, input: &str) -> (s: String)
    ensures
        exists|reply: Result<Seq<char>, Seq<char>>| s@ == calendar_answer(reply),
{
    let reply = backend.dispatch(calendar_request(input));
    let ghost rc = reply_chars(reply);
    let s = calendar_reply(reply);
    assert(s@ == calendar_answer(rc));
    s
}

/// The prompt of a general conversation.
pub open spec fn general_prompt(input: Seq<char>) -> Seq<char> {
    GENERAL_HEAD@ + input + GENERAL_TAIL@
}

/// The request of a general conversation.
pub fn general_request(input: &str) -> (r: ModelRequest)
    ensures
        r.model@ == SHELL_MODEL@,
        r.prompt@ == general_prompt(input@),
        r.system_prompt matches Some(s) && s@ == SYSTEM_PROMPT@,
        r.temperature_pct == 80,
        r.max_tokens == Some(300u32),
{
    let mut p = owned(GENERAL_HEAD);
    p.append(input);
    p.append(GENERAL_TAIL);
    ModelRequest::new(SHELL_MODEL, p.as_str()).with_system_prompt(SYSTEM_PROMPT).with_temperature_pct(
        80,
    ).with_max_tokens(300)
}

/// The answer in a general conversation: the trimmed reply, or that the
/// system is slow.
pub open spec fn general_answer(reply: Result<Seq<char>, Seq<char>>) -> Seq<char> {
    match reply {
        Ok(content) => trim_spec(content),
        Err(e) => SLOW_HEAD@ + e,
    }
}

/// The answer in a general conversation.
pub fn general_reply(reply: Result<ModelResponse, String>) -> (s: String)
    ensures
        s@ == general_answer(reply_chars(reply)),
{
    match reply {
        Ok(resp) => trim(resp.content.as_str()),
        Err(e) => {
            let mut s = owned(SLOW_HEAD);
            s.append(e.as_str());
            s
        },
    }
}

/// Converses about `input`.
pub fn handle_general(backend: &dyn ModelDispatcher, input: &str) -> (s: String)
    ensures
        exists|reply: Result<Seq<char>, Seq<char>>| s@ == general_answer(reply),
{
    let reply = backend.dispatch(general_request(input));
    let ghost rc = reply_chars(reply);
    let s = general_reply(reply);
    assert(s@ == general_answer(rc));
    s
}

/// What the shell does with a request of kind `intent`, given the model's
/// reply to the handler's question (system requests ask nothing).
pub open spec fn intent_action(
    intent: Intent,
    input: Seq<char>,
    reply: Result<Seq<char>, Seq<char>>,
) -> ActionView {
    match intent {
        Intent::System => ActionView::Say(system_answer(input)),
        Intent::Evolution => evolution_answer(reply),
        Intent::Opencode => ActionView::Say(opencode_answer(reply)),
        Intent::Calendar => ActionView::Say(calendar_answer(reply)),
        Intent::General => ActionView::Say(general_answer(reply)),
    }
}

/// Handles a request of kind `intent`.
pub fn respond(backend: &dyn ModelDispatcher, intent: Intent, input: &str) -> (a: Action)
    ensures
        exists|reply: Result<Seq<char>, Seq<char>>| a@ == intent_action(intent, input@, reply),
{
    match intent {
        Intent::System => {
            let a = Action::Say(handle_system(input));
            assert(a@ == intent_action(intent, input@, Err(Seq::<char>::empty())));
            a
        },
        Intent::Evolution => {
            let a = handle_evolution(backend, input);
            let ghost r = choose|r: Result<Seq<char>, Seq<char>>| a@ == evolution_answer(r);
            assert(a@ == intent_action(intent, input@, r));
            a
        },
        Intent::Opencode => {
            let s = handle_opencode(backend, input);
            let ghost r = choose|r: Result<Seq<char>, Seq<char>>| s@ == opencode_answer(r);
            let a = Action::Say(s);
            assert(a@ == intent_action(intent, input@, r));
            a
        },
        Intent::Calendar => {
            let s = handle_calendar(backend, input);
            let ghost r = choose|r: Result<Seq<char>, Seq<char>>| s@ == calendar_answer(r);
            let a = Action::Say(s);
            assert(a@ == intent_action(intent, input@, r));
            a
        },
        Intent::General => {
            let s = handle_general(backend, input);
            let ghost r = choose|r: Result<Seq<char>, Seq<char>>| s@ == general_answer(r);
            let a = Action::Say(s);
            assert(a@ == intent_action(intent, input@, r));
            a
        },
    }
}

// ───────────────────────────── routing ─────────────────────────────

/// `i` is a kind that classifying `input` can give: coding work where the
/// request holds a coding keyword; otherwise general or the kind some reply
/// names.
pub open spec fn may_classify(input: Seq<char>, i: Intent) -> bool {
    &&& is_opencode_spec(input) ==> i == Intent::Opencode
    &&& !is_opencode_spec(input) ==> (i == Intent::General || exists|content: Seq<char>|
        i == intent_of_reply(content))
}

/// How a request was routed.
#[derive(Debug)]
pub enum Route {
    /// The model named a command (or, on "none", a keyword did).
    Model(IntentMatch),
    /// Routing by model failed and a keyword selects a command.
    Keyword(IntentMatch),
    /// No command fits; the kind of request found instead.
    Fallback(Intent),
}

/// The model's routing of `input` over `cmds` failed for some reply.
pub open spec fn model_route_failed(cmds: Seq<CommandDefView>, input: Seq<char>) -> bool {
    exists|reply: Result<Seq<char>, Seq<char>>, e: String|
        #[trigger] routed(cmds, input, reply, Err(e))
}

/// Routes `input`: first by asking the model which command it wants, then
/// by keyword, and where neither gives a command, by classifying it.
pub fn route_request(router: &IntentRouter, backend: &dyn ModelDispatcher, input: &str) -> (r:
    Route)
    ensures
        r matches Route::Model(m) ==> exists|reply: Result<Seq<char>, Seq<char>>|
            #[trigger] routed(router.spec_db()@.commands, input@, reply, Ok(m)),
        r matches Route::Keyword(m) ==> {
            &&& model_route_failed(router.spec_db()@.commands, input@)
            &&& any(router.spec_db()@.commands, selects(input@))
            &&& routes_to(
                m,
                router.spec_db()@.commands[first_index(
                    router.spec_db()@.commands,
                    selects(input@),
                )],
                70,
            )
        },
        r matches Route::Fallback(i) ==> {
            &&& model_route_failed(router.spec_db()@.commands, input@)
            &&& !any(router.spec_db()@.commands, selects(input@))
            &&& may_classify(input@, i)
        },
{
    let ghost cmds = router.spec_db()@.commands;
    let first = router.route_with_model(input, backend);
    let ghost reply = choose|reply: Result<Seq<char>, Seq<char>>|
        #[trigger] routed(cmds, input@, reply, first);
    match first {
        Ok(m) => {
            assert(routed(cmds, input@, reply, Ok(m)));
            let r = Route::Model(m);
            assert(r matches Route::Model(m2) && routed(cmds, input@, reply, Ok(m2)));
            r
        },
        Err(e) => {
            assert(routed(cmds, input@, reply, Err(e)));
            assert(model_route_failed(cmds, input@));
            match router.route_keyword(input) {
                Some(m) => Route::Keyword(m),
                None => {
                    let i = classify_intent(backend, input);
                    assert(may_classify(input@, i));
                    Route::Fallback(i)
                },
            }
        },
    }
}

/// Classifies a request that no command fits and handles it.
pub fn fallback(backend: &dyn ModelDispatcher, input: &str) -> (a: Action)
    ensures
        exists|i: Intent, reply: Result<Seq<char>, Seq<char>>|
            may_classify(input@, i) && a@ == #[trigger] intent_action(i, input@, reply),
{
    let i = classify_intent(backend, input);
    let a = respond(backend, i, input);
    let ghost r = choose|r: Result<Seq<char>, Seq<char>>| a@ == intent_action(i, input@, r);
    assert(a@ == intent_action(i, input@, r));
    a
}

// ───────────────────────────── command runs ─────────────────────────────

/// `before` with task `t` added at the end, after which the first task
/// with identifier `id` moved to `Executing` at time `at`.
pub open spec fn with_started(
    before: Seq<TaskEntryView>,
    t: TaskEntryView,
    at: Timestamp,
    id: Seq<char>,
) -> Seq<TaskEntryView> {
    let mid = before.push(t);
    let i = first_index(mid, task_id_is(id));
    mid.update(i, transitioned(mid[i], TaskStage::Executing, None, at))
}

/// `after` is `before` once a task named `name` with identifier `id` was
/// added at the end and the first task with that identifier moved to
/// `Executing`.
pub open spec fn started(
    before: Seq<TaskEntryView>,
    after: Seq<TaskEntryView>,
    id: Seq<char>,
    name: Seq<char>,
) -> bool {
    exists|t: TaskEntryView, at: Timestamp|
        fresh_task(t, id, name) && after == #[trigger] with_started(before, t, at, id)
}

/// A command line started on the board: the task that tracks it and the
/// arguments to run.
#[derive(Debug)]
pub struct CliRun {
    pub task_id: String,
    pub args: Vec<String>,
}

/// The answer to a command line with nothing to run.
pub const INVALID_COMMAND: &'static str = "❌ 無效的命令";

/// Starts tracking command line `cli` on the board: adds a task named after
/// it and moves it to `Executing`. The arguments to run; where there are
/// none, the command is invalid: its task moves on to `Blocked` (with the
/// answer as note, which raises the event for the user) and the answer is
/// returned.
pub fn begin_cli_run(board: &mut StateBoard, cli: &str) -> (r: Result<CliRun, String>)
    ensures
        final(board)@.presence == old(board)@.presence,
        match r {
            Ok(run) => {
                &&& final(board)@.events == old(board)@.events
                &&& is_uuid_text(run.task_id@)
                &&& started(
                    old(board)@.tasks,
                    final(board)@.tasks,
                    run.task_id@,
                    task_name_of_cli(cli@),
                )
                &&& string_views(run.args@) == cli_words(cli@)
                &&& cli_words(cli@).len() > 0
            },
            Err(e) => {
                &&& e@ == INVALID_COMMAND@
                &&& cli_words(cli@).len() == 0
                &&& exists|id: Seq<char>, mid: StateBoardView|
                    {
                        &&& is_uuid_text(id)
                        &&& mid.presence == old(board)@.presence
                        &&& mid.events == old(board)@.events
                        &&& started(old(board)@.tasks, mid.tasks, id, task_name_of_cli(cli@))
                        &&& #[trigger] stage_updated(
                            mid,
                            final(board)@,
                            id,
                            TaskStage::Blocked,
                            Some(INVALID_COMMAND@),
                            false,
                        )
                    }
            },
        },
{
    let ghost before = board@;
    let name = extract_task_name_from_cli(cli);
    let id = board.create_task(name);
    let ghost mid = board@;
    let ghost t = mid.tasks.last();
    assert(mid.tasks =~= before.tasks.push(t));
    assert(task_id_is(id@)(mid.tasks[mid.tasks.len() - 1]));
    board.update_stage(id.as_str(), TaskStage::Executing, None, None);
    let ghost i = first_index(mid.tasks, task_id_is(id@));
    let ghost at = board@.tasks[i].updated_at;
    assert(board@.tasks == with_started(before.tasks, t, at, id@));
    assert(started(before.tasks, board@.tasks, id@, task_name_of_cli(cli@)));
    let args = cli_arguments(cli);
    if args.len() == 0 {
        let ghost running = board@;
        board.update_stage(id.as_str(), TaskStage::Blocked, Some(owned(INVALID_COMMAND)), None);
        assert(stage_updated(running, board@, id@, TaskStage::Blocked, Some(INVALID_COMMAND@), false));
        Err(owned(INVALID_COMMAND))
    } else {
        Ok(CliRun { task_id: id, args })
    }
}

/// The stage a tracked task moves to after its run.
pub open spec fn outcome_stage(o: RunOutcome) -> TaskStage {
    match o {
        RunOutcome::Exited { success: true, .. } => TaskStage::Done,
        _ => TaskStage::Blocked,
    }
}

/// The note recorded with that move.
pub open spec fn outcome_note(o: RunOutcome) -> Option<Seq<char>> {
    match o {
        RunOutcome::Exited { success, stderr, .. } => if success {
            None
        } else {
            Some("執行失敗: "@ + trim_spec(stderr@))
        },
        RunOutcome::NotStarted(e) => Some("無法執行: "@ + e@),
    }
}

/// The answer after a run: the trimmed output (the trimmed error output
/// where the output is blank) on success, else what went wrong.
pub open spec fn outcome_answer(o: RunOutcome) -> Seq<char> {
    match o {
        RunOutcome::Exited { success, stdout, stderr } => if success {
            if trim_spec(stdout@).len() == 0 {
                trim_spec(stderr@)
            } else {
                trim_spec(stdout@)
            }
        } else {
            "❌ 命令執行失敗\n"@ + trim_spec(stderr@)
        },
        RunOutcome::NotStarted(e) => "❌ 無法執行命令："@ + e@,
    }
}

/// Records the outcome of the run tracked by task `task_id`: moves the task
/// to `Done` on success, else to `Blocked` with a note (which raises the
/// event for the user); returns the answer.
pub fn finish_cli_run(board: &mut StateBoard, task_id: &str, outcome: RunOutcome) -> (answer:
    String)
    ensures
        answer@ == outcome_answer(outcome),
        stage_updated(
            old(board)@,
            final(board)@,
            task_id@,
            outcome_stage(outcome),
            outcome_note(outcome),
            false,
        ),
{
    match outcome {
        RunOutcome::Exited { success, stdout, stderr } => {
            if success {
                board.update_stage(task_id, TaskStage::Done, None, None);
                let out = trim(stdout.as_str());
                if out.as_str().is_empty() {
                    trim(stderr.as_str())
                } else {
                    out
                }
            } else {
                let err = trim(stderr.as_str());
                let mut note = owned("執行失敗: ");
                note.append(err.as_str());
                board.update_stage(task_id, TaskStage::Blocked, Some(note), None);
                let mut answer = owned("❌ 命令執行失敗\n");
                answer.append(err.as_str());
                answer
            }
        },
        RunOutcome::NotStarted(e) => {
            let mut note = owned("無法執行: ");
            note.append(e.as_str());
            board.update_stage(task_id, TaskStage::Blocked, Some(note), None);
            let mut answer = owned("❌ 無法執行命令：");
            answer.append(e.as_str());
            answer
        },
    }
}

// ───────────────────────────── input lines ─────────────────────────────

/// What a line typed at the shell asks for.
#[derive(Debug)]
pub enum ShellInput {
    /// A blank line: nothing.
    Skip,
    /// One of the words that end the conversation.
    Quit,
    /// A request, trimmed.
    Request(String),
}

/// The trimmed line is one of the words that end the conversation.
pub open spec fn is_quit_word(t: Seq<char>) -> bool {
    t == "exit"@ || t == "quit"@ || t == "再見"@
}

/// What the line typed at the shell asks for.
pub fn read_shell_input(line: &str) -> (r: ShellInput)
    ensures
        ({
            let t = trim_spec(line@);
            match r {
                ShellInput::Skip => t.len() == 0,
                ShellInput::Quit => t.len() > 0 && is_quit_word(t),
                ShellInput::Request(s) => s@ == t && t.len() > 0 && !is_quit_word(t),
            }
        }),
{
    let t = trim(line);
    if t.as_str().is_empty() {
        ShellInput::Skip
    } else if same_text(t.as_str(), "exit") || same_text(t.as_str(), "quit") || same_text(
        t.as_str(),
        "再見",
    ) {
        ShellInput::Quit
    } else {
        ShellInput::Request(t)
    }
}

/// The directory the shell keeps its board in: the one named by the
/// `EVOLUTION_ROOT` setting where there is one (`configured`), else
/// `.evolution` under the user's home directory (as dirs finds it) or under
/// `.`.
pub fn shell_root(configured: Option<String>) -> (r: String)
    ensures
        match configured {
            Some(c) => r@ == c@,
            None => exists|home: Option<Seq<char>>| r@ == crate::status::root_under(home),
        },
{
    match configured {
        Some(c) => c,
        None => crate::status::home_evolution_root(),
    }
}

} // verus!
