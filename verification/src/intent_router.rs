//! Intent routing: the database of commands a user can ask for in natural
//! language, keyword matching against it, and reading a model's choice.
use vstd::prelude::*;
use std::collections::HashMap;
use crate::model::{ModelDispatcher, ModelRequest, ModelResponse};
use crate::seqs::{any, first_index, is_first, keep, lemma_first_index};
use crate::text::{
    chars_of, contains_chars, contains_spec, in_set, join, join_spec, lowercase, owned,
    replace_chars, replace_spec, same_text, split_on, split_spec, string_of, string_views,
    to_lowercase, trim, trim_spec, utf8_len, utf8_len_upto, views,
};

verus! {

/// One parameter of a command.
#[derive(Debug)]
pub struct CommandSlot {
    /// Name of the parameter (such as "task_description").
    pub name: String,
    /// What the parameter is for.
    pub description: String,
    /// Whether it must be given.
    pub required: bool,
}

/// A parameter, as plain values.
pub struct CommandSlotView {
    pub name: Seq<char>,
    pub description: Seq<char>,
    pub required: bool,
}

impl View for CommandSlot {
    type V = CommandSlotView;

    open spec fn view(&self) -> CommandSlotView {
        CommandSlotView { name: self.name@, description: self.description@, required: self.required }
    }
}

/// One command that a request can be routed to.
#[derive(Debug)]
pub struct CommandDef {
    /// Unique identifier.
    pub id: String,
    /// Category it belongs to.
    pub category: String,
    /// Phrases that select it.
    pub aliases: Vec<String>,
    /// What it does.
    pub description: String,
    /// The command line it runs, without the leading program name.
    pub cli: String,
    /// Its parameters.
    pub slots: Vec<CommandSlot>,
    /// Sample requests.
    pub examples: Vec<String>,
}

/// A command, as plain values.
pub struct CommandDefView {
    pub id: Seq<char>,
    pub category: Seq<char>,
    pub aliases: Seq<Seq<char>>,
    pub description: Seq<char>,
    pub cli: Seq<char>,
    pub slots: Seq<CommandSlotView>,
    pub examples: Seq<Seq<char>>,
}

/// The views of a sequence of parameters.
pub open spec fn slot_views(s: Seq<CommandSlot>) -> Seq<CommandSlotView> {
    s.map_values(|x: CommandSlot| x@)
}

impl View for CommandDef {
    type V = CommandDefView;

    open spec fn view(&self) -> CommandDefView {
        CommandDefView {
            id: self.id@,
            category: self.category@,
            aliases: string_views(self.aliases@),
            description: self.description@,
            cli: self.cli@,
            slots: slot_views(self.slots@),
            examples: string_views(self.examples@),
        }
    }
}

/// The views of a sequence of commands.
pub open spec fn command_views(s: Seq<CommandDef>) -> Seq<CommandDefView> {
    s.map_values(|c: CommandDef| c@)
}

/// The views of a sequence of command references.
pub open spec fn command_ref_views(s: Seq<&CommandDef>) -> Seq<CommandDefView> {
    s.map_values(|c: &CommandDef| c@)
}

/// The characters that separate the words of a description.
pub open spec fn description_separators() -> Seq<char> {
    seq![' ', '，', '。']
}

/// The words of a command's description.
pub open spec fn description_words(description: Seq<char>) -> Seq<Seq<char>> {
    split_spec(description, in_set(description_separators()))
}

/// `input` selects command `c`: lower-cased, it holds one of the command's
/// aliases lower-cased, or one of the words of its description that take
/// more than one byte, lower-cased.
pub open spec fn matches_spec(c: CommandDefView, input: Seq<char>) -> bool {
    let li = lowercase(input);
    let words = description_words(c.description);
    ||| exists|k: int| 0 <= k < c.aliases.len() && contains_spec(li, lowercase(#[trigger] c.aliases[k]))
    ||| exists|k: int|
        0 <= k < words.len() && utf8_len(#[trigger] words[k]) > 1 && contains_spec(
            li,
            lowercase(words[k]),
        )
}

/// `input` selects the command.
pub open spec fn selects(input: Seq<char>) -> spec_fn(CommandDefView) -> bool {
    |c: CommandDefView| matches_spec(c, input)
}

/// The command has identifier `id`.
pub open spec fn command_id_is(id: Seq<char>) -> spec_fn(CommandDefView) -> bool {
    |c: CommandDefView| c.id == id
}

/// The command is in category `cat`.
pub open spec fn in_category(cat: Seq<char>) -> spec_fn(CommandDefView) -> bool {
    |c: CommandDefView| c.category == cat
}

impl CommandDef {
    /// Whether `input` selects this command.
    pub fn matches(&self, input: &str) -> (r: bool)
        ensures
            r == matches_spec(self@, input@),
    {
        let li_s = to_lowercase(input);
        let li = chars_of(li_s.as_str());
        let ghost words = description_words(self@.description);
        let n = self.aliases.len();
        for k in 0..n
            invariant
                n == self.aliases@.len(),
                li@ == lowercase(input@),
                forall|j: int|
                    0 <= j < k ==> !contains_spec(li@, lowercase(#[trigger] string_views(self.aliases@)[j])),
        {
            let a = to_lowercase(self.aliases[k].as_str());
            let ac = chars_of(a.as_str());
            if contains_chars(li.as_slice(), ac.as_slice()) {
                assert(self@.aliases[k as int] == string_views(self.aliases@)[k as int]);
                assert(contains_spec(lowercase(input@), lowercase(self@.aliases[k as int])));
                return true;
            }
        }
        let d = chars_of(self.description.as_str());
        let seps = vec![' ', '，', '。'];
        assert(seps@ == description_separators());
        let ws = split_on(d.as_slice(), seps.as_slice());
        assert(views(ws@) == words);
        let m = ws.len();
        for k in 0..m
            invariant
                m == ws@.len(),
                views(ws@) == words,
                words == description_words(self@.description),
                li@ == lowercase(input@),
                forall|j: int|
                    0 <= j < k ==> !(utf8_len(#[trigger] words[j]) > 1 && contains_spec(
                        li@,
                        lowercase(words[j]),
                    )),
        {
            assert(views(ws@)[k as int] == ws@[k as int]@);
            if utf8_len_upto(ws[k].as_slice(), 2) > 1 {
                let w = string_of(ws[k].as_slice());
                let lw = to_lowercase(w.as_str());
                let lc = chars_of(lw.as_str());
                if contains_chars(li.as_slice(), lc.as_slice()) {
                    assert(utf8_len(words[k as int]) > 1 && contains_spec(
                        lowercase(input@),
                        lowercase(words[k as int]),
                    ));
                    return true;
                }
            }
        }
        false
    }
}

/// Builds a parameter.
fn slot(name: &str, description: &str, required: bool) -> (s: CommandSlot)
    ensures
        s@ == slot_view(name, description, required),
{
    CommandSlot { name: owned(name), description: owned(description), required }
}

fn no_slots() -> (v: Vec<CommandSlot>)
    ensures
        slot_views(v@) == Seq::<CommandSlotView>::empty(),
{
    let v = Vec::new();
    assert(slot_views(v@) =~= Seq::<CommandSlotView>::empty());
    v
}

fn one_slot(name: &str, description: &str, required: bool) -> (v: Vec<CommandSlot>)
    ensures
        slot_views(v@) == seq![slot_view(name, description, required)],
{
    let mut v = Vec::new();
    v.push(slot(name, description, required));
    assert(slot_views(v@) =~= seq![slot_view(name, description, required)]);
    v
}

/// A parameter, from literals.
pub open spec fn slot_view(name: &str, description: &str, required: bool) -> CommandSlotView {
    CommandSlotView { name: name@, description: description@, required }
}

/// The characters of each string slice.
pub open spec fn str_views(s: Seq<&str>) -> Seq<Seq<char>> {
    s.map_values(|x: &str| x@)
}

/// A command, from literals.
pub open spec fn command_view(
    id: &str,
    category: &str,
    aliases: Seq<&str>,
    description: &str,
    cli: &str,
    slots: Seq<CommandSlotView>,
    examples: Seq<&str>,
) -> CommandDefView {
    CommandDefView {
        id: id@,
        category: category@,
        aliases: str_views(aliases),
        description: description@,
        cli: cli@,
        slots: slots,
        examples: str_views(examples),
    }
}

/// Owned copies of string slices.
fn string_list(a: &[&str]) -> (v: Vec<String>)
    ensures
        string_views(v@) == str_views(a@),
{
    let mut v: Vec<String> = Vec::new();
    let n = a.len();
    for i in 0..n
        invariant
            n == a@.len(),
            string_views(v@) == str_views(a@.take(i as int)),
    {
        let s = owned(a[i]);
        let ghost before = v@;
        v.push(s);
        assert(string_views(v@) =~= str_views(a@.take(i + 1))) by {
            assert(string_views(v@) =~= string_views(before).push(s@));
            assert(a@.take(i + 1) =~= a@.take(i as int).push(a@[i as int]));
        }
    }
    assert(a@.take(n as int) =~= a@);
    v
}

/// Builds a command.
fn command(
    id: &str,
    category: &str,
    aliases: &[&str],
    description: &str,
    cli: &str,
    slots: Vec<CommandSlot>,
    examples: &[&str],
) -> (c: CommandDef)
    ensures
        c@ == command_view(id, category, aliases@, description, cli, slot_views(slots@), examples@),
{
    CommandDef {
        id: owned(id),
        category: owned(category),
        aliases: string_list(aliases),
        description: owned(description),
        cli: owned(cli),
        slots,
        examples: string_list(examples),
    }
}

/// The commands a new database holds.
pub open spec fn builtin_command_views() -> Seq<CommandDefView> {
    seq![
        command_view(
            "board_status",
            "board",
            seq!["系統狀態", "進度表", "看板", "現在在做什麼", "tasks", "任務狀態", "有什麼在跑"],
            "顯示所有任務的階段與進度",
            "board",
            seq![],
            seq!["看一下系統狀態", "現在有哪些任務在跑", "幫我查進度"],
        ),
        command_view(
            "board_events",
            "board",
            seq!["事件", "通知", "主動事件", "alert", "有新消息嗎", "有什麼新消息", "有什麼要告訴我的"],
            "顯示未送達的主動事件",
            "board events",
            seq![],
            seq!["有什麼新消息", "有什麼要告訴我的"],
        ),
        command_view(
            "board_clear",
            "board",
            seq!["清除已完成", "清空任務", "清理看板"],
            "清除已完成任務",
            "board clear",
            seq![],
            seq!["把完成的任務清掉"],
        ),
        command_view(
            "board_task_detail",
            "board",
            seq!["任務詳情", "查某個任務", "任務id"],
            "顯示單一任務詳細資訊",
            "board {task_id}",
            seq![slot_view("task_id", "任務 UUID", true)],
            seq!["任務123的詳情"],
        ),
        command_view(
            "planner_analyze",
            "planner",
            seq!["分析", "規劃", "幫我規劃", "怎麼做", "建議"],
            "分析任務複雜度並產生實作計畫",
            "analyze {task_description}",
            seq![slot_view("task_description", "要分析的任務描述", true)],
            seq!["幫我分析這個需求", "幫我規劃一個電商系統", "我想做一個庫存管理系統"],
        ),
        command_view(
            "planner_list_skills",
            "planner",
            seq!["技能列表", "可用技能", "skills"],
            "列出所有可用技能",
            "list-skills",
            seq![],
            seq!["有哪些技能可用"],
        ),
        command_view(
            "system_status",
            "system",
            seq!["狀態", "環境", "環境狀態", "model"],
            "顯示 Ollama 模型與 Evolution 專案狀態",
            "status",
            seq![],
            seq!["Ollama 啟動了嗎", "現在環境怎麼樣"],
        ),
        command_view(
            "system_check",
            "system",
            seq!["檢查", "環境檢查", "確認環境"],
            "檢查系統環境（Rust/Ollama/模型）",
            "boot --check-only",
            seq![],
            seq!["幫我檢查一下環境"],
        ),
        command_view(
            "system_boot",
            "system",
            seq!["開機", "啟動系統", "初始化"],
            "四階段開機流程",
            "boot",
            seq![],
            seq!["啟動 Evolution OS"],
        ),
        command_view(
            "dev_new_project",
            "dev",
            seq!["新專案", "建立專案", "創建專案"],
            "建立新 Evolution 專案",
            "new {project_name}",
            seq![slot_view("project_name", "專案名稱", true)],
            seq!["幫我建立一個電商專案"],
        ),
        command_view(
            "query_help",
            "query",
            seq!["幫助", "help", "指令", "可以做什麼"],
            "顯示所有可用指令",
            "shell --help",
            seq![],
            seq!["你可以做什麼", "幫助"],
        ),
        command_view(
            "query_hello",
            "query",
            seq!["嗨", "hi", "你好", "早"],
            "問候語",
            "shell",
            seq![],
            seq!["嗨", "你好"],
        ),
    ]
}

fn builtin_commands() -> (v: Vec<CommandDef>)
    ensures
        command_views(v@) == builtin_command_views(),
{
    let v = vec![
        command(
            "board_status",
            "board",
            &["系統狀態", "進度表", "看板", "現在在做什麼", "tasks", "任務狀態", "有什麼在跑"],
            "顯示所有任務的階段與進度",
            "board",
            no_slots(),
            &["看一下系統狀態", "現在有哪些任務在跑", "幫我查進度"],
        ),
        command(
            "board_events",
            "board",
            &["事件", "通知", "主動事件", "alert", "有新消息嗎", "有什麼新消息", "有什麼要告訴我的"],
            "顯示未送達的主動事件",
            "board events",
            no_slots(),
            &["有什麼新消息", "有什麼要告訴我的"],
        ),
        command(
            "board_clear",
            "board",
            &["清除已完成", "清空任務", "清理看板"],
            "清除已完成任務",
            "board clear",
            no_slots(),
            &["把完成的任務清掉"],
        ),
        command(
            "board_task_detail",
            "board",
            &["任務詳情", "查某個任務", "任務id"],
            "顯示單一任務詳細資訊",
            "board {task_id}",
            one_slot("task_id", "任務 UUID", true),
            &["任務123的詳情"],
        ),
        command(
            "planner_analyze",
            "planner",
            &["分析", "規劃", "幫我規劃", "怎麼做", "建議"],
            "分析任務複雜度並產生實作計畫",
            "analyze {task_description}",
            one_slot("task_description", "要分析的任務描述", true),
            &["幫我分析這個需求", "幫我規劃一個電商系統", "我想做一個庫存管理系統"],
        ),
        command(
            "planner_list_skills",
            "planner",
            &["技能列表", "可用技能", "skills"],
            "列出所有可用技能",
            "list-skills",
            no_slots(),
            &["有哪些技能可用"],
        ),
        command(
            "system_status",
            "system",
            &["狀態", "環境", "環境狀態", "model"],
            "顯示 Ollama 模型與 Evolution 專案狀態",
            "status",
            no_slots(),
            &["Ollama 啟動了嗎", "現在環境怎麼樣"],
        ),
        command(
            "system_check",
            "system",
            &["檢查", "環境檢查", "確認環境"],
            "檢查系統環境（Rust/Ollama/模型）",
            "boot --check-only",
            no_slots(),
            &["幫我檢查一下環境"],
        ),
        command(
            "system_boot",
            "system",
            &["開機", "啟動系統", "初始化"],
            "四階段開機流程",
            "boot",
            no_slots(),
            &["啟動 Evolution OS"],
        ),
        command(
            "dev_new_project",
            "dev",
            &["新專案", "建立專案", "創建專案"],
            "建立新 Evolution 專案",
            "new {project_name}",
            one_slot("project_name", "專案名稱", true),
            &["幫我建立一個電商專案"],
        ),
        command(
            "query_help",
            "query",
            &["幫助", "help", "指令", "可以做什麼"],
            "顯示所有可用指令",
            "shell --help",
            no_slots(),
            &["你可以做什麼", "幫助"],
        ),
        command(
            "query_hello",
            "query",
            &["嗨", "hi", "你好", "早"],
            "問候語",
            "shell",
            no_slots(),
            &["嗨", "你好"],
        ),
    ];
    assert forall|k: int| 0 <= k < 12 implies #[trigger] command_views(v@)[k]
        == builtin_command_views()[k] by {
        assert(command_views(v@)[k].aliases == builtin_command_views()[k].aliases);
        assert(command_views(v@)[k].examples == builtin_command_views()[k].examples);
    }
    assert(command_views(v@) =~= builtin_command_views());
    v
}

/// The command database.
pub struct IntentCommandDB {
    pub version: String,
    pub categories: Vec<String>,
    pub commands: Vec<CommandDef>,
}

/// The database, as plain values.
pub struct IntentCommandDBView {
    pub version: Seq<char>,
    pub categories: Seq<Seq<char>>,
    pub commands: Seq<CommandDefView>,
}

impl View for IntentCommandDB {
    type V = IntentCommandDBView;

    open spec fn view(&self) -> IntentCommandDBView {
        IntentCommandDBView {
            version: self.version@,
            categories: string_views(self.categories@),
            commands: command_views(self.commands@),
        }
    }
}

/// The categories of a new database.
pub open spec fn builtin_categories() -> Seq<Seq<char>> {
    str_views(seq!["system", "planner", "board", "dev", "query"])
}

/// The command line for `cli` with the parameters `args` filled in, in
/// order: each `{name}` in it replaced by the value given for `name`.
pub open spec fn fill_cli(cli: Seq<char>, args: Seq<(Seq<char>, Seq<char>)>) -> Seq<char>
    decreases args.len(),
{
    if args.len() == 0 {
        "evolution "@ + cli
    } else {
        replace_spec(
            fill_cli(cli, args.drop_last()),
            "{"@ + args.last().0 + "}"@,
            args.last().1,
        )
    }
}

/// Name and value of each parameter, as plain values.
pub open spec fn arg_views(args: Seq<(String, String)>) -> Seq<(Seq<char>, Seq<char>)> {
    args.map_values(|a: (String, String)| (a.0@, a.1@))
}

/// Position of the first command satisfying `p` in `cmds`, checked by `check`.
fn find_command(cmds: &Vec<CommandDef>, id: &str) -> (r: Option<usize>)
    ensures
        match r {
            Some(i) => is_first(command_views(cmds@), command_id_is(id@), i as int) && i
                == first_index(command_views(cmds@), command_id_is(id@)),
            None => !any(command_views(cmds@), command_id_is(id@)),
        },
{
    let ghost v = command_views(cmds@);
    let ghost p = command_id_is(id@);
    let n = cmds.len();
    for i in 0..n
        invariant
            n == cmds@.len(),
            v == command_views(cmds@),
            p == command_id_is(id@),
            forall|j: int| 0 <= j < i ==> !p(#[trigger] v[j]),
    {
        if same_text(cmds[i].id.as_str(), id) {
            assert(is_first(v, p, i as int));
            proof {
                lemma_first_index(v, p, i as int);
            }
            return Some(i);
        }
    }
    None
}

impl IntentCommandDB {
    /// A database holding the built-in commands.
    pub fn new() -> (db: IntentCommandDB)
        ensures
            db@.version == "0.1.0"@,
            db@.categories == builtin_categories(),
            db@.commands == builtin_command_views(),
    {
        let db = IntentCommandDB {
            version: owned("0.1.0"),
            categories: string_list(&["system", "planner", "board", "dev", "query"]),
            commands: builtin_commands(),
        };
        db
    }

    /// The first command with identifier `id`.
    pub fn get(&self, id: &str) -> (r: Option<&CommandDef>)
        ensures
            match r {
                Some(c) => {
                    let i = first_index(self@.commands, command_id_is(id@));
                    0 <= i < self@.commands.len() && c@ == self@.commands[i]
                },
                None => !any(self@.commands, command_id_is(id@)),
            },
    {
        match find_command(&self.commands, id) {
            Some(i) => Some(&self.commands[i]),
            None => None,
        }
    }

    /// The commands of category `cat`, in order.
    pub fn by_category(&self, cat: &str) -> (r: Vec<&CommandDef>)
        ensures
            command_ref_views(r@) == keep(self@.commands, in_category(cat@)),
    {
        let ghost v = command_views(self.commands@);
        let ghost p = in_category(cat@);
        let n = self.commands.len();
        let mut r: Vec<&CommandDef> = Vec::new();
        for i in 0..n
            invariant
                n == self.commands@.len(),
                v == command_views(self.commands@),
                p == in_category(cat@),
                command_ref_views(r@) == keep(v.take(i as int), p),
        {
            assert(v.take(i + 1).drop_last() =~= v.take(i as int));
            if same_text(self.commands[i].category.as_str(), cat) {
                let ghost before = r@;
                r.push(&self.commands[i]);
                assert(command_ref_views(r@) =~= command_ref_views(before).push(v[i as int]));
            }
        }
        assert(v.take(n as int) =~= v);
        r
    }

    /// The first command that `input` selects.
    pub fn find_best_match(&self, input: &str) -> (r: Option<&CommandDef>)
        ensures
            match r {
                Some(c) => {
                    let i = first_index(self@.commands, selects(input@));
                    0 <= i < self@.commands.len() && c@ == self@.commands[i]
                },
                None => !any(self@.commands, selects(input@)),
            },
    {
        let ghost v = command_views(self.commands@);
        let ghost p = selects(input@);
        let n = self.commands.len();
        for i in 0..n
            invariant
                n == self.commands@.len(),
                v == command_views(self.commands@),
                p == selects(input@),
                forall|j: int| 0 <= j < i ==> !p(#[trigger] v[j]),
        {
            if self.commands[i].matches(input) {
                assert(is_first(v, p, i as int));
                proof {
                    lemma_first_index(v, p, i as int);
                }
                return Some(&self.commands[i]);
            }
        }
        None
    }

    /// The identifiers of all commands, in order.
    pub fn command_ids(&self) -> (r: Vec<&str>)
        ensures
            str_views(r@) == self@.commands.map_values(|c: CommandDefView| c.id),
    {
        let ghost v = command_views(self.commands@);
        let n = self.commands.len();
        let mut r: Vec<&str> = Vec::new();
        for i in 0..n
            invariant
                n == self.commands@.len(),
                v == command_views(self.commands@),
                str_views(r@) == v.take(i as int).map_values(|c: CommandDefView| c.id),
        {
            let ghost before = r@;
            r.push(self.commands[i].id.as_str());
            assert(str_views(r@) =~= v.take(i + 1).map_values(|c: CommandDefView| c.id)) by {
                assert(str_views(r@) =~= str_views(before).push(v[i as int].id));
            }
        }
        assert(v.take(n as int) =~= v);
        r
    }

    /// The command line of the first command with identifier `id`, with
    /// `args` filled in; `None` for an unknown identifier.
    pub fn build_cli(&self, id: &str, args: &[(String, String)]) -> (r: Option<String>)
        ensures
            r is Some <==> any(self@.commands, command_id_is(id@)),
            r matches Some(cli) ==> cli@ == fill_cli(
                self@.commands[first_index(self@.commands, command_id_is(id@))].cli,
                arg_views(args@),
            ),
    {
        let cmd = match self.get(id) {
            Some(c) => c,
            None => {
                return None;
            },
        };
        let mut cli = owned("evolution ");
        cli.append(cmd.cli.as_str());
        let ghost av = arg_views(args@);
        let n = args.len();
        for i in 0..n
            invariant
                n == args@.len(),
                av == arg_views(args@),
                cli@ == fill_cli(cmd@.cli, av.take(i as int)),
        {
            assert(av.take(i + 1).drop_last() =~= av.take(i as int));
            let (name, value) = &args[i];
            let mut pat = owned("{");
            pat.append(name.as_str());
            pat.append("}");
            proof {
                reveal_strlit("{");
            }
            let pc = chars_of(pat.as_str());
            let cc = chars_of(cli.as_str());
            let vc = chars_of(value.as_str());
            let out = replace_chars(cc.as_slice(), pc.as_slice(), vc.as_slice());
            cli = string_of(out.as_slice());
        }
        assert(av.take(n as int) =~= av);
        Some(cli)
    }
}

impl Default for IntentCommandDB {
    fn default() -> (db: IntentCommandDB)
        ensures
            db@.version == "0.1.0"@,
            db@.categories == builtin_categories(),
            db@.commands == builtin_command_views(),
    {
        IntentCommandDB::new()
    }
}

/// The command a request was routed to.
#[derive(Debug)]
pub struct IntentMatch {
    /// Identifier of the command.
    pub command_id: String,
    /// Confidence in hundredths (70 stands for 0.7).
    pub confidence_pct: u32,
    /// Parameters taken from the request.
    pub slots: HashMap<String, String>,
    /// The full command line to run.
    pub cli: String,
}

/// `m` routes to command `c` with confidence `pct` and no parameters.
pub open spec fn routes_to(m: IntentMatch, c: CommandDefView, pct: u32) -> bool {
    &&& m.command_id@ == c.id
    &&& m.confidence_pct == pct
    &&& m.slots@ == Map::<String, String>::empty()
    &&& m.cli@ == "evolution "@ + c.cli
}

fn route_to(c: &CommandDef, pct: u32) -> (m: IntentMatch)
    ensures
        routes_to(m, c@, pct),
{
    let mut cli = owned("evolution ");
    cli.append(c.cli.as_str());
    IntentMatch { command_id: c.id.clone(), confidence_pct: pct, slots: HashMap::new(), cli }
}

/// Routes requests to commands.
pub struct IntentRouter {
    db: IntentCommandDB,
}

/// The model asked to classify requests.
pub const ROUTER_MODEL: &'static str = "gemma4:e2b";

/// Answer when neither the model nor a keyword selects a command.
pub const NOT_UNDERSTOOD: &'static str = "無法理解輸入，請換個方式說";

/// Opening of the classification prompt.
pub const CLASSIFY_HEAD: &'static str = "你是一個意圖分類器。根據用戶輸入，從以下命令列表中選擇最合適的 command_id。\n只回覆 command_id，不要多餘的文字。\n如果沒有完全匹配的回覆 \"none\"。\n\n命令列表：\n";

/// How a command is listed in the classification prompt.
pub open spec fn command_entry(c: CommandDefView) -> Seq<char> {
    "- "@ + c.id + " ("@ + c.category + ")\n  aliases: "@ + join_spec(c.aliases, ", "@)
        + "\n  description: "@ + c.description
}

/// The prompt asking a model which command `input` wants.
pub open spec fn classification_prompt(cmds: Seq<CommandDefView>, input: Seq<char>) -> Seq<char> {
    CLASSIFY_HEAD@ + join_spec(cmds.map_values(|c: CommandDefView| command_entry(c)), "\n\n"@)
        + "\n\n用戶輸入："@ + input + "\n\ncommand_id："@
}

/// The result, as plain values, of reading the model's `reply` for `input`:
/// a failure is passed on; a reply of "none" (or nothing) falls back on the
/// keyword match; otherwise the reply must name a command.
pub open spec fn model_route_ok(
    cmds: Seq<CommandDefView>,
    input: Seq<char>,
    reply: Seq<char>,
    m: IntentMatch,
) -> bool {
    let sel = lowercase(trim_spec(reply));
    if sel == "none"@ || sel.len() == 0 {
        let i = first_index(cmds, selects(input));
        any(cmds, selects(input)) && routes_to(m, cmds[i], 70)
    } else {
        let i = first_index(cmds, command_id_is(sel));
        any(cmds, command_id_is(sel)) && routes_to(m, cmds[i], 90)
    }
}

/// The failure, as plain values, of reading the model's `reply` for `input`.
pub open spec fn model_route_err(
    cmds: Seq<CommandDefView>,
    input: Seq<char>,
    reply: Result<Seq<char>, Seq<char>>,
    e: Seq<char>,
) -> bool {
    match reply {
        Err(d) => e == d,
        Ok(content) => {
            let sel = lowercase(trim_spec(content));
            if sel == "none"@ || sel.len() == 0 {
                !any(cmds, selects(input)) && e == NOT_UNDERSTOOD@
            } else {
                !any(cmds, command_id_is(sel)) && e == "模型回覆了不存在的 command_id: "@ + sel
            }
        },
    }
}

/// `r` is what reading `reply` for `input` gives.
pub open spec fn routed(
    cmds: Seq<CommandDefView>,
    input: Seq<char>,
    reply: Result<Seq<char>, Seq<char>>,
    r: Result<IntentMatch, String>,
) -> bool {
    match r {
        Ok(m) => reply matches Ok(content) && model_route_ok(cmds, input, content, m),
        Err(e) => model_route_err(cmds, input, reply, e@),
    }
}

/// The characters of a model's reply, or of its failure.
pub open spec fn reply_chars(reply: Result<ModelResponse, String>) -> Result<Seq<char>, Seq<char>> {
    match reply {
        Ok(resp) => Ok(resp.content@),
        Err(e) => Err(e@),
    }
}

impl IntentRouter {
    /// A router over the built-in commands.
    pub fn new() -> (r: IntentRouter)
        ensures
            r.spec_db()@.commands == builtin_command_views(),
            r.spec_db()@.categories == builtin_categories(),
    {
        IntentRouter { db: IntentCommandDB::new() }
    }

    /// The command database.
    pub fn db(&self) -> (db: &IntentCommandDB)
        ensures
            db == self.spec_db(),
    {
        &self.db
    }

    /// The command database.
    pub closed spec fn spec_db(&self) -> &IntentCommandDB {
        &self.db
    }

    /// Keyword routing: the first command that `input` selects, with
    /// confidence 0.7.
    pub fn route_keyword(&self, input: &str) -> (r: Option<IntentMatch>)
        ensures
            r is Some <==> any(self.spec_db()@.commands, selects(input@)),
            r matches Some(m) ==> routes_to(
                m,
                self.spec_db()@.commands[first_index(self.spec_db()@.commands, selects(input@))],
                70,
            ),
    {
        match self.db.find_best_match(input) {
            Some(c) => Some(route_to(c, 70)),
            None => None,
        }
    }

    /// The prompt asking a model which command `input` wants.
    pub fn classification_prompt(&self, input: &str) -> (p: String)
        ensures
            p@ == classification_prompt(self.spec_db()@.commands, input@),
    {
        let ghost v = self.db@.commands;
        let n = self.db.commands.len();
        let mut entries: Vec<String> = Vec::new();
        for i in 0..n
            invariant
                n == self.db.commands@.len(),
                v == self.db@.commands,
                string_views(entries@) == v.take(i as int).map_values(
                    |c: CommandDefView| command_entry(c),
                ),
        {
            let c = &self.db.commands[i];
            let mut e = owned("- ");
            e.append(c.id.as_str());
            e.append(" (");
            e.append(c.category.as_str());
            e.append(")\n  aliases: ");
            let al = join(c.aliases.as_slice(), ", ");
            e.append(al.as_str());
            e.append("\n  description: ");
            e.append(c.description.as_str());
            let ghost before = entries@;
            entries.push(e);
            assert(string_views(entries@) =~= v.take(i + 1).map_values(
                |c: CommandDefView| command_entry(c),
            )) by {
                assert(string_views(entries@) =~= string_views(before).push(e@));
            }
        }
        assert(v.take(n as int) =~= v);
        let mut p = owned(CLASSIFY_HEAD);
        let list = join(entries.as_slice(), "\n\n");
        p.append(list.as_str());
        p.append("\n\n用戶輸入：");
        p.append(input);
        p.append("\n\ncommand_id：");
        p
    }

    /// Reads the model's `reply` for `input` (see `model_route_ok` and
    /// `model_route_err`).
    pub fn route_from_reply(&self, input: &str, reply: Result<ModelResponse, String>) -> (r: Result<
        IntentMatch,
        String,
    >)
        ensures
            routed(self.spec_db()@.commands, input@, reply_chars(reply), r),
    {
        let resp = match reply {
            Ok(resp) => resp,
            Err(e) => {
                return Err(e);
            },
        };
        let t = trim(resp.content.as_str());
        let sel = to_lowercase(t.as_str());
        proof {
            reveal_strlit("none");
        }
        if same_text(sel.as_str(), "none") || sel.as_str().is_empty() {
            match self.route_keyword(input) {
                Some(m) => Ok(m),
                None => Err(owned(NOT_UNDERSTOOD)),
            }
        } else {
            match self.db.get(sel.as_str()) {
                Some(c) => Ok(route_to(c, 90)),
                None => {
                    let mut e = owned("模型回覆了不存在的 command_id: ");
                    e.append(sel.as_str());
                    Err(e)
                },
            }
        }
    }

    /// The request asking a model which command `input` wants.
    pub fn routing_request(&self, input: &str) -> (r: ModelRequest)
        ensures
            r.model@ == ROUTER_MODEL@,
            r.prompt@ == classification_prompt(self.spec_db()@.commands, input@),
            r.system_prompt is None,
            r.temperature_pct == 0,
            r.max_tokens is None,
    {
        let prompt = self.classification_prompt(input);
        ModelRequest::new(ROUTER_MODEL, prompt.as_str()).with_temperature_pct(0)
    }

    /// Routing by model: asks `backend` with `routing_request` and reads its
    /// reply.
    pub fn route_with_model(&self, input: &str, backend: &dyn ModelDispatcher) -> (r: Result<
        IntentMatch,
        String,
    >)
        ensures
            exists|reply: Result<Seq<char>, Seq<char>>|
                #[trigger] routed(self.spec_db()@.commands, input@, reply, r),
    {
        let reply = backend.dispatch(self.routing_request(input));
        let ghost rc = reply_chars(reply);
        let r = self.route_from_reply(input, reply);
        assert(routed(self.spec_db()@.commands, input@, rc, r));
        r
    }
}

impl Default for IntentRouter {
    fn default() -> (r: IntentRouter)
        ensures
            r.spec_db()@.commands == builtin_command_views(),
            r.spec_db()@.categories == builtin_categories(),
    {
        IntentRouter::new()
    }
}

} // verus!
