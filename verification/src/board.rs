//! The `board` command: what it shows of the state board for each of its
//! arguments. Reading and writing the board file is left to the caller.
use vstd::prelude::*;
use crate::ext::{format_utc, known_pattern, utc_text};
use crate::seqs::{any, count, first_index, keep};
use crate::state_board::{
    stage_counts, task_id_is, undelivered, EventEntry, EventEntryView, EventLevel, StateBoard,
    StateBoardView, TaskEntry, TaskEntryView, not_done, StageTransitionView,
};
use crate::text::{chars_of, concat, concat_spec, decimal, decimal_spec, owned, same_text, string_views, utf8_len, utf8_len_upto};

verus! {

/// What the `board` command was asked to do.
pub enum BoardCommand {
    /// Overview of all tasks.
    Summary,
    /// The undelivered events.
    Events,
    /// Remove the finished tasks.
    Clear,
    /// Details of the task with this identifier.
    Detail(String),
    /// Usage.
    Help,
}

/// What the arguments ask for: nothing or `status` gives the overview,
/// `events` the events, `clear` the clearing; any other first argument of 36
/// bytes is taken for a task identifier; else usage.
pub open spec fn command_of(args: Seq<Seq<char>>) -> BoardCommand {
    if args.len() == 0 || args[0] == "status"@ {
        BoardCommand::Summary
    } else if args[0] == "events"@ {
        BoardCommand::Events
    } else if args[0] == "clear"@ {
        BoardCommand::Clear
    } else if utf8_len(args[0]) == 36 {
        BoardCommand::Detail(arbitrary())
    } else {
        BoardCommand::Help
    }
}

/// The command asked for by `args`.
pub fn parse_board_args(args: &[String]) -> (c: BoardCommand)
    ensures
        c is Summary <==> command_of(string_views(args@)) is Summary,
        c is Events <==> command_of(string_views(args@)) is Events,
        c is Clear <==> command_of(string_views(args@)) is Clear,
        c is Help <==> command_of(string_views(args@)) is Help,
        c matches BoardCommand::Detail(id) ==> command_of(string_views(args@)) is Detail && id@
            == args@[0]@,
        command_of(string_views(args@)) is Detail ==> c is Detail,
{
    if args.len() == 0 {
        return BoardCommand::Summary;
    }
    let a = args[0].as_str();
    assert(string_views(args@)[0] == a@);
    if same_text(a, "status") {
        BoardCommand::Summary
    } else if same_text(a, "events") {
        BoardCommand::Events
    } else if same_text(a, "clear") {
        BoardCommand::Clear
    } else {
        let c = chars_of(a);
        if utf8_len_upto(c.as_slice(), 37) == 36 {
            BoardCommand::Detail(owned(a))
        } else {
            BoardCommand::Help
        }
    }
}

// ───────────────────────────── texts ─────────────────────────────

/// Frame around the overview's title.
pub const SUMMARY_HEADER: &'static str = "╔══════════════════════════════════════╗\n║       Evolution State Board          ║\n╚══════════════════════════════════════╝\n\n";

/// Frame around the event list's title.
pub const EVENTS_HEADER: &'static str = "╔══════════════════════════════════════╗\n║         未送達事件                   ║\n╚══════════════════════════════════════╝\n\n";

/// Frame around the task details' title.
pub const DETAIL_HEADER: &'static str = "╔══════════════════════════════════════╗\n║         任務詳情                    ║\n╚══════════════════════════════════════╝\n\n";

/// Shown when no event waits.
pub const NO_EVENTS: &'static str = "✅ 目前沒有未送達的事件";

/// Usage of the `board` command.
pub const BOARD_HELP: &'static str = "evolution board — 狀態看板\n\n用法：\n  evolution board          顯示所有任務概覽\n  evolution board events   顯示未送達事件\n  evolution board <uuid>   顯示單一任務詳情\n  evolution board clear    清除已完成任務\n  evolution board --help   顯示幫助\n\n範例：\n  evolution board\n  evolution board events\n  evolution board 550e8400-e29b-41d4-a716-446655440000\n  evolution board clear";

/// The mark shown for a stage, by its name.
pub open spec fn stage_mark(name: Seq<char>) -> Seq<char> {
    if name == "Pending"@ {
        "⚪"@
    } else if name == "Planning"@ {
        "🔵"@
    } else if name == "Executing"@ {
        "🟡"@
    } else if name == "Done"@ {
        "✅"@
    } else if name == "Blocked"@ {
        "🔴"@
    } else {
        "⚫"@
    }
}

fn stage_mark_of(name: &str) -> (m: &'static str)
    ensures
        m@ == stage_mark(name@),
{
    if same_text(name, "Pending") {
        "⚪"
    } else if same_text(name, "Planning") {
        "🔵"
    } else if same_text(name, "Executing") {
        "🟡"
    } else if same_text(name, "Done") {
        "✅"
    } else if same_text(name, "Blocked") {
        "🔴"
    } else {
        "⚫"
    }
}

/// The mark shown for an event's level.
pub open spec fn level_mark(level: EventLevel) -> Seq<char> {
    match level {
        EventLevel::Info => "ℹ️"@,
        EventLevel::Done => "✅"@,
        EventLevel::NeedsUser => "⚠️"@,
        EventLevel::Warning => "⚠️"@,
    }
}

/// The line of the overview for a stage and its number of tasks.
pub open spec fn stage_line(entry: (Seq<char>, nat)) -> Seq<char> {
    stage_mark(entry.0) + " "@ + entry.0 + "  -  "@ + decimal_spec(entry.1) + " tasks\n"@
}

/// The line of the overview for a task.
pub open spec fn task_list_line(t: TaskEntryView) -> Seq<char> {
    stage_mark(t.stage.name()) + " `"@ + t.id + "` "@ + t.name + "\n"@
}

/// The overview of board `b`.
pub open spec fn summary_text(b: StateBoardView) -> Seq<char> {
    let n = count(b.events, undelivered());
    SUMMARY_HEADER@ + "總任務數："@ + decimal_spec(b.tasks.len()) + "  tasks\n\n"@
        + concat_spec(stage_counts(b.tasks).map_values(|e: (Seq<char>, nat)| stage_line(e)))
        + (if n > 0 {
        "\n📬 有 "@ + decimal_spec(n) + " 個未送達事件，執行 `evolution board events` 查看\n"@
    } else {
        Seq::<char>::empty()
    }) + (if b.tasks.len() > 0 {
        "\n─── 任務列表 ───\n"@ + concat_spec(b.tasks.map_values(|t: TaskEntryView| task_list_line(t)))
    } else {
        Seq::<char>::empty()
    })
}

/// The line of the event list for the event at (zero-based) position `i`.
pub open spec fn event_list_line(i: int, e: EventEntryView) -> Seq<char> {
    let task_info = match e.task_id {
        Some(id) => " [任務: "@ + id + "]"@,
        None => Seq::<char>::empty(),
    };
    decimal_spec((i + 1) as nat) + ". "@ + level_mark(e.level) + " "@ + e.message + task_info + "\n"@
}

/// The list of the undelivered events of board `b`.
pub open spec fn events_text(b: StateBoardView) -> Seq<char> {
    let pending = keep(b.events, undelivered());
    if pending.len() == 0 {
        NO_EVENTS@
    } else {
        EVENTS_HEADER@ + concat_spec(
            Seq::new(pending.len(), |i: int| event_list_line(i, pending[i])),
        )
    }
}

/// Pattern for full dates.
pub open spec fn long_pattern() -> Seq<char> {
    "%Y-%m-%d %H:%M:%S"@
}

/// Pattern for the dates of the stage history.
pub open spec fn short_pattern() -> Seq<char> {
    "%m/%d %H:%M"@
}

/// The line of the stage history for the change at (zero-based) position `i`.
pub open spec fn history_line(i: int, h: StageTransitionView) -> Seq<char> {
    let note = match h.note {
        Some(n) => " ["@ + n + "]"@,
        None => Seq::<char>::empty(),
    };
    decimal_spec((i + 1) as nat) + ". "@ + h.from.name() + " → "@ + h.to.name() + note + " ("@
        + utc_text(h.at.spec_micros(), short_pattern()) + ")\n"@
}

/// The details of task `t`.
pub open spec fn detail_text(t: TaskEntryView) -> Seq<char> {
    DETAIL_HEADER@ + "ID："@ + t.id + "  "@ + stage_mark(t.stage.name()) + " "@ + t.stage.name()
        + "\n"@ + "建立："@ + utc_text(t.created_at.spec_micros(), long_pattern()) + "\n"@
        + "更新："@ + utc_text(t.updated_at.spec_micros(), long_pattern()) + "\n"@ + (if t.history.len()
        > 0 {
        "\n─── 階段歷史 ───\n"@ + concat_spec(
            Seq::new(t.history.len(), |i: int| history_line(i, t.history[i])),
        )
    } else {
        Seq::<char>::empty()
    })
}

/// The message after clearing `n` finished tasks.
pub open spec fn cleared_text(n: nat) -> Seq<char> {
    "已清除 "@ + decimal_spec(n) + " 個已完成任務"@
}

/// The message for an unknown task identifier.
pub open spec fn unknown_task_text(id: Seq<char>) -> Seq<char> {
    "找不到任務："@ + id
}

// ───────────────────────────── rendering ─────────────────────────────

/// The overview of `board`.
pub fn show_board_summary(board: &StateBoard) -> (s: String)
    ensures
        s@ == summary_text(board@),
{
    let summary = board.summary();
    let mut out = owned(SUMMARY_HEADER);
    out.append("總任務數：");
    out.append(decimal(summary.total).as_str());
    out.append("  tasks\n\n");
    let ghost counts = stage_counts(board@.tasks);
    let mut lines: Vec<String> = Vec::new();
    let n = summary.by_stage.len();
    for k in 0..n
        invariant
            n == summary.by_stage@.len(),
            crate::state_board::count_views(summary.by_stage@) == counts,
            string_views(lines@) == counts.take(k as int).map_values(
                |e: (Seq<char>, nat)| stage_line(e),
            ),
    {
        let (name, c) = &summary.by_stage[k];
        assert(counts[k as int] == (name@, *c as nat));
        let mut l = owned(stage_mark_of(name.as_str()));
        l.append(" ");
        l.append(name.as_str());
        l.append("  -  ");
        l.append(decimal(*c).as_str());
        l.append(" tasks\n");
        let ghost before = lines@;
        lines.push(l);
        assert(string_views(lines@) =~= counts.take(k + 1).map_values(
            |e: (Seq<char>, nat)| stage_line(e),
        )) by {
            assert(string_views(lines@) =~= string_views(before).push(l@));
        }
    }
    assert(counts.take(n as int) =~= counts);
    out.append(concat(lines.as_slice()).as_str());
    if summary.undelivered_events > 0 {
        out.append("\n📬 有 ");
        out.append(decimal(summary.undelivered_events).as_str());
        out.append(" 個未送達事件，執行 `evolution board events` 查看\n");
    }
    let tasks = board.list_tasks();
    let ghost tv = board@.tasks;
    if tasks.len() > 0 {
        out.append("\n─── 任務列表 ───\n");
        let mut tl: Vec<String> = Vec::new();
        let m = tasks.len();
        for k in 0..m
            invariant
                m == tasks@.len(),
                crate::state_board::task_views(tasks@) == tv,
                string_views(tl@) == tv.take(k as int).map_values(
                    |t: TaskEntryView| task_list_line(t),
                ),
        {
            let t = &tasks[k];
            assert(tv[k as int] == t@);
            let mut l = owned(stage_mark_of(t.stage.as_str()));
            l.append(" `");
            l.append(t.id.as_str());
            l.append("` ");
            l.append(t.name.as_str());
            l.append("\n");
            let ghost before = tl@;
            tl.push(l);
            assert(string_views(tl@) =~= tv.take(k + 1).map_values(
                |t: TaskEntryView| task_list_line(t),
            )) by {
                assert(string_views(tl@) =~= string_views(before).push(l@));
            }
        }
        assert(tv.take(m as int) =~= tv);
        out.append(concat(tl.as_slice()).as_str());
    }
    out
}

fn level_mark_of(level: EventLevel) -> (m: &'static str)
    ensures
        m@ == level_mark(level),
{
    match level {
        EventLevel::Info => "ℹ️",
        EventLevel::Done => "✅",
        EventLevel::NeedsUser => "⚠️",
        EventLevel::Warning => "⚠️",
    }
}

/// The list of the undelivered events of `board`.
pub fn show_events(board: &StateBoard) -> (s: String)
    ensures
        s@ == events_text(board@),
{
    let events = board.undelivered_events();
    let ghost pending = keep(board@.events, undelivered());
    if events.len() == 0 {
        return owned(NO_EVENTS);
    }
    let mut lines: Vec<String> = Vec::new();
    let n = events.len();
    let ghost all = Seq::new(pending.len(), |i: int| event_list_line(i, pending[i]));
    for k in 0..n
        invariant
            n == events@.len(),
            crate::state_board::event_ref_views(events@) == pending,
            all == Seq::new(pending.len(), |i: int| event_list_line(i, pending[i])),
            string_views(lines@) == all.take(k as int),
    {
        let e: &EventEntry = events[k];
        assert(pending[k as int] == e@);
        let mut l = decimal(k + 1);
        l.append(". ");
        l.append(level_mark_of(e.level));
        l.append(" ");
        l.append(e.message.as_str());
        match &e.task_id {
            Some(id) => {
                l.append(" [任務: ");
                l.append(id.as_str());
                l.append("]");
            },
            None => {},
        }
        l.append("\n");
        assert(all[k as int] == event_list_line(k as int, pending[k as int]));
        assert(l@ == event_list_line(k as int, e@));
        let ghost before = lines@;
        lines.push(l);
        assert(string_views(lines@) =~= all.take(k + 1)) by {
            assert(string_views(lines@) =~= string_views(before).push(l@));
        }
    }
    assert(all.take(n as int) =~= all);
    let mut out = owned(EVENTS_HEADER);
    out.append(concat(lines.as_slice()).as_str());
    out
}

/// The details of the first task of `board` with identifier `task_id`, or
/// the message that there is none.
pub fn show_task_detail(board: &StateBoard, task_id: &str) -> (r: Result<String, String>)
    ensures
        match r {
            Ok(s) => any(board@.tasks, task_id_is(task_id@)) && s@ == detail_text(
                board@.tasks[first_index(board@.tasks, task_id_is(task_id@))],
            ),
            Err(e) => !any(board@.tasks, task_id_is(task_id@)) && e@ == unknown_task_text(task_id@),
        },
{
    let task: &TaskEntry = match board.get_task(task_id) {
        Some(t) => t,
        None => {
            let mut e = owned("找不到任務：");
            e.append(task_id);
            return Err(e);
        },
    };
    proof {
        reveal_strlit("%Y-%m-%d %H:%M:%S");
        reveal_strlit("%m/%d %H:%M");
    }
    let mut out = owned(DETAIL_HEADER);
    out.append("ID：");
    out.append(task.id.as_str());
    out.append("  ");
    out.append(stage_mark_of(task.stage.as_str()));
    out.append(" ");
    out.append(task.stage.as_str());
    out.append("\n");
    out.append("建立：");
    let long = "%Y-%m-%d %H:%M:%S";
    assert(known_pattern(long@));
    out.append(format_utc(task.created_at.micros(), long).as_str());
    out.append("\n");
    out.append("更新：");
    out.append(format_utc(task.updated_at.micros(), long).as_str());
    out.append("\n");
    let n = task.history.len();
    if n > 0 {
        out.append("\n─── 階段歷史 ───\n");
        let ghost hv = task@.history;
        let ghost all = Seq::new(hv.len(), |i: int| history_line(i, hv[i]));
        let short = "%m/%d %H:%M";
        assert(known_pattern(short@));
        let mut lines: Vec<String> = Vec::new();
        for k in 0..n
            invariant
                n == task.history@.len(),
                hv == task@.history,
                hv == crate::state_board::transition_views(task.history@),
                all == Seq::new(hv.len(), |i: int| history_line(i, hv[i])),
                string_views(lines@) == all.take(k as int),
                known_pattern(short@),
                short@ == short_pattern(),
        {
            let h = &task.history[k];
            assert(hv[k as int] == h@);
            let mut l = decimal(k + 1);
            l.append(". ");
            l.append(h.from.as_str());
            l.append(" → ");
            l.append(h.to.as_str());
            match &h.note {
                Some(note) => {
                    l.append(" [");
                    l.append(note.as_str());
                    l.append("]");
                },
                None => {},
            }
            l.append(" (");
            l.append(format_utc(h.at.micros(), short).as_str());
            l.append(")\n");
            assert(all[k as int] == history_line(k as int, hv[k as int]));
            assert(l@ == history_line(k as int, h@));
            let ghost before = lines@;
            lines.push(l);
            assert(string_views(lines@) =~= all.take(k + 1)) by {
                assert(string_views(lines@) =~= string_views(before).push(l@));
            }
        }
        assert(all.take(n as int) =~= all);
        out.append(concat(lines.as_slice()).as_str());
    }
    Ok(out)
}

/// Removes the finished tasks of `board`; the message telling how many.
pub fn clear_done(board: &mut StateBoard) -> (s: String)
    ensures
        final(board)@.tasks == keep(old(board)@.tasks, not_done()),
        final(board)@.events == old(board)@.events,
        final(board)@.presence == old(board)@.presence,
        s@ == cleared_text((old(board)@.tasks.len() - final(board)@.tasks.len()) as nat),
{
    let count = board.clear_done();
    let mut s = owned("已清除 ");
    s.append(decimal(count).as_str());
    s.append(" 個已完成任務");
    s
}

/// Usage of the `board` command.
pub fn help() -> (s: String)
    ensures
        s@ == BOARD_HELP@,
{
    owned(BOARD_HELP)
}

/// `r` is a success holding `text`.
pub open spec fn ok_text(r: Result<String, String>, text: Seq<char>) -> bool {
    r matches Ok(s) && s@ == text
}

/// Runs the `board` command with `args` on `state`: the overview, the event
/// list, the clearing of finished tasks, the details of one task, or usage.
/// Only clearing changes the board.
pub fn board(args: &[String], state: &mut StateBoard) -> (r: Result<String, String>)
    ensures
        ({
            let c = command_of(string_views(args@));
            &&& !(c is Clear) ==> final(state)@ == old(state)@
            &&& c is Summary ==> ok_text(r, summary_text(old(state)@))
            &&& c is Events ==> ok_text(r, events_text(old(state)@))
            &&& c is Clear ==> {
                &&& final(state)@.tasks == keep(old(state)@.tasks, not_done())
                &&& final(state)@.events == old(state)@.events
                &&& final(state)@.presence == old(state)@.presence
                &&& ok_text(r, cleared_text((old(state)@.tasks.len() - final(state)@.tasks.len()) as nat))
            }
            &&& c is Help ==> ok_text(r, BOARD_HELP@)
            &&& c is Detail ==> {
                let id = args@[0]@;
                match r {
                    Ok(s) => any(old(state)@.tasks, task_id_is(id)) && s@ == detail_text(
                        old(state)@.tasks[first_index(old(state)@.tasks, task_id_is(id))],
                    ),
                    Err(e) => !any(old(state)@.tasks, task_id_is(id)) && e@ == unknown_task_text(
                        id,
                    ),
                }
            }
        }),
{
    match parse_board_args(args) {
        BoardCommand::Summary => Ok(show_board_summary(state)),
        BoardCommand::Events => Ok(show_events(state)),
        BoardCommand::Clear => Ok(clear_done(state)),
        BoardCommand::Detail(id) => show_task_detail(state, id.as_str()),
        BoardCommand::Help => Ok(help()),
    }
}

} // verus!
