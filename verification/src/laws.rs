//! Properties of the library that span several operations or hold of all
//! inputs, proved over the specifications that the operations' contracts use.
use vstd::prelude::*;
use crate::agent::{git_next, GitFlowView, GitStage};
use crate::event_generator::rule_description;
use crate::process::RunOutcome;
use crate::shell::{outcome_note, outcome_stage, started, with_started};
use crate::time::Timestamp;
use crate::board::{detail_text, history_line, long_pattern, stage_mark, DETAIL_HEADER};
use crate::boot::{lists_model, BOOT_MODEL};
use crate::ext::utc_text;
use crate::intent_router::{description_words, fill_cli, matches_spec, selects, CommandDefView};
use crate::shell::outcome_answer;
use crate::text::{concat_spec, contains_spec, join_spec, lowercase, occurs_at, replace_spec, starts_with_spec, trim_spec, utf8_len};
use crate::seqs::{any, count, first_index, is_first, keep, lemma_first_index, lemma_first_index_any, lemma_keep, lemma_keep_complement, lemma_keep_has, lemma_keep_none};
use crate::state_board::{
    delivered_copy, drain_spec, event_id_is, undelivered, undelivered_ids, EventEntryView, board_of, event_base, in_stage, not_done, raised_event, snapshot_of, stage_counts,
    task_id_is, task_id_is_not, transitioned, StateBoardView, TaskEntryView, TaskStage,
    event_level, fresh_task, stage_updated, all_stages, nonzero, stage_tally,
};

verus! {

/// A task added at the end under an identifier that no earlier task has is
/// the one that a lookup by that identifier finds.
pub proof fn law_created_task_is_found(tasks: Seq<TaskEntryView>, t: TaskEntryView)
    requires
        !any(tasks, task_id_is(t.id)),
    ensures
        first_index(tasks.push(t), task_id_is(t.id)) == tasks.len(),
        tasks.push(t)[tasks.len() as int] == t,
{
    let s = tasks.push(t);
    assert(is_first(s, task_id_is(t.id), tasks.len() as int)) by {
        assert forall|j: int| 0 <= j < tasks.len() implies !task_id_is(t.id)(#[trigger] s[j]) by {
            assert(s[j] == tasks[j]);
        }
    }
    lemma_first_index(s, task_id_is(t.id), tasks.len() as int);
}

/// After a task moves to a stage, a lookup by its identifier finds it again,
/// in the new stage, with the change as the last entry of its history.
pub proof fn law_update_then_lookup(
    tasks: Seq<TaskEntryView>,
    id: Seq<char>,
    stage: TaskStage,
    note: Option<Seq<char>>,
    at: crate::time::Timestamp,
)
    requires
        any(tasks, task_id_is(id)),
    ensures
        ({
            let i = first_index(tasks, task_id_is(id));
            let after = tasks.update(i, transitioned(tasks[i], stage, note, at));
            &&& first_index(after, task_id_is(id)) == i
            &&& after[i].stage == stage
            &&& after[i].history.len() == tasks[i].history.len() + 1
            &&& after[i].history.last().from == tasks[i].stage
            &&& after[i].history.last().to == stage
            &&& after[i].name == tasks[i].name
        }),
{
    lemma_first_index_any(tasks, task_id_is(id));
    let i = first_index(tasks, task_id_is(id));
    let after = tasks.update(i, transitioned(tasks[i], stage, note, at));
    assert(is_first(after, task_id_is(id), i)) by {
        assert forall|j: int| 0 <= j < i implies !task_id_is(id)(#[trigger] after[j]) by {
            assert(after[j] == tasks[j]);
        }
    }
    lemma_first_index(after, task_id_is(id), i);
}

/// Without a backend, the event raised on entering `Done` or `Blocked`
/// carries the fixed message followed by the rule-based reading of the change.
pub proof fn law_event_without_backend(
    e: EventEntryView,
    from: TaskStage,
    stage: TaskStage,
    name: Seq<char>,
    id: Seq<char>,
)
    requires
        raised_event(e, from, stage, name, id, false),
    ensures
        e.message == event_base(stage, name) + " — "@ + rule_description(from, stage),
        e.level == event_level(stage),
        e.task_id == Some(id),
        !e.delivered,
{
}

/// After removing by an identifier no task with it is left, and removing
/// again changes nothing (and so reports that nothing was removed).
pub proof fn law_remove_is_final(tasks: Seq<TaskEntryView>, id: Seq<char>)
    ensures
        !any(keep(tasks, task_id_is_not(id)), task_id_is(id)),
        keep(keep(tasks, task_id_is_not(id)), task_id_is_not(id)) == keep(tasks, task_id_is_not(id)),
{
    let r = keep(tasks, task_id_is_not(id));
    lemma_keep(tasks, task_id_is_not(id));
    lemma_keep(r, task_id_is_not(id));
    if any(r, task_id_is(id)) {
        let j = choose|j: int| 0 <= j < r.len() && task_id_is(id)(#[trigger] r[j]);
        assert(task_id_is_not(id)(r[j]));
    }
}

/// Restoring a board from its snapshot gives the same board back.
pub proof fn law_snapshot_roundtrip(b: StateBoardView)
    ensures
        board_of(snapshot_of(b)) == b,
{
}

/// Clearing finished tasks removes exactly the tasks in stage `Done`, and
/// leaves none behind.
pub proof fn law_clear_done_counts(tasks: Seq<TaskEntryView>)
    ensures
        tasks.len() - keep(tasks, not_done()).len() == count(tasks, in_stage(TaskStage::Done)),
        count(keep(tasks, not_done()), in_stage(TaskStage::Done)) == 0,
{
    lemma_keep_complement(tasks, in_stage(TaskStage::Done), not_done());
    let r = keep(tasks, not_done());
    lemma_keep(tasks, not_done());
    assert forall|i: int| 0 <= i < r.len() implies !in_stage(TaskStage::Done)(#[trigger] r[i]) by {
        assert(not_done()(r[i]));
    }
    lemma_keep_none(r, in_stage(TaskStage::Done));
}

/// Sum of the counts of a list of (name, count) entries.
pub open spec fn sum_counts(s: Seq<(Seq<char>, nat)>) -> nat
    decreases s.len(),
{
    if s.len() == 0 {
        0
    } else {
        sum_counts(s.drop_last()) + s.last().1
    }
}

proof fn lemma_sum_keep_nonzero(s: Seq<(Seq<char>, nat)>)
    ensures
        sum_counts(keep(s, crate::state_board::nonzero())) == sum_counts(s),
    decreases s.len(),
{
    if s.len() > 0 {
        lemma_sum_keep_nonzero(s.drop_last());
        let r = keep(s.drop_last(), crate::state_board::nonzero());
        if s.last().1 > 0 {
            assert(r.push(s.last()).drop_last() =~= r);
        }
    }
}

proof fn lemma_five_counts(tasks: Seq<TaskEntryView>)
    ensures
        count(tasks, in_stage(TaskStage::Pending)) + count(tasks, in_stage(TaskStage::Planning))
            + count(tasks, in_stage(TaskStage::Executing)) + count(tasks, in_stage(TaskStage::Done))
            + count(tasks, in_stage(TaskStage::Blocked)) == tasks.len(),
    decreases tasks.len(),
{
    if tasks.len() > 0 {
        lemma_five_counts(tasks.drop_last());
    }
}

/// The per-stage counts of a summary add up to the number of tasks.
pub proof fn law_summary_counts_total(tasks: Seq<TaskEntryView>)
    ensures
        sum_counts(stage_counts(tasks)) == tasks.len(),
{
    let t = crate::state_board::stage_tally(tasks);
    lemma_sum_keep_nonzero(t);
    lemma_five_counts(tasks);
    assert(t.drop_last().drop_last().drop_last().drop_last().drop_last() =~= Seq::<(Seq<char>, nat)>::empty());
    assert(sum_counts(t) == t[0].1 + t[1].1 + t[2].1 + t[3].1 + t[4].1) by {
        reveal_with_fuel(sum_counts, 6);
    }
}

/// No undelivered event shares its identifier with an earlier event.
pub open spec fn undelivered_ids_unshared(es: Seq<EventEntryView>) -> bool {
    forall|i: int, j: int| 0 <= i < j < es.len() && !es[j].delivered ==> es[i].id != es[j].id
}

/// The events, each marked delivered.
pub open spec fn all_delivered(es: Seq<EventEntryView>) -> Seq<EventEntryView> {
    es.map_values(|e: EventEntryView| delivered_copy(e))
}

proof fn lemma_first_index_push<T>(s: Seq<T>, x: T, p: spec_fn(T) -> bool)
    requires
        any(s, p),
    ensures
        first_index(s.push(x), p) == first_index(s, p),
{
    lemma_first_index_any(s, p);
    let i = first_index(s, p);
    assert(is_first(s.push(x), p, i)) by {
        assert forall|j: int| 0 <= j < i implies !p(#[trigger] s.push(x)[j]) by {
            assert(s.push(x)[j] == s[j]);
        }
    }
    lemma_first_index(s.push(x), p, i);
}

proof fn lemma_drain_keeps_ids(events: Seq<EventEntryView>, ids: Seq<Seq<char>>)
    ensures
        drain_spec(events, ids).0.len() == events.len(),
        forall|i: int| 0 <= i < events.len() ==> #[trigger] drain_spec(events, ids).0[i].id == events[i].id,
    decreases ids.len(),
{
    if ids.len() > 0 {
        lemma_drain_keeps_ids(events, ids.drop_last());
    }
}

proof fn lemma_drain_push(events: Seq<EventEntryView>, x: EventEntryView, ids: Seq<Seq<char>>)
    requires
        forall|k: int| 0 <= k < ids.len() ==> any(events, event_id_is(#[trigger] ids[k])),
    ensures
        drain_spec(events.push(x), ids) == (drain_spec(events, ids).0.push(x), drain_spec(events, ids).1),
    decreases ids.len(),
{
    if ids.len() > 0 {
        let prev = ids.drop_last();
        assert forall|k: int| 0 <= k < prev.len() implies any(events, event_id_is(#[trigger] prev[k])) by {
            assert(prev[k] == ids[k]);
        }
        lemma_drain_push(events, x, prev);
        lemma_drain_keeps_ids(events, prev);
        let (es, out) = drain_spec(events, prev);
        let id = ids.last();
        assert(any(es, event_id_is(id))) by {
            assert(any(events, event_id_is(ids[ids.len() - 1])));
            let j = choose|j: int| 0 <= j < events.len() && event_id_is(id)(#[trigger] events[j]);
            assert(es[j].id == events[j].id);
            assert(event_id_is(id)(es[j]));
        }
        lemma_first_index_push(es, x, event_id_is(id));
        lemma_first_index_any(es, event_id_is(id));
        let i = first_index(es, event_id_is(id));
        assert(es.push(x).update(i, delivered_copy(es.push(x)[i])) =~= es.update(i, delivered_copy(es[i])).push(x));
    }
}

/// Where no undelivered event shares its identifier with an earlier event
/// (in particular, where all identifiers differ), draining marks every event
/// delivered, returns exactly the events that were undelivered (as
/// delivered), in order, and leaves no event undelivered.
pub proof fn law_drain_delivers_all(events: Seq<EventEntryView>)
    requires
        undelivered_ids_unshared(events),
    ensures
        drain_spec(events, undelivered_ids(events)) == (
            all_delivered(events),
            all_delivered(keep(events, undelivered())),
        ),
        count(all_delivered(events), undelivered()) == 0,
    decreases events.len(),
{
    if events.len() > 0 {
        let e = events.drop_last();
        let x = events.last();
        assert(e.push(x) =~= events);
        assert(undelivered_ids_unshared(e)) by {
            assert forall|i: int, j: int|
                0 <= i < j < e.len() && !e[j].delivered implies e[i].id != e[j].id by {
                assert(e[i] == events[i] && e[j] == events[j]);
            }
        }
        law_drain_delivers_all(e);
        let ids = undelivered_ids(e);
        lemma_keep(e, undelivered());
        assert forall|k: int| 0 <= k < ids.len() implies any(e, event_id_is(#[trigger] ids[k])) by {
            let y = keep(e, undelivered())[k];
            assert(e.contains(y));
            let j = choose|j: int| 0 <= j < e.len() && e[j] == y;
            assert(event_id_is(ids[k])(e[j]));
        }
        lemma_drain_push(e, x, ids);
        if !x.delivered {
            assert(undelivered_ids(events) =~= ids.push(x.id)) by {
                assert(keep(events, undelivered()) == keep(e, undelivered()).push(x));
            }
            let es = all_delivered(e).push(x);
            assert(is_first(es, event_id_is(x.id), e.len() as int)) by {
                assert forall|j: int| 0 <= j < e.len() implies !event_id_is(x.id)(#[trigger] es[j]) by {
                    assert(es[j].id == events[j].id);
                    assert(events[j].id != events[e.len() as int].id);
                }
            }
            lemma_first_index(es, event_id_is(x.id), e.len() as int);
            assert(undelivered_ids(events).drop_last() =~= ids);
            assert(es.update(e.len() as int, delivered_copy(es[e.len() as int])) =~= all_delivered(events));
            assert(all_delivered(keep(e, undelivered())).push(delivered_copy(x)) =~= all_delivered(
                keep(events, undelivered()),
            ));
        } else {
            assert(undelivered_ids(events) =~= ids) by {
                assert(keep(events, undelivered()) == keep(e, undelivered()));
            }
            assert(delivered_copy(x) == x);
            assert(all_delivered(e).push(x) =~= all_delivered(events));
            assert(keep(events, undelivered()) == keep(e, undelivered()));
        }
    }
    assert forall|i: int| 0 <= i < all_delivered(events).len() implies !undelivered()(
        #[trigger] all_delivered(events)[i],
    ) by {}
    lemma_keep_none(all_delivered(events), undelivered());
}

/// A command run whose task identifier no earlier task has is tracked by a
/// new last task named after the command, in stage `Executing`, whose
/// history holds the one change from `Pending`.
pub proof fn law_started_task_is_last(
    before: Seq<TaskEntryView>,
    after: Seq<TaskEntryView>,
    id: Seq<char>,
    name: Seq<char>,
)
    requires
        started(before, after, id, name),
        !any(before, task_id_is(id)),
    ensures
        after.len() == before.len() + 1,
        after.drop_last() == before,
        after.last().id == id,
        after.last().name == name,
        after.last().stage == TaskStage::Executing,
        after.last().history.len() == 1,
        after.last().history[0].from == TaskStage::Pending,
        after.last().history[0].to == TaskStage::Executing,
        after.last().history[0].note is None,
{
    let (t, at) = choose|t: TaskEntryView, at: Timestamp|
        fresh_task(t, id, name) && after == #[trigger] with_started(before, t, at, id);
    law_created_task_is_found(before, t);
    assert(after.drop_last() =~= before);
}

/// Finishing a run whose task identifier no earlier task had moves that
/// last task to `Done` on success and to `Blocked` otherwise, records the
/// outcome's note as the last change of its history, leaves the other tasks
/// alone, and raises one event for the user with the fixed message for the
/// stage followed by the rule-based reading of the change from `Executing`.
pub proof fn law_finished_run(
    before: StateBoardView,
    running: StateBoardView,
    after: StateBoardView,
    id: Seq<char>,
    name: Seq<char>,
    outcome: RunOutcome,
)
    requires
        started(before.tasks, running.tasks, id, name),
        !any(before.tasks, task_id_is(id)),
        stage_updated(running, after, id, outcome_stage(outcome), outcome_note(outcome), false),
    ensures
        after.tasks.len() == before.tasks.len() + 1,
        after.tasks.drop_last() == before.tasks,
        after.tasks.last().stage == outcome_stage(outcome),
        after.tasks.last().history.len() == 2,
        after.tasks.last().history.last().from == TaskStage::Executing,
        after.tasks.last().history.last().note == outcome_note(outcome),
        after.events.drop_last() == running.events,
        after.events.last().message == event_base(outcome_stage(outcome), name) + " — "@
            + rule_description(TaskStage::Executing, outcome_stage(outcome)),
        after.events.last().level == event_level(outcome_stage(outcome)),
        after.events.last().task_id == Some(id),
        !after.events.last().delivered,
{
    law_started_task_is_last(before.tasks, running.tasks, id, name);
    let n = before.tasks.len();
    assert(is_first(running.tasks, task_id_is(id), n as int)) by {
        assert forall|j: int| 0 <= j < n implies !task_id_is(id)(#[trigger] running.tasks[j]) by {
            assert(running.tasks[j] == before.tasks[j]);
        }
    }
    lemma_first_index(running.tasks, task_id_is(id), n as int);
    assert(after.tasks.drop_last() =~= before.tasks);
    law_event_without_backend(
        after.events.last(),
        TaskStage::Executing,
        outcome_stage(outcome),
        name,
        id,
    );
}

/// The position of a publishing stage in the order the git commands run.
pub open spec fn git_stage_rank(s: GitStage) -> int {
    match s {
        GitStage::Status => 0,
        GitStage::Add => 1,
        GitStage::Commit => 2,
        GitStage::Push => 3,
        GitStage::Tag => 4,
        GitStage::PushTags => 5,
        GitStage::Done => 6,
    }
}

/// Publishing always moves forward: every outcome of a git command leads to
/// a later stage, so publishing ends after at most six commands, and a step
/// asks for a further command exactly when publishing is not over.
pub proof fn law_publishing_advances(f: GitFlowView, o: RunOutcome, micros: i64)
    requires
        f.stage != GitStage::Done,
    ensures
        git_stage_rank(git_next(f, o, micros).0.stage) > git_stage_rank(f.stage),
        git_next(f, o, micros).1.run is Some <==> git_next(f, o, micros).0.stage != GitStage::Done,
{
}

/// For each stage, the summary's per-stage counts list the stage, with the
/// number of its tasks, exactly when it holds a task.
pub proof fn law_summary_stage_entry(tasks: Seq<TaskEntryView>, s: TaskStage)
    ensures
        count(tasks, in_stage(s)) > 0 <==> stage_counts(tasks).contains(
            (s.name(), count(tasks, in_stage(s))),
        ),
{
    let e = (s.name(), count(tasks, in_stage(s)));
    let t = stage_tally(tasks);
    let i: int = match s {
        TaskStage::Pending => 0,
        TaskStage::Planning => 1,
        TaskStage::Executing => 2,
        TaskStage::Done => 3,
        TaskStage::Blocked => 4,
    };
    assert(all_stages()[i] == s);
    assert(t[i] == e);
    assert(t.contains(e));
    lemma_keep(t, nonzero());
    if count(tasks, in_stage(s)) > 0 {
        lemma_keep_has(t, nonzero(), e);
    } else if stage_counts(tasks).contains(e) {
        let k = choose|k: int| 0 <= k < stage_counts(tasks).len() && stage_counts(tasks)[k] == e;
        assert(nonzero()(stage_counts(tasks)[k]));
    }
}

/// Where no undelivered event shares its identifier with an earlier event,
/// draining a second time right after a drain returns nothing and changes
/// nothing.
pub proof fn law_drain_twice(events: Seq<EventEntryView>)
    requires
        undelivered_ids_unshared(events),
    ensures
        ({
            let after = drain_spec(events, undelivered_ids(events)).0;
            drain_spec(after, undelivered_ids(after)) == (after, Seq::<EventEntryView>::empty())
        }),
{
    law_drain_delivers_all(events);
    let after = all_delivered(events);
    assert(keep(after, undelivered()).len() == 0);
    assert(undelivered_ids(after) =~= Seq::<Seq<char>>::empty());
}

// ───────────────────────────── routing ─────────────────────────────

/// Keyword matching ignores letter case on both sides: a request selects a
/// command whenever the lower-cased request holds the lower-cased form of one
/// of the command's aliases, or of one of its description words that take
/// more than one byte.
pub proof fn law_keyword_selects(c: CommandDefView, input: Seq<char>, w: Seq<char>)
    requires
        c.aliases.contains(w) || (description_words(c.description).contains(w) && utf8_len(w) > 1),
        contains_spec(lowercase(input), lowercase(w)),
    ensures
        matches_spec(c, input),
{
    if c.aliases.contains(w) {
        let k = choose|k: int| 0 <= k < c.aliases.len() && c.aliases[k] == w;
        assert(contains_spec(lowercase(input), lowercase(c.aliases[k])));
    } else {
        let words = description_words(c.description);
        let k = choose|k: int| 0 <= k < words.len() && words[k] == w;
        assert(utf8_len(words[k]) > 1 && contains_spec(lowercase(input), lowercase(words[k])));
    }
}

/// A request selects a command only through such a keyword: some alias, or
/// some description word of more than one byte, whose lower-cased form the
/// lower-cased request holds.
pub proof fn law_selection_has_keyword(c: CommandDefView, input: Seq<char>)
    requires
        matches_spec(c, input),
    ensures
        exists|w: Seq<char>|
            (c.aliases.contains(w) || (description_words(c.description).contains(w) && utf8_len(w)
                > 1)) && contains_spec(lowercase(input), #[trigger] lowercase(w)),
{
    let words = description_words(c.description);
    if exists|k: int| 0 <= k < c.aliases.len() && contains_spec(lowercase(input), lowercase(#[trigger] c.aliases[k])) {
        let k = choose|k: int| 0 <= k < c.aliases.len() && contains_spec(lowercase(input), lowercase(#[trigger] c.aliases[k]));
        assert(c.aliases.contains(c.aliases[k]));
    } else {
        let k = choose|k: int|
            0 <= k < words.len() && utf8_len(#[trigger] words[k]) > 1 && contains_spec(
                lowercase(input),
                lowercase(words[k]),
            );
        assert(words.contains(words[k]));
    }
}

/// Among several commands, the best match of a request is found at or before
/// any command that one of its keywords selects, lower-cased on both sides.
pub proof fn law_best_match_by_keyword(cmds: Seq<CommandDefView>, input: Seq<char>, i: int, w: Seq<char>)
    requires
        0 <= i < cmds.len(),
        cmds[i].aliases.contains(w) || (description_words(cmds[i].description).contains(w)
            && utf8_len(w) > 1),
        contains_spec(lowercase(input), lowercase(w)),
    ensures
        any(cmds, selects(input)),
        0 <= first_index(cmds, selects(input)) <= i,
{
    law_keyword_selects(cmds[i], input, w);
    assert(selects(input)(cmds[i]));
    lemma_first_index_any(cmds, selects(input));
}

// ───────────────────────────── command runs ─────────────────────────────

/// A successful run whose output is not blank is answered with its trimmed
/// output, whatever its error output holds.
pub proof fn law_run_answers_output(stdout: String, stderr: String, other_stderr: String)
    requires
        trim_spec(stdout@).len() > 0,
    ensures
        outcome_answer((RunOutcome::Exited { success: true, stdout, stderr })) == trim_spec(stdout@),
        outcome_answer((RunOutcome::Exited { success: true, stdout, stderr })) == outcome_answer(
            (RunOutcome::Exited { success: true, stdout, stderr: other_stderr }),
        ),
{
}

/// A successful run with blank output is answered with its trimmed error
/// output.
pub proof fn law_run_answers_error_output_when_blank(stdout: String, stderr: String)
    requires
        trim_spec(stdout@).len() == 0,
    ensures
        outcome_answer((RunOutcome::Exited { success: true, stdout, stderr })) == trim_spec(stderr@),
{
}

// ───────────────────────────── task details ─────────────────────────────

/// After a task changes stage at time `at`, its details show, one line after
/// another, its identifier with the new stage, its creation time on the 建立
/// line, and `at`, the time of that last change, on the 更新 line.
pub proof fn law_detail_shows_last_change(
    t: TaskEntryView,
    stage: TaskStage,
    note: Option<Seq<char>>,
    at: Timestamp,
)
    ensures
        contains_spec(
            detail_text(transitioned(t, stage, note, at)),
            "ID："@ + t.id + "  "@ + stage_mark(stage.name()) + " "@ + stage.name() + "\n建立："@
                + utc_text(t.created_at.spec_micros(), long_pattern()) + "\n更新："@ + utc_text(
                at.spec_micros(),
                long_pattern(),
            ) + "\n"@,
        ),
{
    let u = transitioned(t, stage, note, at);
    let created = utc_text(t.created_at.spec_micros(), long_pattern());
    let updated = utc_text(at.spec_micros(), long_pattern());
    let rest = if u.history.len() > 0 {
        "\n─── 階段歷史 ───\n"@ + concat_spec(
            Seq::new(u.history.len(), |i: int| history_line(i, u.history[i])),
        )
    } else {
        Seq::<char>::empty()
    };
    let y = "ID："@ + t.id + "  "@ + stage_mark(stage.name()) + " "@ + stage.name() + "\n建立："@
        + created + "\n更新："@ + updated + "\n"@;
    reveal_strlit("\n建立：");
    reveal_strlit("建立：");
    reveal_strlit("\n更新：");
    reveal_strlit("更新：");
    reveal_strlit("\n");
    let head = DETAIL_HEADER@;
    assert(detail_text(u) =~= head + y + rest);
    assert((head + y + rest).subrange(head.len() as int, (head.len() + y.len()) as int) =~= y);
    assert(occurs_at(detail_text(u), y, head.len() as int));
}

// ───────────────────────────── boot ─────────────────────────────

/// The checked model is found wherever it stands in the list: a list with a
/// name holding it at any position lists it.
pub proof fn law_boot_model_found_anywhere(models: Seq<Seq<char>>, i: int)
    requires
        0 <= i < models.len(),
        contains_spec(models[i], BOOT_MODEL@),
    ensures
        lists_model(models),
{
}

/// Whether the checked model is listed does not depend on the order of the
/// list: two lists with the same names, each as often, agree.
pub proof fn law_boot_model_order_free(a: Seq<Seq<char>>, b: Seq<Seq<char>>)
    requires
        a.to_multiset() == b.to_multiset(),
    ensures
        lists_model(a) == lists_model(b),
{
    a.to_multiset_ensures();
    b.to_multiset_ensures();
    if lists_model(a) {
        let i = choose|i: int| 0 <= i < a.len() && contains_spec(#[trigger] a[i], BOOT_MODEL@);
        assert(a.contains(a[i]));
        assert(a.to_multiset().count(a[i]) > 0);
        assert(b.contains(a[i]));
        let j = choose|j: int| 0 <= j < b.len() && b[j] == a[i];
        assert(contains_spec(b[j], BOOT_MODEL@));
    }
    if lists_model(b) {
        let i = choose|i: int| 0 <= i < b.len() && contains_spec(#[trigger] b[i], BOOT_MODEL@);
        assert(b.contains(b[i]));
        assert(b.to_multiset().count(b[i]) > 0);
        assert(a.contains(b[i]));
        let j = choose|j: int| 0 <= j < a.len() && a[j] == b[i];
        assert(contains_spec(a[j], BOOT_MODEL@));
    }
}

// ───────────────────────────── command lines ─────────────────────────────

/// Replacing in `a + b`, where `a` holds no character that starts the
/// pattern, leaves `a` as it is and replaces in `b`.
proof fn lemma_replace_after_prefix(a: Seq<char>, b: Seq<char>, p: Seq<char>, rep: Seq<char>)
    requires
        p.len() > 0,
        forall|k: int| 0 <= k < a.len() ==> a[k] != p[0],
    ensures
        replace_spec(a + b, p, rep) == a + replace_spec(b, p, rep),
    decreases a.len(),
{
    let s = a + b;
    if a.len() == 0 {
        assert(s =~= b);
    } else if s.len() < p.len() {
        assert(replace_spec(b, p, rep) == b);
    } else {
        assert(s.subrange(0, p.len() as int)[0] == a[0]);
        assert(!starts_with_spec(s, p));
        assert(s.drop_first() =~= a.drop_first() + b);
        lemma_replace_after_prefix(a.drop_first(), b, p, rep);
        assert(seq![s[0]] + (a.drop_first() + replace_spec(b, p, rep)) =~= a + replace_spec(b, p, rep));
    }
}

/// Filling the one parameter of a command line that holds its placeholder
/// `{name}` once, with no other brace before or after it, puts the value in
/// the placeholder's place, both braces included, and changes nothing else.
pub proof fn law_fill_single_slot(pre: Seq<char>, name: Seq<char>, post: Seq<char>, value: Seq<char>)
    requires
        forall|k: int| 0 <= k < pre.len() ==> pre[k] != '{',
        forall|k: int| 0 <= k < post.len() ==> post[k] != '{',
    ensures
        fill_cli(pre + "{"@ + name + "}"@ + post, seq![(name, value)]) == "evolution "@ + pre + value
            + post,
{
    reveal_strlit("{");
    reveal_strlit("}");
    reveal_strlit("evolution ");
    let args = seq![(name, value)];
    let cli = pre + "{"@ + name + "}"@ + post;
    let p = "{"@ + name + "}"@;
    let a = "evolution "@ + pre;
    assert(args.drop_last() =~= Seq::<(Seq<char>, Seq<char>)>::empty());
    assert(args.last() == (name, value));
    assert(fill_cli(cli, args.drop_last()) == "evolution "@ + cli);
    assert(fill_cli(cli, args) == replace_spec("evolution "@ + cli, p, value));
    assert(p[0] == '{');
    assert forall|k: int| 0 <= k < a.len() implies a[k] != p[0] by {
        if k >= 10 {
            assert(a[k] == pre[k - 10]);
        }
    }
    assert("evolution "@ + cli =~= a + (p + post));
    lemma_replace_after_prefix(a, p + post, p, value);
    assert((p + post).subrange(0, p.len() as int) =~= p);
    assert((p + post).skip(p.len() as int) =~= post);
    lemma_replace_after_prefix(post, Seq::<char>::empty(), p, value);
    assert(post + Seq::<char>::empty() =~= post);
    assert(replace_spec(Seq::<char>::empty(), p, value) == Seq::<char>::empty());
    assert(a + (value + post) =~= "evolution "@ + pre + value + post);
}

/// Replacing in `join(parts, p) + w`, where no part holds a character that
/// starts the pattern, puts `rep` in place of each separator and replaces in
/// `w`.
proof fn lemma_replace_joined(parts: Seq<Seq<char>>, w: Seq<char>, p: Seq<char>, rep: Seq<char>)
    requires
        p.len() > 0,
        forall|i: int, k: int| 0 <= i < parts.len() && 0 <= k < parts[i].len() ==> parts[i][k] != p[0],
    ensures
        replace_spec(join_spec(parts, p) + w, p, rep) == join_spec(parts, rep) + replace_spec(w, p, rep),
    decreases parts.len(),
{
    if parts.len() == 0 {
        assert(join_spec(parts, p) + w =~= w);
        assert(join_spec(parts, rep) + replace_spec(w, p, rep) =~= replace_spec(w, p, rep));
    } else if parts.len() == 1 {
        lemma_replace_after_prefix(parts[0], w, p, rep);
    } else {
        let dl = parts.drop_last();
        let last = parts.last();
        assert(forall|k: int| 0 <= k < last.len() ==> last[k] != p[0]) by {
            assert forall|k: int| 0 <= k < last.len() implies last[k] != p[0] by {
                assert(parts[parts.len() - 1][k] != p[0]);
            }
        }
        let w2 = p + last + w;
        assert(join_spec(parts, p) + w =~= join_spec(dl, p) + w2);
        lemma_replace_joined(dl, w2, p, rep);
        assert(w2.subrange(0, p.len() as int) =~= p);
        assert(w2.skip(p.len() as int) =~= last + w);
        lemma_replace_after_prefix(last, w, p, rep);
        assert(join_spec(dl, rep) + (rep + (last + replace_spec(w, p, rep))) =~= join_spec(parts, rep)
            + replace_spec(w, p, rep));
    }
}

/// Filling a parameter replaces every occurrence of its placeholder `{name}`
/// in the command line, braces included, by the value: where the placeholder
/// separates pieces that hold no brace, the result is those pieces with the
/// value between them, after the program's name.
pub proof fn law_fill_every_placeholder(parts: Seq<Seq<char>>, name: Seq<char>, value: Seq<char>)
    requires
        forall|i: int, k: int| 0 <= i < parts.len() && 0 <= k < parts[i].len() ==> parts[i][k] != '{',
    ensures
        fill_cli(join_spec(parts, "{"@ + name + "}"@), seq![(name, value)]) == "evolution "@ + join_spec(
            parts,
            value,
        ),
{
    reveal_strlit("{");
    reveal_strlit("evolution ");
    let args = seq![(name, value)];
    let p = "{"@ + name + "}"@;
    let cli = join_spec(parts, p);
    let e = "evolution "@;
    assert(args.drop_last() =~= Seq::<(Seq<char>, Seq<char>)>::empty());
    assert(args.last() == (name, value));
    assert(fill_cli(cli, args.drop_last()) == e + cli);
    assert(p[0] == '{');
    assert(forall|k: int| 0 <= k < e.len() ==> e[k] != p[0]);
    lemma_replace_after_prefix(e, cli, p, value);
    assert(cli + Seq::<char>::empty() =~= cli);
    lemma_replace_joined(parts, Seq::<char>::empty(), p, value);
    assert(join_spec(parts, value) + Seq::<char>::empty() =~= join_spec(parts, value));
}

/// The checked model is not found where no listed name holds it.
pub proof fn law_boot_model_absent(models: Seq<Seq<char>>)
    requires
        forall|i: int| 0 <= i < models.len() ==> !contains_spec(#[trigger] models[i], BOOT_MODEL@),
    ensures
        !lists_model(models),
{
}

/// A failed run is answered with the failure line and its trimmed error
/// output, whatever its output holds.
pub proof fn law_failed_run_answers_error_output(stdout: String, stderr: String)
    ensures
        outcome_answer((RunOutcome::Exited { success: false, stdout, stderr })) == "❌ 命令執行失敗\n"@
            + trim_spec(stderr@),
{
}

} // verus!
