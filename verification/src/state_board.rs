//! The state board: tracked tasks with their stage history, the system's
//! heartbeat, and the queue of events the system raises for its user.
use vstd::prelude::*;
use std::collections::HashMap;
use crate::ext::is_uuid_text;
use crate::seqs::{any, first_index, keep, count, is_first};
use crate::text::{clone_opt, join, join_spec, opt_text, owned, same_text, string_views, trim, trim_spec};
use crate::event_generator::{
    interpretation_of, is_description, rule_description, EventGenerator, DEFAULT_MODEL,
};
use crate::model::{ModelDispatcher, ModelRequest, ModelResponse};
use crate::time::Timestamp;

verus! {

/// Version written into snapshots.
pub const PKG_VERSION: &'static str = "0.6.0";

/// Name under which the system's heartbeat is kept.
pub const SYSTEM_NAME: &'static str = "EvolutionOS";

// ───────────────────────────── stages ─────────────────────────────

/// Stage of a task.
#[derive(Debug, Clone, Copy, PartialEq, Eq, Structural)]
pub enum TaskStage {
    /// Created, not started.
    Pending,
    /// Being planned.
    Planning,
    /// Being carried out.
    Executing,
    /// Finished.
    Done,
    /// Waiting on a decision of the user.
    Blocked,
}

impl TaskStage {
    /// The stage's name.
    pub open spec fn name(self) -> Seq<char> {
        match self {
            TaskStage::Pending => "Pending"@,
            TaskStage::Planning => "Planning"@,
            TaskStage::Executing => "Executing"@,
            TaskStage::Done => "Done"@,
            TaskStage::Blocked => "Blocked"@,
        }
    }

    /// The stage's name.
    pub fn as_str(&self) -> (s: &'static str)
        ensures
            s@ == self.name(),
    {
        match self {
            TaskStage::Pending => "Pending",
            TaskStage::Planning => "Planning",
            TaskStage::Executing => "Executing",
            TaskStage::Done => "Done",
            TaskStage::Blocked => "Blocked",
        }
    }

    /// The stage's name, as the stage is displayed.
    pub fn to_string(&self) -> (s: String)
        ensures
            s@ == self.name(),
    {
        owned(self.as_str())
    }
}

impl Default for TaskStage {
    fn default() -> (r: TaskStage)
        ensures
            r == TaskStage::Pending,
    {
        TaskStage::Pending
    }
}

/// One change of stage.
#[derive(Debug)]
pub struct StageTransition {
    pub from: TaskStage,
    pub to: TaskStage,
    pub at: Timestamp,
    pub note: Option<String>,
}

/// A change of stage, as plain values.
pub struct StageTransitionView {
    pub from: TaskStage,
    pub to: TaskStage,
    pub at: Timestamp,
    pub note: Option<Seq<char>>,
}

impl View for StageTransition {
    type V = StageTransitionView;

    open spec fn view(&self) -> StageTransitionView {
        StageTransitionView { from: self.from, to: self.to, at: self.at, note: opt_text(self.note) }
    }
}

impl Clone for StageTransition {
    fn clone(&self) -> (r: StageTransition)
        ensures
            r@ == self@,
    {
        StageTransition { from: self.from, to: self.to, at: self.at, note: clone_opt(&self.note) }
    }
}

/// The views of a sequence of transitions.
pub open spec fn transition_views(s: Seq<StageTransition>) -> Seq<StageTransitionView> {
    s.map_values(|t: StageTransition| t@)
}

// ───────────────────────────── tasks ─────────────────────────────

/// A tracked task.
#[derive(Debug)]
pub struct TaskEntry {
    pub id: String,
    pub name: String,
    pub stage: TaskStage,
    pub created_at: Timestamp,
    pub updated_at: Timestamp,
    pub history: Vec<StageTransition>,
    pub metadata: HashMap<String, String>,
}

/// A tracked task, as plain values.
pub struct TaskEntryView {
    pub id: Seq<char>,
    pub name: Seq<char>,
    pub stage: TaskStage,
    pub created_at: Timestamp,
    pub updated_at: Timestamp,
    pub history: Seq<StageTransitionView>,
    pub metadata: Map<String, String>,
}

impl View for TaskEntry {
    type V = TaskEntryView;

    open spec fn view(&self) -> TaskEntryView {
        TaskEntryView {
            id: self.id@,
            name: self.name@,
            stage: self.stage,
            created_at: self.created_at,
            updated_at: self.updated_at,
            history: transition_views(self.history@),
            metadata: self.metadata@,
        }
    }
}

fn clone_history(h: &Vec<StageTransition>) -> (r: Vec<StageTransition>)
    ensures
        transition_views(r@) == transition_views(h@),
{
    let mut r: Vec<StageTransition> = Vec::new();
    let n = h.len();
    for i in 0..n
        invariant
            n == h@.len(),
            r@.len() == i,
            transition_views(r@) == transition_views(h@.take(i as int)),
    {
        let c = h[i].clone();
        let ghost before = r@;
        r.push(c);
        assert(r@ =~= before.push(c));
        assert(c@ == h@[i as int]@);
        assert(h@.take(i + 1) =~= h@.take(i as int).push(h@[i as int]));
        assert(transition_views(r@).len() == r@.len());
        assert(r@.len() == i + 1);
        assert(transition_views(r@)[i as int] == c@);
        assert forall|k: int| 0 <= k < i + 1 implies #[trigger] transition_views(r@)[k]
            == transition_views(h@.take(i + 1))[k] by {
            if k < i {
                assert(transition_views(before)[k] == transition_views(h@.take(i as int))[k]);
            }
        }
        assert(transition_views(r@) =~= transition_views(h@.take(i + 1)));
    }
    assert(h@.take(n as int) =~= h@);
    r
}

impl Clone for TaskEntry {
    fn clone(&self) -> (r: TaskEntry)
        ensures
            r@ == self@,
    {
        TaskEntry {
            id: self.id.clone(),
            name: self.name.clone(),
            stage: self.stage,
            created_at: self.created_at,
            updated_at: self.updated_at,
            history: clone_history(&self.history),
            metadata: self.metadata.clone(),
        }
    }
}

/// `t` after moving to `stage` at time `at`, with `note`.
pub open spec fn transitioned(
    t: TaskEntryView,
    stage: TaskStage,
    note: Option<Seq<char>>,
    at: Timestamp,
) -> TaskEntryView {
    TaskEntryView {
        stage: stage,
        updated_at: at,
        history: t.history.push(StageTransitionView { from: t.stage, to: stage, at: at, note: note }),
        ..t
    }
}

/// A freshly created task named `name` with identifier `id`.
pub open spec fn fresh_task(t: TaskEntryView, id: Seq<char>, name: Seq<char>) -> bool {
    &&& t.id == id
    &&& t.name == name
    &&& t.stage == TaskStage::Pending
    &&& t.created_at == t.updated_at
    &&& t.history.len() == 0
    &&& t.metadata == Map::<String, String>::empty()
}

impl TaskEntry {
    /// A new task named `name`, in stage `Pending`, with a fresh UUID.
    pub fn new(name: String) -> (t: TaskEntry)
        ensures
            fresh_task(t@, t.id@, name@),
            is_uuid_text(t.id@),
    {
        let now = Timestamp::now();
        let t = TaskEntry {
            id: crate::ext::new_uuid(),
            name,
            stage: TaskStage::Pending,
            created_at: now,
            updated_at: now,
            history: Vec::new(),
            metadata: HashMap::new(),
        };
        assert(transition_views(t.history@) =~= Seq::<StageTransitionView>::empty());
        t
    }

    /// Moves the task to `new_stage`, recording the change with `note` at the
    /// current time.
    pub fn transition_to(&mut self, new_stage: TaskStage, note: Option<String>)
        ensures
            final(self)@ == transitioned(old(self)@, new_stage, opt_text(note), final(self).updated_at),
    {
        let now = Timestamp::now();
        let ghost old_h = transition_views(self.history@);
        let tr = StageTransition { from: self.stage, to: new_stage, at: now, note };
        self.history.push(tr);
        assert(transition_views(self.history@) =~= old_h.push(tr@));
        self.stage = new_stage;
        self.updated_at = now;
    }
}

// ───────────────────────────── heartbeat ─────────────────────────────

/// The system's heartbeat.
#[derive(Debug)]
pub struct PresenceEntry {
    pub system_name: String,
    pub last_heartbeat: Timestamp,
    pub is_alive: bool,
}

/// The heartbeat, as plain values.
pub struct PresenceView {
    pub system_name: Seq<char>,
    pub last_heartbeat: Timestamp,
    pub is_alive: bool,
}

impl View for PresenceEntry {
    type V = PresenceView;

    open spec fn view(&self) -> PresenceView {
        PresenceView {
            system_name: self.system_name@,
            last_heartbeat: self.last_heartbeat,
            is_alive: self.is_alive,
        }
    }
}

impl Clone for PresenceEntry {
    fn clone(&self) -> (r: PresenceEntry)
        ensures
            r@ == self@,
    {
        PresenceEntry {
            system_name: self.system_name.clone(),
            last_heartbeat: self.last_heartbeat,
            is_alive: self.is_alive,
        }
    }
}

impl PresenceEntry {
    /// A live heartbeat for `system_name`, beating now.
    pub fn new(system_name: &str) -> (p: PresenceEntry)
        ensures
            p@.system_name == system_name@,
            p@.is_alive,
    {
        PresenceEntry {
            system_name: owned(system_name),
            last_heartbeat: Timestamp::now(),
            is_alive: true,
        }
    }

    /// Records a beat now (a fresh reading of the clock); the system is
    /// alive.
    pub fn heartbeat(&mut self)
        ensures
            final(self)@.system_name == old(self)@.system_name,
            final(self)@.is_alive,
            final(self)@.last_heartbeat.spec_micros() >= 0,
    {
        self.last_heartbeat = Timestamp::now();
        self.is_alive = true;
    }
}

// ───────────────────────────── events ─────────────────────────────

/// How urgent an event is.
#[derive(Debug, Clone, Copy, PartialEq, Eq, Structural)]
pub enum EventLevel {
    Info,
    Warning,
    Done,
    NeedsUser,
}

impl EventLevel {
    /// The level as it is displayed.
    pub open spec fn label(self) -> Seq<char> {
        match self {
            EventLevel::Info => "INFO"@,
            EventLevel::Warning => "WARNING"@,
            EventLevel::Done => "DONE"@,
            EventLevel::NeedsUser => "NEEDS_USER"@,
        }
    }

    /// The level as it is displayed.
    pub fn as_str(&self) -> (s: &'static str)
        ensures
            s@ == self.label(),
    {
        match self {
            EventLevel::Info => "INFO",
            EventLevel::Warning => "WARNING",
            EventLevel::Done => "DONE",
            EventLevel::NeedsUser => "NEEDS_USER",
        }
    }

    /// The level as it is displayed.
    pub fn to_string(&self) -> (s: String)
        ensures
            s@ == self.label(),
    {
        owned(self.as_str())
    }
}

/// An event the system raises for its user.
#[derive(Debug)]
pub struct EventEntry {
    pub id: String,
    pub task_id: Option<String>,
    pub level: EventLevel,
    pub message: String,
    /// A model's reading of the event, where one was made.
    pub interpretation: Option<String>,
    pub created_at: Timestamp,
    pub delivered: bool,
}

/// An event, as plain values.
pub struct EventEntryView {
    pub id: Seq<char>,
    pub task_id: Option<Seq<char>>,
    pub level: EventLevel,
    pub message: Seq<char>,
    pub interpretation: Option<Seq<char>>,
    pub created_at: Timestamp,
    pub delivered: bool,
}

impl View for EventEntry {
    type V = EventEntryView;

    open spec fn view(&self) -> EventEntryView {
        EventEntryView {
            id: self.id@,
            task_id: opt_text(self.task_id),
            level: self.level,
            message: self.message@,
            interpretation: opt_text(self.interpretation),
            created_at: self.created_at,
            delivered: self.delivered,
        }
    }
}

impl Clone for EventEntry {
    fn clone(&self) -> (r: EventEntry)
        ensures
            r@ == self@,
    {
        EventEntry {
            id: self.id.clone(),
            task_id: clone_opt(&self.task_id),
            level: self.level,
            message: self.message.clone(),
            interpretation: clone_opt(&self.interpretation),
            created_at: self.created_at,
            delivered: self.delivered,
        }
    }
}

/// A freshly raised event with these contents.
pub open spec fn fresh_event(
    e: EventEntryView,
    level: EventLevel,
    message: Seq<char>,
    task_id: Option<Seq<char>>,
) -> bool {
    &&& is_uuid_text(e.id)
    &&& e.level == level
    &&& e.message == message
    &&& e.task_id == task_id
    &&& e.interpretation is None
    &&& !e.delivered
}

impl EventEntry {
    /// A new undelivered event with a fresh UUID, raised now.
    pub fn new(level: EventLevel, message: String, task_id: Option<String>) -> (e: EventEntry)
        ensures
            fresh_event(e@, level, message@, opt_text(task_id)),
    {
        EventEntry {
            id: crate::ext::new_uuid(),
            task_id,
            level,
            message,
            interpretation: None,
            created_at: Timestamp::now(),
            delivered: false,
        }
    }

    /// The same event carrying `interpretation`.
    pub fn with_interpretation(self, interpretation: String) -> (e: EventEntry)
        ensures
            e@ == (EventEntryView { interpretation: Some(interpretation@), ..self@ }),
    {
        EventEntry { interpretation: Some(interpretation), ..self }
    }

    /// A new event of level `Done`.
    pub fn done(message: String, task_id: Option<String>) -> (e: EventEntry)
        ensures
            fresh_event(e@, EventLevel::Done, message@, opt_text(task_id)),
    {
        Self::new(EventLevel::Done, message, task_id)
    }

    /// A new event of level `NeedsUser`.
    pub fn needs_user(message: String, task_id: Option<String>) -> (e: EventEntry)
        ensures
            fresh_event(e@, EventLevel::NeedsUser, message@, opt_text(task_id)),
    {
        Self::new(EventLevel::NeedsUser, message, task_id)
    }
}

// ───────────────────────────── the board ─────────────────────────────

/// Everything the board holds, as it is written out and read back.
#[derive(Debug)]
pub struct StateBoardSnapshot {
    pub version: String,
    pub tasks: Vec<TaskEntry>,
    pub presence: PresenceEntry,
    pub events: Vec<EventEntry>,
}

/// The board: tasks, heartbeat and events.
#[derive(Debug)]
pub struct StateBoard {
    tasks: Vec<TaskEntry>,
    presence: PresenceEntry,
    events: Vec<EventEntry>,
}

/// The board, as plain values.
pub struct StateBoardView {
    pub tasks: Seq<TaskEntryView>,
    pub presence: PresenceView,
    pub events: Seq<EventEntryView>,
}

/// The views of a sequence of tasks.
pub open spec fn task_views(s: Seq<TaskEntry>) -> Seq<TaskEntryView> {
    s.map_values(|t: TaskEntry| t@)
}

/// The views of a sequence of task references.
pub open spec fn task_ref_views(s: Seq<&TaskEntry>) -> Seq<TaskEntryView> {
    s.map_values(|t: &TaskEntry| t@)
}

/// The views of a sequence of events.
pub open spec fn event_views(s: Seq<EventEntry>) -> Seq<EventEntryView> {
    s.map_values(|e: EventEntry| e@)
}

/// The views of a sequence of event references.
pub open spec fn event_ref_views(s: Seq<&EventEntry>) -> Seq<EventEntryView> {
    s.map_values(|e: &EventEntry| e@)
}

impl View for StateBoard {
    type V = StateBoardView;

    closed spec fn view(&self) -> StateBoardView {
        StateBoardView {
            tasks: task_views(self.tasks@),
            presence: self.presence@,
            events: event_views(self.events@),
        }
    }
}

/// The task has identifier `id`.
pub open spec fn task_id_is(id: Seq<char>) -> spec_fn(TaskEntryView) -> bool {
    |t: TaskEntryView| t.id == id
}

/// The task has another identifier than `id`.
pub open spec fn task_id_is_not(id: Seq<char>) -> spec_fn(TaskEntryView) -> bool {
    |t: TaskEntryView| t.id != id
}

/// The task is in stage `stage`.
pub open spec fn in_stage(stage: TaskStage) -> spec_fn(TaskEntryView) -> bool {
    |t: TaskEntryView| t.stage == stage
}

/// The task is not in stage `Done`.
pub open spec fn not_done() -> spec_fn(TaskEntryView) -> bool {
    |t: TaskEntryView| t.stage != TaskStage::Done
}

/// The event has identifier `id`.
pub open spec fn event_id_is(id: Seq<char>) -> spec_fn(EventEntryView) -> bool {
    |e: EventEntryView| e.id == id
}

/// The event has not been delivered.
pub open spec fn undelivered() -> spec_fn(EventEntryView) -> bool {
    |e: EventEntryView| !e.delivered
}

/// The event, marked delivered.
pub open spec fn delivered_copy(e: EventEntryView) -> EventEntryView {
    EventEntryView { delivered: true, ..e }
}

/// The identifiers of the undelivered events, in order.
pub open spec fn undelivered_ids(events: Seq<EventEntryView>) -> Seq<Seq<char>> {
    keep(events, undelivered()).map_values(|e: EventEntryView| e.id)
}

/// Draining by the identifiers `ids`, in order: for each, the first event
/// with that identifier is marked delivered and a copy of it is taken.
/// The events afterwards, and the copies taken.
pub open spec fn drain_spec(events: Seq<EventEntryView>, ids: Seq<Seq<char>>) -> (
    Seq<EventEntryView>,
    Seq<EventEntryView>,
)
    decreases ids.len(),
{
    if ids.len() == 0 {
        (events, Seq::<EventEntryView>::empty())
    } else {
        let (es, out) = drain_spec(events, ids.drop_last());
        let i = first_index(es, event_id_is(ids.last()));
        if 0 <= i < es.len() {
            (es.update(i, delivered_copy(es[i])), out.push(delivered_copy(es[i])))
        } else {
            (es, out)
        }
    }
}

/// Position of the first task with identifier `id`.
fn find_task(tasks: &Vec<TaskEntry>, id: &str) -> (r: Option<usize>)
    ensures
        match r {
            Some(i) => i == first_index(task_views(tasks@), task_id_is(id@)) && is_first(
                task_views(tasks@),
                task_id_is(id@),
                i as int,
            ),
            None => !any(task_views(tasks@), task_id_is(id@)) && first_index(
                task_views(tasks@),
                task_id_is(id@),
            ) == -1,
        },
{
    let ghost v = task_views(tasks@);
    let ghost p = task_id_is(id@);
    let n = tasks.len();
    for i in 0..n
        invariant
            n == tasks@.len(),
            v == task_views(tasks@),
            p == task_id_is(id@),
            forall|j: int| 0 <= j < i ==> !p(#[trigger] v[j]),
    {
        if same_text(tasks[i].id.as_str(), id) {
            assert(is_first(v, p, i as int));
            proof {
                crate::seqs::lemma_first_index(v, p, i as int);
            }
            return Some(i);
        }
    }
    proof {
        crate::seqs::lemma_first_index_none(v, p);
    }
    None
}

/// Position of the first event with identifier `id`.
fn find_event(events: &Vec<EventEntry>, id: &str) -> (r: Option<usize>)
    ensures
        match r {
            Some(i) => i == first_index(event_views(events@), event_id_is(id@)) && is_first(
                event_views(events@),
                event_id_is(id@),
                i as int,
            ),
            None => !any(event_views(events@), event_id_is(id@)) && first_index(
                event_views(events@),
                event_id_is(id@),
            ) == -1,
        },
{
    let ghost v = event_views(events@);
    let ghost p = event_id_is(id@);
    let n = events.len();
    for i in 0..n
        invariant
            n == events@.len(),
            v == event_views(events@),
            p == event_id_is(id@),
            forall|j: int| 0 <= j < i ==> !p(#[trigger] v[j]),
    {
        if same_text(events[i].id.as_str(), id) {
            assert(is_first(v, p, i as int));
            proof {
                crate::seqs::lemma_first_index(v, p, i as int);
            }
            return Some(i);
        }
    }
    proof {
        crate::seqs::lemma_first_index_none(v, p);
    }
    None
}

impl StateBoard {
    /// An empty board with a live heartbeat for the system.
    pub fn new() -> (b: StateBoard)
        ensures
            b@.tasks.len() == 0,
            b@.events.len() == 0,
            b@.presence.system_name == SYSTEM_NAME@,
            b@.presence.is_alive,
    {
        let b = StateBoard {
            tasks: Vec::new(),
            presence: PresenceEntry::new(SYSTEM_NAME),
            events: Vec::new(),
        };
        b
    }

    /// Adds a new task named `name` at the end; returns its identifier.
    pub fn create_task(&mut self, name: String) -> (id: String)
        ensures
            final(self)@.tasks.len() == old(self)@.tasks.len() + 1,
            final(self)@.tasks.drop_last() == old(self)@.tasks,
            fresh_task(final(self)@.tasks.last(), id@, name@),
            is_uuid_text(id@),
            final(self)@.presence == old(self)@.presence,
            final(self)@.events == old(self)@.events,
    {
        let task = TaskEntry::new(name);
        let id = task.id.clone();
        let ghost before = self.tasks@;
        self.tasks.push(task);
        assert(self.tasks@.drop_last() =~= before);
        assert(task_views(self.tasks@).drop_last() =~= task_views(before));
        id
    }

    /// The first task with identifier `id`.
    pub fn get_task(&self, id: &str) -> (r: Option<&TaskEntry>)
        ensures
            match r {
                Some(t) => {
                    let i = first_index(self@.tasks, task_id_is(id@));
                    0 <= i < self@.tasks.len() && t@ == self@.tasks[i]
                },
                None => !any(self@.tasks, task_id_is(id@)),
            },
    {
        match find_task(&self.tasks, id) {
            Some(i) => Some(&self.tasks[i]),
            None => None,
        }
    }

    /// The first task with identifier `id`, to change in place.
    pub fn get_task_mut(&mut self, id: &str) -> (r: Option<&mut TaskEntry>)
        ensures
            match r {
                Some(t) => {
                    let i = first_index(old(self)@.tasks, task_id_is(id@));
                    &&& 0 <= i < old(self)@.tasks.len()
                    &&& t@ == old(self)@.tasks[i]
                    &&& final(self)@.tasks == old(self)@.tasks.update(i, final(t)@)
                    &&& final(self)@.presence == old(self)@.presence
                    &&& final(self)@.events == old(self)@.events
                },
                None => !any(old(self)@.tasks, task_id_is(id@)) && final(self)@ == old(self)@,
            },
    {
        match find_task(&self.tasks, id) {
            Some(i) => Some(&mut self.tasks[i]),
            None => None,
        }
    }

    /// Removes every task with identifier `id`; whether there was one.
    pub fn remove_task(&mut self, id: &str) -> (removed: bool)
        ensures
            final(self)@.tasks == keep(old(self)@.tasks, task_id_is_not(id@)),
            removed == any(old(self)@.tasks, task_id_is(id@)),
            final(self)@.presence == old(self)@.presence,
            final(self)@.events == old(self)@.events,
    {
        let ghost v = task_views(self.tasks@);
        let ghost p = task_id_is_not(id@);
        let len_before = self.tasks.len();
        let mut kept: Vec<TaskEntry> = Vec::new();
        for i in 0..len_before
            invariant
                len_before == self.tasks@.len(),
                v == task_views(self.tasks@),
                p == task_id_is_not(id@),
                task_views(kept@) == keep(v.take(i as int), p),
        {
            assert(v.take(i + 1).drop_last() =~= v.take(i as int));
            if !same_text(self.tasks[i].id.as_str(), id) {
                let t = self.tasks[i].clone();
                let ghost before = kept@;
                kept.push(t);
                assert(task_views(kept@) =~= task_views(before).push(t@));
            }
        }
        assert(v.take(len_before as int) =~= v);
        self.tasks = kept;
        proof {
            crate::seqs::lemma_keep(v, p);
            if any(v, task_id_is(id@)) {
                let j = choose|j: int| 0 <= j < v.len() && task_id_is(id@)(#[trigger] v[j]);
                assert(!p(v[j]));
            }
        }
        self.tasks.len() < len_before
    }

    /// All tasks, in order of creation.
    pub fn list_tasks(&self) -> (r: &[TaskEntry])
        ensures
            task_views(r@) == self@.tasks,
    {
        self.tasks.as_slice()
    }

    /// The tasks in stage `stage`, in order.
    pub fn tasks_by_stage(&self, stage: &TaskStage) -> (r: Vec<&TaskEntry>)
        ensures
            task_ref_views(r@) == keep(self@.tasks, in_stage(*stage)),
    {
        let ghost v = task_views(self.tasks@);
        let ghost p = in_stage(*stage);
        let n = self.tasks.len();
        let mut r: Vec<&TaskEntry> = Vec::new();
        for i in 0..n
            invariant
                n == self.tasks@.len(),
                v == task_views(self.tasks@),
                p == in_stage(*stage),
                task_ref_views(r@) == keep(v.take(i as int), p),
        {
            assert(v.take(i + 1).drop_last() =~= v.take(i as int));
            if self.tasks[i].stage == *stage {
                let ghost before = r@;
                r.push(&self.tasks[i]);
                assert(task_ref_views(r@) =~= task_ref_views(before).push(v[i as int]));
            }
        }
        assert(v.take(n as int) =~= v);
        r
    }

    /// Removes the tasks in stage `Done`; how many were removed.
    pub fn clear_done(&mut self) -> (removed: usize)
        ensures
            final(self)@.tasks == keep(old(self)@.tasks, not_done()),
            removed == old(self)@.tasks.len() - final(self)@.tasks.len(),
            final(self)@.presence == old(self)@.presence,
            final(self)@.events == old(self)@.events,
    {
        let ghost v = task_views(self.tasks@);
        let ghost p = not_done();
        let before = self.tasks.len();
        let mut kept: Vec<TaskEntry> = Vec::new();
        for i in 0..before
            invariant
                before == self.tasks@.len(),
                v == task_views(self.tasks@),
                p == not_done(),
                task_views(kept@) == keep(v.take(i as int), p),
        {
            assert(v.take(i + 1).drop_last() =~= v.take(i as int));
            if self.tasks[i].stage != TaskStage::Done {
                let t = self.tasks[i].clone();
                let ghost old_kept = kept@;
                kept.push(t);
                assert(task_views(kept@) =~= task_views(old_kept).push(t@));
            }
        }
        assert(v.take(before as int) =~= v);
        self.tasks = kept;
        proof {
            crate::seqs::lemma_keep(v, p);
        }
        before - self.tasks.len()
    }

    /// Records a heartbeat now (a fresh reading of the clock).
    pub fn heartbeat(&mut self)
        ensures
            final(self)@.presence.system_name == old(self)@.presence.system_name,
            final(self)@.presence.is_alive,
            final(self)@.presence.last_heartbeat.spec_micros() >= 0,
            final(self)@.tasks == old(self)@.tasks,
            final(self)@.events == old(self)@.events,
    {
        self.presence.heartbeat();
    }

    /// The heartbeat.
    pub fn presence(&self) -> (p: &PresenceEntry)
        ensures
            p@ == self@.presence,
    {
        &self.presence
    }

    /// Adds `event` at the end of the queue.
    pub fn push_event(&mut self, event: EventEntry)
        ensures
            final(self)@.events == old(self)@.events.push(event@),
            final(self)@.tasks == old(self)@.tasks,
            final(self)@.presence == old(self)@.presence,
    {
        let ghost before = self.events@;
        self.events.push(event);
        assert(event_views(self.events@) =~= event_views(before).push(event@));
    }

    /// The undelivered events, in order.
    pub fn undelivered_events(&self) -> (r: Vec<&EventEntry>)
        ensures
            event_ref_views(r@) == keep(self@.events, undelivered()),
    {
        let ghost v = event_views(self.events@);
        let ghost p = undelivered();
        let n = self.events.len();
        let mut r: Vec<&EventEntry> = Vec::new();
        for i in 0..n
            invariant
                n == self.events@.len(),
                v == event_views(self.events@),
                p == undelivered(),
                event_ref_views(r@) == keep(v.take(i as int), p),
        {
            assert(v.take(i + 1).drop_last() =~= v.take(i as int));
            if !self.events[i].delivered {
                let ghost before = r@;
                r.push(&self.events[i]);
                assert(event_ref_views(r@) =~= event_ref_views(before).push(v[i as int]));
            }
        }
        assert(v.take(n as int) =~= v);
        r
    }

    /// Marks the first event with identifier `id` delivered; whether there was one.
    pub fn mark_event_delivered(&mut self, id: &str) -> (found: bool)
        ensures
            found == any(old(self)@.events, event_id_is(id@)),
            found ==> {
                let i = first_index(old(self)@.events, event_id_is(id@));
                final(self)@.events == old(self)@.events.update(
                    i,
                    delivered_copy(old(self)@.events[i]),
                )
            },
            !found ==> final(self)@.events == old(self)@.events,
            final(self)@.tasks == old(self)@.tasks,
            final(self)@.presence == old(self)@.presence,
    {
        match find_event(&self.events, id) {
            Some(i) => {
                let ghost before = event_views(self.events@);
                let mut e = self.events[i].clone();
                e.delivered = true;
                self.events.set(i, e);
                assert(event_views(self.events@) =~= before.update(
                    i as int,
                    delivered_copy(before[i as int]),
                ));
                proof {
                    assert(any(before, event_id_is(id@))) by {
                        assert(event_id_is(id@)(before[i as int]));
                    }
                }
                true
            },
            None => false,
        }
    }

    /// Marks every undelivered event delivered and returns copies of them
    /// (as delivered), in order.
    pub fn drain_undelivered(&mut self) -> (drained: Vec<EventEntry>)
        ensures
            (final(self)@.events, event_views(drained@)) == drain_spec(
                old(self)@.events,
                undelivered_ids(old(self)@.events),
            ),
            final(self)@.tasks == old(self)@.tasks,
            final(self)@.presence == old(self)@.presence,
    {
        let ghost ev0 = event_views(self.events@);
        let pending = self.undelivered_events();
        let mut ids: Vec<String> = Vec::new();
        let m = pending.len();
        for k in 0..m
            invariant
                m == pending@.len(),
                event_ref_views(pending@) == keep(ev0, undelivered()),
                string_views(ids@) == keep(ev0, undelivered()).take(k as int).map_values(
                    |e: EventEntryView| e.id,
                ),
        {
            let ghost before = ids@;
            ids.push(pending[k].id.clone());
            assert(string_views(ids@) =~= keep(ev0, undelivered()).take(k + 1).map_values(
                |e: EventEntryView| e.id,
            )) by {
                assert(string_views(ids@) =~= string_views(before).push(pending@[k as int].id@));
                assert(event_ref_views(pending@)[k as int] == keep(ev0, undelivered())[k as int]);
            }
        }
        let ghost all_ids = undelivered_ids(ev0);
        assert(string_views(ids@) =~= all_ids) by {
            assert(keep(ev0, undelivered()).take(m as int) =~= keep(ev0, undelivered()));
        }
        let mut drained: Vec<EventEntry> = Vec::new();
        let n = ids.len();
        for k in 0..n
            invariant
                n == ids@.len(),
                string_views(ids@) == all_ids,
                (event_views(self.events@), event_views(drained@)) == drain_spec(
                    ev0,
                    all_ids.take(k as int),
                ),
                self@.tasks == old(self)@.tasks,
                self@.presence == old(self)@.presence,
        {
            assert(all_ids.take(k + 1).drop_last() =~= all_ids.take(k as int));
            assert(all_ids.take(k + 1).last() == ids@[k as int]@);
            let ghost es = event_views(self.events@);
            let ghost out = event_views(drained@);
            match find_event(&self.events, ids[k].as_str()) {
                Some(idx) => {
                    let mut e = self.events[idx].clone();
                    e.delivered = true;
                    let c = e.clone();
                    self.events.set(idx, e);
                    drained.push(c);
                    assert(event_views(self.events@) =~= es.update(
                        idx as int,
                        delivered_copy(es[idx as int]),
                    ));
                    assert(event_views(drained@) =~= out.push(delivered_copy(es[idx as int])));
                },
                None => {},
            }
        }
        assert(all_ids.take(n as int) =~= all_ids);
        drained
    }

    /// Moves the first task with identifier `id` to `stage`, recording `note`;
    /// whether there was such a task. Entering `Done` or `Blocked` raises an
    /// event for the user, with a reading of the change added to its message:
    /// the rule-based reading without a backend, the model's reading with one
    /// where the model gives one.
    pub fn update_stage(
        &mut self,
        id: &str,
        stage: TaskStage,
        note: Option<String>,
        backend: Option<&dyn ModelDispatcher>,
    ) -> (found: bool)
        ensures
            found == any(old(self)@.tasks, task_id_is(id@)),
            stage_updated(old(self)@, final(self)@, id@, stage, opt_text(note), backend is Some),
    {
        let i = match find_task(&self.tasks, id) {
            Some(i) => i,
            None => {
                return false;
            },
        };
        let ghost v = task_views(self.tasks@);
        proof {
            assert(task_id_is(id@)(v[i as int]));
        }
        let mut task = self.tasks[i].clone();
        let from_stage = task.stage;
        task.transition_to(stage, note);
        let name = task.name.clone();
        self.tasks.set(i, task);
        assert(task_views(self.tasks@) =~= v.update(i as int, self.tasks@[i as int]@));
        if stage == TaskStage::Done || stage == TaskStage::Blocked {
            let interpretation = Self::llm_interpret(name.as_str(), &from_stage, &stage, backend);
            let ghost x = opt_text(interpretation);
            match stage_event(stage, name.as_str(), id, interpretation) {
                Some(evt) => {
                    let ghost before = event_views(self.events@);
                    self.events.push(evt);
                    assert(event_views(self.events@) =~= before.push(evt@));
                    assert(event_views(self.events@).drop_last() =~= before);
                    assert(raised_event(evt@, from_stage, stage, name@, id@, backend is Some)) by {
                        assert(backend is Some ==> (x matches Some(y) ==> is_description(y)));
                        assert(backend is None ==> x == Some(rule_description(from_stage, stage)));
                    }
                },
                None => {},
            }
        }
        true
    }

    /// The reading of a change of stage, from the default generator.
    fn llm_interpret(
        task_name: &str,
        from: &TaskStage,
        to: &TaskStage,
        backend: Option<&dyn ModelDispatcher>,
    ) -> (r: Option<String>)
        ensures
            backend is None ==> opt_text(r) == Some(rule_description(*from, *to)),
            backend is Some ==> exists|reply: Result<Seq<char>, Seq<char>>|
                opt_text(r) == #[trigger] interpretation_of(reply),
            backend is Some ==> (r matches Some(d) ==> is_description(d@)),
    {
        let gen = EventGenerator::new();
        gen.interpret_transition(task_name, from, to, backend)
    }

    /// Everything the board holds, stamped with the library's version.
    pub fn snapshot(&self) -> (s: StateBoardSnapshot)
        ensures
            s@ == snapshot_of(self@),
    {
        StateBoardSnapshot {
            version: owned(PKG_VERSION),
            tasks: clone_tasks(&self.tasks),
            presence: self.presence.clone(),
            events: clone_events(&self.events),
        }
    }

    /// The board that `snap` holds.
    pub fn from_snapshot(snap: StateBoardSnapshot) -> (b: StateBoard)
        ensures
            b@ == board_of(snap@),
    {
        StateBoard { tasks: snap.tasks, presence: snap.presence, events: snap.events }
    }

    /// Overview: number of tasks, tasks per stage, undelivered events, heartbeat.
    pub fn summary(&self) -> (s: BoardSummary)
        ensures
            s.total == self@.tasks.len(),
            count_views(s.by_stage@) == stage_counts(self@.tasks),
            s.undelivered_events == count(self@.events, undelivered()),
            s.last_heartbeat == self@.presence.last_heartbeat,
            s.is_alive == self@.presence.is_alive,
    {
        let ghost v = task_views(self.tasks@);
        let stages = vec![
            TaskStage::Pending,
            TaskStage::Planning,
            TaskStage::Executing,
            TaskStage::Done,
            TaskStage::Blocked,
        ];
        assert(stages@ =~= all_stages());
        let ghost tally = stage_tally(v);
        let mut by_stage: Vec<(String, usize)> = Vec::new();
        for k in 0..5
            invariant
                stages@ == all_stages(),
                v == task_views(self.tasks@),
                tally == stage_tally(v),
                count_views(by_stage@) == keep(tally.take(k as int), nonzero()),
        {
            assert(tally.take(k + 1).drop_last() =~= tally.take(k as int));
            let st = stages[k];
            let c = count_in_stage(&self.tasks, st);
            assert(tally[k as int] == (st.name(), c as nat));
            if c > 0 {
                let ghost before = by_stage@;
                by_stage.push((st.to_string(), c));
                assert(count_views(by_stage@) =~= count_views(before).push((st.name(), c as nat)));
            }
        }
        assert(tally.take(5) =~= tally);
        BoardSummary {
            total: self.tasks.len(),
            by_stage,
            undelivered_events: count_undelivered(&self.events),
            last_heartbeat: self.presence.last_heartbeat,
            is_alive: self.presence.is_alive,
        }
    }

    /// The prompt asking a model for advice on this board.
    pub fn advice_prompt(&self) -> (p: String)
        ensures
            p@ == advice_prompt(self@),
    {
        let pending = self.undelivered_events();
        let ghost pend = keep(self@.events, undelivered());
        let mut event_lines: Vec<String> = Vec::new();
        let m = pending.len();
        for k in 0..m
            invariant
                m == pending@.len(),
                event_ref_views(pending@) == pend,
                string_views(event_lines@) == pend.take(k as int).map_values(
                    |e: EventEntryView| event_line(e),
                ),
        {
            let l = event_line_of(pending[k]);
            let ghost before = event_lines@;
            event_lines.push(l);
            assert(string_views(event_lines@) =~= pend.take(k + 1).map_values(
                |e: EventEntryView| event_line(e),
            )) by {
                assert(string_views(event_lines@) =~= string_views(before).push(l@));
                assert(event_ref_views(pending@)[k as int] == pend[k as int]);
            }
        }
        assert(pend.take(m as int) =~= pend);
        let mut task_lines: Vec<String> = Vec::new();
        let n = self.tasks.len();
        let ghost tv = task_views(self.tasks@);
        for k in 0..n
            invariant
                n == self.tasks@.len(),
                tv == task_views(self.tasks@),
                string_views(task_lines@) == tv.take(k as int).map_values(
                    |t: TaskEntryView| task_line(t),
                ),
        {
            let l = task_line_of(&self.tasks[k]);
            let ghost before = task_lines@;
            task_lines.push(l);
            assert(string_views(task_lines@) =~= tv.take(k + 1).map_values(
                |t: TaskEntryView| task_line(t),
            )) by {
                assert(string_views(task_lines@) =~= string_views(before).push(l@));
            }
        }
        assert(tv.take(n as int) =~= tv);
        let mut p = owned(ADVICE_HEAD);
        let ev = join(event_lines.as_slice(), "\n");
        p.append(ev.as_str());
        p.append(ADVICE_MIDDLE);
        let ts = join(task_lines.as_slice(), "\n");
        p.append(ts.as_str());
        p.append(ADVICE_TAIL);
        p
    }

    /// The request asking a model for advice on the board.
    pub fn advice_request(&self) -> (r: ModelRequest)
        ensures
            r.model@ == DEFAULT_MODEL@,
            r.prompt@ == advice_prompt(self@),
            r.system_prompt is None,
            r.temperature_pct == 40,
            r.max_tokens == Some(300u32),
    {
        let prompt = self.advice_prompt();
        ModelRequest::new(DEFAULT_MODEL, prompt.as_str()).with_temperature_pct(40).with_max_tokens(
            300,
        )
    }

    /// Advice from a model on the undelivered events and the tasks, asked
    /// with `advice_request`; a fixed answer, without asking, when no event is
    /// undelivered.
    pub fn understand_events(&self, backend: &dyn ModelDispatcher) -> (r: Result<String, String>)
        ensures
            count(self@.events, undelivered()) == 0 ==> result_text(r) == Ok::<Seq<char>, Seq<char>>(
                NOTHING_PENDING@,
            ),
            count(self@.events, undelivered()) > 0 ==> exists|reply: Result<Seq<char>, Seq<char>>|
                result_text(r) == advice_from(reply),
    {
        if count_undelivered(&self.events) == 0 {
            return Ok(owned(NOTHING_PENDING));
        }
        let reply = backend.dispatch(self.advice_request());
        let ghost rv = reply_text(reply);
        let r = advice_reply(reply);
        assert(result_text(r) == advice_from(rv));
        r
    }
}

/// `after` is `before` once the first task with identifier `id` has moved
/// to `stage` with `note` (unchanged where there is no such task): the task
/// changes in place, and entering `Done` or `Blocked` appends the event
/// raised for it.
pub open spec fn stage_updated(
    before: StateBoardView,
    after: StateBoardView,
    id: Seq<char>,
    stage: TaskStage,
    note: Option<Seq<char>>,
    with_backend: bool,
) -> bool {
    if any(before.tasks, task_id_is(id)) {
        let i = first_index(before.tasks, task_id_is(id));
        let t = before.tasks[i];
        &&& 0 <= i < before.tasks.len()
        &&& after.tasks == before.tasks.update(
            i,
            transitioned(t, stage, note, after.tasks[i].updated_at),
        )
        &&& after.presence == before.presence
        &&& raises_event(stage) ==> {
            &&& after.events.len() == before.events.len() + 1
            &&& after.events.drop_last() == before.events
            &&& raised_event(after.events.last(), t.stage, stage, t.name, id, with_backend)
        }
        &&& !raises_event(stage) ==> after.events == before.events
    } else {
        after == before
    }
}

/// The stages that raise an event when a task enters them.
pub open spec fn raises_event(stage: TaskStage) -> bool {
    stage == TaskStage::Done || stage == TaskStage::Blocked
}

/// The level of the event raised on entering `stage`.
pub open spec fn event_level(stage: TaskStage) -> EventLevel {
    if stage == TaskStage::Done {
        EventLevel::Done
    } else {
        EventLevel::NeedsUser
    }
}

/// The message of the event raised when task `name` enters `stage`, before
/// any reading is added.
pub open spec fn event_base(stage: TaskStage, name: Seq<char>) -> Seq<char> {
    if stage == TaskStage::Done {
        "任務「"@ + name + "」已完成"@
    } else {
        "任務「"@ + name + "」需要你做決定"@
    }
}

/// The message of the event, with the model's reading where there is one.
pub open spec fn event_message(
    stage: TaskStage,
    name: Seq<char>,
    interpretation: Option<Seq<char>>,
) -> Seq<char> {
    match interpretation {
        Some(x) => event_base(stage, name) + " — "@ + x,
        None => event_base(stage, name),
    }
}

/// `e` is the event raised when task `name` (identifier `id`) moves from
/// `from` into `stage`: its message carries the rule-based reading where no
/// backend was given, and otherwise a model's reading only where the reading
/// is a description taken from a reply.
pub open spec fn raised_event(
    e: EventEntryView,
    from: TaskStage,
    stage: TaskStage,
    name: Seq<char>,
    id: Seq<char>,
    with_backend: bool,
) -> bool {
    exists|interpretation: Option<Seq<char>>|
        {
            &&& with_backend ==> (interpretation matches Some(x) ==> is_description(x))
            &&& !with_backend ==> interpretation == Some(rule_description(from, stage))
            &&& fresh_event(e, event_level(stage), event_message(stage, name, interpretation), Some(id))
        }
}

/// The event raised when task `task_name` (identifier `task_id`) enters
/// `stage`, carrying `interpretation` in its message; `None` for stages that
/// raise no event.
pub fn stage_event(
    stage: TaskStage,
    task_name: &str,
    task_id: &str,
    interpretation: Option<String>,
) -> (r: Option<EventEntry>)
    ensures
        r is Some <==> raises_event(stage),
        r matches Some(e) ==> fresh_event(
            e@,
            event_level(stage),
            event_message(stage, task_name@, opt_text(interpretation)),
            Some(task_id@),
        ),
{
    let mut msg = owned("任務「");
    msg.append(task_name);
    match stage {
        TaskStage::Done => msg.append("」已完成"),
        TaskStage::Blocked => msg.append("」需要你做決定"),
        _ => {
            return None;
        },
    }
    match &interpretation {
        Some(x) => {
            msg.append(" — ");
            msg.append(x.as_str());
        },
        None => {},
    }
    let id = owned(task_id);
    match stage {
        TaskStage::Done => Some(EventEntry::done(msg, Some(id))),
        _ => Some(EventEntry::needs_user(msg, Some(id))),
    }
}

/// The snapshot, as plain values.
pub struct SnapshotView {
    pub version: Seq<char>,
    pub tasks: Seq<TaskEntryView>,
    pub presence: PresenceView,
    pub events: Seq<EventEntryView>,
}

impl View for StateBoardSnapshot {
    type V = SnapshotView;

    open spec fn view(&self) -> SnapshotView {
        SnapshotView {
            version: self.version@,
            tasks: task_views(self.tasks@),
            presence: self.presence@,
            events: event_views(self.events@),
        }
    }
}

/// The snapshot taken of board `b`.
pub open spec fn snapshot_of(b: StateBoardView) -> SnapshotView {
    SnapshotView { version: PKG_VERSION@, tasks: b.tasks, presence: b.presence, events: b.events }
}

/// The board restored from snapshot `s`.
pub open spec fn board_of(s: SnapshotView) -> StateBoardView {
    StateBoardView { tasks: s.tasks, presence: s.presence, events: s.events }
}

impl Default for StateBoardSnapshot {
    fn default() -> (s: StateBoardSnapshot)
        ensures
            s@.version == PKG_VERSION@,
            s@.tasks.len() == 0,
            s@.events.len() == 0,
            s@.presence.system_name == SYSTEM_NAME@,
            s@.presence.is_alive,
    {
        StateBoardSnapshot {
            version: owned(PKG_VERSION),
            tasks: Vec::new(),
            presence: PresenceEntry::new(SYSTEM_NAME),
            events: Vec::new(),
        }
    }
}

fn clone_tasks(v: &Vec<TaskEntry>) -> (r: Vec<TaskEntry>)
    ensures
        task_views(r@) == task_views(v@),
{
    let mut r: Vec<TaskEntry> = Vec::new();
    let n = v.len();
    for i in 0..n
        invariant
            n == v@.len(),
            r@.len() == i,
            task_views(r@) == task_views(v@.take(i as int)),
    {
        let c = v[i].clone();
        let ghost before = r@;
        r.push(c);
        assert(task_views(r@) =~= task_views(v@.take(i + 1))) by {
            assert(v@.take(i + 1) =~= v@.take(i as int).push(v@[i as int]));
            assert forall|k: int| 0 <= k < i + 1 implies #[trigger] task_views(r@)[k]
                == task_views(v@.take(i + 1))[k] by {
                if k < i {
                    assert(task_views(before)[k] == task_views(v@.take(i as int))[k]);
                }
            }
        }
    }
    assert(v@.take(n as int) =~= v@);
    r
}

fn clone_events(v: &Vec<EventEntry>) -> (r: Vec<EventEntry>)
    ensures
        event_views(r@) == event_views(v@),
{
    let mut r: Vec<EventEntry> = Vec::new();
    let n = v.len();
    for i in 0..n
        invariant
            n == v@.len(),
            r@.len() == i,
            event_views(r@) == event_views(v@.take(i as int)),
    {
        let c = v[i].clone();
        let ghost before = r@;
        r.push(c);
        assert(event_views(r@) =~= event_views(v@.take(i + 1))) by {
            assert(v@.take(i + 1) =~= v@.take(i as int).push(v@[i as int]));
            assert forall|k: int| 0 <= k < i + 1 implies #[trigger] event_views(r@)[k]
                == event_views(v@.take(i + 1))[k] by {
                if k < i {
                    assert(event_views(before)[k] == event_views(v@.take(i as int))[k]);
                }
            }
        }
    }
    assert(v@.take(n as int) =~= v@);
    r
}

/// The stages in the order a summary lists them.
pub open spec fn all_stages() -> Seq<TaskStage> {
    seq![
        TaskStage::Pending,
        TaskStage::Planning,
        TaskStage::Executing,
        TaskStage::Done,
        TaskStage::Blocked,
    ]
}

/// Each stage's name with the number of tasks in it.
pub open spec fn stage_tally(tasks: Seq<TaskEntryView>) -> Seq<(Seq<char>, nat)> {
    all_stages().map_values(|s: TaskStage| (s.name(), count(tasks, in_stage(s))))
}

/// The entry counts some task.
pub open spec fn nonzero() -> spec_fn((Seq<char>, nat)) -> bool {
    |p: (Seq<char>, nat)| p.1 > 0
}

/// The stages holding at least one task, in the order of `all_stages`, each
/// with its name and number of tasks.
pub open spec fn stage_counts(tasks: Seq<TaskEntryView>) -> Seq<(Seq<char>, nat)> {
    keep(stage_tally(tasks), nonzero())
}

/// Overview of a board.
#[derive(Debug)]
pub struct BoardSummary {
    pub total: usize,
    /// Each stage that holds a task, with the number of its tasks.
    pub by_stage: Vec<(String, usize)>,
    pub undelivered_events: usize,
    pub last_heartbeat: Timestamp,
    pub is_alive: bool,
}

/// The counts of a summary, as plain values.
pub open spec fn count_views(s: Seq<(String, usize)>) -> Seq<(Seq<char>, nat)> {
    s.map_values(|p: (String, usize)| (p.0@, p.1 as nat))
}

fn count_in_stage(tasks: &Vec<TaskEntry>, stage: TaskStage) -> (n: usize)
    ensures
        n == count(task_views(tasks@), in_stage(stage)),
{
    let ghost v = task_views(tasks@);
    let mut n: usize = 0;
    let len = tasks.len();
    for i in 0..len
        invariant
            len == tasks@.len(),
            v == task_views(tasks@),
            n == count(v.take(i as int), in_stage(stage)),
            n <= i,
    {
        assert(v.take(i + 1).drop_last() =~= v.take(i as int));
        if tasks[i].stage == stage {
            n = n + 1;
        }
    }
    assert(v.take(len as int) =~= v);
    n
}

fn count_undelivered(events: &Vec<EventEntry>) -> (n: usize)
    ensures
        n == count(event_views(events@), undelivered()),
{
    let ghost v = event_views(events@);
    let mut n: usize = 0;
    let len = events.len();
    for i in 0..len
        invariant
            len == events@.len(),
            v == event_views(events@),
            n == count(v.take(i as int), undelivered()),
            n <= i,
    {
        assert(v.take(i + 1).drop_last() =~= v.take(i as int));
        if !events[i].delivered {
            n = n + 1;
        }
    }
    assert(v.take(len as int) =~= v);
    n
}

/// The line that shows event `e` in the prompt asking for advice.
pub open spec fn event_line(e: EventEntryView) -> Seq<char> {
    let task = match e.task_id {
        Some(t) => t,
        None => "(未知)"@,
    };
    let reading = match e.interpretation {
        Some(x) => x,
        None => "(無 LLM 解讀)"@,
    };
    "- ["@ + e.level.label() + "] 任務「"@ + task + "」："@ + e.message + " — 解讀："@ + reading
}

/// The line that shows task `t` in the prompt asking for advice.
pub open spec fn task_line(t: TaskEntryView) -> Seq<char> {
    "- 「"@ + t.name + "」："@ + t.stage.name()
}

/// Opening of the prompt asking for advice.
pub const ADVICE_HEAD: &'static str = "以下是 Evolution OS 的系統狀態，請分析並給出系統建議：\n\n== 待處理事件 ==\n";

/// Text between the events and the tasks in the prompt asking for advice.
pub const ADVICE_MIDDLE: &'static str = "\n\n== 目前任務狀態 ==\n";

/// Closing of the prompt asking for advice.
pub const ADVICE_TAIL: &'static str = "\n\n請用繁體中文：\n1. 判斷是否有需要使用者注意的問題\n2. 指出系統瓶頸或風險\n3. 建議下一個優先處理的方向\n\n格式：直接回覆建議，100-200 字，用自然段落。";

/// Answer given, without asking a model, when no event is pending.
pub const NOTHING_PENDING: &'static str = "沒有待處理事件。系統正常運行。";

/// The prompt asking a model for advice on board `b`: the undelivered
/// events, then all tasks, one per line.
pub open spec fn advice_prompt(b: StateBoardView) -> Seq<char> {
    ADVICE_HEAD@ + join_spec(keep(b.events, undelivered()).map_values(|e: EventEntryView| event_line(e)), "\n"@)
        + ADVICE_MIDDLE@ + join_spec(b.tasks.map_values(|t: TaskEntryView| task_line(t)), "\n"@)
        + ADVICE_TAIL@
}

/// The answer made of a model's reply to the prompt asking for advice: the
/// trimmed reply, or the failure behind a fixed prefix.
pub open spec fn advice_from(reply: Result<Seq<char>, Seq<char>>) -> Result<Seq<char>, Seq<char>> {
    match reply {
        Ok(content) => Ok(trim_spec(content)),
        Err(e) => Err("LLM dispatch failed: "@ + e),
    }
}

/// The answer made of a model's reply to the prompt asking for advice.
pub fn advice_reply(reply: Result<ModelResponse, String>) -> (r: Result<String, String>)
    ensures
        result_text(r) == advice_from(reply_text(reply)),
{
    match reply {
        Ok(resp) => Ok(trim(resp.content.as_str())),
        Err(e) => {
            let mut m = owned("LLM dispatch failed: ");
            m.append(e.as_str());
            Err(m)
        },
    }
}

/// The characters of a model's reply, or of its failure.
pub open spec fn reply_text(reply: Result<ModelResponse, String>) -> Result<Seq<char>, Seq<char>> {
    match reply {
        Ok(resp) => Ok(resp.content@),
        Err(e) => Err(e@),
    }
}

/// The characters of a string result.
pub open spec fn result_text(r: Result<String, String>) -> Result<Seq<char>, Seq<char>> {
    match r {
        Ok(s) => Ok(s@),
        Err(e) => Err(e@),
    }
}

fn event_line_of(e: &EventEntry) -> (l: String)
    ensures
        l@ == event_line(e@),
{
    let mut l = owned("- [");
    l.append(e.level.as_str());
    l.append("] 任務「");
    match &e.task_id {
        Some(t) => l.append(t.as_str()),
        None => l.append("(未知)"),
    }
    l.append("」：");
    l.append(e.message.as_str());
    l.append(" — 解讀：");
    match &e.interpretation {
        Some(x) => l.append(x.as_str()),
        None => l.append("(無 LLM 解讀)"),
    }
    l
}

fn task_line_of(t: &TaskEntry) -> (l: String)
    ensures
        l@ == task_line(t@),
{
    let mut l = owned("- 「");
    l.append(t.name.as_str());
    l.append("」：");
    l.append(t.stage.as_str());
    l
}

impl Default for StateBoard {
    fn default() -> (b: StateBoard)
        ensures
            b@.tasks.len() == 0,
            b@.events.len() == 0,
            b@.presence.system_name == SYSTEM_NAME@,
            b@.presence.is_alive,
    {
        StateBoard::new()
    }
}

} // verus!
