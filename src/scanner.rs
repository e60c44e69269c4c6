//! The deadline scanner: on each tick it looks ahead by the lead time and
//! publishes one notification for every task whose deadline falls within
//! one check period from there.
use vstd::prelude::*;
use crate::event::{EventView, NotificationEvent};
use crate::ids::{lemma_uuid_text_injective, uuid_text, uuid_to_text};
use crate::instant::{fits_interval, Interval, Timestamp};

verus! {

/// A task as the task store holds it.
#[derive(Clone, Debug)]
pub struct Task {
    pub id: u128,
    pub title: String,
    pub description: String,
    pub deadline: Option<Timestamp>,
    pub completed: bool,
    pub user_id: u128,
    pub community_id: Option<u128>,
    pub created_at: Option<Timestamp>,
}

/// The mathematical value of a task, as far as the scanner reads it.
pub struct TaskView {
    pub id: u128,
    pub user_id: u128,
    pub title: Seq<char>,
    pub description: Seq<char>,
    pub deadline: Option<i128>,
}

impl View for Task {
    type V = TaskView;

    open spec fn view(&self) -> TaskView {
        TaskView {
            id: self.id,
            user_id: self.user_id,
            title: self.title@,
            description: self.description@,
            deadline: match self.deadline {
                Some(d) => Some(d.unix_nanos),
                None => None,
            },
        }
    }
}

impl Task {
    /// Its timestamps are ones that a date-time can hold.
    pub open spec fn wf(&self) -> bool {
        &&& (self.deadline matches Some(d) ==> d.wf())
        &&& (self.created_at matches Some(c) ==> c.wf())
    }
}

/// Which setting of the scanner has no interval in the task store.
#[derive(Clone, Copy, Debug, PartialEq, Eq, Structural)]
pub enum ConfigError {
    CheckPeriod,
    LeadTime,
}

/// How often the scanner runs, and how far ahead of a deadline it notifies.
#[derive(Clone, Copy, Debug, PartialEq, Eq, Structural)]
pub struct ScanConfig {
    pub check_period: Interval,
    pub lead_time: Interval,
}

/// The instants `[start, end]`, both included, in nanoseconds since the
/// epoch.
#[derive(Clone, Copy, Debug, PartialEq, Eq, Structural)]
pub struct Window {
    pub start: i128,
    pub end: i128,
}

impl Window {
    pub open spec fn holds(self, t: int) -> bool {
        self.start <= t <= self.end
    }

    /// Whether the instant `t` lies in the window.
    pub fn contains(&self, t: Timestamp) -> (r: bool)
        ensures
            r == self.holds(t.unix_nanos as int),
    {
        self.start <= t.unix_nanos && t.unix_nanos <= self.end
    }
}

impl ScanConfig {
    /// The settings for a check period and a lead time given in
    /// nanoseconds. Each must convert to the store's interval; a scanner
    /// must not start with a window it cannot state.
    pub fn new(check_period_nanos: u128, lead_time_nanos: u128) -> (r: Result<
        ScanConfig,
        ConfigError,
    >)
        ensures
            !fits_interval(check_period_nanos) ==> r == Err::<ScanConfig, ConfigError>(
                ConfigError::CheckPeriod,
            ),
            fits_interval(check_period_nanos) && !fits_interval(lead_time_nanos) ==> r == Err::<
                ScanConfig,
                ConfigError,
            >(ConfigError::LeadTime),
            fits_interval(check_period_nanos) && fits_interval(lead_time_nanos) ==> r is Ok,
            r matches Ok(c) ==> c.check_period.nanos() == check_period_nanos
                && c.lead_time.nanos() == lead_time_nanos && c.wf(),
    {
        let check_period = match Interval::from_nanos(check_period_nanos) {
            Some(iv) => iv,
            None => return Err(ConfigError::CheckPeriod),
        };
        let lead_time = match Interval::from_nanos(lead_time_nanos) {
            Some(iv) => iv,
            None => return Err(ConfigError::LeadTime),
        };
        Ok(ScanConfig { check_period, lead_time })
    }

    /// Both lengths are not negative.
    pub open spec fn wf(self) -> bool {
        self.check_period.micros >= 0 && self.lead_time.micros >= 0
    }

    pub open spec fn window_at(self, now: int) -> Window {
        Window {
            start: (now + self.lead_time.nanos()) as i128,
            end: (now + self.lead_time.nanos() + self.check_period.nanos()) as i128,
        }
    }

    /// The deadlines that the tick at `now` notifies:
    /// `[now + lead_time, now + lead_time + check_period]`.
    pub fn window(&self, now: Timestamp) -> (r: Window)
        requires
            now.wf(),
            self.wf(),
        ensures
            r == self.window_at(now.unix_nanos as int),
            r.start == now.unix_nanos + self.lead_time.nanos(),
            r.end == r.start + self.check_period.nanos(),
    {
        let lead = self.lead_time.micros as i128 * 1000;
        let period = self.check_period.micros as i128 * 1000;
        let start = now.unix_nanos + lead;
        Window { start, end: start + period }
    }
}

/// A task is due in a window when it has a deadline there.
pub open spec fn is_due(t: TaskView, w: Window) -> bool {
    t.deadline matches Some(d) && w.holds(d as int)
}

/// The event that notifies the owner of a task with a deadline.
pub open spec fn event_of(t: TaskView) -> EventView {
    EventView {
        user_id: t.user_id,
        task_id: uuid_text(t.id),
        title: t.title,
        description: t.description,
        deadline: t.deadline->0,
    }
}

/// The events of one tick: one for each task due in the window, in the
/// order of the tasks.
pub open spec fn due_events(tasks: Seq<TaskView>, w: Window) -> Seq<EventView>
    decreases tasks.len(),
{
    if tasks.len() == 0 {
        Seq::empty()
    } else {
        let rest = due_events(tasks.drop_last(), w);
        if is_due(tasks.last(), w) {
            rest.push(event_of(tasks.last()))
        } else {
            rest
        }
    }
}

pub open spec fn task_views(tasks: Seq<Task>) -> Seq<TaskView> {
    tasks.map_values(|t: Task| t@)
}

pub open spec fn event_views(events: Seq<NotificationEvent>) -> Seq<EventView> {
    events.map_values(|e: NotificationEvent| e@)
}

/// The notification for a task with a deadline.
pub fn notification_for(task: &Task) -> (r: NotificationEvent)
    requires
        task.deadline is Some,
        task.wf(),
    ensures
        r@ == event_of(task@),
        r.deadline.wf(),
{
    NotificationEvent {
        user_id: task.user_id,
        task_id: uuid_to_text(task.id),
        title: task.title.clone(),
        description: task.description.clone(),
        deadline: task.deadline.unwrap(),
    }
}

/// The events that one tick publishes, given the tasks that the store holds
/// and the tick's window.
pub fn due_notifications(tasks: &Vec<Task>, window: Window) -> (r: Vec<NotificationEvent>)
    requires
        forall|i: int| 0 <= i < tasks@.len() ==> (#[trigger] tasks@[i]).wf(),
    ensures
        event_views(r@) == due_events(task_views(tasks@), window),
        forall|i: int| 0 <= i < r@.len() ==> (#[trigger] r@[i]).deadline.wf(),
{
    let mut out: Vec<NotificationEvent> = Vec::new();
    let mut i: usize = 0;
    while i < tasks.len()
        invariant
            i <= tasks@.len(),
            forall|k: int| 0 <= k < tasks@.len() ==> (#[trigger] tasks@[k]).wf(),
            event_views(out@) == due_events(task_views(tasks@).take(i as int), window),
            forall|k: int| 0 <= k < out@.len() ==> (#[trigger] out@[k]).deadline.wf(),
        decreases tasks@.len() - i,
    {
        let ghost before = out@;
        let t = &tasks[i];
        let due = match t.deadline {
            Some(d) => window.contains(d),
            None => false,
        };
        if due {
            let e = notification_for(t);
            out.push(e);
            proof {
                assert(event_views(out@) =~= event_views(before).push(e@));
            }
        }
        proof {
            let tv = task_views(tasks@);
            assert(tv.take(i as int + 1).drop_last() =~= tv.take(i as int));
            assert(tv.take(i as int + 1).last() == tasks@[i as int]@);
        }
        i += 1;
    }
    proof {
        assert(task_views(tasks@).take(tasks@.len() as int) =~= task_views(tasks@));
    }
    out
}

/// How many of `events` carry the task identifier `task_id`.
pub open spec fn events_for_task(events: Seq<EventView>, task_id: Seq<char>) -> nat
    decreases events.len(),
{
    if events.len() == 0 {
        0
    } else {
        events_for_task(events.drop_last(), task_id) + if events.last().task_id == task_id {
            1nat
        } else {
            0nat
        }
    }
}

/// No two tasks share an identifier, as in the task store.
pub open spec fn ids_distinct(tasks: Seq<TaskView>) -> bool {
    forall|i: int, j: int| 0 <= i < j < tasks.len() ==> tasks[i].id != tasks[j].id
}

proof fn lemma_events_for_task_step(tasks: Seq<TaskView>, w: Window, task_id: Seq<char>)
    requires
        tasks.len() > 0,
    ensures
        events_for_task(due_events(tasks, w), task_id) == events_for_task(
            due_events(tasks.drop_last(), w),
            task_id,
        ) + if is_due(tasks.last(), w) && uuid_text(tasks.last().id) == task_id {
            1nat
        } else {
            0nat
        },
{
    let rest = due_events(tasks.drop_last(), w);
    if is_due(tasks.last(), w) {
        assert(due_events(tasks, w).drop_last() =~= rest);
    }
}

proof fn lemma_no_events_for_absent_task(tasks: Seq<TaskView>, w: Window, id: u128)
    requires
        forall|j: int| 0 <= j < tasks.len() ==> tasks[j].id != id,
    ensures
        events_for_task(due_events(tasks, w), uuid_text(id)) == 0,
    decreases tasks.len(),
{
    if tasks.len() > 0 {
        lemma_no_events_for_absent_task(tasks.drop_last(), w, id);
        if uuid_text(tasks.last().id) == uuid_text(id) {
            lemma_uuid_text_injective(tasks.last().id, id);
        }
        lemma_events_for_task_step(tasks, w, uuid_text(id));
    }
}

/// In one tick, a task whose deadline lies in the window is notified
/// exactly once, and a task whose deadline lies outside it, or that has
/// none, is not notified at all.
pub proof fn lemma_one_event_per_due_task(tasks: Seq<TaskView>, w: Window, i: int)
    requires
        ids_distinct(tasks),
        0 <= i < tasks.len(),
    ensures
        events_for_task(due_events(tasks, w), uuid_text(tasks[i].id)) == if is_due(tasks[i], w) {
            1nat
        } else {
            0nat
        },
    decreases tasks.len(),
{
    let n = tasks.len();
    let id = tasks[i].id;
    let rest = tasks.drop_last();
    lemma_events_for_task_step(tasks, w, uuid_text(id));
    if i == n - 1 {
        lemma_no_events_for_absent_task(rest, w, id);
    } else {
        assert(rest[i] == tasks[i]);
        lemma_one_event_per_due_task(rest, w, i);
        if uuid_text(tasks.last().id) == uuid_text(id) {
            lemma_uuid_text_injective(tasks.last().id, id);
        }
    }
}

} // verus!
