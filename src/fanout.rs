//! Community task fan-out: the canonical task is written in a transaction,
//! every current member receives a copy through the task service, and the
//! transaction commits only when that call succeeded. Both sides of the
//! call are here: the coordinator's saga and the task service's reading of
//! the request.
use vstd::prelude::*;
use crate::ids::{parse_uuid, uuid_parsed, uuid_text, uuid_to_text};
use crate::instant::{in_time_range, Timestamp, MAX_UNIX_SECONDS, MIN_UNIX_SECONDS, NANOS_PER_SECOND};

verus! {

/// The canonical task of a community, as the insert returned it.
#[derive(Clone, Debug)]
pub struct CommunityTask {
    pub id: u128,
    pub community_id: u128,
    pub title: String,
    pub description: String,
    pub deadline: Option<Timestamp>,
    pub subtasks: Vec<String>,
}

/// An instant as the task service's request carries it: whole seconds since
/// the epoch, and nanoseconds in `0..1_000_000_000` after them.
#[derive(Clone, Copy, Debug, PartialEq, Eq, Structural)]
pub struct RpcTimestamp {
    pub seconds: i64,
    pub nanos: i32,
}

/// The request that asks the task service for a copy of a task for each
/// member of a community.
#[derive(Clone, Debug)]
pub struct AddCommunityTaskRequest {
    pub community_id: String,
    pub members: Vec<String>,
    pub title: String,
    pub description: String,
    pub deadline: Option<RpcTimestamp>,
    pub subtasks: Vec<String>,
}

pub open spec fn strings_view(v: Seq<String>) -> Seq<Seq<char>> {
    v.map_values(|s: String| s@)
}

/// The request's form of an instant.
pub open spec fn rpc_time(unix_nanos: i128) -> RpcTimestamp {
    RpcTimestamp {
        seconds: (unix_nanos as int / NANOS_PER_SECOND as int) as i64,
        nanos: (unix_nanos as int % NANOS_PER_SECOND as int) as i32,
    }
}

/// The request for a task and a snapshot of the community's members.
pub open spec fn is_request_for(
    req: AddCommunityTaskRequest,
    task: CommunityTask,
    members: Seq<u128>,
) -> bool {
    &&& req.community_id@ == uuid_text(task.community_id)
    &&& strings_view(req.members@) == members.map_values(|m: u128| uuid_text(m))
    &&& req.title@ == task.title@
    &&& req.description@ == task.description@
    &&& req.deadline == match task.deadline {
        Some(d) => Some(rpc_time(d.unix_nanos)),
        None => None,
    }
    &&& strings_view(req.subtasks@) == strings_view(task.subtasks@)
}

fn copy_strings(v: &Vec<String>) -> (r: Vec<String>)
    ensures
        r@ == v@,
{
    let mut out: Vec<String> = Vec::new();
    let mut i: usize = 0;
    while i < v.len()
        invariant
            i <= v@.len(),
            out@ == v@.take(i as int),
        decreases v@.len() - i,
    {
        out.push(v[i].clone());
        proof {
            assert(v@.take(i as int + 1) =~= v@.take(i as int).push(v@[i as int]));
        }
        i += 1;
    }
    proof {
        assert(v@.take(v@.len() as int) =~= v@);
    }
    out
}

/// The request's form of an instant.
pub fn to_rpc_time(t: Timestamp) -> (r: RpcTimestamp)
    requires
        t.wf(),
    ensures
        r == rpc_time(t.unix_nanos),
        0 <= r.nanos < NANOS_PER_SECOND,
{
    let seconds = t.unix_nanos.checked_div_euclid(NANOS_PER_SECOND).unwrap();
    let nanos = t.unix_nanos.checked_rem_euclid(NANOS_PER_SECOND).unwrap();
    RpcTimestamp { seconds: seconds as i64, nanos: nanos as i32 }
}

/// The request that replicates a task to the members of a snapshot of its
/// community.
pub fn replication_request(task: &CommunityTask, members: &Vec<u128>) -> (r: AddCommunityTaskRequest)
    requires
        task.deadline matches Some(d) ==> d.wf(),
    ensures
        is_request_for(r, *task, members@),
{
    let mut names: Vec<String> = Vec::new();
    let mut i: usize = 0;
    while i < members.len()
        invariant
            i <= members@.len(),
            strings_view(names@) == members@.take(i as int).map_values(|m: u128| uuid_text(m)),
        decreases members@.len() - i,
    {
        let name = uuid_to_text(members[i]);
        let ghost before = names@;
        names.push(name);
        proof {
            assert(strings_view(names@) =~= strings_view(before).push(uuid_text(members@[i as int])));
            assert(members@.take(i as int + 1) =~= members@.take(i as int).push(members@[i as int]));
            assert(members@.take(i as int + 1).map_values(|m: u128| uuid_text(m))
                =~= members@.take(i as int).map_values(|m: u128| uuid_text(m)).push(uuid_text(members@[i as int])));
        }
        i += 1;
    }
    proof {
        assert(members@.take(members@.len() as int) =~= members@);
    }
    let deadline = match task.deadline {
        Some(d) => Some(to_rpc_time(d)),
        None => None,
    };
    AddCommunityTaskRequest {
        community_id: uuid_to_text(task.community_id),
        members: names,
        title: task.title.clone(),
        description: task.description.clone(),
        deadline,
        subtasks: copy_strings(&task.subtasks),
    }
}

/// Why a fan-out failed.
#[derive(Clone, Copy, Debug, PartialEq, Eq, Structural)]
pub enum FanoutError {
    /// The task store failed: the insert, the member list, the commit or the
    /// rollback.
    Store,
    /// The task service did not create the members' copies; the canonical
    /// task was rolled back.
    Replication,
}

/// Where a fan-out stands.
#[derive(Clone, Debug)]
pub enum FanoutPhase {
    /// The canonical task is being inserted inside a transaction.
    Inserting,
    /// The task is inserted; the community's members are being read.
    ReadingMembers { task: CommunityTask },
    /// The task service is creating the members' copies.
    Replicating { task: CommunityTask },
    /// The transaction is committing.
    Committing { task: CommunityTask },
    /// The transaction is rolling back, for the given reason.
    RollingBack { cause: FanoutError },
    /// The caller has its answer.
    Finished,
}

/// The outcome of the work that the last action asked for.
#[derive(Clone, Debug)]
pub enum FanoutEvent {
    /// The canonical task was inserted, as returned.
    Inserted(CommunityTask),
    /// The members of the community at the time of reading.
    Members(Vec<u128>),
    /// The replication, commit or rollback succeeded.
    Succeeded,
    /// The step failed.
    Failed,
}

/// What the coordinator must do next.
#[derive(Debug)]
pub enum FanoutAction {
    /// Read the member list of this community.
    ReadMembers(u128),
    /// Send this request to the task service.
    Replicate(AddCommunityTaskRequest),
    Commit,
    RollBack,
    /// Answer the caller.
    Reply(Result<CommunityTask, FanoutError>),
}

/// The coordinator's rule: from a phase and the outcome of its work, the
/// next phase and the work to do.
pub open spec fn transition(p: FanoutPhase, e: FanoutEvent, q: FanoutPhase, a: FanoutAction) -> bool {
    match (p, e) {
        (FanoutPhase::Inserting, FanoutEvent::Inserted(t)) => q == FanoutPhase::ReadingMembers {
            task: t,
        } && a == FanoutAction::ReadMembers(t.community_id),
        (FanoutPhase::Inserting, FanoutEvent::Failed) => q == FanoutPhase::RollingBack {
            cause: FanoutError::Store,
        } && a == FanoutAction::RollBack,
        (FanoutPhase::ReadingMembers { task }, FanoutEvent::Members(ms)) => q
            == FanoutPhase::Replicating { task } && (a matches FanoutAction::Replicate(req)
            && is_request_for(req, task, ms@)),
        (FanoutPhase::ReadingMembers { .. }, FanoutEvent::Failed) => q == FanoutPhase::RollingBack {
            cause: FanoutError::Store,
        } && a == FanoutAction::RollBack,
        (FanoutPhase::Replicating { task }, FanoutEvent::Succeeded) => q
            == FanoutPhase::Committing { task } && a == FanoutAction::Commit,
        (FanoutPhase::Replicating { .. }, FanoutEvent::Failed) => q == FanoutPhase::RollingBack {
            cause: FanoutError::Replication,
        } && a == FanoutAction::RollBack,
        (FanoutPhase::Committing { task }, FanoutEvent::Succeeded) => q == FanoutPhase::Finished
            && a == FanoutAction::Reply(Ok(task)),
        (FanoutPhase::Committing { .. }, FanoutEvent::Failed) => q == FanoutPhase::Finished && a
            == FanoutAction::Reply(Err(FanoutError::Store)),
        (FanoutPhase::RollingBack { cause }, FanoutEvent::Succeeded) => q == FanoutPhase::Finished
            && a == FanoutAction::Reply(Err(cause)),
        (FanoutPhase::RollingBack { .. }, FanoutEvent::Failed) => q == FanoutPhase::Finished && a
            == FanoutAction::Reply(Err(FanoutError::Store)),
        _ => false,
    }
}

/// Whether a phase expects the event: each phase waits for its own work.
pub open spec fn expects(p: FanoutPhase, e: FanoutEvent) -> bool {
    match (p, e) {
        (FanoutPhase::Inserting, FanoutEvent::Inserted(_)) => true,
        (FanoutPhase::ReadingMembers { .. }, FanoutEvent::Members(_)) => true,
        (FanoutPhase::Replicating { .. }, FanoutEvent::Succeeded) => true,
        (FanoutPhase::Committing { .. }, FanoutEvent::Succeeded) => true,
        (FanoutPhase::RollingBack { .. }, FanoutEvent::Succeeded) => true,
        (FanoutPhase::Finished, _) => false,
        (_, FanoutEvent::Failed) => true,
        _ => false,
    }
}

pub open spec fn deadline_wf(p: FanoutPhase) -> bool {
    match p {
        FanoutPhase::ReadingMembers { task } => task.deadline matches Some(d) ==> d.wf(),
        _ => true,
    }
}

pub open spec fn event_wf(e: FanoutEvent) -> bool {
    e matches FanoutEvent::Inserted(t) ==> (t.deadline matches Some(d) ==> d.wf())
}

/// One step of the fan-out saga.
pub fn fanout_step(phase: FanoutPhase, event: FanoutEvent) -> (r: (FanoutPhase, FanoutAction))
    requires
        expects(phase, event),
        deadline_wf(phase),
        event_wf(event),
    ensures
        transition(phase, event, r.0, r.1),
        deadline_wf(r.0),
{
    match (phase, event) {
        (FanoutPhase::Inserting, FanoutEvent::Inserted(t)) => {
            let community = t.community_id;
            (FanoutPhase::ReadingMembers { task: t }, FanoutAction::ReadMembers(community))
        },
        (FanoutPhase::ReadingMembers { task }, FanoutEvent::Members(ms)) => {
            let req = replication_request(&task, &ms);
            (FanoutPhase::Replicating { task }, FanoutAction::Replicate(req))
        },
        (FanoutPhase::Replicating { task }, FanoutEvent::Succeeded) => (
            FanoutPhase::Committing { task },
            FanoutAction::Commit,
        ),
        (FanoutPhase::Replicating { .. }, FanoutEvent::Failed) => (
            FanoutPhase::RollingBack { cause: FanoutError::Replication },
            FanoutAction::RollBack,
        ),
        (FanoutPhase::Committing { task }, FanoutEvent::Succeeded) => (
            FanoutPhase::Finished,
            FanoutAction::Reply(Ok(task)),
        ),
        (FanoutPhase::RollingBack { cause }, FanoutEvent::Succeeded) => (
            FanoutPhase::Finished,
            FanoutAction::Reply(Err(cause)),
        ),
        (FanoutPhase::Committing { .. }, _) => (
            FanoutPhase::Finished,
            FanoutAction::Reply(Err(FanoutError::Store)),
        ),
        (FanoutPhase::RollingBack { .. }, _) => (
            FanoutPhase::Finished,
            FanoutAction::Reply(Err(FanoutError::Store)),
        ),
        (_, _) => (FanoutPhase::RollingBack { cause: FanoutError::Store }, FanoutAction::RollBack),
    }
}

/// A run of the saga: `phases[i]` takes `events[i]` to `phases[i + 1]`
/// with `actions[i]`.
pub open spec fn is_run(
    phases: Seq<FanoutPhase>,
    events: Seq<FanoutEvent>,
    actions: Seq<FanoutAction>,
) -> bool {
    &&& phases.len() == events.len() + 1
    &&& actions.len() == events.len()
    &&& forall|i: int| 0 <= i < events.len() ==> transition(#[trigger] phases[i], events[i], phases[i + 1], actions[i])
}

/// Once the task service has failed, the phase is a rollback or the end,
/// and any answer is an error.
pub open spec fn after_failed_replication(p: FanoutPhase) -> bool {
    p is RollingBack || p is Finished
}

/// Once the task service reports a failure, the canonical task is rolled
/// back and never committed, and the caller receives an error.
pub proof fn lemma_failed_replication_never_commits(
    phases: Seq<FanoutPhase>,
    events: Seq<FanoutEvent>,
    actions: Seq<FanoutAction>,
    k: int,
)
    requires
        is_run(phases, events, actions),
        0 <= k < events.len(),
        phases[k] is Replicating,
        events[k] is Failed,
    ensures
        actions[k] == FanoutAction::RollBack,
        forall|j: int| k <= j < actions.len() ==> !(#[trigger] actions[j] is Commit),
        forall|j: int| k <= j < actions.len() ==> (#[trigger] actions[j] matches FanoutAction::Reply(res) ==> res is Err),
{
    assert forall|j: int| k < j <= events.len() implies after_failed_replication(#[trigger] phases[j]) by {
        lemma_stays_after_failure(phases, events, actions, k, j);
    }
    assert forall|j: int| k <= j < actions.len() implies !(#[trigger] actions[j] is Commit) && (actions[j] matches FanoutAction::Reply(res) ==> res is Err) by {
        if j > k {
            lemma_stays_after_failure(phases, events, actions, k, j);
        }
        assert(transition(phases[j], events[j], phases[j + 1], actions[j]));
    }
}

proof fn lemma_stays_after_failure(
    phases: Seq<FanoutPhase>,
    events: Seq<FanoutEvent>,
    actions: Seq<FanoutAction>,
    k: int,
    j: int,
)
    requires
        is_run(phases, events, actions),
        0 <= k < events.len(),
        phases[k] is Replicating,
        events[k] is Failed,
        k < j <= events.len(),
    ensures
        after_failed_replication(phases[j]),
        phases[j] matches FanoutPhase::RollingBack { cause } ==> cause == FanoutError::Replication || cause == FanoutError::Store,
    decreases j - k,
{
    assert(transition(phases[k], events[k], phases[k + 1], actions[k]));
    if j > k + 1 {
        lemma_stays_after_failure(phases, events, actions, k, j - 1);
        assert(transition(phases[j - 1], events[j - 1], phases[j], actions[j - 1]));
    }
}

/// A canonical task is committed only in the step right after the task
/// service has reported success for it.
pub proof fn lemma_commit_needs_replication(
    phases: Seq<FanoutPhase>,
    events: Seq<FanoutEvent>,
    actions: Seq<FanoutAction>,
    j: int,
)
    requires
        is_run(phases, events, actions),
        0 <= j < actions.len(),
        actions[j] is Commit,
    ensures
        phases[j] is Replicating,
        events[j] is Succeeded,
{
    assert(transition(phases[j], events[j], phases[j + 1], actions[j]));
}

/// The task service's reading of a request: the community, the members and
/// the deadline it names.
#[derive(Clone, Debug)]
pub struct MemberTaskBatch {
    pub community_id: u128,
    pub members: Vec<u128>,
    pub title: String,
    pub description: String,
    pub deadline: Option<Timestamp>,
    pub subtasks: Vec<String>,
}

/// Why the task service refuses a request; each is an invalid argument.
#[derive(Clone, Copy, Debug, PartialEq, Eq, Structural)]
pub enum RequestError {
    InvalidCommunityId,
    InvalidMemberId,
    InvalidDeadline,
}

/// The instant that a request's deadline names: the seconds, which must lie
/// in the range of date-times, plus the nanoseconds where they are not
/// negative. `None` where that is out of range.
pub open spec fn deadline_of(d: RpcTimestamp) -> Option<int> {
    let n = d.seconds * NANOS_PER_SECOND + if d.nanos > 0 { d.nanos as int } else { 0 };
    if MIN_UNIX_SECONDS <= d.seconds <= MAX_UNIX_SECONDS && in_time_range(n) {
        Some(n)
    } else {
        None
    }
}

pub open spec fn members_parse(members: Seq<String>) -> bool {
    forall|i: int| 0 <= i < members.len() ==> uuid_parsed(#[trigger] members[i]@) is Some
}

/// Reads a replication request as the task service does: the community
/// first, then every member, then the deadline.
pub fn read_request(req: &AddCommunityTaskRequest) -> (r: Result<MemberTaskBatch, RequestError>)
    ensures
        uuid_parsed(req.community_id@) is None ==> r == Err::<MemberTaskBatch, RequestError>(RequestError::InvalidCommunityId),
        uuid_parsed(req.community_id@) is Some && !members_parse(req.members@) ==> r == Err::<MemberTaskBatch, RequestError>(RequestError::InvalidMemberId),
        uuid_parsed(req.community_id@) is Some && members_parse(req.members@) && (req.deadline matches Some(d) && deadline_of(d) is None) ==> r == Err::<MemberTaskBatch, RequestError>(RequestError::InvalidDeadline),
        r is Ok <==> uuid_parsed(req.community_id@) is Some && members_parse(req.members@) && (req.deadline matches Some(d) ==> deadline_of(d) is Some),
        r matches Ok(b) ==> Some(b.community_id) == uuid_parsed(req.community_id@),
        r matches Ok(b) ==> b.members@.len() == req.members@.len() && forall|i: int| 0 <= i < b.members@.len() ==> Some(#[trigger] b.members@[i]) == uuid_parsed(req.members@[i]@),
        r matches Ok(b) ==> b.title@ == req.title@ && b.description@ == req.description@ && b.subtasks@ == req.subtasks@,
        r matches Ok(b) ==> match req.deadline {
            Some(d) => b.deadline matches Some(t) && t.wf() && Some(t.unix_nanos as int) == deadline_of(d),
            None => b.deadline is None,
        },
{
    let community_id = match parse_uuid(req.community_id.as_str()) {
        Some(c) => c,
        None => return Err(RequestError::InvalidCommunityId),
    };
    let mut members: Vec<u128> = Vec::new();
    let mut i: usize = 0;
    while i < req.members.len()
        invariant
            i <= req.members@.len(),
            Some(community_id) == uuid_parsed(req.community_id@),
            members@.len() == i,
            forall|k: int| 0 <= k < i ==> Some(#[trigger] members@[k]) == uuid_parsed(req.members@[k]@),
        decreases req.members@.len() - i,
    {
        match parse_uuid(req.members[i].as_str()) {
            Some(m) => members.push(m),
            None => {
                assert(!members_parse(req.members@));
                return Err(RequestError::InvalidMemberId);
            },
        }
        i += 1;
    }
    assert(members_parse(req.members@)) by {
        assert forall|k: int| 0 <= k < req.members@.len() implies uuid_parsed(
            #[trigger] req.members@[k]@,
        ) is Some by {
            assert(Some(members@[k]) == uuid_parsed(req.members@[k]@));
        }
    }
    let deadline = match req.deadline {
        Some(d) => {
            if Timestamp::from_unix_nanos(d.seconds as i128 * NANOS_PER_SECOND).is_none() {
                return Err(RequestError::InvalidDeadline);
            }
            let extra: i128 = if d.nanos > 0 { d.nanos as i128 } else { 0 };
            match Timestamp::from_unix_nanos(d.seconds as i128 * NANOS_PER_SECOND + extra) {
                Some(t) => Some(t),
                None => return Err(RequestError::InvalidDeadline),
            }
        },
        None => None,
    };
    Ok(MemberTaskBatch {
        community_id,
        members,
        title: req.title.clone(),
        description: req.description.clone(),
        deadline,
        subtasks: copy_strings(&req.subtasks),
    })
}

} // verus!
