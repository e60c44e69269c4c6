use task_pipeline::fanout::{
    fanout_step, read_request, replication_request, to_rpc_time, AddCommunityTaskRequest,
    CommunityTask, FanoutAction, FanoutError, FanoutEvent, FanoutPhase, RequestError,
    RpcTimestamp,
};
use task_pipeline::instant::Timestamp;
use task_pipeline::routine::{routines_due, Period, Routine};

const SEC: i128 = 1_000_000_000;
const HOUR: i128 = 3_600 * SEC;
const DAY: i128 = 24 * HOUR;
// 2024-01-01T00:00:00Z, a Monday.
const BASE: i128 = 1_704_067_200 * SEC;

fn at(n: i128) -> Timestamp {
    Timestamp::from_unix_nanos(n).unwrap()
}

fn canonical(deadline: Option<i128>) -> CommunityTask {
    CommunityTask {
        id: 0x11,
        community_id: 0x0123456789abcdef0123456789abcdef,
        title: String::from("Clean up"),
        description: String::from("Saturday"),
        deadline: deadline.map(at),
        subtasks: vec![String::from("bags"), String::from("gloves")],
    }
}

fn routine(kind: &str, completed: bool, checktime: Option<i128>) -> Routine {
    Routine {
        id: 0x42,
        title: String::from("Stretch"),
        description: String::from("ten minutes"),
        checktime: checktime.map(at),
        typena: String::from(kind),
        user_id: 0x7,
        completed,
        created_at: None,
    }
}

#[test]
fn request_carries_task_and_member_snapshot() {
    let task = canonical(Some(-3 * SEC / 2));
    let req = replication_request(&task, &vec![1, 2, 0xffffffffffffffffffffffffffffffff]);
    assert_eq!(req.community_id, "01234567-89ab-cdef-0123-456789abcdef");
    assert_eq!(
        req.members,
        vec![
            "00000000-0000-0000-0000-000000000001",
            "00000000-0000-0000-0000-000000000002",
            "ffffffff-ffff-ffff-ffff-ffffffffffff",
        ]
    );
    assert_eq!(req.title, "Clean up");
    assert_eq!(req.description, "Saturday");
    assert_eq!(req.deadline, Some(RpcTimestamp { seconds: -2, nanos: 500_000_000 }));
    assert_eq!(req.subtasks, vec!["bags", "gloves"]);
    assert_eq!(to_rpc_time(at(BASE + 5)), RpcTimestamp { seconds: 1_704_067_200, nanos: 5 });
}

#[test]
fn replicated_task_is_committed_and_returned() {
    let (p, a) = fanout_step(FanoutPhase::Inserting, FanoutEvent::Inserted(canonical(None)));
    assert!(matches!(a, FanoutAction::ReadMembers(0x0123456789abcdef0123456789abcdef)));
    let (p, a) = fanout_step(p, FanoutEvent::Members(vec![1, 2, 3]));
    match &a {
        FanoutAction::Replicate(req) => {
            assert_eq!(req.members.len(), 3);
            assert_eq!(req.deadline, None);
        }
        _ => panic!("expected the replication call"),
    }
    let (p, a) = fanout_step(p, FanoutEvent::Succeeded);
    assert!(matches!(a, FanoutAction::Commit));
    let (p, a) = fanout_step(p, FanoutEvent::Succeeded);
    assert!(matches!(p, FanoutPhase::Finished));
    match a {
        FanoutAction::Reply(Ok(t)) => assert_eq!(t.id, 0x11),
        _ => panic!("expected the task"),
    }
}

#[test]
fn failed_replication_rolls_back_and_reports() {
    let (p, _) = fanout_step(FanoutPhase::Inserting, FanoutEvent::Inserted(canonical(Some(BASE))));
    let (p, a) = fanout_step(p, FanoutEvent::Members(vec![10, 20, 30]));
    match &a {
        FanoutAction::Replicate(req) => assert_eq!(req.members.len(), 3),
        _ => panic!("expected the replication call"),
    }
    let (p, a) = fanout_step(p, FanoutEvent::Failed);
    assert!(matches!(a, FanoutAction::RollBack));
    assert!(matches!(p, FanoutPhase::RollingBack { cause: FanoutError::Replication }));
    let (p, a) = fanout_step(p, FanoutEvent::Succeeded);
    assert!(matches!(p, FanoutPhase::Finished));
    assert!(matches!(a, FanoutAction::Reply(Err(FanoutError::Replication))));
}

#[test]
fn store_failures_end_in_errors() {
    let (p, a) = fanout_step(FanoutPhase::Inserting, FanoutEvent::Failed);
    assert!(matches!(a, FanoutAction::RollBack));
    let (_, a) = fanout_step(p, FanoutEvent::Succeeded);
    assert!(matches!(a, FanoutAction::Reply(Err(FanoutError::Store))));

    let (p, _) = fanout_step(FanoutPhase::Inserting, FanoutEvent::Inserted(canonical(None)));
    let (p, a) = fanout_step(p, FanoutEvent::Failed);
    assert!(matches!(a, FanoutAction::RollBack));
    let (_, a) = fanout_step(p, FanoutEvent::Failed);
    assert!(matches!(a, FanoutAction::Reply(Err(FanoutError::Store))));

    let (p, _) = fanout_step(FanoutPhase::Inserting, FanoutEvent::Inserted(canonical(None)));
    let (p, _) = fanout_step(p, FanoutEvent::Members(vec![]));
    let (p, _) = fanout_step(p, FanoutEvent::Succeeded);
    let (_, a) = fanout_step(p, FanoutEvent::Failed);
    assert!(matches!(a, FanoutAction::Reply(Err(FanoutError::Store))));
}

fn request(community: &str, members: &[&str], deadline: Option<RpcTimestamp>) -> AddCommunityTaskRequest {
    AddCommunityTaskRequest {
        community_id: String::from(community),
        members: members.iter().map(|m| String::from(*m)).collect(),
        title: String::from("Clean up"),
        description: String::from("Saturday"),
        deadline,
        subtasks: vec![String::from("bags")],
    }
}

const C: &str = "01234567-89ab-cdef-0123-456789abcdef";
const M1: &str = "00000000-0000-0000-0000-000000000001";

#[test]
fn task_service_reads_a_request() {
    let b = read_request(&request(C, &[M1, "00000000000000000000000000000002"], Some(RpcTimestamp { seconds: 1_704_067_200, nanos: 9 }))).unwrap();
    assert_eq!(b.community_id, 0x0123456789abcdef0123456789abcdef);
    assert_eq!(b.members, vec![1, 2]);
    assert_eq!(b.deadline, Some(at(BASE + 9)));
    assert_eq!(b.subtasks, vec!["bags"]);
    let b = read_request(&request(C, &[], Some(RpcTimestamp { seconds: 1_704_067_200, nanos: -5 }))).unwrap();
    assert_eq!(b.deadline, Some(at(BASE)));
    assert!(b.members.is_empty());
    let b = read_request(&request(C, &[M1], None)).unwrap();
    assert_eq!(b.deadline, None);
}

#[test]
fn task_service_refuses_bad_arguments() {
    assert_eq!(read_request(&request("x", &[M1], None)).err(), Some(RequestError::InvalidCommunityId));
    assert_eq!(read_request(&request(C, &[M1, "y"], None)).err(), Some(RequestError::InvalidMemberId));
    let far = RpcTimestamp { seconds: 253_402_300_800, nanos: 0 };
    assert_eq!(read_request(&request(C, &[M1], Some(far))).err(), Some(RequestError::InvalidDeadline));
    let edge = RpcTimestamp { seconds: 253_402_300_799, nanos: 1_000_000_000 };
    assert_eq!(read_request(&request(C, &[M1], Some(edge))).err(), Some(RequestError::InvalidDeadline));
    let early = RpcTimestamp { seconds: -377_705_116_801, nanos: 1_500_000_000 };
    assert_eq!(read_request(&request(C, &[M1], Some(early))).err(), Some(RequestError::InvalidDeadline));
}

#[test]
fn daily_routine_resets_after_its_day() {
    let r = routine("daily", true, Some(BASE - 2 * DAY + 5 * HOUR));
    assert!(r.reset_due(at(BASE + 3 * HOUR)));
    let r = routine("daily", true, Some(BASE + HOUR));
    assert!(!r.reset_due(at(BASE + 23 * HOUR)));
    let r = routine("daily", true, Some(BASE - HOUR));
    assert!(r.reset_due(at(BASE + HOUR)));
}

#[test]
fn reset_sets_open_and_checktime() {
    let now = at(BASE + 3 * HOUR);
    let r = routine("daily", true, Some(BASE - 2 * DAY)).after_reset(now);
    assert!(!r.completed);
    assert_eq!(r.checktime, Some(now));
    assert_eq!(r.title, "Stretch");
    assert!(!r.reset_due(now));
    let kept = routine("daily", true, Some(BASE + HOUR)).after_reset(now);
    assert!(kept.completed);
    assert_eq!(kept.checktime, Some(at(BASE + HOUR)));
}

#[test]
fn weekly_routine_resets_on_monday() {
    let sunday_night = BASE - HOUR;
    assert!(routine("weekly", true, Some(sunday_night)).reset_due(at(BASE + HOUR)));
    assert!(!routine("weekly", true, Some(BASE + HOUR / 2)).reset_due(at(BASE + 7 * DAY - HOUR)));
    assert!(routine("weekly", true, Some(BASE + HOUR / 2)).reset_due(at(BASE + 7 * DAY)));
}

#[test]
fn monthly_routine_resets_in_the_next_month() {
    let jan31 = BASE + 30 * DAY + 23 * HOUR;
    let feb1 = BASE + 31 * DAY + HOUR / 2;
    assert!(routine("monthly", true, Some(jan31)).reset_due(at(feb1)));
    assert!(!routine("monthly", true, Some(BASE)).reset_due(at(jan31)));
}

#[test]
fn routines_without_rule_stay() {
    assert!(!routine("daily", false, Some(BASE - 9 * DAY)).reset_due(at(BASE)));
    assert!(!routine("yearly", true, Some(BASE - 900 * DAY)).reset_due(at(BASE)));
    assert!(!routine("daily", true, None).reset_due(at(BASE)));
    assert_eq!(Period::from_kind(&String::from("weekly")), Some(Period::Weekly));
    assert_eq!(Period::from_kind(&String::from("Weekly")), None);
}

#[test]
fn routines_due_lists_the_ones_to_reset() {
    let mut a = routine("daily", true, Some(BASE - 2 * DAY));
    a.id = 1;
    let mut b = routine("daily", true, Some(BASE));
    b.id = 2;
    let mut c = routine("monthly", true, Some(BASE - 40 * DAY));
    c.id = 3;
    let mut d = routine("weekly", false, Some(BASE - 40 * DAY));
    d.id = 4;
    assert_eq!(routines_due(&vec![a, b, c, d], at(BASE + HOUR)), vec![1, 3]);
}

#[test]
fn period_numbers() {
    assert_eq!(Period::Daily.number(at(0)), 0);
    assert_eq!(Period::Daily.number(at(-1)), -1);
    assert_eq!(Period::Weekly.number(at(0)), 0);
    assert_eq!(Period::Weekly.number(at(4 * DAY)), 1);
    assert_eq!(Period::Weekly.number(at(4 * DAY - 1)), 0);
    assert_eq!(Period::Monthly.number(at(BASE)), 2024 * 12);
}
