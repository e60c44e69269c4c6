use task_pipeline::consumer::{step, Action, DestinationLookup, DropReason, Input, Phase};
use task_pipeline::dispatch::webhook_message;
use task_pipeline::event::{decode_event, encode_event, DecodeError, EncodeError, NotificationEvent};
use task_pipeline::instant::Timestamp;

const SEC: i128 = 1_000_000_000;
const BASE: i128 = 1_704_067_200 * SEC;

fn at(n: i128) -> Timestamp {
    Timestamp::from_unix_nanos(n).unwrap()
}

fn sample() -> NotificationEvent {
    NotificationEvent {
        user_id: 0x0123456789abcdef0123456789abcdef,
        task_id: String::from("9d2f4a1e-0000-4000-8000-000000000001"),
        title: String::from("Write \"report\""),
        description: String::from("line one\nline two, ünïcode"),
        deadline: at(BASE),
    }
}

fn same(a: &NotificationEvent, b: &NotificationEvent) -> bool {
    a.user_id == b.user_id
        && a.task_id == b.task_id
        && a.title == b.title
        && a.description == b.description
        && a.deadline == b.deadline
}

#[test]
fn encoded_event_is_a_json_object_of_strings() {
    let mut e = sample();
    e.title = String::from("Essay");
    e.description = String::from("Draft");
    let bytes = encode_event(&e).unwrap();
    let text = String::from_utf8(bytes).unwrap();
    assert_eq!(
        text,
        "{\"deadline\":\"2024-01-01T00:00:00Z\",\"description\":\"Draft\",\
         \"task_id\":\"9d2f4a1e-0000-4000-8000-000000000001\",\"title\":\"Essay\",\
         \"user_id\":\"01234567-89ab-cdef-0123-456789abcdef\"}"
    );
}

#[test]
fn event_round_trips_through_the_wire() {
    let e = sample();
    let back = decode_event(&encode_event(&e).unwrap()).unwrap();
    assert!(same(&e, &back));
    let mut f = sample();
    f.deadline = at(BASE + 123_456_789);
    f.title = String::new();
    let back = decode_event(&encode_event(&f).unwrap()).unwrap();
    assert!(same(&f, &back));
    let mut g = sample();
    g.deadline = at(-62_167_219_200 * SEC);
    let back = decode_event(&encode_event(&g).unwrap()).unwrap();
    assert!(same(&g, &back));
}

#[test]
fn deadline_before_year_zero_is_not_encoded() {
    let mut e = sample();
    e.deadline = at(-62_167_219_200 * SEC - 1);
    assert_eq!(encode_event(&e), Err(EncodeError::DeadlineNotRepresentable));
}

#[test]
fn decode_reports_what_is_wrong() {
    assert_eq!(decode_event(b"not json").err(), Some(DecodeError::NotAnObject));
    assert_eq!(decode_event(b"[1,2]").err(), Some(DecodeError::NotAnObject));
    assert_eq!(
        decode_event(b"{\"user_id\":\"01234567-89ab-cdef-0123-456789abcdef\"}").err(),
        Some(DecodeError::MissingField)
    );
    let bad_user = b"{\"user_id\":\"nobody\",\"task_id\":\"t\",\"title\":\"a\",\
        \"description\":\"b\",\"deadline\":\"2024-01-01T00:00:00Z\"}";
    assert_eq!(decode_event(bad_user).err(), Some(DecodeError::InvalidUserId));
    let bad_deadline = b"{\"user_id\":\"01234567-89ab-cdef-0123-456789abcdef\",\"task_id\":\"t\",\
        \"title\":\"a\",\"description\":\"b\",\"deadline\":\"tomorrow\"}";
    assert_eq!(decode_event(bad_deadline).err(), Some(DecodeError::InvalidDeadline));
}

#[test]
fn decode_reads_other_spellings_and_offsets() {
    let payload = b"{ \"title\": \"a\", \"user_id\": \"0123456789ABCDEF0123456789ABCDEF\",\
        \"task_id\": \"t\", \"description\": \"b\", \"deadline\": \"2024-01-01T07:00:00+07:00\" }";
    let e = decode_event(payload).unwrap();
    assert_eq!(e.user_id, 0x0123456789abcdef0123456789abcdef);
    assert_eq!(e.deadline, at(BASE));
    assert_eq!(e.task_id, "t");
}

#[test]
fn message_names_task_deadline_and_time_left() {
    let mut e = sample();
    e.title = String::from("Essay");
    e.description = String::from("Draft");
    let now = at(BASE - 90_061 * SEC);
    let m = webhook_message(&e, now).unwrap();
    assert_eq!(
        m.content,
        "This is a notification for your task **Essay** (9d2f4a1e-0000-4000-8000-000000000001). \
         Description: Draft. Deadline: 2024-01-01 7:00:00.0 +07:00:00 (within 1d1h1m1s)"
    );
    assert_eq!(m.embed_title, "Essay");
    assert_eq!(m.embed_description, "Draft");
}

#[test]
fn message_time_left_parts_and_sign() {
    let e = sample();
    let m = webhook_message(&e, at(BASE + 1_500_000)).unwrap();
    assert!(m.content.ends_with("(within -1ms500\u{b5}s)"));
    let m = webhook_message(&e, at(BASE)).unwrap();
    assert!(m.content.ends_with("(within 0s)"));
    let m = webhook_message(&e, at(BASE - 3_600 * SEC - 7)).unwrap();
    assert!(m.content.ends_with("(within 1h7ns)"));
}

#[test]
fn no_message_where_local_time_leaves_the_range() {
    let mut e = sample();
    e.deadline = at(253_402_300_799 * SEC);
    assert!(webhook_message(&e, at(BASE)).is_none());
}

#[test]
fn missing_webhook_acknowledges_without_posting() {
    let payload = encode_event(&sample()).unwrap();
    let (phase, action) = step(Phase::Received, Input::Payload(payload));
    match action {
        Action::LookUp(user) => assert_eq!(user, 0x0123456789abcdef0123456789abcdef),
        _ => panic!("expected a lookup"),
    }
    let (phase, action) = step(phase, Input::Destination(DestinationLookup::NotConfigured, at(BASE)));
    assert!(matches!(phase, Phase::Done));
    assert!(matches!(action, Action::Acknowledge(Some(DropReason::NoDestination))));
}

#[test]
fn malformed_payload_is_acknowledged() {
    let (phase, action) = step(Phase::Received, Input::Payload(b"{}".to_vec()));
    assert!(matches!(phase, Phase::Done));
    assert!(matches!(
        action,
        Action::Acknowledge(Some(DropReason::Malformed(DecodeError::MissingField)))
    ));
}

#[test]
fn store_failure_is_acknowledged() {
    let payload = encode_event(&sample()).unwrap();
    let (phase, _) = step(Phase::Received, Input::Payload(payload));
    let (phase, action) = step(phase, Input::Destination(DestinationLookup::Failed, at(BASE)));
    assert!(matches!(phase, Phase::Done));
    assert!(matches!(action, Action::Acknowledge(Some(DropReason::StoreUnavailable))));
}

#[test]
fn configured_webhook_posts_then_acknowledges() {
    let payload = encode_event(&sample()).unwrap();
    let (phase, _) = step(Phase::Received, Input::Payload(payload));
    let url = String::from("https://hooks.example/abc");
    let (phase, action) = step(phase, Input::Destination(DestinationLookup::Found(url), at(BASE - 60 * SEC)));
    match &action {
        Action::Post(to, m) => {
            assert_eq!(to, "https://hooks.example/abc");
            assert!(m.content.ends_with("(within 1m)"));
        }
        _ => panic!("expected a post"),
    }
    assert!(matches!(phase, Phase::Posting));
    let (phase, action) = step(phase, Input::Posted);
    assert!(matches!(phase, Phase::Done));
    assert!(matches!(action, Action::Acknowledge(None)));
}
