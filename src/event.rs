//! The notification event that the deadline scanner publishes on the queue,
//! and its wire form: a JSON object of five strings.
use vstd::prelude::*;
use crate::ids::{parse_uuid, uuid_parsed, uuid_text, uuid_to_text};
use crate::instant::{in_time_range, Timestamp, NANOS_PER_SECOND};
use crate::wire::{
    find_field, json_object_bytes, json_read_object, json_string_object, json_write_object,
    keys_distinct, pairs_map, pairs_view, FieldList, FieldMap,
};

verus! {

/// The first second of year 0, the earliest instant that RFC 3339 can write.
pub const RFC3339_MIN_UNIX_SECONDS: i64 = -62167219200;

pub open spec fn rfc3339_min_nanos() -> int {
    RFC3339_MIN_UNIX_SECONDS * NANOS_PER_SECOND
}

/// The RFC 3339 text that the time crate writes for a UTC instant.
pub uninterp spec fn rfc3339_text(unix_nanos: i128) -> Seq<char>;

/// The instant that the time crate reads from an RFC 3339 text, if any.
pub uninterp spec fn rfc3339_parsed(s: Seq<char>) -> Option<i128>;

/// Relies on time::OffsetDateTime::format with the Rfc3339 description,
/// which for a UTC instant fails exactly when the year is below 0 or above
/// 9999.
#[verifier::external_body]
fn format_rfc3339(unix_nanos: i128) -> (r: Option<String>)
    requires
        in_time_range(unix_nanos as int),
    ensures
        r is Some <==> rfc3339_min_nanos() <= unix_nanos,
        r matches Some(s) ==> s@ == rfc3339_text(unix_nanos),
{
    match time::OffsetDateTime::from_unix_timestamp_nanos(unix_nanos) {
        Ok(t) => t.format(&time::format_description::well_known::Rfc3339).ok(),
        Err(_) => None,
    }
}

/// Relies on time::OffsetDateTime::parse with the Rfc3339 description, and
/// on unix_timestamp_nanos of what it reads; it reads back the instant that
/// format wrote.
#[verifier::external_body]
fn parse_rfc3339(s: &str) -> (r: Option<i128>)
    ensures
        r == rfc3339_parsed(s@),
        forall|n: i128| #[trigger] rfc3339_text(n) == s@ && in_time_range(n as int) && rfc3339_min_nanos() <= n ==> r == Some(n),
{
    match time::OffsetDateTime::parse(s, &time::format_description::well_known::Rfc3339) {
        Ok(t) => Some(t.unix_timestamp_nanos()),
        Err(_) => None,
    }
}

/// A task whose deadline is approaching, addressed to its owner.
#[derive(Clone, Debug)]
pub struct NotificationEvent {
    pub user_id: u128,
    pub task_id: String,
    pub title: String,
    pub description: String,
    pub deadline: Timestamp,
}

/// The mathematical value of a notification event.
pub struct EventView {
    pub user_id: u128,
    pub task_id: Seq<char>,
    pub title: Seq<char>,
    pub description: Seq<char>,
    pub deadline: i128,
}

impl View for NotificationEvent {
    type V = EventView;

    open spec fn view(&self) -> EventView {
        EventView {
            user_id: self.user_id,
            task_id: self.task_id@,
            title: self.title@,
            description: self.description@,
            deadline: self.deadline.unix_nanos,
        }
    }
}

/// Why an event could not be written.
#[derive(Clone, Copy, Debug, PartialEq, Eq, Structural)]
pub enum EncodeError {
    /// RFC 3339 has no text for a deadline before year 0.
    DeadlineNotRepresentable,
}

/// Why a payload is not an event.
#[derive(Clone, Copy, Debug, PartialEq, Eq, Structural)]
pub enum DecodeError {
    /// The payload is not a JSON object whose values are all strings.
    NotAnObject,
    /// One of the five fields is absent.
    MissingField,
    /// `user_id` is not an identifier.
    InvalidUserId,
    /// `deadline` is not an RFC 3339 instant that a timestamp can hold.
    InvalidDeadline,
}

pub open spec fn key_user_id() -> Seq<char> {
    "user_id"@
}

pub open spec fn key_task_id() -> Seq<char> {
    "task_id"@
}

pub open spec fn key_title() -> Seq<char> {
    "title"@
}

pub open spec fn key_description() -> Seq<char> {
    "description"@
}

pub open spec fn key_deadline() -> Seq<char> {
    "deadline"@
}

/// An event that the wire form can carry: its deadline is a valid
/// timestamp that RFC 3339 can write.
pub open spec fn encodable(e: EventView) -> bool {
    in_time_range(e.deadline as int) && rfc3339_min_nanos() <= e.deadline
}

/// The fields of the JSON object that carries an event.
pub open spec fn wire_fields(e: EventView) -> FieldMap {
    map![
        key_user_id() => uuid_text(e.user_id),
        key_task_id() => e.task_id,
        key_title() => e.title,
        key_description() => e.description,
        key_deadline() => rfc3339_text(e.deadline),
    ]
}

/// The bytes that carry an event on the queue.
pub open spec fn event_bytes(e: EventView) -> Seq<u8> {
    json_object_bytes(wire_fields(e))
}

pub open spec fn has_all_keys(m: FieldMap) -> bool {
    &&& m.contains_key(key_user_id())
    &&& m.contains_key(key_task_id())
    &&& m.contains_key(key_title())
    &&& m.contains_key(key_description())
    &&& m.contains_key(key_deadline())
}

/// What a payload reads as: the event, or the first thing wrong with it.
pub open spec fn decoded(payload: Seq<u8>) -> Result<EventView, DecodeError> {
    match json_string_object(payload) {
        None => Err(DecodeError::NotAnObject),
        Some(m) => if !has_all_keys(m) {
            Err(DecodeError::MissingField)
        } else {
            match uuid_parsed(m[key_user_id()]) {
                None => Err(DecodeError::InvalidUserId),
                Some(user_id) => match rfc3339_parsed(m[key_deadline()]) {
                    Some(n) if in_time_range(n as int) => Ok(
                        EventView {
                            user_id,
                            task_id: m[key_task_id()],
                            title: m[key_title()],
                            description: m[key_description()],
                            deadline: n,
                        },
                    ),
                    _ => Err(DecodeError::InvalidDeadline),
                },
            }
        },
    }
}

proof fn lemma_keys_differ()
    ensures
        key_user_id() != key_task_id(),
        key_user_id() != key_title(),
        key_user_id() != key_description(),
        key_user_id() != key_deadline(),
        key_task_id() != key_title(),
        key_task_id() != key_description(),
        key_task_id() != key_deadline(),
        key_title() != key_description(),
        key_title() != key_deadline(),
        key_description() != key_deadline(),
{
    reveal_strlit("user_id");
    reveal_strlit("task_id");
    reveal_strlit("title");
    reveal_strlit("description");
    reveal_strlit("deadline");
    assert(key_user_id()[0] != key_task_id()[0]);
    assert(key_task_id().len() != key_title().len());
    assert(key_title().len() != key_description().len());
}

/// Writes an event in its wire form. The deadline goes as RFC 3339 text, so
/// an event due before year 0 cannot be written.
pub fn encode_event(event: &NotificationEvent) -> (r: Result<Vec<u8>, EncodeError>)
    requires
        event.deadline.wf(),
    ensures
        r is Ok <==> encodable(event@),
        r matches Ok(bytes) ==> bytes@ == event_bytes(event@),
        r matches Err(e) ==> e == EncodeError::DeadlineNotRepresentable,
{
    let deadline = match format_rfc3339(event.deadline.unix_nanos) {
        Some(s) => s,
        None => return Err(EncodeError::DeadlineNotRepresentable),
    };
    let mut fields: FieldList = Vec::new();
    fields.push((String::from_str("user_id"), uuid_to_text(event.user_id)));
    fields.push((String::from_str("task_id"), event.task_id.clone()));
    fields.push((String::from_str("title"), event.title.clone()));
    fields.push((String::from_str("description"), event.description.clone()));
    fields.push((String::from_str("deadline"), deadline));
    proof {
        lemma_keys_differ();
        let s = pairs_view(fields@);
        assert(s[0].0 == key_user_id());
        assert(s[1].0 == key_task_id());
        assert(s[2].0 == key_title());
        assert(s[3].0 == key_description());
        assert(s[4].0 == key_deadline());
        assert(keys_distinct(s));
        reveal_with_fuel(pairs_map, 6);
        assert(pairs_map(s) =~= wire_fields(event@));
    }
    Ok(json_write_object(&fields))
}

/// Reads an event from its wire form. Whatever `encode_event` wrote reads
/// back as the same event.
pub fn decode_event(payload: &[u8]) -> (r: Result<NotificationEvent, DecodeError>)
    ensures
        r matches Ok(e) ==> decoded(payload@) == Ok::<EventView, DecodeError>(e@) && e.deadline.wf(),
        r matches Err(err) ==> decoded(payload@) == Err::<EventView, DecodeError>(err),
        forall|e: EventView| #[trigger] event_bytes(e) == payload@ && encodable(e) ==> (r matches Ok(d) && d@ == e),
{
    proof {
        lemma_keys_differ();
        assert forall|e: EventView| #[trigger] event_bytes(e) == payload@ implies wire_fields(e).dom().finite() by {
            assert(wire_fields(e).dom() =~= set![key_user_id(), key_task_id(), key_title(), key_description(), key_deadline()]);
        }
    }
    let fields = match json_read_object(payload) {
        Some(f) => f,
        None => return Err(DecodeError::NotAnObject),
    };
    let ghost m = pairs_map(pairs_view(fields@));
    let user_id = find_field(&fields, &String::from_str("user_id"));
    let task_id = find_field(&fields, &String::from_str("task_id"));
    let title = find_field(&fields, &String::from_str("title"));
    let description = find_field(&fields, &String::from_str("description"));
    let deadline = find_field(&fields, &String::from_str("deadline"));
    let (user_id, task_id, title, description, deadline) = match (user_id, task_id, title, description, deadline) {
        (Some(u), Some(t), Some(ti), Some(d), Some(dl)) => (u, t, ti, d, dl),
        _ => return Err(DecodeError::MissingField),
    };
    let user_id = match parse_uuid(user_id.as_str()) {
        Some(u) => u,
        None => return Err(DecodeError::InvalidUserId),
    };
    let nanos = match parse_rfc3339(deadline.as_str()) {
        Some(n) => n,
        None => return Err(DecodeError::InvalidDeadline),
    };
    let deadline = match Timestamp::from_unix_nanos(nanos) {
        Some(t) => t,
        None => return Err(DecodeError::InvalidDeadline),
    };
    Ok(NotificationEvent { user_id, task_id, title, description, deadline })
}

} // verus!
