//! The webhook dispatcher's message: what a notification says about the
//! task, its deadline in the service's local time, and the time left.
use vstd::prelude::*;
use crate::event::{EventView, NotificationEvent};
use crate::instant::{Timestamp, NANOS_PER_SECOND};

verus! {

/// The offset from UTC, in seconds, at which deadlines are shown: UTC+7.
pub const NOTIFY_OFFSET_SECONDS: i32 = 25200;

/// The decimal digit for `d` in `0..10`.
pub open spec fn decimal_digit(d: nat) -> char {
    seq!['0', '1', '2', '3', '4', '5', '6', '7', '8', '9'][d as int]
}

/// The decimal text of a number, without leading zeros.
pub open spec fn decimal(n: nat) -> Seq<char>
    decreases n,
{
    if n < 10 {
        seq![decimal_digit(n)]
    } else {
        decimal(n / 10).push(decimal_digit(n % 10))
    }
}

/// One part of a duration's text: the amount and its unit, or nothing for
/// an amount of zero.
pub open spec fn duration_part(amount: nat, unit: Seq<char>) -> Seq<char> {
    if amount == 0 {
        Seq::empty()
    } else {
        decimal(amount) + unit
    }
}

/// The text of a signed length of `n` nanoseconds: its sign, then days,
/// hours, minutes, seconds, milliseconds, microseconds and nanoseconds,
/// each part only where it is not zero; `0s` for zero.
pub open spec fn duration_text(n: int) -> Seq<char> {
    let a: nat = if n < 0 {
        (-n) as nat
    } else {
        n as nat
    };
    let secs: nat = a / NANOS_PER_SECOND as nat;
    let sub: nat = a % NANOS_PER_SECOND as nat;
    if n == 0 {
        seq!['0', 's']
    } else {
        (if n < 0 {
            seq!['-']
        } else {
            Seq::empty()
        }) + duration_part(secs / 86400, seq!['d']) + duration_part(secs / 3600 % 24, seq!['h'])
            + duration_part(secs / 60 % 60, seq!['m']) + duration_part(secs % 60, seq!['s'])
            + duration_part(sub / 1_000_000, seq!['m', 's']) + duration_part(
            sub / 1000 % 1000,
            seq!['\u{b5}', 's'],
        ) + duration_part(sub % 1000, seq!['n', 's'])
    }
}

/// The text that the time crate's `Display` writes for an instant seen at
/// an offset from UTC, or `None` where that local date-time is out of its
/// range.
pub uninterp spec fn local_date_time_text(unix_nanos: i128, offset_seconds: i32) -> Option<Seq<char>>;

/// Relies on time::UtcOffset::from_whole_seconds,
/// time::OffsetDateTime::checked_to_offset and the `Display` of
/// OffsetDateTime.
#[verifier::external_body]
fn local_date_time(unix_nanos: i128, offset_seconds: i32) -> (r: Option<String>)
    ensures
        r is Some <==> local_date_time_text(unix_nanos, offset_seconds) is Some,
        r matches Some(s) ==> local_date_time_text(unix_nanos, offset_seconds) == Some(s@),
{
    let offset = time::UtcOffset::from_whole_seconds(offset_seconds).ok()?;
    let at = time::OffsetDateTime::from_unix_timestamp_nanos(unix_nanos).ok()?;
    Some(at.checked_to_offset(offset)?.to_string())
}

/// Relies on time::Duration::nanoseconds_i128, which takes any length whose
/// whole seconds fit in an `i64`, and on the `Display` of time::Duration
/// without a precision.
#[verifier::external_body]
fn duration_display(nanos: i128) -> (r: String)
    requires
        -(i64::MAX as int) * NANOS_PER_SECOND <= nanos <= i64::MAX as int * NANOS_PER_SECOND,
    ensures
        r@ == duration_text(nanos as int),
{
    time::Duration::nanoseconds_i128(nanos).to_string()
}

/// What the webhook receives: a text, and an embed with the task's title and
/// description.
#[derive(Clone, Debug)]
pub struct WebhookMessage {
    pub content: String,
    pub embed_title: String,
    pub embed_description: String,
}

/// The text of a notification, given the deadline as local text and the time
/// left until it.
pub open spec fn message_text(e: EventView, local_deadline: Seq<char>, left: int) -> Seq<char> {
    "This is a notification for your task **"@ + e.title + "** ("@ + e.task_id
        + "). Description: "@ + e.description + ". Deadline: "@ + local_deadline + " (within "@
        + duration_text(left) + ")"@
}

/// The message for an event at `now`: the deadline shown at UTC+7 and the
/// time left until it. There is none where the deadline has no local
/// date-time at UTC+7, at the very end of the range of dates.
pub fn webhook_message(event: &NotificationEvent, now: Timestamp) -> (r: Option<WebhookMessage>)
    requires
        event.deadline.wf(),
        now.wf(),
    ensures
        r is Some <==> local_date_time_text(event.deadline.unix_nanos, NOTIFY_OFFSET_SECONDS) is Some,
        r matches Some(m) ==> m.content@ == message_text(
            event@,
            local_date_time_text(event.deadline.unix_nanos, NOTIFY_OFFSET_SECONDS)->0,
            event.deadline.unix_nanos - now.unix_nanos,
        ),
        r matches Some(m) ==> m.embed_title@ == event.title@,
        r matches Some(m) ==> m.embed_description@ == event.description@,
{
    let local = match local_date_time(event.deadline.unix_nanos, NOTIFY_OFFSET_SECONDS) {
        Some(s) => s,
        None => return None,
    };
    let left = duration_display(event.deadline.unix_nanos - now.unix_nanos);
    let mut content = String::from_str("This is a notification for your task **");
    content.append(event.title.as_str());
    content.append("** (");
    content.append(event.task_id.as_str());
    content.append("). Description: ");
    content.append(event.description.as_str());
    content.append(". Deadline: ");
    content.append(local.as_str());
    content.append(" (within ");
    content.append(left.as_str());
    content.append(")");
    Some(
        WebhookMessage {
            content,
            embed_title: event.title.clone(),
            embed_description: event.description.clone(),
        },
    )
}

} // verus!
