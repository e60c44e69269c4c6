//! The notification consumer, one delivery at a time: read the event, find
//! where its owner wants notifications, post the message, and acknowledge
//! the delivery in every case, after the work and exactly once.
use vstd::prelude::*;
use crate::dispatch::{local_date_time_text, webhook_message, WebhookMessage, NOTIFY_OFFSET_SECONDS};
use crate::event::{decode_event, decoded, DecodeError, NotificationEvent};
use crate::instant::Timestamp;

verus! {

/// What the webhook-configuration store answered for a user.
#[derive(Clone, Debug)]
pub enum DestinationLookup {
    /// The store could not be read.
    Failed,
    /// The user has no webhook, or one without a URL.
    NotConfigured,
    /// The URL to post notifications to.
    Found(String),
}

/// Why a delivery ends without a post.
#[derive(Clone, Copy, Debug, PartialEq, Eq, Structural)]
pub enum DropReason {
    /// The payload is not an event.
    Malformed(DecodeError),
    /// The webhook-configuration store could not be read.
    StoreUnavailable,
    /// The user has configured no destination; this is no error.
    NoDestination,
    /// The deadline has no local date-time to show.
    DeadlineNotShowable,
}

/// Where the handling of one delivery stands.
#[derive(Clone, Debug)]
pub enum Phase {
    /// The delivery has arrived and is not read yet.
    Received,
    /// The event is read; its owner's destination is being looked up.
    Resolving { event: NotificationEvent },
    /// The message is being posted.
    Posting,
    /// The delivery has been handled and acknowledged.
    Done,
}

/// What happened since the last step.
#[derive(Clone, Debug)]
pub enum Input {
    /// The payload of the delivery.
    Payload(Vec<u8>),
    /// The answer of the webhook-configuration store, and the time.
    Destination(DestinationLookup, Timestamp),
    /// The post has finished, whether or not the destination took it.
    Posted,
}

/// What the consumer must do next.
#[derive(Clone, Debug)]
pub enum Action {
    /// Look up the webhook of this user.
    LookUp(u128),
    /// Post the message to the URL.
    Post(String, WebhookMessage),
    /// Acknowledge the delivery, which removes it from the queue; the
    /// reason is set where nothing was posted.
    Acknowledge(Option<DropReason>),
}

impl Phase {
    /// The steps left before the delivery is done.
    pub open spec fn remaining(&self) -> nat {
        match self {
            Phase::Received => 3,
            Phase::Resolving { .. } => 2,
            Phase::Posting => 1,
            Phase::Done => 0,
        }
    }

    /// Whether the phase takes the input.
    pub open spec fn accepts(&self, input: &Input) -> bool {
        match (self, input) {
            (Phase::Received, Input::Payload(_)) => true,
            (Phase::Resolving { event }, Input::Destination(_, now)) => event.deadline.wf()
                && now.wf(),
            (Phase::Posting, Input::Posted) => true,
            _ => false,
        }
    }
}

/// The consumer's rule for one step: the phase `q` and action `a` that
/// follow phase `p` on input `i`.
pub open spec fn handles(p: Phase, i: Input, q: Phase, a: Action) -> bool {
    &&& q.remaining() < p.remaining()
    &&& (q is Done <==> a is Acknowledge)
    &&& (q matches Phase::Resolving { event } ==> event.deadline.wf())
    &&& (p is Received ==> (i matches Input::Payload(payload) && (match decoded(payload@) {
        Ok(e) => q matches Phase::Resolving { event } && event@ == e && a == Action::LookUp(
            e.user_id,
        ),
        Err(err) => q is Done && a == Action::Acknowledge(Some(DropReason::Malformed(err))),
    })))
    &&& (p matches Phase::Resolving { event } ==> (i matches Input::Destination(found, now) && (
    match found {
        DestinationLookup::Failed => a == Action::Acknowledge(Some(DropReason::StoreUnavailable)),
        DestinationLookup::NotConfigured => a == Action::Acknowledge(
            Some(DropReason::NoDestination),
        ),
        DestinationLookup::Found(url) => if local_date_time_text(
            event.deadline.unix_nanos,
            NOTIFY_OFFSET_SECONDS,
        ) is Some {
            a matches Action::Post(to, m) && to@ == url@ && q is Posting && posted_message(
                m,
                event,
                now,
            )
        } else {
            a == Action::Acknowledge(Some(DropReason::DeadlineNotShowable))
        },
    })))
    &&& (p is Posting ==> a == Action::Acknowledge(None))
}

/// One step of the handling of a delivery.
///
/// A payload that is not an event is acknowledged at once. An event leads
/// to the lookup of its owner's destination. Without a destination, or when
/// the store fails, the delivery is acknowledged without a post; with one,
/// the message is posted, and the delivery is acknowledged once the post has
/// finished, whatever its outcome: there is no retry.
pub fn step(phase: Phase, input: Input) -> (r: (Phase, Action))
    requires
        phase.accepts(&input),
    ensures
        handles(phase, input, r.0, r.1),
{
    match (phase, input) {
        (Phase::Received, Input::Payload(payload)) => match decode_event(payload.as_slice()) {
            Ok(event) => {
                let user = event.user_id;
                (Phase::Resolving { event }, Action::LookUp(user))
            },
            Err(err) => (Phase::Done, Action::Acknowledge(Some(DropReason::Malformed(err)))),
        },
        (Phase::Resolving { event }, Input::Destination(found, now)) => match found {
            DestinationLookup::Failed => (
                Phase::Done,
                Action::Acknowledge(Some(DropReason::StoreUnavailable)),
            ),
            DestinationLookup::NotConfigured => (
                Phase::Done,
                Action::Acknowledge(Some(DropReason::NoDestination)),
            ),
            DestinationLookup::Found(url) => match webhook_message(&event, now) {
                Some(m) => (Phase::Posting, Action::Post(url, m)),
                None => (Phase::Done, Action::Acknowledge(Some(DropReason::DeadlineNotShowable))),
            },
        },
        (_, _) => (Phase::Done, Action::Acknowledge(None)),
    }
}

/// The message posted for an event at `now` is the dispatcher's message.
pub open spec fn posted_message(m: WebhookMessage, event: NotificationEvent, now: Timestamp) -> bool {
    &&& m.embed_title@ == event.title@
    &&& m.embed_description@ == event.description@
    &&& m.content@ == crate::dispatch::message_text(
        event@,
        local_date_time_text(event.deadline.unix_nanos, NOTIFY_OFFSET_SECONDS)->0,
        event.deadline.unix_nanos - now.unix_nanos,
    )
}

/// The handling of one delivery: `phases[i]` takes `inputs[i]` to
/// `phases[i + 1]` with `actions[i]`, starting from its arrival.
pub open spec fn is_handling(phases: Seq<Phase>, inputs: Seq<Input>, actions: Seq<Action>) -> bool {
    &&& phases.len() == inputs.len() + 1
    &&& actions.len() == inputs.len()
    &&& phases[0] is Received
    &&& forall|i: int| 0 <= i < inputs.len() ==> (#[trigger] phases[i]).accepts(&inputs[i]) && handles(phases[i], inputs[i], phases[i + 1], actions[i])
}

/// A delivery is acknowledged at most once, and only by the last action of
/// its handling, after all the work for it; a handling that runs to its end
/// has acknowledged it. It takes at most three steps.
pub proof fn lemma_acknowledged_once_at_end(phases: Seq<Phase>, inputs: Seq<Input>, actions: Seq<Action>)
    requires
        is_handling(phases, inputs, actions),
    ensures
        inputs.len() <= 3,
        forall|i: int| 0 <= i < actions.len() && (#[trigger] actions[i] is Acknowledge) ==> i == actions.len() - 1,
        phases.last() is Done <==> (actions.len() > 0 && actions.last() is Acknowledge),
{
    assert forall|i: int| 0 <= i <= inputs.len() implies (#[trigger] phases[i]).remaining() + i <= 3 by {
        lemma_remaining_falls(phases, inputs, actions, i);
    }
    assert forall|i: int| 0 <= i < actions.len() && (#[trigger] actions[i] is Acknowledge) implies i == actions.len() - 1 by {
        assert(handles(phases[i], inputs[i], phases[i + 1], actions[i]));
        if i + 1 < inputs.len() {
            assert(phases[i + 1].accepts(&inputs[i + 1]));
        }
    }
    if actions.len() > 0 {
        let n = actions.len() - 1;
        assert(handles(phases[n], inputs[n], phases[n + 1], actions[n]));
    }
}

proof fn lemma_remaining_falls(phases: Seq<Phase>, inputs: Seq<Input>, actions: Seq<Action>, i: int)
    requires
        is_handling(phases, inputs, actions),
        0 <= i <= inputs.len(),
    ensures
        phases[i].remaining() + i <= 3,
    decreases i,
{
    if i > 0 {
        lemma_remaining_falls(phases, inputs, actions, i - 1);
        assert(phases[i - 1].accepts(&inputs[i - 1]));
    }
}

} // verus!
