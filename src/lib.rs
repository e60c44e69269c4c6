//! Deadline notifications, webhook delivery, community task fan-out and
//! routine resets for a task-tracking service, with their rules stated as
//! contracts and proved.
use vstd::prelude::*;

pub mod consumer;
pub mod dispatch;
pub mod event;
pub mod fanout;
pub mod ids;
pub mod instant;
pub mod routine;
pub mod scanner;
pub mod schedule;
pub mod wire;

verus! {

/// The groups under which the account service lists its HTTP operations.
#[derive(Clone, Copy, Debug, PartialEq, Eq, Structural)]
pub enum Tags {
    Account,
    Community,
    CommunityTask,
    Invite,
}

} // verus!
