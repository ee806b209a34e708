use vstd::prelude::*;
use crate::event::{AppEvent, Classified};
use crate::lease::{change_for, snapshot_after, LeaseChange, LeaseSnapshot};

verus! {

/// The reply to `Ping`: the message, unchanged. It reads no engine state,
/// so it never waits on the dispatch loop.
pub fn ping(message: String) -> (r: String)
    ensures
        r@ == message@,
{
    message
}

/// What the handler reports for a delivered event.
#[derive(Clone, Debug)]
pub enum Notice {
    /// A log line from the engine.
    Message(String),
    /// A transition, named by its event.
    Transition(AppEvent),
}

/// A log event with a message reports the message; every other event
/// (a log event whose message was absent too) reports its transition.
pub fn notice_for(c: Classified) -> (r: Notice)
    ensures
        match r {
            Notice::Message(m) => c.event == AppEvent::Log && c.message == Some(m),
            Notice::Transition(e) => e == c.event && !(c.event == AppEvent::Log && c.message is Some),
        },
{
    match (c.event, c.message) {
        (AppEvent::Log, Some(m)) => Notice::Message(m),
        (e, _) => Notice::Transition(e),
    }
}

/// The dispatch loop's handler: the notice to report for a delivered
/// event, and the lease snapshot to publish after it.
pub fn handle(snapshot: LeaseSnapshot, c: Classified) -> (r: (Notice, LeaseSnapshot))
    ensures
        r.1 == snapshot_after(snapshot, c.event),
        match r.0 {
            Notice::Message(m) => c.event == AppEvent::Log && c.message == Some(m),
            Notice::Transition(e) => e == c.event && !(c.event == AppEvent::Log && c.message is Some),
        },
        change_for(c.event) == LeaseChange::Publish ==> r.1.leased,
        change_for(c.event) == LeaseChange::Clear ==> !r.1.leased,
{
    let next = snapshot.after(c.event);
    (notice_for(c), next)
}

/// The answer to a lease-status query.
#[derive(Clone, Copy, Debug, PartialEq, Eq, Structural)]
pub enum LeaseStatus {
    Leased,
    NotLeased,
}

/// Answers a lease-status query from the published snapshot.
pub fn lease_status(s: &LeaseSnapshot) -> (r: LeaseStatus)
    ensures
        r == (if s.leased {
            LeaseStatus::Leased
        } else {
            LeaseStatus::NotLeased
        }),
{
    if s.leased {
        LeaseStatus::Leased
    } else {
        LeaseStatus::NotLeased
    }
}

} // verus!
