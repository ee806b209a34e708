use vstd::prelude::*;
use crate::event::AppEvent;

verus! {

/// How an event bears on the published lease.
#[derive(Clone, Copy, Debug, PartialEq, Eq, Structural)]
pub enum LeaseChange {
    /// A lease was granted or extended: publish it.
    Publish,
    /// The lease is gone: clear what was published.
    Clear,
    /// The lease is unaffected.
    Keep,
}

pub open spec fn change_for(e: AppEvent) -> LeaseChange {
    match e {
        AppEvent::Granted | AppEvent::Extended => LeaseChange::Publish,
        AppEvent::Retracted | AppEvent::Expired | AppEvent::Cancelled | AppEvent::Down => LeaseChange::Clear,
        AppEvent::Offer | AppEvent::Log => LeaseChange::Keep,
    }
}

/// Whether an event publishes, clears or keeps the lease.
pub fn lease_change(e: AppEvent) -> (r: LeaseChange)
    ensures
        r == change_for(e),
{
    match e {
        AppEvent::Granted | AppEvent::Extended => LeaseChange::Publish,
        AppEvent::Retracted | AppEvent::Expired | AppEvent::Cancelled | AppEvent::Down => LeaseChange::Clear,
        AppEvent::Offer | AppEvent::Log => LeaseChange::Keep,
    }
}

/// The lease state that observers may read: whether a lease is held, and
/// how many times the published state has changed.
#[derive(Clone, Copy, Debug, PartialEq, Eq, Structural)]
pub struct LeaseSnapshot {
    pub leased: bool,
    pub revision: u64,
}

/// The snapshot after an event: publishing or dropping a lease is a new
/// revision (saturating), anything else leaves the snapshot as it was.
pub open spec fn snapshot_after(s: LeaseSnapshot, e: AppEvent) -> LeaseSnapshot {
    let bumped = if s.revision == u64::MAX {
        u64::MAX
    } else {
        (s.revision + 1) as u64
    };
    match change_for(e) {
        LeaseChange::Publish => LeaseSnapshot { leased: true, revision: bumped },
        LeaseChange::Clear => if s.leased {
            LeaseSnapshot { leased: false, revision: bumped }
        } else {
            s
        },
        LeaseChange::Keep => s,
    }
}

impl LeaseSnapshot {
    /// No lease, never published.
    pub fn initial() -> (r: LeaseSnapshot)
        ensures
            !r.leased,
            r.revision == 0,
    {
        LeaseSnapshot { leased: false, revision: 0 }
    }

    /// The snapshot after the handler has seen `e`. A publish or a clear
    /// that changes whether a lease is held, and every publish (a new or
    /// extended lease), counts as a revision; the count saturates.
    pub fn after(self, e: AppEvent) -> (r: LeaseSnapshot)
        ensures
            r == snapshot_after(self, e),
            change_for(e) == LeaseChange::Publish ==> r.leased,
            change_for(e) == LeaseChange::Clear ==> !r.leased,
            change_for(e) == LeaseChange::Keep ==> r == self,
            (change_for(e) == LeaseChange::Publish || (change_for(e) == LeaseChange::Clear
                && self.leased)) ==> r.revision == if self.revision == u64::MAX {
                u64::MAX
            } else {
                (self.revision + 1) as u64
            },
            change_for(e) == LeaseChange::Clear && !self.leased ==> r == self,
    {
        match lease_change(e) {
            LeaseChange::Publish => LeaseSnapshot {
                leased: true,
                revision: self.revision.saturating_add(1),
            },
            LeaseChange::Clear => if self.leased {
                LeaseSnapshot { leased: false, revision: self.revision.saturating_add(1) }
            } else {
                self
            },
            LeaseChange::Keep => self,
        }
    }
}

} // verus!
