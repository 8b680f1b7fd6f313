//! Leases.

use vstd::prelude::*;

use crate::time::SystemTime;

verus! {

/// The worker that holds a lease.
#[derive(Debug, PartialEq, Eq, Hash)]
pub struct LeaseOwnerId(pub String);

impl View for LeaseOwnerId {
    type V = Seq<char>;

    open spec fn view(&self) -> Seq<char> {
        self.0@
    }
}

impl Clone for LeaseOwnerId {
    fn clone(&self) -> (result: Self)
        ensures
            result@ == self@,
    {
        LeaseOwnerId(self.0.clone())
    }
}

/// The right of one worker to work on a task until a point in time.
#[derive(Debug, PartialEq, Eq)]
pub struct Lease {
    /// The worker that holds the lease.
    pub owner_id: LeaseOwnerId,
    /// The ownership epoch under which it was granted.
    pub ownership_epoch: u64,
    /// When it was granted.
    pub leased_at: SystemTime,
    /// From when on it is worth nothing.
    pub expires_at: SystemTime,
}

/// What a lease says.
pub struct LeaseView {
    pub owner_id: Seq<char>,
    pub ownership_epoch: u64,
    pub leased_at: int,
    pub expires_at: int,
}

impl View for Lease {
    type V = LeaseView;

    open spec fn view(&self) -> LeaseView {
        LeaseView {
            owner_id: self.owner_id@,
            ownership_epoch: self.ownership_epoch,
            leased_at: self.leased_at@,
            expires_at: self.expires_at@,
        }
    }
}

impl Clone for Lease {
    fn clone(&self) -> (result: Self)
        ensures
            result@ == self@,
    {
        Lease {
            owner_id: self.owner_id.clone(),
            ownership_epoch: self.ownership_epoch,
            leased_at: self.leased_at,
            expires_at: self.expires_at,
        }
    }
}

} // verus!
