//! Tenants.

use vstd::prelude::*;

use super::PoolId;

verus! {

/// The identity of a tenant.
#[derive(Debug, PartialEq, Eq, Hash)]
pub struct TenantId(pub String);

impl View for TenantId {
    type V = Seq<char>;

    open spec fn view(&self) -> Seq<char> {
        self.0@
    }
}

impl Clone for TenantId {
    fn clone(&self) -> (result: Self)
        ensures
            result@ == self@,
    {
        TenantId(self.0.clone())
    }
}

/// A tenant, with the one pool and the one ownership epoch that are in force
/// for it.
#[derive(Debug, PartialEq, Eq)]
pub struct Tenant {
    /// Its identity.
    pub id: TenantId,
    /// The pool that its tasks run in.
    pub pool_id: PoolId,
    /// The epoch under which that pool owns its tasks.
    pub ownership_epoch: u64,
}

impl Clone for Tenant {
    fn clone(&self) -> (result: Self)
        ensures
            result.id@ == self.id@,
            result.pool_id@ == self.pool_id@,
            result.ownership_epoch == self.ownership_epoch,
    {
        Tenant {
            id: self.id.clone(),
            pool_id: self.pool_id.clone(),
            ownership_epoch: self.ownership_epoch,
        }
    }
}

} // verus!
