//! Worker pools.

use vstd::prelude::*;

verus! {

/// The identity of a worker pool.
#[derive(Debug, PartialEq, Eq, Hash)]
pub struct PoolId(pub String);

impl View for PoolId {
    type V = Seq<char>;

    open spec fn view(&self) -> Seq<char> {
        self.0@
    }
}

impl Clone for PoolId {
    fn clone(&self) -> (result: Self)
        ensures
            result@ == self@,
    {
        PoolId(self.0.clone())
    }
}

/// A worker pool.
#[derive(Debug, PartialEq, Eq)]
pub struct Pool {
    /// Its identity.
    pub id: PoolId,
    /// Its name.
    pub name: String,
}

impl Clone for Pool {
    fn clone(&self) -> (result: Self)
        ensures
            result.id@ == self.id@,
            result.name@ == self.name@,
    {
        Pool { id: self.id.clone(), name: self.name.clone() }
    }
}

} // verus!
