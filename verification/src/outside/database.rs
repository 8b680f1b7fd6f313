//! The errors of the database driver, `tokio_postgres`.

use vstd::prelude::*;

verus! {

/// What went wrong between the driver and the database.
#[verifier::external_type_specification]
#[verifier::external_body]
pub struct ExDatabaseError(tokio_postgres::Error);

} // verus!
