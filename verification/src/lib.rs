//! A multi-tenant task executor: the task model, the stores that hand out
//! leases, and the decisions of the workers that hold them.

pub mod domain;
pub mod numbers;
pub mod outside;
pub mod storage;
pub mod text;
pub mod time;
pub mod transport;
pub mod worker;
