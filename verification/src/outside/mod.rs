//! The calls into other crates, with what each of them promises.

pub mod convert;
pub mod database;
pub mod json;
pub mod random;
