//! A catalog of named search indexes shared by many callers: each index is
//! opened or created once, writes are counted until a commit flushes them,
//! and a maintenance loop per index commits what is pending.
use vstd::prelude::*;

pub mod catalog;
pub mod command;
pub mod config;
pub mod error;
pub mod idx;
pub mod maintenance;

verus! {

} // verus!
