//! Verified decision logic of the Codex in-process runtime's C interface.
use vstd::prelude::*;

pub mod config;
pub mod outcome;
pub mod json;
pub mod jsonrpc;
pub mod poll;
