//! Verified core of the Corvid bundle tools.
//!
//! A bundle is a directory of committed artifacts with a manifest. The library
//! decides what is checked, compared, replayed and reported of it; reading
//! files, running builds and calling libraries is left to its callers. It also
//! plans the native code that exports agents to C.
#![allow(unused_imports)]

pub mod abi;
pub mod abi_laws;
pub mod audit;
pub mod audit_laws;
pub mod committed;
pub mod committed_laws;
pub mod committed_plan_laws;
pub mod compare;
pub mod diff;
pub mod diff_change_laws;
pub mod diff_laws;
pub mod digest;
pub mod digest_call_laws;
pub mod digest_laws;
pub mod dsse;
pub mod dsse_laws;
pub mod env_guard;
pub mod env_guard_laws;
pub mod error;
pub mod explain;
pub mod extra_laws;
pub mod json;
pub mod keys;
pub mod keys_laws;
pub mod lowering;
pub mod manifest;
pub mod manifest_laws;
pub mod platform;
pub mod rebuild;
pub mod rebuild_laws;
pub mod rebuild_step_laws;
pub mod replay;
pub mod replay_laws;
pub mod replay_run;
pub mod replay_run_laws;
pub mod report;
pub mod text;
pub mod text_laws;
pub mod trace;
pub mod trace_laws;
pub mod verify;
pub mod verify_laws;
pub mod verify_step_laws;
