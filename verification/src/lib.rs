//! An error-chain diagnostic library.
//!
//! Heterogeneous error values are linked into causal chains, classified
//! into a closed operational-status taxonomy, and rendered two ways: a
//! masked, user-safe summary and a full developer-facing trace with
//! source locations.

pub mod codegen;
pub mod decimal;
pub mod ext;
pub mod external;
pub mod format;
pub mod location;
pub mod mock;
pub mod node;
pub mod status_code;

use vstd::prelude::*;

verus! {

/// Response header carrying the numeric status code of an error.
pub const GREPTIME_DB_HEADER_ERROR_CODE: &'static str = "x-greptime-err-code";

/// Response header carrying the user-safe message of an error.
pub const GREPTIME_DB_HEADER_ERROR_MSG: &'static str = "x-greptime-err-msg";

} // verus!
