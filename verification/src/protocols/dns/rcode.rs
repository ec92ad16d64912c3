//! The response codes that a DNS header can name.

use vstd::prelude::*;

verus! {

/// No error.
pub const SUCCESS: u8 = 0;

/// The server could not interpret the query.
pub const FORMAT_ERROR: u8 = 1;

/// The server failed.
pub const SERVER_FAILURE: u8 = 2;

/// The name does not exist.
pub const NAME_ERROR: u8 = 3;

/// The server does not support this kind of query.
pub const NOT_IMPLEMENTED: u8 = 4;

/// The server refuses to answer.
pub const REFUSED: u8 = 5;

} // verus!
