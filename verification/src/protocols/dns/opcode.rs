//! The kinds of query that a DNS header can name.

use vstd::prelude::*;

verus! {

/// A standard query.
pub const QUERY: u8 = 0;

/// An inverse query.
pub const IQUERY: u8 = 1;

/// A request for the server's status.
pub const STATUS: u8 = 2;

} // verus!
