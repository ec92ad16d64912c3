//! What a single frame is tried out with.


pub use self::logging::TestLoggingEventHandler;

use crate::options::SocketAddress;
use crate::protocols::IpAddress;
use vstd::prelude::*;

verus! {

/// The address that stands for no target: the unspecified IPv4 address
/// with port 0.
pub fn empty_addr() -> (r: SocketAddress)
    ensures
        r == (SocketAddress { ip: IpAddress::V4(0), port: 0 }),
{
    SocketAddress { ip: IpAddress::V4(0), port: 0 }
}

} // verus!
