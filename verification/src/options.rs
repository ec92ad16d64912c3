//! What a capture run is told once, before it starts.

use crate::protocols::IpAddress;
use vstd::prelude::*;

verus! {

/// An address and a port.
#[derive(Clone, Copy, PartialEq, Eq, Structural, Debug)]
pub struct SocketAddress {
    pub ip: IpAddress,
    pub port: u16,
}

/// The settings of a capture run. They stay as they are for as long as it
/// lasts.
#[derive(Debug)]
pub struct Options<'a> {
    /// The interface to capture on.
    pub interface: &'a str,
    /// The filter expression that the capture library installs.
    pub filter: &'a str,
    /// Forward authoritative answers only.
    pub forward_auth_only: bool,
    /// Do not forward responses without answers.
    pub no_forward_empty: bool,
    /// Forward over a TCP stream, not in UDP datagrams.
    pub tcp_forward: bool,
    /// The seconds between two reports of the capture's counters; one at
    /// least.
    pub log_interval: u32,
    /// 0 is silent, 1 reports protocol errors, 2 and more report everything.
    pub verbose: u64,
    /// Where the responses go.
    pub target: SocketAddress,
    /// The longest DNS payload that is forwarded.
    pub max_message_size: usize,
}

impl<'a> Options<'a> {
    /// The settings are in order.
    pub open spec fn wf(&self) -> bool {
        self.log_interval >= 1
    }

    /// Whether the capture's counters are due for a report, `elapsed_secs`
    /// whole seconds after the last one.
    pub fn stat_due(&self, elapsed_secs: u64) -> (r: bool)
        ensures
            r == (elapsed_secs >= self.log_interval),
    {
        elapsed_secs >= self.log_interval as u64
    }
}

} // verus!
