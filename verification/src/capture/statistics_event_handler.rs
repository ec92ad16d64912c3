//! An event handler that counts.

use super::traits::{EventHandler, ForwardError, Report, Stat};
use crate::protocols::{DnsInfo, IpError, IpInfo, LinkFindIpError, UdpError, UdpInfo};
use vstd::prelude::*;

verus! {

/// Counts the events of each kind. A counter that is full starts again at
/// zero.
#[derive(Clone, Copy, PartialEq, Eq, Structural, PartialOrd, Ord, Hash, Debug)]
pub struct StatisticsEventHandler {
    pub count_link_error: u64,
    pub count_ip_error: u64,
    pub count_ip_fragmented_error: u64,
    pub count_ip_not_udp_error: u64,
    pub count_udp_error: u64,
    pub count_dns_too_short: u64,
    pub count_dns_is_query: u64,
    pub count_dns_is_not_authoritative: u64,
    pub count_dns_has_no_answers: u64,
    pub count_forward_errors: u64,
    pub count_fatal_forward_errors: u64,
    pub count_success: u64,
}

/// The counter after `count`.
pub open spec fn spec_bump(count: u64) -> u64 {
    if count == u64::MAX {
        0
    } else {
        (count + 1) as u64
    }
}

/// The counter after `count`.
fn bump(count: u64) -> (r: u64)
    ensures
        r == spec_bump(count),
{
    count.wrapping_add(1)
}

impl StatisticsEventHandler {
    /// The counters before any event.
    pub open spec fn zero() -> StatisticsEventHandler {
        StatisticsEventHandler {
            count_link_error: 0,
            count_ip_error: 0,
            count_ip_fragmented_error: 0,
            count_ip_not_udp_error: 0,
            count_udp_error: 0,
            count_dns_too_short: 0,
            count_dns_is_query: 0,
            count_dns_is_not_authoritative: 0,
            count_dns_has_no_answers: 0,
            count_forward_errors: 0,
            count_fatal_forward_errors: 0,
            count_success: 0,
        }
    }

    /// The counters after the event that `report` speaks of: its own
    /// counter has moved on by one, and the others are as they were. An
    /// error of the forwarder counts as fatal or not by what it says of
    /// itself. A report of the capture's counters changes nothing.
    pub open spec fn counted<E: ForwardError>(self, report: Report<E>) -> StatisticsEventHandler {
        match report {
            Report::LinkError(..) => StatisticsEventHandler {
                count_link_error: spec_bump(self.count_link_error),
                ..self
            },
            Report::IpError(..) => StatisticsEventHandler {
                count_ip_error: spec_bump(self.count_ip_error),
                ..self
            },
            Report::IpFragmentedError(..) => StatisticsEventHandler {
                count_ip_fragmented_error: spec_bump(self.count_ip_fragmented_error),
                ..self
            },
            Report::IpNotUdpError(..) => StatisticsEventHandler {
                count_ip_not_udp_error: spec_bump(self.count_ip_not_udp_error),
                ..self
            },
            Report::UdpError(..) => StatisticsEventHandler {
                count_udp_error: spec_bump(self.count_udp_error),
                ..self
            },
            Report::DnsTooShort(..) => StatisticsEventHandler {
                count_dns_too_short: spec_bump(self.count_dns_too_short),
                ..self
            },
            Report::DnsIsQuery(..) => StatisticsEventHandler {
                count_dns_is_query: spec_bump(self.count_dns_is_query),
                ..self
            },
            Report::DnsIsNotAuthoritative(..) => StatisticsEventHandler {
                count_dns_is_not_authoritative: spec_bump(self.count_dns_is_not_authoritative),
                ..self
            },
            Report::DnsHasNoAnswers(..) => StatisticsEventHandler {
                count_dns_has_no_answers: spec_bump(self.count_dns_has_no_answers),
                ..self
            },
            Report::NonFatalForwardError(_, _, _, _, error) => if error.spec_fatal() {
                StatisticsEventHandler {
                    count_fatal_forward_errors: spec_bump(self.count_fatal_forward_errors),
                    ..self
                }
            } else {
                StatisticsEventHandler {
                    count_forward_errors: spec_bump(self.count_forward_errors),
                    ..self
                }
            },
            Report::Success(..) => StatisticsEventHandler {
                count_success: spec_bump(self.count_success),
                ..self
            },
            Report::Stat(..) => self,
        }
    }

    /// A handler that has counted nothing yet.
    pub fn new() -> (r: StatisticsEventHandler)
        ensures
            r == StatisticsEventHandler::zero(),
    {
        StatisticsEventHandler {
            count_link_error: 0,
            count_ip_error: 0,
            count_ip_fragmented_error: 0,
            count_ip_not_udp_error: 0,
            count_udp_error: 0,
            count_dns_too_short: 0,
            count_dns_is_query: 0,
            count_dns_is_not_authoritative: 0,
            count_dns_has_no_answers: 0,
            count_forward_errors: 0,
            count_fatal_forward_errors: 0,
            count_success: 0,
        }
    }
}

impl Default for StatisticsEventHandler {
    fn default() -> (r: Self)
        ensures
            r == StatisticsEventHandler::zero(),
    {
        StatisticsEventHandler::new()
    }
}

/// Each event moves its own counter on by one and leaves the others alone.
/// A report of the capture's counters changes nothing: this handler's
/// counters are there to be read by whoever holds it.
impl<E: ForwardError> EventHandler<E> for StatisticsEventHandler {
    open spec fn told(&self, before: &Self, report: Report<E>) -> bool {
        *self == before.counted(report)
    }

    fn handle_link_error(&mut self, error: LinkFindIpError)
        ensures
            *final(self) == (StatisticsEventHandler {
                count_link_error: spec_bump(old(self).count_link_error),
                ..*old(self)
            }),
    {
        self.count_link_error = bump(self.count_link_error);
    }

    fn handle_ip_error(&mut self, error: IpError, payload: &[u8])
        ensures
            *final(self) == (StatisticsEventHandler {
                count_ip_error: spec_bump(old(self).count_ip_error),
                ..*old(self)
            }),
    {
        self.count_ip_error = bump(self.count_ip_error);
    }

    fn handle_ip_fragmented_error(&mut self, ip_info: &IpInfo)
        ensures
            *final(self) == (StatisticsEventHandler {
                count_ip_fragmented_error: spec_bump(old(self).count_ip_fragmented_error),
                ..*old(self)
            }),
    {
        self.count_ip_fragmented_error = bump(self.count_ip_fragmented_error);
    }

    fn handle_ip_not_udp_error(&mut self, ip_info: &IpInfo, payload: &[u8])
        ensures
            *final(self) == (StatisticsEventHandler {
                count_ip_not_udp_error: spec_bump(old(self).count_ip_not_udp_error),
                ..*old(self)
            }),
    {
        self.count_ip_not_udp_error = bump(self.count_ip_not_udp_error);
    }

    fn handle_udp_error(&mut self, ip_info: &IpInfo, error: UdpError, payload: &[u8])
        ensures
            *final(self) == (StatisticsEventHandler {
                count_udp_error: spec_bump(old(self).count_udp_error),
                ..*old(self)
            }),
    {
        self.count_udp_error = bump(self.count_udp_error);
    }

    fn handle_dns_too_short(&mut self, ip_info: &IpInfo, udp_info: &UdpInfo, payload: &[u8])
        ensures
            *final(self) == (StatisticsEventHandler {
                count_dns_too_short: spec_bump(old(self).count_dns_too_short),
                ..*old(self)
            }),
    {
        self.count_dns_too_short = bump(self.count_dns_too_short);
    }

    fn handle_dns_is_query(&mut self, ip_info: &IpInfo, udp_info: &UdpInfo, dns_info: &DnsInfo)
        ensures
            *final(self) == (StatisticsEventHandler {
                count_dns_is_query: spec_bump(old(self).count_dns_is_query),
                ..*old(self)
            }),
    {
        self.count_dns_is_query = bump(self.count_dns_is_query);
    }

    fn handle_dns_is_not_authoritative(
        &mut self,
        ip_info: &IpInfo,
        udp_info: &UdpInfo,
        dns_info: &DnsInfo,
    )
        ensures
            *final(self) == (StatisticsEventHandler {
                count_dns_is_not_authoritative: spec_bump(
                    old(self).count_dns_is_not_authoritative,
                ),
                ..*old(self)
            }),
    {
        self.count_dns_is_not_authoritative = bump(self.count_dns_is_not_authoritative);
    }

    fn handle_dns_has_no_answers(
        &mut self,
        ip_info: &IpInfo,
        udp_info: &UdpInfo,
        dns_info: &DnsInfo,
    )
        ensures
            *final(self) == (StatisticsEventHandler {
                count_dns_has_no_answers: spec_bump(old(self).count_dns_has_no_answers),
                ..*old(self)
            }),
    {
        self.count_dns_has_no_answers = bump(self.count_dns_has_no_answers);
    }

    fn handle_non_fatal_forward_error(
        &mut self,
        ip_info: &IpInfo,
        udp_info: &UdpInfo,
        dns_info: &DnsInfo,
        dns_data: &[u8],
        error: &E,
    )
        ensures
            *final(self) == if error.spec_fatal() {
                StatisticsEventHandler {
                    count_fatal_forward_errors: spec_bump(old(self).count_fatal_forward_errors),
                    ..*old(self)
                }
            } else {
                StatisticsEventHandler {
                    count_forward_errors: spec_bump(old(self).count_forward_errors),
                    ..*old(self)
                }
            },
    {
        if error.fatal() {
            self.count_fatal_forward_errors = bump(self.count_fatal_forward_errors);
        } else {
            self.count_forward_errors = bump(self.count_forward_errors);
        }
    }

    fn handle_success(
        &mut self,
        ip_info: &IpInfo,
        udp_info: &UdpInfo,
        dns_info: &DnsInfo,
        dns_data: &[u8],
    )
        ensures
            *final(self) == (StatisticsEventHandler {
                count_success: spec_bump(old(self).count_success),
                ..*old(self)
            }),
    {
        self.count_success = bump(self.count_success);
    }

    fn show_stat(&mut self, stat: &Stat)
        ensures
            *final(self) == *old(self),
    {
    }
}

} // verus!
