//! What the capture pipeline asks of its surroundings: someone to forward a
//! response, and someone to tell what became of each frame.

use crate::protocols::{DnsInfo, IpError, IpInfo, LinkFindIpError, UdpError, UdpInfo};
use vstd::prelude::*;

verus! {

/// An error of a forwarder.
pub trait ForwardError {
    /// Whether the forwarder is of no use after this error.
    spec fn spec_fatal(&self) -> bool;

    /// Whether the forwarder is of no use after this error and has to be
    /// set up anew.
    fn fatal(&self) -> (r: bool)
        ensures
            r == self.spec_fatal(),
    ;
}

/// Takes the responses that are to go to the collector.
pub trait Forwarder {
    type Error: ForwardError;

    /// What it means for this forwarder to have been handed a response:
    /// `self` is what `before` has become by it, and `result` is what came
    /// back. Each forwarder says for itself what that is; one that says
    /// nothing claims nothing.
    open spec fn forwarded(
        &self,
        before: &Self,
        ip_info: IpInfo,
        udp_info: UdpInfo,
        dns_info: DnsInfo,
        dns_data: Seq<u8>,
        result: Result<(), Self::Error>,
    ) -> bool {
        true
    }

    /// Sends one response on.
    fn forward(
        &mut self,
        ip_info: &IpInfo,
        udp_info: &UdpInfo,
        dns_info: &DnsInfo,
        dns_data: &[u8],
    ) -> (r: Result<(), Self::Error>)
        ensures
            final(self).forwarded(old(self), *ip_info, *udp_info, *dns_info, dns_data@, r),
    ;
}

/// The counters that a capture keeps since it started.
#[derive(Clone, Copy, PartialEq, Eq, Structural, Debug)]
pub struct Stat {
    /// Packets received.
    pub received: u32,
    /// Packets dropped for want of room in the operating system's buffer.
    pub dropped: u32,
    /// Packets dropped by the interface or its driver.
    pub if_dropped: u32,
}

/// What an event handler is told in one call: which of its callbacks is
/// made, and with what.
pub enum Report<E> {
    LinkError(LinkFindIpError),
    IpError(IpError, Seq<u8>),
    IpFragmentedError(IpInfo),
    IpNotUdpError(IpInfo, Seq<u8>),
    UdpError(IpInfo, UdpError, Seq<u8>),
    DnsTooShort(IpInfo, UdpInfo, Seq<u8>),
    DnsIsQuery(IpInfo, UdpInfo, DnsInfo),
    DnsIsNotAuthoritative(IpInfo, UdpInfo, DnsInfo),
    DnsHasNoAnswers(IpInfo, UdpInfo, DnsInfo),
    NonFatalForwardError(IpInfo, UdpInfo, DnsInfo, Seq<u8>, E),
    Success(IpInfo, UdpInfo, DnsInfo, Seq<u8>),
    Stat(Stat),
}

/// Is told what became of each frame: one call for each frame that did not
/// end in a fatal error.
pub trait EventHandler<E: ForwardError>: Sized {
    /// What it means for this handler to have been told `report`: `self` is
    /// what `before` has become by it. Each handler says for itself what
    /// that is; one that says nothing claims nothing.
    open spec fn told(&self, before: &Self, report: Report<E>) -> bool {
        true
    }

    /// No IP packet was found in the frame.
    fn handle_link_error(&mut self, error: LinkFindIpError)
        ensures
            final(self).told(old(self), Report::LinkError(error)),
    ;

    /// The IP packet `payload` was not decoded.
    fn handle_ip_error(&mut self, error: IpError, payload: &[u8])
        ensures
            final(self).told(old(self), Report::IpError(error, payload@)),
    ;

    /// The packet is a fragment.
    fn handle_ip_fragmented_error(&mut self, ip_info: &IpInfo)
        ensures
            final(self).told(old(self), Report::IpFragmentedError(*ip_info)),
    ;

    /// The packet carries something other than UDP in `payload`.
    fn handle_ip_not_udp_error(&mut self, ip_info: &IpInfo, payload: &[u8])
        ensures
            final(self).told(old(self), Report::IpNotUdpError(*ip_info, payload@)),
    ;

    /// The UDP datagram `payload` was not decoded.
    fn handle_udp_error(&mut self, ip_info: &IpInfo, error: UdpError, payload: &[u8])
        ensures
            final(self).told(old(self), Report::UdpError(*ip_info, error, payload@)),
    ;

    /// The datagram's `payload` is too short for a DNS header.
    fn handle_dns_too_short(&mut self, ip_info: &IpInfo, udp_info: &UdpInfo, payload: &[u8])
        ensures
            final(self).told(old(self), Report::DnsTooShort(*ip_info, *udp_info, payload@)),
    ;

    /// The DNS message is a query.
    fn handle_dns_is_query(&mut self, ip_info: &IpInfo, udp_info: &UdpInfo, dns_info: &DnsInfo)
        ensures
            final(self).told(old(self), Report::DnsIsQuery(*ip_info, *udp_info, *dns_info)),
    ;

    /// The DNS response is not authoritative, and only such are wanted.
    fn handle_dns_is_not_authoritative(
        &mut self,
        ip_info: &IpInfo,
        udp_info: &UdpInfo,
        dns_info: &DnsInfo,
    )
        ensures
            final(self).told(
                old(self),
                Report::DnsIsNotAuthoritative(*ip_info, *udp_info, *dns_info),
            ),
    ;

    /// The DNS response holds no answers, and only such with answers are
    /// wanted.
    fn handle_dns_has_no_answers(
        &mut self,
        ip_info: &IpInfo,
        udp_info: &UdpInfo,
        dns_info: &DnsInfo,
    )
        ensures
            final(self).told(old(self), Report::DnsHasNoAnswers(*ip_info, *udp_info, *dns_info)),
    ;

    /// The forwarder failed on this response and can go on with the next.
    fn handle_non_fatal_forward_error(
        &mut self,
        ip_info: &IpInfo,
        udp_info: &UdpInfo,
        dns_info: &DnsInfo,
        dns_data: &[u8],
        error: &E,
    )
        ensures
            final(self).told(
                old(self),
                Report::NonFatalForwardError(*ip_info, *udp_info, *dns_info, dns_data@, *error),
            ),
    ;

    /// The response was forwarded.
    fn handle_success(
        &mut self,
        ip_info: &IpInfo,
        udp_info: &UdpInfo,
        dns_info: &DnsInfo,
        dns_data: &[u8],
    )
        ensures
            final(self).told(old(self), Report::Success(*ip_info, *udp_info, *dns_info, dns_data@)),
    ;

    /// The capture's counters are due for a report.
    fn show_stat(&mut self, stat: &Stat)
        ensures
            final(self).told(old(self), Report::Stat(*stat)),
    ;
}

} // verus!
