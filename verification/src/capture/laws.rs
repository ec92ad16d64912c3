//! What holds of the pipeline on every frame.

use super::{spec_examine, spec_policy, Event, VerdictView};
use crate::dnsxfr01::spec_message;
use crate::protocols::ip::{spec_check_packet, IpFamily};
use crate::protocols::{DnsInfo, DnsType, IpInfo, Linktype, UdpInfo};
use crate::wire::lemma_be32_round_trip;
use vstd::prelude::*;

verus! {

/// A query is dropped as a query, whatever else holds of it and whatever
/// the settings are.
pub proof fn lemma_queries_are_dropped(
    forward_auth_only: bool,
    no_forward_empty: bool,
    ip: IpInfo,
    udp: UdpInfo,
    dns: DnsInfo,
    data: Seq<u8>,
)
    requires
        dns.qr == DnsType::Query,
    ensures
        spec_policy(forward_auth_only, no_forward_empty, ip, udp, dns, data)
            == VerdictView::DnsIsQuery(ip, udp, dns),
        spec_policy(forward_auth_only, no_forward_empty, ip, udp, dns, data).event() == Some(
            Event::DnsIsQuery,
        ),
{
}

/// A response is forwarded unless a setting speaks against it: that only
/// authoritative responses are wanted, of one that is none; or that only
/// responses with answers are wanted, of one without.
pub proof fn lemma_responses_are_forwarded(
    forward_auth_only: bool,
    no_forward_empty: bool,
    ip: IpInfo,
    udp: UdpInfo,
    dns: DnsInfo,
    data: Seq<u8>,
)
    requires
        dns.qr == DnsType::Response,
    ensures
        spec_policy(forward_auth_only, no_forward_empty, ip, udp, dns, data) is Forward <==> !(
        forward_auth_only && !dns.authoritative_answer) && !(no_forward_empty && dns.ancount == 0),
        spec_policy(forward_auth_only, no_forward_empty, ip, udp, dns, data) is Forward
            ==> spec_policy(forward_auth_only, no_forward_empty, ip, udp, dns, data)
            == VerdictView::Forward(ip, udp, dns, data),
{
}

/// A fragment is dropped as a fragment and never forwarded: a frame whose
/// IP packet is decoded and found to be a fragment gets that verdict,
/// whatever the packet carries.
pub proof fn lemma_fragments_are_dropped(
    forward_auth_only: bool,
    no_forward_empty: bool,
    datalink: Linktype,
    s: Seq<u8>,
)
    requires
        datalink.spec_find_ip_layer(s) is Ok,
        ({
            let (family, start) = datalink.spec_find_ip_layer(s)->Ok_0;
            let decoded = spec_check_packet(family, s.subrange(start, s.len() as int));
            decoded is Ok && decoded->Ok_0.info.fragment is Some
        }),
    ensures
        ({
            let (family, start) = datalink.spec_find_ip_layer(s)->Ok_0;
            let decoded = spec_check_packet(family, s.subrange(start, s.len() as int));
            &&& spec_examine(forward_auth_only, no_forward_empty, datalink, s)
                == VerdictView::IpFragmented(decoded->Ok_0.info)
            &&& spec_examine(forward_auth_only, no_forward_empty, datalink, s).event() == Some(
                Event::IpFragmentedError,
            )
        }),
{
}

/// Only a response that passed every decoder is forwarded: the frame holds
/// an IP packet that is whole and carries UDP, and the DNS message in it is
/// a response.
pub proof fn lemma_forwarded_is_whole_response(
    forward_auth_only: bool,
    no_forward_empty: bool,
    datalink: Linktype,
    s: Seq<u8>,
)
    requires
        spec_examine(forward_auth_only, no_forward_empty, datalink, s) is Forward,
    ensures
        ({
            let verdict = spec_examine(forward_auth_only, no_forward_empty, datalink, s);
            let (family, start) = datalink.spec_find_ip_layer(s)->Ok_0;
            let decoded = spec_check_packet(family, s.subrange(start, s.len() as int));
            &&& datalink.spec_find_ip_layer(s) is Ok
            &&& decoded is Ok
            &&& decoded->Ok_0.info == verdict->Forward_0
            &&& verdict->Forward_0.fragment is None
            &&& verdict->Forward_0.protocol == 17
            &&& verdict->Forward_2.qr == DnsType::Response
            &&& forward_auth_only ==> verdict->Forward_2.authoritative_answer
            &&& no_forward_empty ==> verdict->Forward_2.ancount != 0
            &&& verdict->Forward_3.len() >= 12
        }),
{
}

/// The message for an authoritative response that came over IPv4 names the
/// packet's source address, byte for byte as the packet holds it; the
/// message for any other response that is forwarded holds four zero bytes
/// in that place.
pub proof fn lemma_forwarded_nameserver(
    forward_auth_only: bool,
    no_forward_empty: bool,
    datalink: Linktype,
    s: Seq<u8>,
)
    requires
        spec_examine(forward_auth_only, no_forward_empty, datalink, s) is Forward,
    ensures
        ({
            let verdict = spec_examine(forward_auth_only, no_forward_empty, datalink, s);
            let (family, start) = datalink.spec_find_ip_layer(s)->Ok_0;
            let ip_data = s.subrange(start, s.len() as int);
            let message = spec_message(
                verdict->Forward_0,
                verdict->Forward_2,
                verdict->Forward_3,
            );
            message.subrange(8, 12) == if family == IpFamily::IPv4
                && verdict->Forward_2.authoritative_answer {
                ip_data.subrange(12, 16)
            } else {
                seq![0u8, 0u8, 0u8, 0u8]
            }
        }),
{
    let verdict = spec_examine(forward_auth_only, no_forward_empty, datalink, s);
    let (family, start) = datalink.spec_find_ip_layer(s)->Ok_0;
    let ip_data = s.subrange(start, s.len() as int);
    lemma_forwarded_is_whole_response(forward_auth_only, no_forward_empty, datalink, s);
    crate::dnsxfr01::lemma_nameserver_bytes(
        verdict->Forward_0,
        verdict->Forward_2,
        verdict->Forward_3,
    );
    if family == IpFamily::IPv4 {
        lemma_be32_round_trip(ip_data, 12);
    }
}

} // verus!
