//! The path of one captured frame: through the decoders, past the rules on
//! what is forwarded, to the forwarder.

pub mod combined_event_handlers;
pub mod laws;
pub mod logging_event_handler;
pub mod statistics_event_handler;
pub mod traits;

pub use self::combined_event_handlers::CombinedEventHandler;
pub use self::logging_event_handler::{Event, LoggingEventHandler};
pub use self::statistics_event_handler::StatisticsEventHandler;
pub use self::traits::{EventHandler, ForwardError, Forwarder, Report, Stat};

use crate::options::Options;
use crate::protocols::dns::{dns_info, spec_dns_info};
use crate::protocols::ip::spec_check_packet;
use crate::protocols::udp::spec_check_udp;
use crate::protocols::{
    check_udp, DnsInfo, DnsType, IpError, IpInfo, LinkFindIpError, Linktype, UdpError, UdpInfo,
};
use vstd::prelude::*;

verus! {

/// Why a capture run ended, or why a frame went no further. Where the
/// forwarder's socket or the capture library failed, the error holds what
/// they said of it.
#[derive(Debug)]
pub enum Error<FE: ForwardError> {
    ForwardConnectingError(String),
    OpenError(String),
    FilterError(String),
    CaptureError(String),
    /// The capture's link type is none that can be decoded. With it comes
    /// the name that the capture library has for it, or why it has none.
    UnknownLinkType(Result<String, String>),
    StatError(String),
    /// The frame was dropped, and the event handler was told why.
    HandledError,
    /// The forwarder has to be set up anew.
    FatalForwardError(FE),
}

impl<FE: ForwardError> Error<FE> {
    /// A few words on the kind of error.
    pub fn description(&self) -> (r: &'static str)
        ensures
            r@ == match *self {
                Error::ForwardConnectingError(_) => "couldn't connect forwarder"@,
                Error::OpenError(_) => "couldn't open capture device"@,
                Error::FilterError(_) => "couldn't apply capture filter"@,
                Error::CaptureError(_) => "failed capturing packet"@,
                Error::UnknownLinkType(Ok(_)) => "unknown link type of capture handle"@,
                Error::UnknownLinkType(Err(_)) =>
                    "unknown link type of capture handle, failed to get readable name"@,
                Error::StatError(_) => "failed to get capture stats"@,
                Error::HandledError => "handling captured packet failed, but was handled"@,
                Error::FatalForwardError(_) => "fatal failure forwading a packet"@,
            },
    {
        match self {
            Error::ForwardConnectingError(_) => "couldn't connect forwarder",
            Error::OpenError(_) => "couldn't open capture device",
            Error::FilterError(_) => "couldn't apply capture filter",
            Error::CaptureError(_) => "failed capturing packet",
            Error::UnknownLinkType(Ok(_)) => "unknown link type of capture handle",
            Error::UnknownLinkType(Err(_)) =>
                "unknown link type of capture handle, failed to get readable name",
            Error::StatError(_) => "failed to get capture stats",
            Error::HandledError => "handling captured packet failed, but was handled",
            Error::FatalForwardError(_) => "fatal failure forwading a packet",
        }
    }
}

/// What the decoders and the rules make of one frame: the reason why it is
/// dropped, with what was decoded up to there, or the response to forward.
pub enum Verdict<'a> {
    LinkError(LinkFindIpError),
    IpError(IpError, &'a [u8]),
    IpFragmented(IpInfo),
    IpNotUdp(IpInfo, &'a [u8]),
    UdpError(IpInfo, UdpError, &'a [u8]),
    DnsTooShort(IpInfo, UdpInfo, &'a [u8]),
    DnsIsQuery(IpInfo, UdpInfo, DnsInfo),
    DnsIsNotAuthoritative(IpInfo, UdpInfo, DnsInfo),
    DnsHasNoAnswers(IpInfo, UdpInfo, DnsInfo),
    Forward(IpInfo, UdpInfo, DnsInfo, &'a [u8]),
}

/// A verdict in the model, with byte sequences for slices.
pub enum VerdictView {
    LinkError(LinkFindIpError),
    IpError(IpError, Seq<u8>),
    IpFragmented(IpInfo),
    IpNotUdp(IpInfo, Seq<u8>),
    UdpError(IpInfo, UdpError, Seq<u8>),
    DnsTooShort(IpInfo, UdpInfo, Seq<u8>),
    DnsIsQuery(IpInfo, UdpInfo, DnsInfo),
    DnsIsNotAuthoritative(IpInfo, UdpInfo, DnsInfo),
    DnsHasNoAnswers(IpInfo, UdpInfo, DnsInfo),
    Forward(IpInfo, UdpInfo, DnsInfo, Seq<u8>),
}

impl<'a> View for Verdict<'a> {
    type V = VerdictView;

    open spec fn view(&self) -> VerdictView {
        match *self {
            Verdict::LinkError(e) => VerdictView::LinkError(e),
            Verdict::IpError(e, payload) => VerdictView::IpError(e, payload@),
            Verdict::IpFragmented(ip) => VerdictView::IpFragmented(ip),
            Verdict::IpNotUdp(ip, payload) => VerdictView::IpNotUdp(ip, payload@),
            Verdict::UdpError(ip, e, payload) => VerdictView::UdpError(ip, e, payload@),
            Verdict::DnsTooShort(ip, udp, payload) => VerdictView::DnsTooShort(ip, udp, payload@),
            Verdict::DnsIsQuery(ip, udp, dns) => VerdictView::DnsIsQuery(ip, udp, dns),
            Verdict::DnsIsNotAuthoritative(ip, udp, dns) => VerdictView::DnsIsNotAuthoritative(
                ip,
                udp,
                dns,
            ),
            Verdict::DnsHasNoAnswers(ip, udp, dns) => VerdictView::DnsHasNoAnswers(ip, udp, dns),
            Verdict::Forward(ip, udp, dns, data) => VerdictView::Forward(ip, udp, dns, data@),
        }
    }
}

impl VerdictView {
    /// The event that an event handler is told of for a frame that is
    /// dropped; none yet for a response that goes to the forwarder.
    pub open spec fn event(self) -> Option<Event> {
        match self {
            VerdictView::LinkError(..) => Some(Event::LinkError),
            VerdictView::IpError(..) => Some(Event::IpError),
            VerdictView::IpFragmented(..) => Some(Event::IpFragmentedError),
            VerdictView::IpNotUdp(..) => Some(Event::IpNotUdpError),
            VerdictView::UdpError(..) => Some(Event::UdpError),
            VerdictView::DnsTooShort(..) => Some(Event::DnsTooShort),
            VerdictView::DnsIsQuery(..) => Some(Event::DnsIsQuery),
            VerdictView::DnsIsNotAuthoritative(..) => Some(Event::DnsIsNotAuthoritative),
            VerdictView::DnsHasNoAnswers(..) => Some(Event::DnsHasNoAnswers),
            VerdictView::Forward(..) => None,
        }
    }
}

impl<'a> Verdict<'a> {
    /// The event that an event handler is told of for a frame that is
    /// dropped; none yet for a response that goes to the forwarder.
    pub fn event(&self) -> (r: Option<Event>)
        ensures
            r == self@.event(),
            r is None <==> self@ is Forward,
    {
        match self {
            Verdict::LinkError(..) => Some(Event::LinkError),
            Verdict::IpError(..) => Some(Event::IpError),
            Verdict::IpFragmented(..) => Some(Event::IpFragmentedError),
            Verdict::IpNotUdp(..) => Some(Event::IpNotUdpError),
            Verdict::UdpError(..) => Some(Event::UdpError),
            Verdict::DnsTooShort(..) => Some(Event::DnsTooShort),
            Verdict::DnsIsQuery(..) => Some(Event::DnsIsQuery),
            Verdict::DnsIsNotAuthoritative(..) => Some(Event::DnsIsNotAuthoritative),
            Verdict::DnsHasNoAnswers(..) => Some(Event::DnsHasNoAnswers),
            Verdict::Forward(..) => None,
        }
    }
}

/// The rules on what is forwarded, applied in this order to a DNS message
/// that was decoded: a query is dropped; a response that is not
/// authoritative is dropped where only authoritative ones are wanted; a
/// response without answers is dropped where only such with answers are
/// wanted; any other response is forwarded.
pub open spec fn spec_policy(
    forward_auth_only: bool,
    no_forward_empty: bool,
    ip: IpInfo,
    udp: UdpInfo,
    dns: DnsInfo,
    data: Seq<u8>,
) -> VerdictView {
    if dns.qr == DnsType::Query {
        VerdictView::DnsIsQuery(ip, udp, dns)
    } else if forward_auth_only && !dns.authoritative_answer {
        VerdictView::DnsIsNotAuthoritative(ip, udp, dns)
    } else if no_forward_empty && dns.ancount == 0 {
        VerdictView::DnsHasNoAnswers(ip, udp, dns)
    } else {
        VerdictView::Forward(ip, udp, dns, data)
    }
}

/// What becomes of the frame `s` of link type `datalink`: it passes the
/// link, IP, UDP and DNS decoders in turn, each on what the one before it
/// found, and then the rules. A fragment and a packet that is not UDP go no
/// further than the IP decoder.
pub open spec fn spec_examine(
    forward_auth_only: bool,
    no_forward_empty: bool,
    datalink: Linktype,
    s: Seq<u8>,
) -> VerdictView {
    match datalink.spec_find_ip_layer(s) {
        Err(e) => VerdictView::LinkError(e),
        Ok((family, start)) => {
            let ip_data = s.subrange(start, s.len() as int);
            match spec_check_packet(family, ip_data) {
                Err(e) => VerdictView::IpError(e, ip_data),
                Ok(packet) => {
                    let udp_data = ip_data.subrange(packet.start, packet.end);
                    if packet.info.fragment is Some {
                        VerdictView::IpFragmented(packet.info)
                    } else if packet.info.protocol != 17 {
                        VerdictView::IpNotUdp(packet.info, udp_data)
                    } else {
                        match spec_check_udp(family, packet.info.jumbo, ip_data, udp_data) {
                            Err(e) => VerdictView::UdpError(packet.info, e, udp_data),
                            Ok((udp, end)) => {
                                let dns_data = udp_data.subrange(8, end);
                                match spec_dns_info(dns_data) {
                                    None => VerdictView::DnsTooShort(packet.info, udp, dns_data),
                                    Some(dns) => spec_policy(
                                        forward_auth_only,
                                        no_forward_empty,
                                        packet.info,
                                        udp,
                                        dns,
                                        dns_data,
                                    ),
                                }
                            },
                        }
                    }
                },
            }
        },
    }
}

/// Applies the rules on what is forwarded to a DNS message that was
/// decoded.
pub fn policy<'a>(
    forward_auth_only: bool,
    no_forward_empty: bool,
    ip_info: IpInfo,
    udp_info: UdpInfo,
    dns_info: DnsInfo,
    dns_data: &'a [u8],
) -> (r: Verdict<'a>)
    ensures
        r@ == spec_policy(
            forward_auth_only,
            no_forward_empty,
            ip_info,
            udp_info,
            dns_info,
            dns_data@,
        ),
{
    if dns_info.qr == DnsType::Query {
        return Verdict::DnsIsQuery(ip_info, udp_info, dns_info);
    }
    if forward_auth_only && !dns_info.authoritative_answer {
        return Verdict::DnsIsNotAuthoritative(ip_info, udp_info, dns_info);
    }
    if no_forward_empty && 0 == dns_info.ancount {
        return Verdict::DnsHasNoAnswers(ip_info, udp_info, dns_info);
    }
    Verdict::Forward(ip_info, udp_info, dns_info, dns_data)
}

/// Decodes one frame and applies the rules to it.
pub fn examine<'a>(
    forward_auth_only: bool,
    no_forward_empty: bool,
    datalink: &Linktype,
    packet: &'a [u8],
) -> (r: Verdict<'a>)
    ensures
        r@ == spec_examine(forward_auth_only, no_forward_empty, *datalink, packet@),
{
    let (family, ip_data) = match datalink.find_ip_layer(packet) {
        Ok(found) => found,
        Err(e) => { return Verdict::LinkError(e); },
    };
    let (ip_info, udp_data) = match family.check_packet(ip_data) {
        Ok(decoded) => decoded,
        Err(e) => { return Verdict::IpError(e, ip_data); },
    };
    if ip_info.fragment.is_some() {
        return Verdict::IpFragmented(ip_info);
    }
    if 17 != ip_info.protocol {
        return Verdict::IpNotUdp(ip_info, udp_data);
    }
    let (udp_info, dns_data) = match check_udp(family, &ip_info, ip_data, udp_data) {
        Ok(decoded) => decoded,
        Err(e) => { return Verdict::UdpError(ip_info, e, udp_data); },
    };
    let dns_info = match dns_info(dns_data) {
        Some(res) => res,
        None => { return Verdict::DnsTooShort(ip_info, udp_info, dns_data); },
    };
    policy(forward_auth_only, no_forward_empty, ip_info, udp_info, dns_info, dns_data)
}

/// How the forwarding of a response ended.
pub enum Forwarded<FE> {
    /// The response is on its way.
    Success,
    /// This response is lost; the next may be forwarded.
    NonFatal(FE),
    /// The forwarder has to be set up anew.
    Fatal(FE),
}

impl<FE> Forwarded<FE> {
    /// The event that an event handler is told of after forwarding; none
    /// after a fatal error, which is handed up.
    pub open spec fn spec_event(&self) -> Option<Event> {
        match self {
            Forwarded::Success => Some(Event::Success),
            Forwarded::NonFatal(_) => Some(Event::NonFatalForwardError),
            Forwarded::Fatal(_) => None,
        }
    }

    /// The event that an event handler is told of after forwarding; none
    /// after a fatal error, which is handed up.
    pub fn event(&self) -> (r: Option<Event>)
        ensures
            r == self.spec_event(),
    {
        match self {
            Forwarded::Success => Some(Event::Success),
            Forwarded::NonFatal(_) => Some(Event::NonFatalForwardError),
            Forwarded::Fatal(_) => None,
        }
    }
}

/// Sorts what a forwarder returned by what has to happen next.
pub fn conclude<FE: ForwardError>(forwarded: Result<(), FE>) -> (r: Forwarded<FE>)
    ensures
        match forwarded {
            Ok(_) => r is Success,
            Err(e) => if e.spec_fatal() {
                r is Fatal && r->Fatal_0 == e
            } else {
                r is NonFatal && r->NonFatal_0 == e
            },
        },
{
    match forwarded {
        Ok(_) => Forwarded::Success,
        Err(e) => if e.fatal() {
            Forwarded::Fatal(e)
        } else {
            Forwarded::NonFatal(e)
        },
    }
}

impl VerdictView {
    /// What an event handler is told of a frame that is dropped; nothing
    /// yet of a response that goes to the forwarder.
    pub open spec fn report<E>(self) -> Option<Report<E>> {
        match self {
            VerdictView::LinkError(e) => Some(Report::LinkError(e)),
            VerdictView::IpError(e, payload) => Some(Report::IpError(e, payload)),
            VerdictView::IpFragmented(ip) => Some(Report::IpFragmentedError(ip)),
            VerdictView::IpNotUdp(ip, payload) => Some(Report::IpNotUdpError(ip, payload)),
            VerdictView::UdpError(ip, e, payload) => Some(Report::UdpError(ip, e, payload)),
            VerdictView::DnsTooShort(ip, udp, payload) => Some(
                Report::DnsTooShort(ip, udp, payload),
            ),
            VerdictView::DnsIsQuery(ip, udp, dns) => Some(Report::DnsIsQuery(ip, udp, dns)),
            VerdictView::DnsIsNotAuthoritative(ip, udp, dns) => Some(
                Report::DnsIsNotAuthoritative(ip, udp, dns),
            ),
            VerdictView::DnsHasNoAnswers(ip, udp, dns) => Some(
                Report::DnsHasNoAnswers(ip, udp, dns),
            ),
            VerdictView::Forward(..) => None,
        }
    }
}

/// What an event handler is told after the forwarder returned `result` for
/// a response: of the success, or of an error that is not fatal. Of a fatal
/// error it is told nothing.
pub open spec fn spec_forward_report<FE: ForwardError>(
    ip: IpInfo,
    udp: UdpInfo,
    dns: DnsInfo,
    data: Seq<u8>,
    result: Result<(), FE>,
) -> Option<Report<FE>> {
    match result {
        Ok(_) => Some(Report::Success(ip, udp, dns, data)),
        Err(e) => if e.spec_fatal() {
            None
        } else {
            Some(Report::NonFatalForwardError(ip, udp, dns, data, e))
        },
    }
}

/// How a frame ends whose response the forwarder returned `result` for: in
/// success, in `HandledError` after an error that is not fatal, and in the
/// error itself after a fatal one.
pub open spec fn spec_forward_outcome<FE: ForwardError>(result: Result<(), FE>) -> Result<
    (),
    Error<FE>,
> {
    match result {
        Ok(_) => Ok(()),
        Err(e) => if e.spec_fatal() {
            Err(Error::FatalForwardError(e))
        } else {
            Err(Error::HandledError)
        },
    }
}

/// What a capture run makes of the end of one frame: a frame that was
/// dropped is no error to it.
pub open spec fn spec_settle<FE: ForwardError>(handled: Result<(), Error<FE>>) -> Result<
    (),
    Error<FE>,
> {
    match handled {
        Ok(_) => Ok(()),
        Err(Error::HandledError) => Ok(()),
        Err(e) => Err(e),
    }
}

/// A frame with the given verdict has been taken through the pipeline, and
/// `r` is how it ended. A frame that is dropped leaves the forwarder as it
/// was, is reported to the event handler with what was decoded of it, and
/// ends in `HandledError`. A response goes to the forwarder, once and as it
/// was decoded; what the forwarder returns decides what the event handler
/// is told and how the frame ends. After a fatal error the event handler is
/// as it was.
pub open spec fn packet_handled<F: Forwarder, H: EventHandler<F::Error>>(
    verdict: VerdictView,
    forwarder_before: F,
    forwarder_after: F,
    handler_before: H,
    handler_after: H,
    r: Result<(), Error<F::Error>>,
) -> bool {
    match verdict {
        VerdictView::Forward(ip, udp, dns, data) => exists|result: Result<(), F::Error>|
            {
                &&& #[trigger] forwarder_after.forwarded(
                    &forwarder_before,
                    ip,
                    udp,
                    dns,
                    data,
                    result,
                )
                &&& match spec_forward_report(ip, udp, dns, data, result) {
                    Some(report) => handler_after.told(&handler_before, report),
                    None => handler_after == handler_before,
                }
                &&& r == spec_forward_outcome(result)
            },
        _ => {
            &&& forwarder_after == forwarder_before
            &&& handler_after.told(&handler_before, verdict.report()->Some_0)
            &&& r == Err::<(), Error<F::Error>>(Error::HandledError)
        },
    }
}

/// Takes one frame through the pipeline. A frame that is dropped is
/// reported to the event handler and ends in `HandledError`, and so does a
/// response on which the forwarder failed without harm. A response that
/// was forwarded is reported as a success. A fatal error of the forwarder
/// is reported to nobody and handed up.
pub fn handle_packet<F: Forwarder, E: EventHandler<F::Error>>(
    options: &Options,
    forwarder: &mut F,
    e: &mut E,
    datalink: &Linktype,
    packet: &[u8],
) -> (r: Result<(), Error<F::Error>>)
    ensures
        packet_handled(
            spec_examine(options.forward_auth_only, options.no_forward_empty, *datalink, packet@),
            *old(forwarder),
            *final(forwarder),
            *old(e),
            *final(e),
            r,
        ),
        !(spec_examine(
            options.forward_auth_only,
            options.no_forward_empty,
            *datalink,
            packet@,
        ) is Forward) ==> r is Err && r->Err_0 is HandledError,
        r is Ok ==> spec_examine(
            options.forward_auth_only,
            options.no_forward_empty,
            *datalink,
            packet@,
        ) is Forward,
        r is Err ==> r->Err_0 is HandledError || (r->Err_0 is FatalForwardError
            && r->Err_0->FatalForwardError_0.spec_fatal()),
{
    match examine(options.forward_auth_only, options.no_forward_empty, datalink, packet) {
        Verdict::LinkError(error) => {
            e.handle_link_error(error);
            Err(Error::HandledError)
        },
        Verdict::IpError(error, ip_data) => {
            e.handle_ip_error(error, ip_data);
            Err(Error::HandledError)
        },
        Verdict::IpFragmented(ip_info) => {
            e.handle_ip_fragmented_error(&ip_info);
            Err(Error::HandledError)
        },
        Verdict::IpNotUdp(ip_info, udp_data) => {
            e.handle_ip_not_udp_error(&ip_info, udp_data);
            Err(Error::HandledError)
        },
        Verdict::UdpError(ip_info, error, udp_data) => {
            e.handle_udp_error(&ip_info, error, udp_data);
            Err(Error::HandledError)
        },
        Verdict::DnsTooShort(ip_info, udp_info, dns_data) => {
            e.handle_dns_too_short(&ip_info, &udp_info, dns_data);
            Err(Error::HandledError)
        },
        Verdict::DnsIsQuery(ip_info, udp_info, dns_info) => {
            e.handle_dns_is_query(&ip_info, &udp_info, &dns_info);
            Err(Error::HandledError)
        },
        Verdict::DnsIsNotAuthoritative(ip_info, udp_info, dns_info) => {
            e.handle_dns_is_not_authoritative(&ip_info, &udp_info, &dns_info);
            Err(Error::HandledError)
        },
        Verdict::DnsHasNoAnswers(ip_info, udp_info, dns_info) => {
            e.handle_dns_has_no_answers(&ip_info, &udp_info, &dns_info);
            Err(Error::HandledError)
        },
        Verdict::Forward(ip_info, udp_info, dns_info, dns_data) => {
            let forwarded = forwarder.forward(&ip_info, &udp_info, &dns_info, dns_data);
            let ghost result = forwarded;
            match conclude(forwarded) {
                Forwarded::Success => {
                    e.handle_success(&ip_info, &udp_info, &dns_info, dns_data);
                    Ok(())
                },
                Forwarded::NonFatal(error) => {
                    e.handle_non_fatal_forward_error(
                        &ip_info,
                        &udp_info,
                        &dns_info,
                        dns_data,
                        &error,
                    );
                    Err(Error::HandledError)
                },
                Forwarded::Fatal(error) => Err(Error::FatalForwardError(error)),
            }
        },
    }
}

/// What a capture run makes of the end of one frame: it goes on after a
/// frame that was forwarded or dropped, and ends on any other error.
pub fn settle<FE: ForwardError>(handled: Result<(), Error<FE>>) -> (r: Result<(), Error<FE>>)
    ensures
        r == spec_settle(handled),
        match handled {
            Ok(_) => r is Ok,
            Err(Error::HandledError) => r is Ok,
            Err(e) => r == Err::<(), Error<FE>>(e),
        },
{
    match handled {
        Ok(_) => Ok(()),
        Err(Error::HandledError) => Ok(()),
        Err(e) => Err(e),
    }
}

/// What a capture run does after a frame, before it fetches the next.
#[derive(Clone, Copy, PartialEq, Eq, Structural, Debug)]
pub enum Next {
    /// Nothing.
    Fetch,
    /// It asks the capture for its counters and reports them, and takes
    /// this moment for that of the last report.
    ShowStat,
}

/// What a capture run does after a frame that ended as `handled` says,
/// `elapsed_secs` whole seconds after the counters were last reported. A
/// fatal error ends the run. After any other frame the run goes on, with a
/// report of the counters if the interval between two reports has passed.
pub fn after_packet<FE: ForwardError>(
    options: &Options,
    handled: Result<(), Error<FE>>,
    elapsed_secs: u64,
) -> (r: Result<Next, Error<FE>>)
    ensures
        match handled {
            Ok(_) | Err(Error::HandledError) => r == Ok::<Next, Error<FE>>(
                if elapsed_secs >= options.log_interval {
                    Next::ShowStat
                } else {
                    Next::Fetch
                },
            ),
            Err(e) => r == Err::<Next, Error<FE>>(e),
        },
{
    match settle(handled) {
        Err(e) => Err(e),
        Ok(_) => if options.stat_due(elapsed_secs) {
            Ok(Next::ShowStat)
        } else {
            Ok(Next::Fetch)
        },
    }
}

/// Takes a single frame of the given link type through the pipeline, as a
/// capture run would. Fails only on a fatal error of the forwarder.
pub fn test_packet<F: Forwarder, E: EventHandler<F::Error>>(
    options: &Options,
    forwarder: &mut F,
    event_handler: &mut E,
    datalink: Linktype,
    packet: &[u8],
) -> (r: Result<(), Error<F::Error>>)
    ensures
        exists|handled: Result<(), Error<F::Error>>|
            {
                &&& #[trigger] packet_handled(
                    spec_examine(
                        options.forward_auth_only,
                        options.no_forward_empty,
                        datalink,
                        packet@,
                    ),
                    *old(forwarder),
                    *final(forwarder),
                    *old(event_handler),
                    *final(event_handler),
                    handled,
                )
                &&& r == spec_settle(handled)
            },
        !(spec_examine(
            options.forward_auth_only,
            options.no_forward_empty,
            datalink,
            packet@,
        ) is Forward) ==> r is Ok,
        r is Err ==> r->Err_0 is FatalForwardError && r->Err_0->FatalForwardError_0.spec_fatal(),
{
    settle(handle_packet(options, forwarder, event_handler, &datalink, packet))
}

/// The seconds that lie between two starts of a capture run at least.
pub const RESTART_DISTANCE_SECS: u64 = 5;

/// The nanoseconds that lie between two starts of a capture run at least.
pub const RESTART_DISTANCE_NANOS: u64 = 5_000_000_000;

/// How long to wait before a capture run that lasted `run_nanos`
/// nanoseconds is started again, in nanoseconds: what is missing to the
/// distance between two starts, if anything is.
pub fn restart_pause(run_nanos: u128) -> (r: Option<u64>)
    ensures
        run_nanos >= RESTART_DISTANCE_NANOS ==> r is None,
        run_nanos < RESTART_DISTANCE_NANOS ==> r == Some(
            (RESTART_DISTANCE_NANOS - run_nanos) as u64,
        ),
{
    if run_nanos >= RESTART_DISTANCE_NANOS as u128 {
        None
    } else {
        Some(RESTART_DISTANCE_NANOS - run_nanos as u64)
    }
}

} // verus!
