use dnslogger_utils::capture::{
    after_packet, conclude, examine, handle_packet, policy, restart_pause, settle, test_packet,
    CombinedEventHandler, Error, Event, EventHandler, ForwardError, Forwarded, Forwarder,
    LoggingEventHandler, Next, Stat, StatisticsEventHandler, Verdict,
};
use dnslogger_utils::dnsxfr01::{
    datagram_buffer, pack_buffer, pack_stream_buffer, stream_buffer, DnsXfr01Error,
};
use dnslogger_utils::options::Options;
use dnslogger_utils::protocols::{
    DnsInfo, DnsType, IpAddress, IpError, IpInfo, LinkFindIpError, Linktype, UdpError, UdpInfo,
};
use dnslogger_utils::test::{empty_addr, TestLoggingEventHandler};

/// The Internet checksum, computed the slow way.
fn reference_checksum(data: &[u8]) -> u16 {
    let mut sum: u32 = 0;
    let mut i = 0;
    while i < data.len() {
        let hi = data[i] as u32;
        let lo = if i + 1 < data.len() { data[i + 1] as u32 } else { 0 };
        sum += (hi << 8) | lo;
        i += 2;
    }
    while sum >> 16 != 0 {
        sum = (sum & 0xffff) + (sum >> 16);
    }
    !(sum as u16)
}

fn dns_message(flags: u16, ancount: u16, body: &[u8]) -> Vec<u8> {
    let mut m = vec![0x12, 0x34];
    m.extend_from_slice(&flags.to_be_bytes());
    m.extend_from_slice(&1u16.to_be_bytes());
    m.extend_from_slice(&ancount.to_be_bytes());
    m.extend_from_slice(&0u16.to_be_bytes());
    m.extend_from_slice(&0u16.to_be_bytes());
    m.extend_from_slice(body);
    m
}

fn udp_datagram(src: [u8; 4], dst: [u8; 4], sport: u16, dport: u16, payload: &[u8]) -> Vec<u8> {
    let length = (8 + payload.len()) as u16;
    let mut d = Vec::new();
    d.extend_from_slice(&sport.to_be_bytes());
    d.extend_from_slice(&dport.to_be_bytes());
    d.extend_from_slice(&length.to_be_bytes());
    d.extend_from_slice(&[0, 0]);
    d.extend_from_slice(payload);
    let mut pseudo = Vec::new();
    pseudo.extend_from_slice(&src);
    pseudo.extend_from_slice(&dst);
    pseudo.extend_from_slice(&[0, 17]);
    pseudo.extend_from_slice(&length.to_be_bytes());
    pseudo.extend_from_slice(&d);
    let mut c = reference_checksum(&pseudo);
    if c == 0 {
        c = 0xffff;
    }
    d[6..8].copy_from_slice(&c.to_be_bytes());
    d
}

fn ipv4_packet(src: [u8; 4], dst: [u8; 4], protocol: u8, fragment: u16, payload: &[u8]) -> Vec<u8> {
    let total = (20 + payload.len()) as u16;
    let mut p = vec![0x45, 0x00];
    p.extend_from_slice(&total.to_be_bytes());
    p.extend_from_slice(&[0xbe, 0xef]);
    p.extend_from_slice(&fragment.to_be_bytes());
    p.extend_from_slice(&[64, protocol, 0, 0]);
    p.extend_from_slice(&src);
    p.extend_from_slice(&dst);
    let c = reference_checksum(&p);
    p[10..12].copy_from_slice(&c.to_be_bytes());
    p.extend_from_slice(payload);
    p
}

const NS: [u8; 4] = [10, 0, 0, 1];
const CLIENT: [u8; 4] = [10, 0, 0, 2];
const QUESTION: [u8; 17] = [
    7, b'e', b'x', b'a', b'm', b'p', b'l', b'e', 3, b'c', b'o', b'm', 0, 0, 1, 0, 1,
];

/// A response from 10.0.0.1 with the given flags and answer count.
fn response_frame(flags: u16, ancount: u16) -> (Vec<u8>, Vec<u8>) {
    let dns = dns_message(flags, ancount, &QUESTION);
    let udp = udp_datagram(NS, CLIENT, 53, 40000, &dns);
    (ipv4_packet(NS, CLIENT, 17, 0, &udp), dns)
}

fn default_options() -> Options<'static> {
    Options {
        interface: "",
        filter: "udp and port 53",
        forward_auth_only: false,
        no_forward_empty: false,
        tcp_forward: false,
        log_interval: 3600,
        verbose: 2,
        target: empty_addr(),
        max_message_size: 512,
    }
}

/// Keeps what a forwarder would send.
struct Collector {
    buf: Vec<u8>,
    stream: bool,
    sent: Vec<Vec<u8>>,
    fail: bool,
}

impl Collector {
    fn new(options: &Options) -> Collector {
        Collector {
            buf: if options.tcp_forward {
                stream_buffer(options.max_message_size)
            } else {
                datagram_buffer(options.max_message_size)
            },
            stream: options.tcp_forward,
            sent: Vec::new(),
            fail: false,
        }
    }
}

impl Forwarder for Collector {
    type Error = DnsXfr01Error;

    fn forward(
        &mut self,
        ip_info: &IpInfo,
        _: &UdpInfo,
        dns_info: &DnsInfo,
        dns_data: &[u8],
    ) -> Result<(), DnsXfr01Error> {
        let message = if self.stream {
            pack_stream_buffer(&mut self.buf, ip_info, dns_info, dns_data)?
        } else {
            pack_buffer(&mut self.buf, ip_info, dns_info, dns_data)?
        };
        if self.fail {
            return Err(DnsXfr01Error::IoError(std::io::Error::new(
                std::io::ErrorKind::BrokenPipe,
                "gone",
            )));
        }
        let message = message.to_vec();
        self.sent.push(message);
        Ok(())
    }
}

/// Writes down the trace of a trial run.
struct Trace {
    settings: TestLoggingEventHandler,
    lines: Vec<String>,
}

impl Trace {
    fn new(tcp_forward: bool) -> Trace {
        Trace { settings: TestLoggingEventHandler::new(tcp_forward), lines: Vec::new() }
    }
}

fn dotted(a: &IpAddress) -> String {
    match *a {
        IpAddress::V4(x) => {
            let b = x.to_be_bytes();
            format!("{}.{}.{}.{}", b[0], b[1], b[2], b[3])
        }
        IpAddress::V6(x) => format!("{:032x}", x),
    }
}

impl EventHandler<DnsXfr01Error> for Trace {
    fn handle_link_error(&mut self, error: LinkFindIpError) {
        self.lines.push(format!("Couldn't find IPv4 / IPv6: {:?}", error));
    }
    fn handle_ip_error(&mut self, error: IpError, payload: &[u8]) {
        self.lines.push(match error {
            IpError::HeaderTruncated => format!(
                "dnslogger-forward: debug: Short packet of length {}.",
                payload.len()
            ),
            IpError::PayloadTruncated { expected_length } => format!(
                "dnslogger-forward: debug: Truncated IP packet, indicated length is {}, available is {}.",
                expected_length,
                payload.len()
            ),
            _ => format!("Invalid IP packet: {:?}", error),
        });
    }
    fn handle_ip_fragmented_error(&mut self, _: &IpInfo) {
        self.lines.push("IP packet is fragmented".to_string());
    }
    fn handle_ip_not_udp_error(&mut self, ip_info: &IpInfo, _: &[u8]) {
        self.lines.push(format!(
            "dnslogger-forward: debug: Unexpected IP protocol {} ({} -> {}).",
            ip_info.protocol,
            dotted(&ip_info.source),
            dotted(&ip_info.destination)
        ));
    }
    fn handle_udp_error(&mut self, _: &IpInfo, error: UdpError, _: &[u8]) {
        self.lines.push(format!("Invalid UDP packet: {:?}", error));
    }
    fn handle_dns_too_short(&mut self, _: &IpInfo, _: &UdpInfo, payload: &[u8]) {
        self.lines.push(format!(
            "dnslogger-forward: debug: Truncated DNS packet (length {}).",
            payload.len()
        ));
    }
    fn handle_dns_is_query(&mut self, ip_info: &IpInfo, _: &UdpInfo, _: &DnsInfo) {
        self.lines.push(format!(
            "dnslogger-forward: debug: Dropping question packet ({} -> {}).",
            dotted(&ip_info.source),
            dotted(&ip_info.destination)
        ));
    }
    fn handle_dns_is_not_authoritative(&mut self, ip_info: &IpInfo, _: &UdpInfo, _: &DnsInfo) {
        self.lines.push(format!(
            "dnslogger-forward: debug: Dropping non-authoritative DNS packet ({} -> {}).",
            dotted(&ip_info.source),
            dotted(&ip_info.destination)
        ));
    }
    fn handle_dns_has_no_answers(&mut self, ip_info: &IpInfo, _: &UdpInfo, _: &DnsInfo) {
        self.lines.push(format!(
            "dnslogger-forward: debug: Dropping packet without answers ({} -> {}).",
            dotted(&ip_info.source),
            dotted(&ip_info.destination)
        ));
    }
    fn handle_non_fatal_forward_error(
        &mut self,
        ip_info: &IpInfo,
        _: &UdpInfo,
        _: &DnsInfo,
        dns_data: &[u8],
        error: &DnsXfr01Error,
    ) {
        self.lines.push(match *error {
            DnsXfr01Error::BufferTooSmall => format!(
                "dnslogger-forward: debug: Dropping overlong packet ({} -> {}, {} bytes).",
                dotted(&ip_info.source),
                dotted(&ip_info.destination),
                dns_data.len()
            ),
            _ => format!("Failed forwarding DNS packet: {}", error.description()),
        });
    }
    fn handle_success(&mut self, _: &IpInfo, _: &UdpInfo, _: &DnsInfo, dns_data: &[u8]) {
        if let Some(size) = self.settings.forwarded_size(dns_data.len()) {
            self.lines.push(format!("dnslogger-forward: debug: Forwarded {} bytes.", size));
        }
    }
    fn show_stat(&mut self, _: &Stat) {}
}

/// Runs one raw IPv4 frame through the pipeline and gives the trace and
/// what was sent.
fn run(options: &Options, frame: &[u8]) -> (Vec<String>, Vec<Vec<u8>>) {
    let mut collector = Collector::new(options);
    let mut trace = Trace::new(options.tcp_forward);
    test_packet(options, &mut collector, &mut trace, Linktype::DLT_IPV4, frame).unwrap();
    (trace.lines, collector.sent)
}

fn expected_message(nameserver: [u8; 4], dns: &[u8]) -> Vec<u8> {
    let mut m = b"DNSXFR01".to_vec();
    m.extend_from_slice(&nameserver);
    m.extend_from_slice(dns);
    m
}

#[test]
fn test_default() {
    // An authoritative response with one answer goes out as a datagram.
    let (frame, dns) = response_frame(0x8400, 1);
    let (lines, sent) = run(&default_options(), &frame);
    assert_eq!(
        lines,
        vec![format!("dnslogger-forward: debug: Forwarded {} bytes.", dns.len() + 12)]
    );
    assert_eq!(sent, vec![expected_message(NS, &dns)]);

    // So does one that is not authoritative, without the nameserver.
    let (frame, dns) = response_frame(0x8000, 1);
    let (lines, sent) = run(&default_options(), &frame);
    assert_eq!(lines.len(), 1);
    assert_eq!(sent, vec![expected_message([0, 0, 0, 0], &dns)]);

    // And one without answers.
    let (frame, dns) = response_frame(0x8400, 0);
    let (_, sent) = run(&default_options(), &frame);
    assert_eq!(sent, vec![expected_message(NS, &dns)]);
}

#[test]
fn test_forward_auth_only() {
    let options = Options { forward_auth_only: true, ..default_options() };
    let (frame, _) = response_frame(0x8000, 1);
    let (lines, sent) = run(&options, &frame);
    assert_eq!(
        lines,
        vec!["dnslogger-forward: debug: Dropping non-authoritative DNS packet (10.0.0.1 -> 10.0.0.2)."
            .to_string()]
    );
    assert!(sent.is_empty());

    let (frame, dns) = response_frame(0x8400, 1);
    let (_, sent) = run(&options, &frame);
    assert_eq!(sent, vec![expected_message(NS, &dns)]);
}

#[test]
fn test_no_forward_empty() {
    let options = Options { no_forward_empty: true, ..default_options() };
    let (frame, _) = response_frame(0x8400, 0);
    let (lines, sent) = run(&options, &frame);
    assert_eq!(
        lines,
        vec!["dnslogger-forward: debug: Dropping packet without answers (10.0.0.1 -> 10.0.0.2)."
            .to_string()]
    );
    assert!(sent.is_empty());

    let (frame, dns) = response_frame(0x8400, 1);
    let (_, sent) = run(&options, &frame);
    assert_eq!(sent, vec![expected_message(NS, &dns)]);
}

#[test]
fn test_tcp_forward() {
    let options = Options { tcp_forward: true, ..default_options() };
    let (frame, dns) = response_frame(0x8400, 1);
    let (lines, sent) = run(&options, &frame);
    // Nothing is said of the size over TCP.
    assert!(lines.is_empty());
    let body = expected_message(NS, &dns);
    let mut framed = (body.len() as u16).to_be_bytes().to_vec();
    framed.extend_from_slice(&body);
    assert_eq!(sent, vec![framed]);
}

#[test]
fn query_packet_is_dropped() {
    let (frame, _) = response_frame(0x0100, 0);
    let (lines, sent) = run(&default_options(), &frame);
    assert_eq!(
        lines,
        vec!["dnslogger-forward: debug: Dropping question packet (10.0.0.1 -> 10.0.0.2).".to_string()]
    );
    assert!(sent.is_empty());
    // A query is a query whatever the settings are.
    let options = Options { forward_auth_only: true, no_forward_empty: true, ..default_options() };
    let (lines, _) = run(&options, &frame);
    assert_eq!(lines.len(), 1);
    assert!(lines[0].contains("Dropping question packet"));
}

#[test]
fn udp_checksum_mismatch_is_dropped() {
    let (mut frame, _) = response_frame(0x8400, 1);
    // Corrupt the UDP checksum, keeping it other than zero.
    frame[26] ^= 0x55;
    if frame[26] == 0 && frame[27] == 0 {
        frame[27] = 1;
    }
    let (lines, sent) = run(&default_options(), &frame);
    assert_eq!(lines, vec!["Invalid UDP packet: ChecksumMismatch".to_string()]);
    assert!(sent.is_empty());
}

#[test]
fn udp_checksum_of_zero_is_not_verified_over_ipv4() {
    let (mut frame, dns) = response_frame(0x8400, 1);
    frame[26] = 0;
    frame[27] = 0;
    let (_, sent) = run(&default_options(), &frame);
    assert_eq!(sent, vec![expected_message(NS, &dns)]);
}

#[test]
fn oversize_payload_is_dropped() {
    let body = vec![0u8; 520];
    let dns = dns_message(0x8400, 1, &body);
    let udp = udp_datagram(NS, CLIENT, 53, 40000, &dns);
    let frame = ipv4_packet(NS, CLIENT, 17, 0, &udp);
    let (lines, sent) = run(&default_options(), &frame);
    assert_eq!(
        lines,
        vec![format!(
            "dnslogger-forward: debug: Dropping overlong packet (10.0.0.1 -> 10.0.0.2, {} bytes).",
            dns.len()
        )]
    );
    assert!(sent.is_empty());
}

#[test]
fn payload_of_the_largest_size_is_forwarded() {
    let body = vec![0u8; 500];
    let dns = dns_message(0x8400, 1, &body);
    assert_eq!(dns.len(), 512);
    let udp = udp_datagram(NS, CLIENT, 53, 40000, &dns);
    let frame = ipv4_packet(NS, CLIENT, 17, 0, &udp);
    let (lines, sent) = run(&default_options(), &frame);
    assert_eq!(lines, vec!["dnslogger-forward: debug: Forwarded 524 bytes.".to_string()]);
    assert_eq!(sent[0].len(), 524);
}

#[test]
fn fragments_are_dropped() {
    let dns = dns_message(0x8400, 1, &QUESTION);
    let udp = udp_datagram(NS, CLIENT, 53, 40000, &dns);
    // More fragments follow.
    let frame = ipv4_packet(NS, CLIENT, 17, 0x2000, &udp);
    let (lines, sent) = run(&default_options(), &frame);
    assert_eq!(lines, vec!["IP packet is fragmented".to_string()]);
    assert!(sent.is_empty());
    // A later fragment.
    let frame = ipv4_packet(NS, CLIENT, 17, 0x0001, &udp);
    let (lines, sent) = run(&default_options(), &frame);
    assert_eq!(lines, vec!["IP packet is fragmented".to_string()]);
    assert!(sent.is_empty());
    match examine(false, false, &Linktype::DLT_IPV4, &frame) {
        Verdict::IpFragmented(info) => assert_eq!(info.fragment, Some((8, 0xbeef, false))),
        _ => panic!("a fragment must be found to be one"),
    }
}

#[test]
fn other_protocols_are_dropped() {
    let frame = ipv4_packet(NS, CLIENT, 6, 0, &[0u8; 20]);
    let (lines, sent) = run(&default_options(), &frame);
    assert_eq!(
        lines,
        vec!["dnslogger-forward: debug: Unexpected IP protocol 6 (10.0.0.1 -> 10.0.0.2).".to_string()]
    );
    assert!(sent.is_empty());
}

#[test]
fn short_frames_are_dropped() {
    let (lines, _) = run(&default_options(), &[0x45, 0, 0]);
    assert_eq!(lines, vec!["dnslogger-forward: debug: Short packet of length 3.".to_string()]);
    let udp = udp_datagram(NS, CLIENT, 53, 40000, &[1, 2, 3]);
    let frame = ipv4_packet(NS, CLIENT, 17, 0, &udp);
    let (lines, _) = run(&default_options(), &frame);
    assert_eq!(lines, vec!["dnslogger-forward: debug: Truncated DNS packet (length 3).".to_string()]);
}

#[test]
fn link_errors_are_reported() {
    let mut collector = Collector::new(&default_options());
    let mut trace = Trace::new(false);
    let mut frame = vec![0u8; 12];
    frame.extend_from_slice(&[0x08, 0x06]);
    test_packet(&default_options(), &mut collector, &mut trace, Linktype::DLT_EN10MB, &frame)
        .unwrap();
    assert_eq!(trace.lines, vec!["Couldn't find IPv4 / IPv6: UnknownEtherType(2054)".to_string()]);
}

#[test]
fn fatal_errors_are_handed_up() {
    let (frame, _) = response_frame(0x8400, 1);
    let options = default_options();
    let mut collector = Collector::new(&options);
    collector.fail = true;
    let mut trace = Trace::new(false);
    let r = handle_packet(&options, &mut collector, &mut trace, &Linktype::DLT_IPV4, &frame);
    match r {
        Err(Error::FatalForwardError(e)) => assert!(e.fatal()),
        _ => panic!("a broken socket must end the run"),
    }
    assert!(trace.lines.is_empty());
    let r = test_packet(&options, &mut collector, &mut trace, Linktype::DLT_IPV4, &frame);
    assert!(matches!(r, Err(Error::FatalForwardError(_))));
}

#[test]
fn handled_errors_let_the_run_go_on() {
    let (frame, _) = response_frame(0x0100, 0);
    let options = default_options();
    let mut collector = Collector::new(&options);
    let mut trace = Trace::new(false);
    let r = handle_packet(&options, &mut collector, &mut trace, &Linktype::DLT_IPV4, &frame);
    assert!(matches!(r, Err(Error::HandledError)));
    assert!(settle(r).is_ok());
    assert!(settle::<DnsXfr01Error>(Ok(())).is_ok());
    assert!(matches!(
        settle::<DnsXfr01Error>(Err(Error::OpenError("no such device".to_string()))),
        Err(Error::OpenError(_))
    ));
}

#[test]
fn forwarder_results_are_sorted() {
    assert!(matches!(conclude::<DnsXfr01Error>(Ok(())), Forwarded::Success));
    assert!(matches!(
        conclude(Err(DnsXfr01Error::BufferTooSmall)),
        Forwarded::NonFatal(DnsXfr01Error::BufferTooSmall)
    ));
    let broken = DnsXfr01Error::IoError(std::io::Error::new(std::io::ErrorKind::Other, "x"));
    let sorted = conclude(Err(broken));
    assert!(matches!(sorted, Forwarded::Fatal(DnsXfr01Error::IoError(_))));
    assert_eq!(sorted.event(), None);
    assert_eq!(conclude::<DnsXfr01Error>(Ok(())).event(), Some(Event::Success));
    assert_eq!(
        conclude(Err(DnsXfr01Error::BufferTooSmall)).event(),
        Some(Event::NonFatalForwardError)
    );
    assert!(!DnsXfr01Error::BufferTooSmall.fatal());
    assert_eq!(DnsXfr01Error::BufferTooSmall.description(), "buffer too small");
}

fn some_ip() -> IpInfo {
    IpInfo {
        source: IpAddress::V4(0x0a000001),
        destination: IpAddress::V4(0x0a000002),
        fragment: None,
        protocol: 17,
        jumbo: false,
    }
}

fn some_dns(qr: DnsType, aa: bool, ancount: u16) -> DnsInfo {
    DnsInfo {
        id: 1,
        qr,
        opcode: 0,
        authoritative_answer: aa,
        truncation: false,
        recursion_desired: false,
        recursion_available: false,
        rcode: 0,
        qdcount: 1,
        ancount,
        nscount: 0,
        arcount: 0,
    }
}

#[test]
fn rules_apply_in_order() {
    let udp = UdpInfo { source_port: 53, destination_port: 4000 };
    let data = [0u8; 12];
    let rule = |fa: bool, nfe: bool, dns: DnsInfo| policy(fa, nfe, some_ip(), udp, dns, &data).event();
    // A query is a query first of all.
    assert_eq!(rule(true, true, some_dns(DnsType::Query, false, 0)), Some(Event::DnsIsQuery));
    // Authority is looked at before the answers.
    assert_eq!(
        rule(true, true, some_dns(DnsType::Response, false, 0)),
        Some(Event::DnsIsNotAuthoritative)
    );
    assert_eq!(
        rule(true, true, some_dns(DnsType::Response, true, 0)),
        Some(Event::DnsHasNoAnswers)
    );
    assert_eq!(rule(true, true, some_dns(DnsType::Response, true, 1)), None);
    assert_eq!(rule(false, false, some_dns(DnsType::Response, false, 0)), None);
    assert_eq!(
        rule(false, true, some_dns(DnsType::Response, false, 0)),
        Some(Event::DnsHasNoAnswers)
    );
    match policy(false, false, some_ip(), udp, some_dns(DnsType::Response, true, 2), &data) {
        Verdict::Forward(ip, u, dns, d) => {
            assert_eq!(ip, some_ip());
            assert_eq!(u, udp);
            assert_eq!(dns.ancount, 2);
            assert_eq!(d, &data[..]);
        }
        _ => panic!("a response is forwarded by default"),
    }
}

#[test]
fn statistics_count_each_event_once() {
    let mut s = StatisticsEventHandler::new();
    assert_eq!(s, StatisticsEventHandler::default());
    let ip = some_ip();
    let udp = UdpInfo { source_port: 53, destination_port: 4000 };
    let dns = some_dns(DnsType::Response, true, 1);
    let h: &mut dyn FnMut(&mut StatisticsEventHandler) = &mut |s| {
        EventHandler::<DnsXfr01Error>::handle_link_error(s, LinkFindIpError::UnexpectedEndOfData);
        EventHandler::<DnsXfr01Error>::handle_ip_error(s, IpError::HeaderTruncated, &[]);
        EventHandler::<DnsXfr01Error>::handle_ip_error(s, IpError::VersionMismatch, &[]);
        EventHandler::<DnsXfr01Error>::handle_ip_fragmented_error(s, &ip);
        EventHandler::<DnsXfr01Error>::handle_ip_not_udp_error(s, &ip, &[]);
        EventHandler::<DnsXfr01Error>::handle_udp_error(s, &ip, UdpError::ChecksumMismatch, &[]);
        EventHandler::<DnsXfr01Error>::handle_dns_too_short(s, &ip, &udp, &[]);
        EventHandler::<DnsXfr01Error>::handle_dns_is_query(s, &ip, &udp, &dns);
        EventHandler::<DnsXfr01Error>::handle_dns_is_not_authoritative(s, &ip, &udp, &dns);
        EventHandler::<DnsXfr01Error>::handle_dns_has_no_answers(s, &ip, &udp, &dns);
        EventHandler::<DnsXfr01Error>::handle_success(s, &ip, &udp, &dns, &[]);
        s.handle_non_fatal_forward_error(&ip, &udp, &dns, &[], &DnsXfr01Error::BufferTooSmall);
        s.handle_non_fatal_forward_error(
            &ip,
            &udp,
            &dns,
            &[],
            &DnsXfr01Error::IoError(std::io::Error::new(std::io::ErrorKind::Other, "x")),
        );
        EventHandler::<DnsXfr01Error>::show_stat(
            s,
            &Stat { received: 1, dropped: 2, if_dropped: 3 },
        );
    };
    h(&mut s);
    assert_eq!(
        s,
        StatisticsEventHandler {
            count_link_error: 1,
            count_ip_error: 2,
            count_ip_fragmented_error: 1,
            count_ip_not_udp_error: 1,
            count_udp_error: 1,
            count_dns_too_short: 1,
            count_dns_is_query: 1,
            count_dns_is_not_authoritative: 1,
            count_dns_has_no_answers: 1,
            count_forward_errors: 1,
            count_fatal_forward_errors: 1,
            count_success: 1,
        }
    );
    // A full counter starts again.
    s.count_success = u64::MAX;
    EventHandler::<DnsXfr01Error>::handle_success(&mut s, &ip, &udp, &dns, &[]);
    assert_eq!(s.count_success, 0);
}

#[test]
fn combined_handlers_hear_of_everything() {
    let mut both = CombinedEventHandler::combine(Trace::new(false), StatisticsEventHandler::new());
    let options = default_options();
    let mut collector = Collector::new(&options);
    let (frame, _) = response_frame(0x8400, 1);
    test_packet(&options, &mut collector, &mut both, Linktype::DLT_IPV4, &frame).unwrap();
    let (frame, _) = response_frame(0x0000, 0);
    test_packet(&options, &mut collector, &mut both, Linktype::DLT_IPV4, &frame).unwrap();
    assert_eq!(both.first.lines.len(), 2);
    assert_eq!(both.second.count_success, 1);
    assert_eq!(both.second.count_dns_is_query, 1);
    assert_eq!(both.second.count_ip_error, 0);
}

#[test]
fn log_levels() {
    let all = [
        Event::LinkError,
        Event::IpError,
        Event::IpFragmentedError,
        Event::IpNotUdpError,
        Event::UdpError,
        Event::DnsTooShort,
        Event::DnsIsQuery,
        Event::DnsIsNotAuthoritative,
        Event::DnsHasNoAnswers,
        Event::NonFatalForwardError,
        Event::Success,
    ];
    let silent = LoggingEventHandler::new(0);
    let errors = LoggingEventHandler::new(1);
    let debug = LoggingEventHandler::new(2);
    assert!(!silent.show_debug() && !silent.show_protocol_errors());
    assert!(!errors.show_debug() && errors.show_protocol_errors());
    assert!(debug.show_debug() && debug.show_protocol_errors());
    assert!(LoggingEventHandler::new(7).show_debug());
    for e in all.iter() {
        let protocol = matches!(*e, Event::IpError | Event::UdpError | Event::DnsTooShort);
        assert_eq!(e.is_protocol_error(), protocol);
        assert!(!silent.shows(*e));
        assert_eq!(errors.shows(*e), protocol);
        assert!(debug.shows(*e));
    }
}

#[test]
fn trace_reports_sizes_of_datagrams_only() {
    assert_eq!(TestLoggingEventHandler::new(false).forwarded_size(30), Some(42));
    assert_eq!(TestLoggingEventHandler::new(false).forwarded_size(0), Some(12));
    assert_eq!(TestLoggingEventHandler::new(true).forwarded_size(30), None);
}

#[test]
fn restarts_keep_their_distance() {
    assert_eq!(restart_pause(0), Some(5_000_000_000));
    assert_eq!(restart_pause(1_250_000_000), Some(3_750_000_000));
    assert_eq!(restart_pause(4_999_999_999), Some(1));
    assert_eq!(restart_pause(5_000_000_000), None);
    assert_eq!(restart_pause(5_000_000_001), None);
    assert_eq!(restart_pause(3_600_000_000_000), None);
    assert_eq!(restart_pause(u128::MAX), None);
}

#[test]
fn statistics_are_due_after_the_interval() {
    let options = default_options();
    assert!(!options.stat_due(0));
    assert!(!options.stat_due(3599));
    assert!(options.stat_due(3600));
    assert!(options.stat_due(10_000_000_000));
    let every_second = Options { log_interval: 1, ..default_options() };
    assert!(!every_second.stat_due(0));
    assert!(every_second.stat_due(1));
}

#[test]
fn error_descriptions() {
    let e: Error<DnsXfr01Error> = Error::HandledError;
    assert_eq!(e.description(), "handling captured packet failed, but was handled");
    let e: Error<DnsXfr01Error> = Error::UnknownLinkType(Ok("PPP".to_string()));
    assert_eq!(e.description(), "unknown link type of capture handle");
    let e: Error<DnsXfr01Error> = Error::UnknownLinkType(Err("?".to_string()));
    assert_eq!(
        e.description(),
        "unknown link type of capture handle, failed to get readable name"
    );
    let e: Error<DnsXfr01Error> = Error::FatalForwardError(DnsXfr01Error::BufferTooSmall);
    assert_eq!(e.description(), "fatal failure forwading a packet");
    let e: Error<DnsXfr01Error> = Error::ForwardConnectingError("refused".to_string());
    assert_eq!(e.description(), "couldn't connect forwarder");
    let e: Error<DnsXfr01Error> = Error::OpenError("x".to_string());
    assert_eq!(e.description(), "couldn't open capture device");
    let e: Error<DnsXfr01Error> = Error::FilterError("x".to_string());
    assert_eq!(e.description(), "couldn't apply capture filter");
    let e: Error<DnsXfr01Error> = Error::CaptureError("x".to_string());
    assert_eq!(e.description(), "failed capturing packet");
    let e: Error<DnsXfr01Error> = Error::StatError("x".to_string());
    assert_eq!(e.description(), "failed to get capture stats");
}

#[test]
fn capture_run_goes_on_after_all_but_fatal_errors() {
    let options = default_options();
    assert_eq!(after_packet::<DnsXfr01Error>(&options, Ok(()), 0).unwrap(), Next::Fetch);
    assert_eq!(after_packet::<DnsXfr01Error>(&options, Ok(()), 3599).unwrap(), Next::Fetch);
    assert_eq!(after_packet::<DnsXfr01Error>(&options, Ok(()), 3600).unwrap(), Next::ShowStat);
    assert_eq!(
        after_packet::<DnsXfr01Error>(&options, Err(Error::HandledError), 10).unwrap(),
        Next::Fetch
    );
    assert_eq!(
        after_packet::<DnsXfr01Error>(&options, Err(Error::HandledError), 4000).unwrap(),
        Next::ShowStat
    );
    let broken = DnsXfr01Error::IoError(std::io::Error::new(std::io::ErrorKind::Other, "x"));
    assert!(matches!(
        after_packet(&options, Err(Error::FatalForwardError(broken)), 4000),
        Err(Error::FatalForwardError(_))
    ));
    assert!(matches!(
        after_packet::<DnsXfr01Error>(&options, Err(Error::StatError("x".to_string())), 0),
        Err(Error::StatError(_))
    ));
}
