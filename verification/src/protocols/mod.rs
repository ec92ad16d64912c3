//! The decoders, one per layer of a captured frame.

pub mod dns;
pub mod ip;
pub mod laws;
pub mod link;
pub mod udp;

pub use self::dns::{DnsInfo, DnsPacketSections, DnsParseError, DnsType};
pub use self::ip::{IpAddress, IpError, IpFamily, IpInfo};
pub use self::link::{LinkFindIpError, Linktype};
pub use self::udp::{check_udp, UdpError, UdpInfo};
