//! Decoding of captured DNS traffic and framing of authoritative responses
//! for a remote collector.

pub mod capture;
pub mod csum;
pub mod dnsxfr01;
pub mod options;
pub mod protocols;
pub mod test;
pub mod wire;
