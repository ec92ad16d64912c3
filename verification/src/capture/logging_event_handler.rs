//! Which events are worth a line in the log, at which verbosity.

use vstd::prelude::*;

verus! {

/// The kinds of event that an event handler is told of.
#[derive(Clone, Copy, PartialEq, Eq, Structural, PartialOrd, Ord, Hash, Debug)]
pub enum Event {
    LinkError,
    IpError,
    IpFragmentedError,
    IpNotUdpError,
    UdpError,
    DnsTooShort,
    DnsIsQuery,
    DnsIsNotAuthoritative,
    DnsHasNoAnswers,
    NonFatalForwardError,
    Success,
}

impl Event {
    /// A packet that breaks the rules of its protocol. Everything else is
    /// traffic that is in order and merely not wanted, or the ordinary
    /// course of forwarding.
    pub open spec fn spec_is_protocol_error(self) -> bool {
        self == Event::IpError || self == Event::UdpError || self == Event::DnsTooShort
    }

    /// Whether the event is a packet that breaks the rules of its protocol.
    pub fn is_protocol_error(self) -> (r: bool)
        ensures
            r == self.spec_is_protocol_error(),
    {
        match self {
            Event::IpError | Event::UdpError | Event::DnsTooShort => true,
            _ => false,
        }
    }
}

/// The verbosity of a log: 0 is silent, 1 shows protocol errors, 2 and more
/// show every event.
#[derive(Clone, Copy, PartialEq, Eq, Structural, Debug)]
pub struct LoggingEventHandler {
    pub level: u64,
}

impl LoggingEventHandler {
    /// Whether a log of this verbosity has a line for `event`.
    pub open spec fn spec_shows(&self, event: Event) -> bool {
        if event.spec_is_protocol_error() {
            self.level >= 1
        } else {
            self.level >= 2
        }
    }

    /// A log of the given verbosity.
    pub fn new(level: u64) -> (r: LoggingEventHandler)
        ensures
            r.level == level,
    {
        LoggingEventHandler { level }
    }

    /// Whether everything is shown.
    pub fn show_debug(&self) -> (r: bool)
        ensures
            r == (self.level >= 2),
    {
        self.level >= 2
    }

    /// Whether protocol errors are shown.
    pub fn show_protocol_errors(&self) -> (r: bool)
        ensures
            r == (self.level >= 1),
    {
        self.level >= 1
    }

    /// Whether a log of this verbosity has a line for `event`.
    pub fn shows(&self, event: Event) -> (r: bool)
        ensures
            r == self.spec_shows(event),
    {
        if event.is_protocol_error() {
            self.show_protocol_errors()
        } else {
            self.show_debug()
        }
    }
}

} // verus!
