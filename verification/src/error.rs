//! The closed set of failures that the engine reports.

use vstd::prelude::*;

verus! {

/// Why an operation failed. Malformed inbound frames are not among these:
/// the resolver skips them and goes on listening.
#[derive(Clone, Copy, Debug, PartialEq, Eq, Structural)]
pub enum Error {
    /// Configuration: the interface has no IPv4 address bound.
    NoIpv4Address,
    /// Configuration: the interface has no hardware address.
    NoHardwareAddress,
    /// Configuration: no interface has been chosen yet.
    NoInterfaceChosen,
    /// Configuration: no enumerated interface has the name asked for.
    InterfaceNotFound,
    /// Channel: the link-layer channel could not be opened or written to.
    Channel,
    /// Transmission: the local stack refused a datagram.
    Transmission,
    /// Receive: reading from the link-layer channel failed.
    Receive,
    /// No frame answered the request within the wait that the driver set.
    NoReply,
    /// The liveness probe that precedes a resolution got no reply.
    TargetOffline,
    /// A text that should hold a hardware address does not.
    InvalidHardwareAddress,
    /// An event reached the resolver in a state that does not await it.
    OutOfSequence,
}

impl Error {
    /// The one-line text by which the failure is reported at the boundary.
    pub open spec fn spec_message(&self) -> Seq<char> {
        match self {
            Error::NoIpv4Address => "No IPv4 address found"@,
            Error::NoHardwareAddress => "No MAC address found"@,
            Error::NoInterfaceChosen => "No interface chosen"@,
            Error::InterfaceNotFound => "No interface found"@,
            Error::Channel => "Unknown channel type"@,
            Error::Transmission => "Datagram not sent"@,
            Error::Receive => "Receive failed"@,
            Error::NoReply => "No ARP reply"@,
            Error::TargetOffline => "Target did not answer the probe"@,
            Error::InvalidHardwareAddress => "Invalid MAC address"@,
            Error::OutOfSequence => "Event out of sequence"@,
        }
    }

    /// Whether the failure lies in the configuration rather than on the wire.
    pub open spec fn spec_is_configuration(&self) -> bool {
        *self == Error::NoIpv4Address || *self == Error::NoHardwareAddress || *self
            == Error::NoInterfaceChosen || *self == Error::InterfaceNotFound
    }

    /// The text of `spec_message`.
    pub fn message(&self) -> (text: String)
        ensures
            text@ == self.spec_message(),
    {
        match self {
            Error::NoIpv4Address => "No IPv4 address found".to_owned(),
            Error::NoHardwareAddress => "No MAC address found".to_owned(),
            Error::NoInterfaceChosen => "No interface chosen".to_owned(),
            Error::InterfaceNotFound => "No interface found".to_owned(),
            Error::Channel => "Unknown channel type".to_owned(),
            Error::Transmission => "Datagram not sent".to_owned(),
            Error::Receive => "Receive failed".to_owned(),
            Error::NoReply => "No ARP reply".to_owned(),
            Error::TargetOffline => "Target did not answer the probe".to_owned(),
            Error::InvalidHardwareAddress => "Invalid MAC address".to_owned(),
            Error::OutOfSequence => "Event out of sequence".to_owned(),
        }
    }

    #[verifier::when_used_as_spec(spec_is_configuration)]
    pub fn is_configuration(&self) -> (b: bool)
        ensures
            b == self.spec_is_configuration(),
    {
        match self {
            Error::NoIpv4Address => true,
            Error::NoHardwareAddress => true,
            Error::NoInterfaceChosen => true,
            Error::InterfaceNotFound => true,
            _ => false,
        }
    }
}

} // verus!
