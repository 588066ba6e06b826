//! The verdict of a liveness probe: one echo request, one bounded wait.

use vstd::prelude::*;

verus! {

/// How one ICMP echo exchange ended.
#[derive(Clone, Copy, Debug, PartialEq, Eq, Structural)]
pub enum ProbeOutcome {
    /// An echo reply came back within the wait.
    Replied,
    /// The wait ran out.
    TimedOut,
    /// The network reported the target as unreachable.
    Unreachable,
    /// The exchange failed for any other reason.
    Failed,
}

/// Whether a device answers on the network. Derived on demand, never stored.
#[derive(Clone, Copy, Debug, PartialEq, Eq, Structural)]
pub enum DeviceStatus {
    Online,
    Offline,
}

impl DeviceStatus {
    /// A reply means online; every way of failing means offline.
    pub open spec fn spec_from_probe(outcome: ProbeOutcome) -> DeviceStatus {
        if outcome == ProbeOutcome::Replied {
            DeviceStatus::Online
        } else {
            DeviceStatus::Offline
        }
    }

    /// The name under which the status is reported.
    pub open spec fn spec_label(&self) -> Seq<char> {
        match self {
            DeviceStatus::Online => "Online"@,
            DeviceStatus::Offline => "Offline"@,
        }
    }

    /// The verdict on one probe. It is total: no outcome is an error.
    #[verifier::when_used_as_spec(spec_from_probe)]
    pub fn from_probe(outcome: ProbeOutcome) -> (status: DeviceStatus)
        ensures
            status == Self::spec_from_probe(outcome),
    {
        match outcome {
            ProbeOutcome::Replied => DeviceStatus::Online,
            _ => DeviceStatus::Offline,
        }
    }

    pub fn is_online(&self) -> (b: bool)
        ensures
            b == (*self == DeviceStatus::Online),
    {
        match self {
            DeviceStatus::Online => true,
            DeviceStatus::Offline => false,
        }
    }

    /// The text of `spec_label`.
    pub fn label(&self) -> (text: String)
        ensures
            text@ == self.spec_label(),
    {
        match self {
            DeviceStatus::Online => "Online".to_owned(),
            DeviceStatus::Offline => "Offline".to_owned(),
        }
    }
}

/// A probe that gets no reply, however it fails, gives `Offline`.
pub proof fn lemma_silence_is_offline(outcome: ProbeOutcome)
    requires
        outcome != ProbeOutcome::Replied,
    ensures
        DeviceStatus::spec_from_probe(outcome) == DeviceStatus::Offline,
{
}

} // verus!
