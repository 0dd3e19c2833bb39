//! The delivery modes and the names they are logged under.

use vstd::prelude::*;

verus! {

/// One of the four ways a message travels.
#[derive(Clone, Copy, Debug, PartialEq, Eq, Structural)]
pub enum Transport {
    Broadcast,
    Multicast,
    UnicastTcp,
    UnicastUdp,
}

impl Transport {
    /// The name a transport is logged under.
    pub open spec fn label(self) -> Seq<char> {
        match self {
            Transport::Broadcast => "Broadcast"@,
            Transport::Multicast => "Multicast"@,
            Transport::UnicastTcp => "Unicast TCP"@,
            Transport::UnicastUdp => "Unicast UDP"@,
        }
    }

    /// Whether the transport is connection-oriented.
    pub open spec fn connected(self) -> bool {
        self == Transport::UnicastTcp
    }

    pub fn name(self) -> (s: &'static str)
        ensures
            s@ == self.label(),
    {
        match self {
            Transport::Broadcast => "Broadcast",
            Transport::Multicast => "Multicast",
            Transport::UnicastTcp => "Unicast TCP",
            Transport::UnicastUdp => "Unicast UDP",
        }
    }
}

} // verus!
