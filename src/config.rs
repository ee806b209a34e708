use vstd::prelude::*;

verus! {

/// The link-layer transport a client runs over.
#[derive(Clone, Copy, Debug, PartialEq, Eq, Structural)]
pub enum Transport {
    Ethernet,
}

/// The client-identifier type byte for an Ethernet hardware address.
pub const CLIENT_ID_TYPE_ETHERNET: u8 = 1;

/// The all-ones link-layer broadcast address.
pub open spec fn broadcast_octets() -> Seq<u8> {
    seq![0xffu8, 0xffu8, 0xffu8, 0xffu8, 0xffu8, 0xffu8]
}

/// The client identifier for a hardware address: the Ethernet type byte
/// followed by the address.
pub open spec fn client_id_for(mac: Seq<u8>) -> Seq<u8> {
    seq![CLIENT_ID_TYPE_ETHERNET] + mac
}

/// How the protocol engine is to run for one interface.
#[derive(Clone, Debug)]
pub struct ClientConfig {
    pub ifindex: i32,
    pub transport: Transport,
    pub mac: [u8; 6],
    pub broadcast_mac: [u8; 6],
    pub client_id: Vec<u8>,
}

impl ClientConfig {
    /// The configuration for the interface with this index and hardware
    /// address.
    pub open spec fn is_for(&self, ifindex: i32, mac: Seq<u8>) -> bool {
        &&& self.ifindex == ifindex
        &&& self.transport == Transport::Ethernet
        &&& self.mac@ == mac
        &&& self.broadcast_mac@ == broadcast_octets()
        &&& self.client_id@ == client_id_for(mac)
    }

    /// Builds the configuration for one interface: Ethernet transport, the
    /// given hardware address, the all-ones broadcast address, and the
    /// client identifier made of the type byte 0x01 and the address.
    pub fn new(ifindex: i32, mac: [u8; 6]) -> (r: ClientConfig)
        ensures
            r.is_for(ifindex, mac@),
    {
        let mut client_id: Vec<u8> = Vec::new();
        client_id.push(CLIENT_ID_TYPE_ETHERNET);
        let mut i: usize = 0;
        while i < 6
            invariant
                i <= 6,
                client_id@ == seq![CLIENT_ID_TYPE_ETHERNET] + mac@.take(i as int),
            decreases 6 - i,
        {
            client_id.push(mac[i]);
            i = i + 1;
            assert(mac@.take(i as int) == mac@.take(i - 1) + seq![mac@[i - 1]]);
        }
        assert(mac@.take(6) == mac@);
        let broadcast_mac: [u8; 6] = [0xff, 0xff, 0xff, 0xff, 0xff, 0xff];
        assert(broadcast_mac@ == broadcast_octets());
        ClientConfig {
            ifindex,
            transport: Transport::Ethernet,
            mac,
            broadcast_mac,
            client_id,
        }
    }
}

/// Settings of the engine that are policy rather than interface identity.
#[derive(Clone, Copy, Debug, PartialEq, Eq, Structural)]
pub struct EngineOptions {
    /// The engine's log verbosity; the most verbose is `MAX_LOG_LEVEL`.
    pub log_level: u8,
    /// Seconds the engine waits before its first protocol action.
    pub probe_start_delay: u64,
}

/// The most verbose log level the engine knows.
pub const MAX_LOG_LEVEL: u8 = 7;

impl EngineOptions {
    /// Full verbosity and a one-second start delay.
    pub fn standard() -> (r: EngineOptions)
        ensures
            r.log_level == MAX_LOG_LEVEL,
            r.probe_start_delay == 1,
    {
        EngineOptions { log_level: MAX_LOG_LEVEL, probe_start_delay: 1 }
    }

    /// The one-shot configuration of the probe that acquires a lease.
    pub fn probe_config(&self) -> (r: ProbeConfig)
        ensures
            r.start_delay == self.probe_start_delay,
    {
        ProbeConfig { start_delay: self.probe_start_delay }
    }
}

/// The configuration of one lease-acquisition probe.
#[derive(Clone, Copy, Debug, PartialEq, Eq, Structural)]
pub struct ProbeConfig {
    /// Seconds before the first protocol action.
    pub start_delay: u64,
}

} // verus!
