//! How a primary sets up its network: the transport settings, the retries
//! of binding its address, and the peers it introduces to the network.
use vstd::prelude::*;

use crate::committee::{lemma_other_positions_bound, other_positions, Committee};
use crate::text::copy_bytes;

verus! {

/// A primary of the committee; it spawns the node's components.
#[derive(Debug)]
pub struct Primary;

/// How many times binding the primary's address is tried before giving up.
pub const BIND_ATTEMPTS: i32 = 90;

/// The settings of the primary's network transport.
#[derive(Debug)]
pub struct NetworkSettings {
    pub max_concurrent_bidi_streams: u64,
    pub stream_receive_window: u64,
    pub receive_window: u64,
    pub send_window: u64,
    pub crypto_buffer_size: u64,
    pub socket_receive_buffer_size: u64,
    pub socket_send_buffer_size: u64,
    pub allow_failed_socket_buffer_size_setting: bool,
    pub max_idle_timeout_ms: u64,
    pub keep_alive_interval_ms: u64,
    pub max_frame_size: u64,
    pub inbound_request_timeout_ms: u64,
    pub outbound_request_timeout_ms: u64,
    pub shutdown_idle_timeout_ms: u64,
    pub connectivity_check_interval_ms: u64,
    pub connection_backoff_ms: u64,
    pub max_connection_backoff_ms: u64,
}

/// What to do after binding the address failed.
#[derive(Debug, PartialEq, Eq, Structural)]
pub enum BindAction {
    /// Wait a second and try again.
    Retry,
    /// Give up: the primary cannot start.
    GiveUp,
}

/// The attempts left to bind the primary's address.
#[derive(Debug)]
pub struct BindRetries {
    pub left: i32,
}

/// The action after the `n`-th failed attempt, counting from 1.
pub open spec fn action_after_failures(n: int) -> BindAction {
    if BIND_ATTEMPTS - n <= 0 {
        BindAction::GiveUp
    } else {
        BindAction::Retry
    }
}

/// The role of a peer the primary knows.
#[derive(Debug, Clone, Copy, PartialEq, Eq, Structural)]
pub enum PeerRole {
    OurWorker,
    OtherWorker,
    OtherPrimary,
}

/// How strongly the network keeps a connection to a peer.
#[derive(Debug, Clone, Copy, PartialEq, Eq, Structural)]
pub enum PeerAffinity {
    /// Always kept connected.
    High,
    /// Connected when the peer asks.
    Allowed,
    /// Never connected.
    Never,
}

/// A peer introduced to the network: its network key, its address, the
/// affinity it is added with, and its role.
#[derive(Debug)]
pub struct KnownPeer {
    pub network_key: Vec<u8>,
    pub address: String,
    pub affinity: PeerAffinity,
    pub role: PeerRole,
}

/// A known peer as plain values.
pub open spec fn known_peer_view(p: KnownPeer) -> (Seq<u8>, Seq<char>, PeerAffinity, PeerRole) {
    (p.network_key@, p.address@, p.affinity, p.role)
}

/// The peers a primary introduces to its network, in order: its own
/// workers, the other authorities' workers, and the other primaries, each
/// given as its network key and address, and each with high affinity.
pub open spec fn peer_plan(
    our_workers: Seq<(Seq<u8>, Seq<char>)>,
    other_workers: Seq<(Seq<u8>, Seq<char>)>,
    other_primaries: Seq<(Seq<u8>, Seq<char>)>,
) -> Seq<(Seq<u8>, Seq<char>, PeerAffinity, PeerRole)> {
    with_role(our_workers, PeerRole::OurWorker) + with_role(other_workers, PeerRole::OtherWorker) + with_role(
        other_primaries,
        PeerRole::OtherPrimary,
    )
}

/// Each peer with high affinity and `role`.
pub open spec fn with_role(peers: Seq<(Seq<u8>, Seq<char>)>, role: PeerRole) -> Seq<(Seq<u8>, Seq<char>, PeerAffinity, PeerRole)> {
    Seq::new(peers.len(), |i: int| (peers[i].0, peers[i].1, PeerAffinity::High, role))
}

/// The network keys and primary addresses of the authorities at `positions`.
pub open spec fn primaries_at(auths: Seq<crate::committee::Authority>, positions: Seq<usize>) -> Seq<(Seq<u8>, Seq<char>)> {
    Seq::new(positions.len(), |j: int| (auths[positions[j] as int].network_key@, auths[positions[j] as int].primary_address@))
}

/// The known peers as plain values.
pub open spec fn peers_view(p: Seq<KnownPeer>) -> Seq<(Seq<u8>, Seq<char>, PeerAffinity, PeerRole)> {
    Seq::new(p.len(), |i: int| known_peer_view(p[i]))
}

/// Network keys and addresses as plain values.
pub open spec fn addresses_view(k: Seq<(Vec<u8>, String)>) -> Seq<(Seq<u8>, Seq<char>)> {
    Seq::new(k.len(), |i: int| (k[i].0@, k[i].1@))
}

fn push_peers(out: &mut Vec<KnownPeer>, peers: &Vec<(Vec<u8>, String)>, role: PeerRole)
    ensures
        peers_view(final(out)@) == peers_view(old(out)@) + with_role(addresses_view(peers@), role),
{
    let ghost start = peers_view(out@);
    assert(start.len() == out@.len());
    let mut i: usize = 0;
    while i < peers.len()
        invariant
            i <= peers@.len(),
            peers_view(out@) == start + with_role(addresses_view(peers@.take(i as int)), role),
            out@.len() == start.len() + i,
        decreases peers@.len() - i,
    {
        let k = copy_bytes(&peers[i].0);
        let a = peers[i].1.clone();
        let ghost before = out@;
        out.push(KnownPeer { network_key: k, address: a, affinity: PeerAffinity::High, role });
        proof {
            let lhs = peers_view(out@);
            let rhs = start + with_role(addresses_view(peers@.take(i + 1)), role);
            assert(lhs.len() == rhs.len());
            assert forall|j: int| 0 <= j < lhs.len() implies lhs[j] == rhs[j] by {
                if j < before.len() {
                    assert(out@[j] == before[j]);
                    assert(peers_view(before)[j] == (start + with_role(addresses_view(peers@.take(i as int)), role))[j]);
                    if j >= start.len() {
                        assert(peers@.take(i as int)[j - start.len()] == peers@.take(i + 1)[j - start.len()]);
                    }
                } else {
                    assert(j == start.len() + i);
                    assert(peers@.take(i + 1)[i as int] == peers@[i as int]);
                }
            }
            assert(lhs =~= rhs);
        }
        i = i + 1;
    }
    proof {
        assert(peers@.take(i as int) =~= peers@);
    }
}

impl Primary {
    /// The transport settings of a primary.
    pub fn network_settings() -> (r: NetworkSettings)
        ensures
            r.max_concurrent_bidi_streams == 10_000,
            r.stream_receive_window == 100 * 0x10_0000,
            r.receive_window == 200 * 0x10_0000,
            r.send_window == 200 * 0x10_0000,
            r.crypto_buffer_size == 0x10_0000,
            r.socket_receive_buffer_size == 20 * 0x10_0000,
            r.socket_send_buffer_size == 20 * 0x10_0000,
            r.allow_failed_socket_buffer_size_setting,
            r.max_idle_timeout_ms == 30_000,
            r.keep_alive_interval_ms == 5_000,
            r.max_frame_size == 2 * 0x4000_0000,
            r.inbound_request_timeout_ms == 300_000,
            r.outbound_request_timeout_ms == 300_000,
            r.shutdown_idle_timeout_ms == 1_000,
            r.connectivity_check_interval_ms == 2_000,
            r.connection_backoff_ms == 1_000,
            r.max_connection_backoff_ms == 20_000,
    {
        NetworkSettings {
            max_concurrent_bidi_streams: 10_000,
            stream_receive_window: 100 * 1_048_576,
            receive_window: 200 * 1_048_576,
            send_window: 200 * 1_048_576,
            crypto_buffer_size: 1_048_576,
            socket_receive_buffer_size: 20 * 1_048_576,
            socket_send_buffer_size: 20 * 1_048_576,
            allow_failed_socket_buffer_size_setting: true,
            max_idle_timeout_ms: 30_000,
            keep_alive_interval_ms: 5_000,
            max_frame_size: 2 * 1_073_741_824,
            inbound_request_timeout_ms: 300_000,
            outbound_request_timeout_ms: 300_000,
            shutdown_idle_timeout_ms: 1_000,
            connectivity_check_interval_ms: 2_000,
            connection_backoff_ms: 1_000,
            max_connection_backoff_ms: 20_000,
        }
    }

    /// The peers to introduce to the network of the primary of authority
    /// `own_id`, given the network keys and addresses of its own workers and
    /// of the other authorities' workers; the other primaries are those of
    /// the committee, at their primary addresses.
    pub fn peers_to_add(
        committee: &Committee,
        own_id: u16,
        our_workers: &Vec<(Vec<u8>, String)>,
        other_workers: &Vec<(Vec<u8>, String)>,
    ) -> (r: Vec<KnownPeer>)
        ensures
            peers_view(r@) == peer_plan(
                addresses_view(our_workers@),
                addresses_view(other_workers@),
                primaries_at(committee.authorities@, other_positions(committee.authorities@, own_id, committee.authorities@.len() as int)),
            ),
    {
        let mut out: Vec<KnownPeer> = Vec::new();
        push_peers(&mut out, our_workers, PeerRole::OurWorker);
        push_peers(&mut out, other_workers, PeerRole::OtherWorker);
        let positions = committee.others_by_id(own_id);
        let _size = committee.size();
        proof {
            lemma_other_positions_bound(committee.authorities@, own_id, committee.authorities@.len() as int);
        }
        let mut primaries: Vec<(Vec<u8>, String)> = Vec::new();
        let mut i: usize = 0;
        while i < positions.len()
            invariant
                i <= positions@.len(),
                positions@ == other_positions(committee.authorities@, own_id, committee.authorities@.len() as int),
                forall|j: int| 0 <= j < positions@.len() ==> positions@[j] < committee.authorities@.len(),
                addresses_view(primaries@) == primaries_at(committee.authorities@, positions@.take(i as int)),
                primaries@.len() == i,
            decreases positions@.len() - i,
        {
            let auth = &committee.authorities[positions[i]];
            let k = copy_bytes(&auth.network_key);
            let a = auth.primary_address.clone();
            let ghost before = primaries@;
            primaries.push((k, a));
            proof {
                let lhs = addresses_view(primaries@);
                let rhs = primaries_at(committee.authorities@, positions@.take(i + 1));
                assert forall|j: int| 0 <= j < lhs.len() implies lhs[j] == rhs[j] by {
                    if j < before.len() {
                        assert(primaries@[j] == before[j]);
                        assert(addresses_view(before)[j] == primaries_at(committee.authorities@, positions@.take(i as int))[j]);
                        assert(positions@.take(i as int)[j] == positions@.take(i + 1)[j]);
                    } else {
                        assert(positions@.take(i + 1)[j] == positions@[i as int]);
                    }
                }
                assert(lhs =~= rhs);
            }
            i = i + 1;
        }
        push_peers(&mut out, &primaries, PeerRole::OtherPrimary);
        proof {
            assert(positions@.take(i as int) =~= positions@);
            assert(peers_view(out@) =~= peer_plan(
                addresses_view(our_workers@),
                addresses_view(other_workers@),
                addresses_view(primaries@),
            ));
        }
        out
    }
}

impl BindRetries {
    /// The attempts of a starting primary.
    pub fn new() -> (r: Self)
        ensures
            r.left == BIND_ATTEMPTS,
    {
        BindRetries { left: BIND_ATTEMPTS }
    }

    /// Records a failed attempt to bind the address and says whether to try
    /// again.
    pub fn on_failure(&mut self) -> (r: BindAction)
        requires
            old(self).left > i32::MIN,
        ensures
            final(self).left == old(self).left - 1,
            r == (if final(self).left <= 0 { BindAction::GiveUp } else { BindAction::Retry }),
    {
        self.left = self.left - 1;
        if self.left <= 0 {
            BindAction::GiveUp
        } else {
            BindAction::Retry
        }
    }
}

} // verus!
