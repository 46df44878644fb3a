use scalar::committee::{Authority, Committee};
use scalar::firehose::{bearer_token, transport_for_scheme, BlockPtr, BlockScan, Transport};
use scalar::gg20::{Gg20Service, MnemonicCmd};
use scalar::node::{NodeError, NodeLifecycle};
use scalar::primary_net::{BindAction, BindRetries, PeerAffinity, PeerRole, Primary, BIND_ATTEMPTS};
use scalar::snapshot::{SnapshotRestorer, SnapshotVerdict};

fn committee() -> Committee {
    let a = |id: u16| Authority {
        id,
        stake: 1,
        protocol_key: vec![id as u8],
        network_key: vec![0x10 + id as u8],
        primary_address: format!("/ip4/127.0.0.1/udp/{}", 3000 + id),
    };
    Committee { epoch: 1, authorities: vec![a(0), a(1), a(2)] }
}

#[test]
fn transport_settings_of_a_primary() {
    let s = Primary::network_settings();
    assert_eq!(s.max_concurrent_bidi_streams, 10_000);
    assert_eq!(s.stream_receive_window, 100 << 20);
    assert_eq!(s.receive_window, 200 << 20);
    assert_eq!(s.crypto_buffer_size, 1 << 20);
    assert_eq!(s.max_frame_size, 2 << 30);
    assert!(s.allow_failed_socket_buffer_size_setting);
    assert_eq!(s.max_connection_backoff_ms, 20_000);
}

#[test]
fn binding_gives_up_after_ninety_failures() {
    let mut r = BindRetries::new();
    for _ in 1..BIND_ATTEMPTS {
        assert!(matches!(r.on_failure(), BindAction::Retry));
    }
    assert!(matches!(r.on_failure(), BindAction::GiveUp));
    assert_eq!(r.left, 0);
}

#[test]
fn peers_are_introduced_workers_first() {
    let c = committee();
    let w = |k: u8, port: u16| (vec![k], format!("/ip4/127.0.0.1/udp/{}", port));
    let peers = Primary::peers_to_add(&c, 1, &vec![w(0xa1, 4001)], &vec![w(0xb0, 4100), w(0xb2, 4102)]);
    let keys: Vec<Vec<u8>> = peers.iter().map(|p| p.network_key.clone()).collect();
    assert_eq!(keys, vec![vec![0xa1], vec![0xb0], vec![0xb2], vec![0x10], vec![0x12]]);
    let addresses: Vec<String> = peers.iter().map(|p| p.address.clone()).collect();
    assert_eq!(
        addresses,
        vec![
            "/ip4/127.0.0.1/udp/4001",
            "/ip4/127.0.0.1/udp/4100",
            "/ip4/127.0.0.1/udp/4102",
            "/ip4/127.0.0.1/udp/3000",
            "/ip4/127.0.0.1/udp/3002",
        ]
    );
    assert!(peers.iter().all(|p| p.affinity == PeerAffinity::High));
    assert_eq!(peers[0].role, PeerRole::OurWorker);
    assert_eq!(peers[1].role, PeerRole::OtherWorker);
    assert_eq!(peers[4].role, PeerRole::OtherPrimary);
}

#[test]
fn a_running_service_cannot_start_again() {
    let mut n = NodeLifecycle::new();
    assert_eq!(n.start(false, [7; 32], 3), Ok(None));
    assert_eq!(n.own_peer_id, Some([7; 32]));
    assert_eq!(n.registry, Some(3));
    assert_eq!(n.swap_registry(Some(4)), Some(3));
    assert!(matches!(n.start(true, [8; 32], 5), Err(NodeError::NodeAlreadyRunning)));
    assert_eq!(n.own_peer_id, Some([7; 32]));
    assert_eq!(n.registry, Some(4));
    let plan = n.shutdown(true).unwrap();
    assert!(plan.send_signal);
    assert_eq!(plan.remove_registry, Some(4));
    let again = n.shutdown(true).unwrap();
    assert!(!again.send_signal);
    assert_eq!(again.remove_registry, None);
    assert!(n.shutdown(false).is_none());
    assert_eq!(n.start(false, [9; 32], 6), Ok(None));
    assert_eq!(n.start(false, [9; 32], 7), Ok(Some(6)));
    assert_eq!(n.registry, Some(7));
    assert!(n.shutdown_armed);
}

#[test]
fn snapshots_are_checked_against_the_commitment() {
    let r = SnapshotRestorer::new(5);
    assert_eq!(r.epoch, 5);
    assert!(matches!(r.verify(&[1; 32], &vec![]), SnapshotVerdict::Unsupported));
    assert!(matches!(r.verify(&[1; 32], &vec![[2; 32], [1; 32]]), SnapshotVerdict::Mismatch));
    assert!(matches!(r.verify(&[1; 32], &vec![[1; 32]]), SnapshotVerdict::Verified));
}

#[test]
fn firehose_transport_and_token() {
    assert!(matches!(transport_for_scheme(None), Some(Transport::Plain)));
    assert!(matches!(transport_for_scheme(Some("http")), Some(Transport::Plain)));
    assert!(matches!(transport_for_scheme(Some("https")), Some(Transport::Tls)));
    assert!(transport_for_scheme(Some("ftp")).is_none());
    assert_eq!(bearer_token("abc"), "bearer abc");
}

#[test]
fn block_scan_stops_past_the_number() {
    let mut s = BlockScan::new();
    assert!(s.on_block(BlockPtr { number: 5, hash: vec![1] }));
    assert!(s.on_block(BlockPtr { number: 5, hash: vec![2] }));
    assert!(!s.on_block(BlockPtr { number: 6, hash: vec![3] }));
    let latest = s.latest.unwrap();
    assert_eq!(latest.number, 5);
    assert_eq!(latest.hash, vec![2]);
}

#[test]
fn gg20_service_creates_then_opens_its_mnemonic() {
    let cmds = Gg20Service::startup_commands();
    assert_eq!(cmds.len(), 2);
    assert!(matches!(cmds[0], MnemonicCmd::Create));
    assert!(matches!(cmds[1], MnemonicCmd::Existing));
    let s = Gg20Service { tofnd_path: ".tofnd".to_string() };
    assert_eq!(s.tofnd_path, ".tofnd");
}

#[test]
fn only_non_empty_batches_are_forwarded() {
    assert_eq!(scalar::scheduler::batch_to_forward(vec![1, 2]), Some(vec![1, 2]));
    assert_eq!(scalar::scheduler::batch_to_forward(Vec::<u8>::new()), None);
}
