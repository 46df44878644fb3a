use scalar::committee::{Authority, Committee};
use scalar::events::{own_event_update, process_event_verify, quorum_reached, signed_stake, EventVerify, ExternalMessageHandler};
use scalar::stores::{EventStore, TssStore};

fn authority(id: u16, stake: u64) -> Authority {
    Authority {
        id,
        stake,
        protocol_key: vec![id as u8],
        network_key: vec![id as u8, 1],
        primary_address: String::new(),
    }
}

fn committee() -> Committee {
    Committee { epoch: 3, authorities: vec![authority(0, 10), authority(1, 10), authority(2, 10), authority(3, 10)] }
}

fn sigs(e: &EventVerify) -> Vec<(u16, Vec<u8>)> {
    e.signatures.clone()
}

#[test]
fn a_new_event_carries_its_creator_signature() {
    let e = EventVerify::new(2, 9, 3, [7; 32], vec![2, 2]);
    assert_eq!(sigs(&e), vec![(2, vec![2, 2])]);
    assert_eq!(e.get_signature(2), Some(&vec![2, 2]));
    assert_eq!(e.get_signature(1), None);
}

#[test]
fn signing_again_replaces_the_signature() {
    let mut e = EventVerify::new(0, 1, 3, [7; 32], vec![0]);
    e.add_signature(1, vec![1]);
    e.add_signature(0, vec![9]);
    assert_eq!(sigs(&e), vec![(0, vec![9]), (1, vec![1])]);
}

#[test]
fn signed_stake_counts_committee_members_once() {
    let c = committee();
    let mut e = EventVerify::new(0, 1, 3, [7; 32], vec![0]);
    e.add_signature(1, vec![1]);
    e.add_signature(1, vec![1, 1]);
    e.add_signature(8, vec![8]);
    assert_eq!(signed_stake(&c, &e), 20);
    // The quorum threshold of 40 is 27; it must be exceeded.
    assert!(!quorum_reached(&c, &e));
    e.add_signature(2, vec![2]);
    assert_eq!(signed_stake(&c, &e), 30);
    assert!(quorum_reached(&c, &e));
}

#[test]
fn a_peer_copy_is_merged_into_the_stored_one() {
    let c = committee();
    let stored = EventVerify::new(0, 1, 3, [7; 32], vec![0]);
    let mut incoming = EventVerify::new(1, 1, 3, [7; 32], vec![1]);
    incoming.add_signature(2, vec![2]);
    let u = process_event_verify(&c, Some(stored), &incoming);
    assert_eq!(u.write.authority, 0);
    assert_eq!(sigs(&u.write), vec![(0, vec![0]), (1, vec![1]), (2, vec![2])]);
    assert!(u.quorum_reached);
    let u2 = process_event_verify(&c, None, &incoming);
    assert_eq!(u2.write.authority, 1);
    assert_eq!(sigs(&u2.write), sigs(&incoming));
    assert!(!u2.quorum_reached);
}

#[test]
fn own_signature_is_added_to_the_stored_copy() {
    let stored = EventVerify::new(1, 1, 3, [7; 32], vec![1]);
    let own = EventVerify::new(0, 1, 3, [7; 32], vec![0]);
    let w = own_event_update(Some(stored), &own, 0).unwrap();
    assert_eq!(w.authority, 1);
    assert_eq!(sigs(&w), vec![(1, vec![1]), (0, vec![0])]);
    let fresh = own_event_update(None, &own, 0).unwrap();
    assert_eq!(sigs(&fresh), vec![(0, vec![0])]);
    let unsigned = own_event_update(Some(EventVerify::new(1, 1, 3, [7; 32], vec![1])), &own, 5);
    assert!(unsigned.is_none());
}

#[test]
fn the_handler_signs_messages_of_its_epoch() {
    let h = ExternalMessageHandler::new(2, committee());
    assert_eq!(h.round, 0);
    let m = h.sign_message([4; 32]);
    assert_eq!(m.epoch, 3);
    assert_eq!(m.payload, [4; 32]);
    let e = h.event_for_block([5; 32], vec![2]);
    assert_eq!(e.digest, [5; 32]);
    assert_eq!(e.epoch, 3);
    assert_eq!(sigs(&e), vec![(2, vec![2])]);
}

#[test]
fn the_event_store_merges_peer_copies() {
    let c = committee();
    let mut store = EventStore::new();
    let first = EventVerify::new(1, 1, 3, [7; 32], vec![1]);
    let (reply, quorum) = store.verify_request(&c, &first);
    assert_eq!(reply.authority, 1);
    assert!(!quorum);
    let mut second = EventVerify::new(2, 1, 3, [7; 32], vec![2]);
    second.add_signature(3, vec![3]);
    let (_, quorum2) = store.verify_request(&c, &second);
    assert!(quorum2);
    let stored = store.read(&[7; 32]).unwrap();
    assert_eq!(stored.authority, 1);
    assert_eq!(sigs(&stored), vec![(1, vec![1]), (2, vec![2]), (3, vec![3])]);
    assert!(store.read(&[8; 32]).is_none());
}

#[test]
fn a_reserved_key_keeps_its_value() {
    let mut store = TssStore::new();
    let key = "tss_session3".to_string();
    assert_eq!(store.reserve_key(&key), key);
    assert_eq!(store.read(&key), Some(vec![]));
    store.write(&key, &vec![1, 2]);
    assert_eq!(store.reserve_key(&key), key);
    assert_eq!(store.read(&key), Some(vec![1, 2]));
    store.remove(&key);
    assert_eq!(store.read(&key), None);
}

#[test]
fn keys_are_removed_together() {
    let mut store = TssStore::new();
    store.write(&"a".to_string(), &vec![1]);
    store.write(&"b".to_string(), &vec![2]);
    store.write(&"c".to_string(), &vec![3]);
    store.remove_all(&vec!["a".to_string(), "c".to_string(), "z".to_string()]);
    assert_eq!(store.read(&"a".to_string()), None);
    assert_eq!(store.read(&"b".to_string()), Some(vec![2]));
    assert_eq!(store.read(&"c".to_string()), None);
}
