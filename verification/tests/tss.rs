use scalar::committee::{Authority, Committee};
use scalar::tss_session::{KeygenAction, KeygenSession, SessionEvent, SessionStage, SignAction, SignSession};
use scalar::text::{bytes_equal, decimal_string, hex_string, parse_u16, str_eq};
use scalar::tss::{
    key_presence_answer, key_presence_request, keygen_outcome, keygen_share_counts, keygen_step, session_key,
    sign_outcome, sign_step, KeygenInit, KeygenResult, KeygenStep, MessageInData, MessageOut, MessageOutData,
    SignResult, SignResultData, SignStep, TrafficOut, TssParty, KEY_PRESENCE_ABSENT, KEY_PRESENCE_PRESENT,
};

fn authority(id: u16) -> Authority {
    Authority {
        id,
        stake: 1,
        protocol_key: vec![id as u8],
        network_key: vec![0xab, id as u8],
        primary_address: String::new(),
    }
}

fn party(id: u16) -> TssParty {
    let committee = Committee { epoch: 12, authorities: vec![authority(0), authority(1), authority(2), authority(3)] };
    TssParty::new(authority(id), committee)
}

#[test]
fn party_ids_are_hex_network_keys() {
    let p = party(1);
    assert_eq!(p.get_uid(), "ab01");
    assert_eq!(p.get_parties(), vec!["ab00", "ab01", "ab02", "ab03"]);
}

#[test]
fn keygen_starts_with_one_share_per_party() {
    let init = party(2).create_keygen_init();
    assert_eq!(init.new_key_uid, "tss_session12");
    assert_eq!(init.party_uids.len(), 4);
    assert_eq!(init.party_share_counts, vec![1, 1, 1, 1]);
    assert_eq!(init.my_party_index, 2);
    assert_eq!(init.threshold, 2);
    assert_eq!(keygen_share_counts(&init), (4, 1));
    let bare = KeygenInit { new_key_uid: String::new(), party_uids: vec![], party_share_counts: vec![], my_party_index: 0, threshold: 0 };
    assert_eq!(keygen_share_counts(&bare), (0, 1));
}

#[test]
fn signing_gets_a_fresh_uuid() {
    let p = party(0);
    let a = p.create_sign_init(vec![42; 32]);
    let b = p.create_sign_init(vec![42; 32]);
    assert_eq!(a.new_sig_uid.len(), 36);
    assert_eq!(a.new_sig_uid.as_bytes()[8], b'-');
    assert_ne!(a.new_sig_uid, b.new_sig_uid);
    assert_eq!(a.key_uid, "tss_session12");
    assert_eq!(a.message_to_sign, vec![42; 32]);
}

#[test]
fn traffic_goes_to_the_own_daemon_and_the_other_parties() {
    let p = party(1);
    assert_eq!(p.default_tofnd_port(), 50011);
    assert_eq!(p.delivery_peers(), vec![vec![0xab, 0], vec![0xab, 2], vec![0xab, 3]]);
    let msg = MessageOut {
        data: Some(MessageOutData::Traffic(TrafficOut { to_party_uid: String::new(), payload: vec![9, 8], is_broadcast: true })),
    };
    let d = p.prepare_delivery(&msg, "ab01");
    match d.to_self.data {
        Some(MessageInData::Traffic(t)) => {
            assert_eq!(t.from_party_uid, "ab01");
            assert_eq!(t.payload, vec![9, 8]);
            assert!(t.is_broadcast);
        },
        _ => panic!("expected traffic"),
    }
    assert_eq!(d.message.from_party_uid, "ab01");
    assert_eq!(d.message.payload, vec![9, 8]);
    assert_eq!(d.peers.len(), 3);
}

#[test]
fn keygen_and_sign_loops_follow_the_daemon() {
    let t = TrafficOut { to_party_uid: String::new(), payload: vec![1], is_broadcast: false };
    assert!(matches!(keygen_step(Some(MessageOut { data: Some(MessageOutData::Traffic(t.clone())) })), KeygenStep::Deliver(_)));
    let done = keygen_step(Some(MessageOut { data: Some(MessageOutData::KeygenResult(KeygenResult::default())) }));
    assert!(matches!(done, KeygenStep::Finished(_)));
    assert_eq!(keygen_outcome(done), Some(KeygenResult::default()));
    assert_eq!(keygen_outcome(keygen_step(None)), Some(KeygenResult { keygen_result_data: None }));
    assert!(matches!(sign_step(Some(MessageOut { data: Some(MessageOutData::NeedRecover(true)) })), SignStep::NeedRecover));
    let signed = SignResult { sign_result_data: Some(SignResultData::Signature(vec![7])) };
    let s = sign_step(Some(MessageOut { data: Some(MessageOutData::SignResult(signed.clone())) }));
    assert_eq!(sign_outcome(s), Some(signed));
    assert_eq!(sign_outcome(SignStep::NeedRecover), Some(SignResult { sign_result_data: None }));
    assert_eq!(sign_outcome(SignStep::Deliver(t)), None);
}

#[test]
fn key_presence() {
    assert!(key_presence_answer(KEY_PRESENCE_PRESENT));
    assert!(!key_presence_answer(KEY_PRESENCE_ABSENT));
    let r = key_presence_request("tss_session1".to_string());
    assert_eq!(r.key_uid, "tss_session1");
    assert!(r.pub_key.is_empty());
    assert_eq!(session_key(0), "tss_session0");
}

#[test]
fn text_encodings() {
    assert_eq!(decimal_string(0), "0");
    assert_eq!(decimal_string(18446744073709551615), "18446744073709551615");
    assert_eq!(hex_string(&vec![0, 15, 16, 255]), "000f10ff");
    assert_eq!(parse_u16("65535"), Some(65535));
    assert_eq!(parse_u16("+8"), Some(8));
    assert_eq!(parse_u16("65536"), None);
    assert_eq!(parse_u16(""), None);
    assert_eq!(parse_u16("-1"), None);
    assert!(bytes_equal(&vec![1, 2], &vec![1, 2]));
    assert!(!bytes_equal(&vec![1, 2], &vec![1]));
    assert!(str_eq("a", "a"));
    assert!(!str_eq("a", "b"));
}

fn traffic(payload: Vec<u8>) -> MessageOut {
    MessageOut {
        data: Some(MessageOutData::Traffic(TrafficOut { to_party_uid: String::new(), payload, is_broadcast: true })),
    }
}

#[test]
fn a_keygen_session_sends_its_init_first_and_delivers_in_order() {
    let p = party(1);
    let mut s = KeygenSession::new(p.create_keygen_init());
    assert!(matches!(s.step::<String>(&p, SessionEvent::Message(traffic(vec![1]))), KeygenAction::Ignore));
    match s.step::<String>(&p, SessionEvent::Connected(true)) {
        KeygenAction::Send(m) => assert!(matches!(m.data, Some(MessageInData::KeygenInit(i)) if i.new_key_uid == "tss_session12")),
        _ => panic!("expected the init message"),
    }
    assert_eq!(s.stage, SessionStage::Running);
    for payload in [vec![1], vec![2]] {
        match s.step::<String>(&p, SessionEvent::Message(traffic(payload.clone()))) {
            KeygenAction::Deliver(d) => {
                assert_eq!(d.message.from_party_uid, "ab01");
                assert_eq!(d.message.payload, payload);
            },
            _ => panic!("expected a delivery"),
        }
    }
    let done = MessageOut { data: Some(MessageOutData::KeygenResult(KeygenResult::default())) };
    assert!(matches!(s.step::<String>(&p, SessionEvent::Message(done)), KeygenAction::Reply(r) if r == KeygenResult::default()));
    assert_eq!(s.stage, SessionStage::Done);
    assert!(matches!(s.step::<String>(&p, SessionEvent::Closed), KeygenAction::Ignore));

    let mut lost = KeygenSession::new(p.create_keygen_init());
    assert!(matches!(lost.step::<String>(&p, SessionEvent::Connected(false)), KeygenAction::NotFound));
    let mut broken = KeygenSession::new(p.create_keygen_init());
    broken.step::<String>(&p, SessionEvent::Connected(true));
    let a = broken.step(&p, SessionEvent::TransportError("reset".to_string()));
    assert!(matches!(a, KeygenAction::Fail(e) if e == "reset"));
}

#[test]
fn a_sign_session_ends_on_its_result_a_recovery_or_a_close() {
    let p = party(2);
    let mut s = SignSession::new(p.create_sign_init(vec![7; 32]));
    match s.step::<String>(&p, SessionEvent::Connected(true)) {
        SignAction::Send(m) => assert!(matches!(m.data, Some(MessageInData::SignInit(i)) if i.message_to_sign == vec![7; 32])),
        _ => panic!("expected the init message"),
    }
    assert!(matches!(s.step::<String>(&p, SessionEvent::Message(traffic(vec![3]))), SignAction::Deliver(d) if d.message.from_party_uid == "ab02"));
    let signed = SignResult { sign_result_data: Some(SignResultData::Signature(vec![5])) };
    let m = MessageOut { data: Some(MessageOutData::SignResult(signed.clone())) };
    assert!(matches!(s.step::<String>(&p, SessionEvent::Message(m)), SignAction::Reply(r) if r == signed));

    let mut r = SignSession::new(p.create_sign_init(vec![7; 32]));
    r.step::<String>(&p, SessionEvent::Connected(true));
    let m = MessageOut { data: Some(MessageOutData::NeedRecover(true)) };
    assert!(matches!(r.step::<String>(&p, SessionEvent::Message(m)), SignAction::Reply(x) if x == SignResult::default()));

    let mut c = SignSession::new(p.create_sign_init(vec![7; 32]));
    c.step::<String>(&p, SessionEvent::Connected(true));
    assert!(matches!(c.step::<String>(&p, SessionEvent::Closed), SignAction::Reply(x) if x == SignResult::default()));
    let mut e = SignSession::new(p.create_sign_init(vec![7; 32]));
    e.step::<u32>(&p, SessionEvent::Connected(true));
    assert!(matches!(e.step(&p, SessionEvent::TransportError(14u32)), SignAction::Fail(14)));
}
