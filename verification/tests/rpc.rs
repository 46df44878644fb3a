use scalar::tss::{MessageOut, MessageOutData, TrafficOut};
use scalar::peer_types::{KeygenRequest, SignRequest, TssPeerService as PeerService, VerifyRequest};
use scalar::rpc_types::{
    hello, TssAnemoKeygenMessage, TssAnemoKeygenRequest, TssAnemoSignRequest, TssAnemoVerifyRequest,
    TssPeerService,
};

#[test]
fn it_works() {
    let result = 2 + 2;
    assert_eq!(result, 4);
}

#[test]
fn hello_greets_by_name() {
    assert_eq!(hello("party"), "Hello party!");
    assert_eq!(hello(""), "Hello !");
}

#[test]
fn rpc_peer_service_greets_the_sender() {
    let service = TssPeerService::default();
    let request = TssAnemoKeygenRequest {
        message: TssAnemoKeygenMessage {
            from_party_uid: "abcd".to_string(),
            is_broadcast: true,
            payload: vec![1, 2, 3],
        },
    };
    assert_eq!(service.keygen(request).message, "Hello abcd!");
    assert_eq!(service.sign(TssAnemoSignRequest { name: "s".to_string() }).message, "Hello s!");
    assert_eq!(service.verify(TssAnemoVerifyRequest { name: "v".to_string() }).message, "Hello v!");
}

#[test]
fn anemo_peer_service_greets_the_caller() {
    let service = PeerService::default();
    assert_eq!(service.keygen(KeygenRequest { name: "k".to_string() }).message, "Hello k!");
    assert_eq!(service.sign(SignRequest { name: "s".to_string() }).message, "Hello s!");
    assert_eq!(service.verify(VerifyRequest { name: "v".to_string() }).message, "Hello v!");
}

#[test]
fn daemon_traffic_becomes_a_broadcast_message() {
    let msg = MessageOut {
        data: Some(MessageOutData::Traffic(TrafficOut { to_party_uid: "x".to_string(), payload: vec![4, 5], is_broadcast: false })),
    };
    let m = TssAnemoKeygenMessage::from_traffic(&msg, "ab02");
    assert_eq!(m, TssAnemoKeygenMessage { from_party_uid: "ab02".to_string(), is_broadcast: false, payload: vec![4, 5] });
}
