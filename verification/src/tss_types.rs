//! Messages the primaries exchange over the network to run the TSS
//! protocols together.
use vstd::prelude::*;

pub mod gg20;
pub mod multisig;

verus! {

/// A protocol message of one party, as delivered to the others.
#[derive(Clone, Debug, PartialEq, Eq)]
pub struct TssAnemoDeliveryMessage {
    pub from_party_uid: String,
    pub is_broadcast: bool,
    pub payload: Vec<u8>,
}

#[derive(Clone, Debug)]
pub struct TssAnemoKeygenRequest {
    pub message: TssAnemoDeliveryMessage,
}

#[derive(Clone, Debug)]
pub struct TssAnemoKeygenResponse {
    pub message: String,
}

#[derive(Clone, Debug)]
pub struct TssAnemoSignRequest {
    pub message: TssAnemoDeliveryMessage,
}

#[derive(Clone, Debug)]
pub struct TssAnemoSignResponse {
    pub message: String,
}

#[derive(Clone, Debug)]
pub struct TssAnemoVerifyRequest {
    pub message: TssAnemoDeliveryMessage,
}

#[derive(Clone, Debug)]
pub struct TssAnemoVerifyResponse {
    pub message: String,
}

} // verus!
