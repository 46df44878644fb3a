//! Messages of the GG20 protocol service.
use vstd::prelude::*;

verus! {

#[derive(Clone, Debug, PartialEq, Eq)]
pub struct DeliveryMessage {
    pub from_party_uid: String,
    pub is_broadcast: bool,
    pub payload: Vec<u8>,
}

#[derive(Clone, Debug)]
pub struct KeygenRequest {
    pub message: DeliveryMessage,
}

#[derive(Clone, Debug)]
pub struct KeygenResponse {
    pub message: String,
}

#[derive(Clone, Debug)]
pub struct RecoverRequest {}

#[derive(Clone, Debug)]
pub struct RecoverResponse {}

#[derive(Clone, Debug)]
pub struct SignRequest {}

#[derive(Clone, Debug)]
pub struct SignResponse {}

#[derive(Clone, Debug)]
pub struct KeyPresenceRequest {}

#[derive(Clone, Debug)]
pub struct KeyPresenceResponse {}

} // verus!
