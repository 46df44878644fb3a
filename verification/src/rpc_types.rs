//! Messages of the TSS peer service of the RPC node, and the service's
//! replies.
use vstd::prelude::*;

use crate::text::copy_bytes;
use crate::tss::{MessageOut, MessageOutData};

verus! {

/// A protocol message of one party, as broadcast to the others.
#[derive(Clone, Debug, PartialEq, Eq)]
pub struct TssAnemoKeygenMessage {
    pub from_party_uid: String,
    pub is_broadcast: bool,
    pub payload: Vec<u8>,
}

impl TssAnemoKeygenMessage {
    /// The message broadcast to the other parties when the daemon emits
    /// `msg` (which must be traffic) on behalf of party `from`.
    pub fn from_traffic(msg: &MessageOut, from: &str) -> (r: TssAnemoKeygenMessage)
        requires
            msg.data matches Some(MessageOutData::Traffic(_)),
        ensures
            match msg.data {
                Some(MessageOutData::Traffic(t)) => r.from_party_uid@ == from@ && r.is_broadcast == t.is_broadcast
                    && r.payload@ == t.payload@,
                _ => false,
            },
    {
        match &msg.data {
            Some(MessageOutData::Traffic(t)) => TssAnemoKeygenMessage {
                from_party_uid: String::from_str(from),
                is_broadcast: t.is_broadcast,
                payload: copy_bytes(&t.payload),
            },
            _ => {
                proof {
                    assert(false);
                }
                TssAnemoKeygenMessage { from_party_uid: String::new(), is_broadcast: false, payload: Vec::new() }
            },
        }
    }
}

#[derive(Debug)]
pub struct TssAnemoKeygenRequest {
    pub message: TssAnemoKeygenMessage,
}

#[derive(Clone, Debug)]
pub struct TssAnemoKeygenResponse {
    pub message: String,
}

#[derive(Debug)]
pub struct TssAnemoSignRequest {
    pub name: String,
}

#[derive(Debug)]
pub struct TssAnemoSignResponse {
    pub message: String,
}

#[derive(Debug)]
pub struct TssAnemoVerifyRequest {
    pub name: String,
}

#[derive(Debug)]
pub struct TssAnemoVerifyResponse {
    pub message: String,
}

/// `Hello {name}!`
pub open spec fn greeting(name: Seq<char>) -> Seq<char> {
    "Hello "@ + name + "!"@
}

/// Builds the greeting the peer services answer with.
pub fn hello(name: &str) -> (r: String)
    ensures r@ == greeting(name@),
{
    let mut s = String::from_str("Hello ");
    s.append(name);
    s.append("!");
    s
}

/// The TSS peer service of the RPC node: it answers each request with a
/// greeting.
#[derive(Default)]
pub struct TssPeerService {}

impl TssPeerService {
    /// Greets the party the keygen message comes from.
    pub fn keygen(&self, request: TssAnemoKeygenRequest) -> (r: TssAnemoKeygenResponse)
        ensures r.message@ == greeting(request.message.from_party_uid@),
    {
        TssAnemoKeygenResponse { message: hello(request.message.from_party_uid.as_str()) }
    }

    pub fn sign(&self, request: TssAnemoSignRequest) -> (r: TssAnemoSignResponse)
        ensures r.message@ == greeting(request.name@),
    {
        TssAnemoSignResponse { message: hello(request.name.as_str()) }
    }

    pub fn verify(&self, request: TssAnemoVerifyRequest) -> (r: TssAnemoVerifyResponse)
        ensures r.message@ == greeting(request.name@),
    {
        TssAnemoVerifyResponse { message: hello(request.name.as_str()) }
    }
}

} // verus!
