//! Messages of the standalone TSS peer network, and its service.
use vstd::prelude::*;

use crate::rpc_types::{greeting, hello};

verus! {

#[derive(Debug)]
pub struct KeygenRequest {
    pub name: String,
}

#[derive(Debug)]
pub struct KeygenResponse {
    pub message: String,
}

#[derive(Debug)]
pub struct SignRequest {
    pub name: String,
}

#[derive(Debug)]
pub struct SignResponse {
    pub message: String,
}

#[derive(Debug)]
pub struct VerifyRequest {
    pub name: String,
}

#[derive(Debug)]
pub struct VerifyResponse {
    pub message: String,
}

/// The peer service: it answers each request with a greeting.
#[derive(Default)]
pub struct TssPeerService {}

impl TssPeerService {
    pub fn keygen(&self, request: KeygenRequest) -> (r: KeygenResponse)
        ensures r.message@ == greeting(request.name@),
    {
        KeygenResponse { message: hello(request.name.as_str()) }
    }

    pub fn sign(&self, request: SignRequest) -> (r: SignResponse)
        ensures r.message@ == greeting(request.name@),
    {
        SignResponse { message: hello(request.name.as_str()) }
    }

    pub fn verify(&self, request: VerifyRequest) -> (r: VerifyResponse)
        ensures r.message@ == greeting(request.name@),
    {
        VerifyResponse { message: hello(request.name.as_str()) }
    }
}

} // verus!
