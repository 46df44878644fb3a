//! Messages of the multisig service.
use vstd::prelude::*;

verus! {

#[derive(Clone, Debug)]
pub struct KeyPresenceRequest {}

#[derive(Clone, Debug)]
pub struct KeyPresenceResponse {}

#[derive(Clone, Debug)]
pub struct KeygenRequest {}

#[derive(Clone, Debug)]
pub struct KeygenResponse {}

#[derive(Clone, Debug)]
pub struct SignRequest {}

#[derive(Clone, Debug)]
pub struct SignResponse {}

} // verus!
