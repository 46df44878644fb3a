//! The store of the last vote cast for each author, and the vote handler's
//! step over it: decide on the vote, and record it when a new one is cast.
use vstd::prelude::*;

use std::collections::HashMap;

use crate::primary::{decide_vote, record_vote, vote_record, vote_verdict, DagError, HeaderInfo, VoteDecision, VoteInfo};

verus! {

broadcast use vstd::std_specs::hash::group_hash_axioms;

/// The vote recorded for `author` in `store`, if any.
pub open spec fn stored_vote(store: Map<u16, VoteInfo>, author: u16) -> Option<VoteInfo> {
    if store.contains_key(author) {
        Some(store[author])
    } else {
        None
    }
}

/// One vote request on `store`: the decision on a vote with digest `digest`
/// for `header`, and the store afterwards, which records a newly cast vote
/// and is otherwise unchanged.
pub open spec fn vote_step(store: Map<u16, VoteInfo>, header: HeaderInfo, digest: [u8; 32]) -> (
    Result<VoteDecision, DagError>,
    Map<u16, VoteInfo>,
) {
    let r = vote_verdict(header, stored_vote(store, header.author), digest);
    if r == Ok::<VoteDecision, DagError>(VoteDecision::Create) {
        (r, store.insert(header.author, vote_record(header, digest)))
    } else {
        (r, store)
    }
}

/// The store after the first `n` of `reqs` (each a header and the digest of
/// the vote for it), starting from `store`.
pub open spec fn store_after(store: Map<u16, VoteInfo>, reqs: Seq<(HeaderInfo, [u8; 32])>, n: int) -> Map<
    u16,
    VoteInfo,
>
    decreases n,
{
    if n <= 0 {
        store
    } else {
        vote_step(store_after(store, reqs, n - 1), reqs[n - 1].0, reqs[n - 1].1).1
    }
}

/// The answer to request `i` of `reqs`, starting from `store`.
pub open spec fn answer_at(store: Map<u16, VoteInfo>, reqs: Seq<(HeaderInfo, [u8; 32])>, i: int) -> Result<
    VoteDecision,
    DagError,
> {
    vote_step(store_after(store, reqs, i), reqs[i].0, reqs[i].1).0
}

/// The last vote cast for each author.
pub struct VoteDigestStore {
    votes: HashMap<u16, VoteInfo>,
}

impl View for VoteDigestStore {
    type V = Map<u16, VoteInfo>;

    closed spec fn view(&self) -> Map<u16, VoteInfo> {
        self.votes@
    }
}

impl VoteDigestStore {
    /// A store with no vote.
    pub fn new() -> (r: Self)
        ensures
            r@ == Map::<u16, VoteInfo>::empty(),
    {
        VoteDigestStore { votes: HashMap::new() }
    }

    /// The vote last cast for `author`.
    pub fn read(&self, author: u16) -> (r: Option<VoteInfo>)
        ensures
            r == stored_vote(self@, author),
    {
        match self.votes.get(&author) {
            Some(v) => Some(*v),
            None => None,
        }
    }

    /// Records `vote` as the last vote cast for `author`.
    pub fn write(&mut self, author: u16, vote: VoteInfo)
        ensures
            final(self)@ == old(self)@.insert(author, vote),
    {
        self.votes.insert(author, vote);
    }

    /// Answers a vote request for `header` whose vote would have digest
    /// `digest` (see [`vote_step`]): the decision, with the new vote recorded
    /// when one is cast.
    pub fn vote(&mut self, header: &HeaderInfo, digest: &[u8; 32]) -> (r: Result<VoteDecision, DagError>)
        ensures
            (r, final(self)@) == vote_step(old(self)@, *header, *digest),
    {
        let decision = decide_vote(header, self.votes.get(&header.author), digest);
        match decision {
            Ok(VoteDecision::Create) => {
                self.write(header.author, record_vote(header, digest));
                Ok(VoteDecision::Create)
            },
            _ => decision,
        }
    }
}

} // verus!
