//! The course of one vote request, after admission: the unknown parents are
//! asked from the header's author, the parents given are accepted, the
//! parent certificates checked, the header's batches synchronised, its
//! timestamp checked, the header stored, the vote last cast for its author
//! checked before anything is signed, and the signed vote decided on and
//! recorded.
//! The handler performs each action and hands back what came of it.
use vstd::prelude::*;

use crate::committee::Committee;
use crate::parent_digests::{claim, keep_from, limit_round, ParentDigests};
use crate::primary::{
    check_parents, header_time_check, header_wait, parents_verdict, precheck_vote, vote_precheck, DagError, HeaderInfo, ParentCertificate,
    VoteDecision, VoteInfo,
};
use crate::vote_store::{stored_vote, vote_step, VoteDigestStore};

verus! {

/// Where a vote request stands.
#[derive(Debug, Clone, Copy, PartialEq, Eq, Structural)]
pub enum VoteStage {
    Start,
    FindingUnknownParents,
    AcceptingParents,
    ReadingParents,
    SyncingBatches,
    ReadingClock,
    Waiting,
    StoringHeader,
    Signing,
    Done,
}

/// What came of the last action.
#[derive(Debug)]
pub enum VoteEvent {
    /// The request is taken up.
    Begin,
    /// The parent digests of the header that the synchronizer does not
    /// know, the primary being at `narwhal_round`.
    UnknownParents { narwhal_round: u64, digests: Vec<[u8; 32]> },
    /// The parent certificates sent with the request were accepted.
    ParentsAccepted,
    /// The header's parent certificates.
    ParentCertificates(Vec<ParentCertificate>),
    /// The header's batches are available.
    BatchesSynced,
    /// The local clock, in milliseconds since the Unix epoch.
    Clock(u64),
    /// The wait is over.
    Waited,
    /// The header was written to the header store.
    HeaderStored,
    /// The digest of the vote signed for the header.
    VoteSigned([u8; 32]),
    /// The last action failed.
    Failed(DagError),
}

/// What the handler does next.
#[derive(Debug)]
pub enum VoteAction {
    FindUnknownParents,
    AcceptParents,
    ReadParentCertificates,
    SyncBatches,
    ReadClock,
    /// Wait this many milliseconds.
    Sleep(u64),
    StoreHeader,
    SignVote,
    /// Answer with the parents to send with another request.
    ReplyMissing(Vec<[u8; 32]>),
    /// Answer with the signed vote.
    ReplyVote(VoteDecision),
    /// Answer with the error.
    ReplyError(DagError),
    /// The event does not belong to this stage: nothing to do.
    Ignore,
}

/// A vote request in progress.
#[derive(Debug)]
pub struct VoteRequest {
    pub stage: VoteStage,
    pub header: HeaderInfo,
    /// Whether the request came with parent certificates.
    pub parents_given: bool,
}

/// The parents to ask from the header's author (see
/// [`ParentDigests::unknown_parent_digests`]) and the parent digests kept
/// afterwards.
pub open spec fn parents_to_ask(
    pd: Map<(u64, [u8; 32]), u16>,
    header: HeaderInfo,
    narwhal_round: u64,
    digests: Seq<[u8; 32]>,
) -> (Result<Seq<[u8; 32]>, DagError>, Map<(u64, [u8; 32]), u16>) {
    if limit_round(narwhal_round) > header.round {
        (Err(DagError::TooOld(header.digest, header.round, narwhal_round)), pd)
    } else {
        let c = claim(
            keep_from(pd, limit_round(narwhal_round).saturating_sub(1)),
            (header.round - 1) as u64,
            digests,
            header.author,
        );
        (Ok(c.0), c.1)
    }
}

/// One step of a vote request in `stage` for `header` on `event`: the next
/// stage, the action, and the parent digests and vote store afterwards. An
/// event that does not belong to the stage is ignored; a failure of the last
/// action is the answer; a finished request stays finished.
pub open spec fn vote_request_step(
    stage: VoteStage,
    header: HeaderInfo,
    parents_given: bool,
    committee: Committee,
    pd: Map<(u64, [u8; 32]), u16>,
    votes: Map<u16, VoteInfo>,
    event: VoteEvent,
    next: VoteStage,
    action: VoteAction,
    pd2: Map<(u64, [u8; 32]), u16>,
    votes2: Map<u16, VoteInfo>,
) -> bool {
    let ignored = next == stage && action is Ignore && pd2 == pd && votes2 == votes;
    let go = |s: VoteStage, a: VoteAction| next == s && action == a && pd2 == pd && votes2 == votes;
    if stage == VoteStage::Done {
        ignored
    } else {
        match event {
            VoteEvent::Failed(e) => go(VoteStage::Done, VoteAction::ReplyError(e)),
            VoteEvent::Begin => if stage != VoteStage::Start {
                ignored
            } else if parents_given {
                go(VoteStage::AcceptingParents, VoteAction::AcceptParents)
            } else {
                go(VoteStage::FindingUnknownParents, VoteAction::FindUnknownParents)
            },
            VoteEvent::UnknownParents { narwhal_round, digests } => if stage != VoteStage::FindingUnknownParents {
                ignored
            } else {
                let (r, pd_after) = parents_to_ask(pd, header, narwhal_round, digests@);
                pd2 == pd_after && votes2 == votes && match r {
                    Err(e) => next == VoteStage::Done && action == VoteAction::ReplyError(e),
                    Ok(missing) => if missing.len() > 0 {
                        next == VoteStage::Done && (action matches VoteAction::ReplyMissing(m) && m@ == missing)
                    } else {
                        next == VoteStage::ReadingParents && action is ReadParentCertificates
                    },
                }
            },
            VoteEvent::ParentsAccepted => if stage != VoteStage::AcceptingParents {
                ignored
            } else {
                go(VoteStage::ReadingParents, VoteAction::ReadParentCertificates)
            },
            VoteEvent::ParentCertificates(ps) => if stage != VoteStage::ReadingParents {
                ignored
            } else {
                match parents_verdict(committee, header, ps@) {
                    Err(e) => go(VoteStage::Done, VoteAction::ReplyError(e)),
                    Ok(_) => go(VoteStage::SyncingBatches, VoteAction::SyncBatches),
                }
            },
            VoteEvent::BatchesSynced => if stage != VoteStage::SyncingBatches {
                ignored
            } else {
                go(VoteStage::ReadingClock, VoteAction::ReadClock)
            },
            VoteEvent::Clock(now) => if stage != VoteStage::ReadingClock {
                ignored
            } else {
                match header_wait(header.created_at, now) {
                    Err(e) => go(VoteStage::Done, VoteAction::ReplyError(e)),
                    Ok(ms) => if ms == 0 {
                        go(VoteStage::StoringHeader, VoteAction::StoreHeader)
                    } else {
                        go(VoteStage::Waiting, VoteAction::Sleep(ms))
                    },
                }
            },
            VoteEvent::Waited => if stage != VoteStage::Waiting {
                ignored
            } else {
                go(VoteStage::StoringHeader, VoteAction::StoreHeader)
            },
            VoteEvent::HeaderStored => if stage != VoteStage::StoringHeader {
                ignored
            } else {
                match vote_precheck(header, stored_vote(votes, header.author)) {
                    Some(e) => go(VoteStage::Done, VoteAction::ReplyError(e)),
                    None => go(VoteStage::Signing, VoteAction::SignVote),
                }
            },
            VoteEvent::VoteSigned(d) => if stage != VoteStage::Signing {
                ignored
            } else {
                let (r, votes_after) = vote_step(votes, header, d);
                next == VoteStage::Done && pd2 == pd && votes2 == votes_after && match r {
                    Err(e) => action == VoteAction::ReplyError(e),
                    Ok(dec) => action == VoteAction::ReplyVote(dec),
                }
            },
        }
    }
}

impl VoteRequest {
    /// A request for a vote on `header`, not yet taken up.
    pub fn new(header: HeaderInfo, parents_given: bool) -> (r: Self)
        ensures
            r.stage == VoteStage::Start,
            r.header == header,
            r.parents_given == parents_given,
    {
        VoteRequest { stage: VoteStage::Start, header, parents_given }
    }

    fn ignore(&self) -> (a: VoteAction)
        ensures
            a is Ignore,
    {
        VoteAction::Ignore
    }

    /// Takes the request one step further on `event` (see
    /// [`vote_request_step`]), updating the parent digests asked from
    /// authors and the store of the votes cast.
    pub fn step(
        &mut self,
        committee: &Committee,
        parent_digests: &mut ParentDigests,
        votes: &mut VoteDigestStore,
        event: VoteEvent,
    ) -> (a: VoteAction)
        requires
            2 * committee.total() <= u64::MAX,
            old(self).stage == VoteStage::FindingUnknownParents ==> match event {
                VoteEvent::UnknownParents { narwhal_round, digests } => old(self).header.round >= 1 || limit_round(
                    narwhal_round,
                ) > old(self).header.round || digests@.len() == 0,
                _ => true,
            },
        ensures
            final(self).header == old(self).header,
            final(self).parents_given == old(self).parents_given,
            vote_request_step(
                old(self).stage,
                old(self).header,
                old(self).parents_given,
                *committee,
                old(parent_digests)@,
                old(votes)@,
                event,
                final(self).stage,
                a,
                final(parent_digests)@,
                final(votes)@,
            ),
    {
        if self.stage == VoteStage::Done {
            return self.ignore();
        }
        match event {
            VoteEvent::Failed(e) => {
                self.stage = VoteStage::Done;
                VoteAction::ReplyError(e)
            },
            VoteEvent::Begin => {
                if self.stage != VoteStage::Start {
                    self.ignore()
                } else if self.parents_given {
                    self.stage = VoteStage::AcceptingParents;
                    VoteAction::AcceptParents
                } else {
                    self.stage = VoteStage::FindingUnknownParents;
                    VoteAction::FindUnknownParents
                }
            },
            VoteEvent::UnknownParents { narwhal_round, digests } => {
                if self.stage != VoteStage::FindingUnknownParents {
                    return self.ignore();
                }
                match parent_digests.unknown_parent_digests(&self.header, narwhal_round, &digests) {
                    Err(e) => {
                        self.stage = VoteStage::Done;
                        VoteAction::ReplyError(e)
                    },
                    Ok(missing) => {
                        if missing.len() > 0 {
                            self.stage = VoteStage::Done;
                            VoteAction::ReplyMissing(missing)
                        } else {
                            self.stage = VoteStage::ReadingParents;
                            VoteAction::ReadParentCertificates
                        }
                    },
                }
            },
            VoteEvent::ParentsAccepted => {
                if self.stage != VoteStage::AcceptingParents {
                    return self.ignore();
                }
                self.stage = VoteStage::ReadingParents;
                VoteAction::ReadParentCertificates
            },
            VoteEvent::ParentCertificates(ps) => {
                if self.stage != VoteStage::ReadingParents {
                    return self.ignore();
                }
                match check_parents(committee, &self.header, &ps) {
                    Err(e) => {
                        self.stage = VoteStage::Done;
                        VoteAction::ReplyError(e)
                    },
                    Ok(_) => {
                        self.stage = VoteStage::SyncingBatches;
                        VoteAction::SyncBatches
                    },
                }
            },
            VoteEvent::BatchesSynced => {
                if self.stage != VoteStage::SyncingBatches {
                    return self.ignore();
                }
                self.stage = VoteStage::ReadingClock;
                VoteAction::ReadClock
            },
            VoteEvent::Clock(now) => {
                if self.stage != VoteStage::ReadingClock {
                    return self.ignore();
                }
                match header_time_check(self.header.created_at, now) {
                    Err(e) => {
                        self.stage = VoteStage::Done;
                        VoteAction::ReplyError(e)
                    },
                    Ok(ms) => {
                        if ms == 0 {
                            self.stage = VoteStage::StoringHeader;
                            VoteAction::StoreHeader
                        } else {
                            self.stage = VoteStage::Waiting;
                            VoteAction::Sleep(ms)
                        }
                    },
                }
            },
            VoteEvent::Waited => {
                if self.stage != VoteStage::Waiting {
                    return self.ignore();
                }
                self.stage = VoteStage::StoringHeader;
                VoteAction::StoreHeader
            },
            VoteEvent::HeaderStored => {
                if self.stage != VoteStage::StoringHeader {
                    return self.ignore();
                }
                match precheck_vote(&self.header, votes.read(self.header.author)) {
                    Err(e) => {
                        self.stage = VoteStage::Done;
                        VoteAction::ReplyError(e)
                    },
                    Ok(_) => {
                        self.stage = VoteStage::Signing;
                        VoteAction::SignVote
                    },
                }
            },
            VoteEvent::VoteSigned(d) => {
                if self.stage != VoteStage::Signing {
                    return self.ignore();
                }
                self.stage = VoteStage::Done;
                match votes.vote(&self.header, &d) {
                    Err(e) => VoteAction::ReplyError(e),
                    Ok(dec) => VoteAction::ReplyVote(dec),
                }
            },
        }
    }
}

} // verus!
