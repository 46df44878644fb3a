//! The primary's answers to its peers: admission of a vote request, the
//! checks on the parents of a header, the timestamp tolerance, the
//! equivocation protection of votes, and how an error is reported.
use vstd::prelude::*;

use crate::committee::{Authority, Committee, stake_of};

verus! {

/// How far in the future, in milliseconds, a header's creation time may lie
/// before the vote request is refused rather than delayed.
pub const TOLERANCE_MS: u64 = 1000;

/// Whether two digests are equal.
pub fn digest_eq(a: &[u8; 32], b: &[u8; 32]) -> (r: bool)
    ensures
        r == (*a == *b),
{
    let mut i: usize = 0;
    while i < 32
        invariant
            i <= 32,
            forall|j: int| 0 <= j < i ==> a@[j] == b@[j],
        decreases 32 - i,
    {
        if a[i] != b[i] {
            return false;
        }
        i = i + 1;
    }
    proof {
        assert(*a =~= *b);
    }
    true
}

/// What the vote handler reads of a header.
#[derive(Debug, Clone, Copy)]
pub struct HeaderInfo {
    pub author: u16,
    pub round: u64,
    pub epoch: u64,
    /// Creation time, in milliseconds since the Unix epoch.
    pub created_at: u64,
    pub digest: [u8; 32],
}

/// What the vote handler reads of a parent certificate.
#[derive(Debug, Clone, Copy)]
pub struct ParentCertificate {
    pub round: u64,
    pub created_at: u64,
    /// The author of the certified header.
    pub origin: u16,
    pub digest: [u8; 32],
}

/// The vote an authority last cast for a given author.
#[derive(Debug, Clone, Copy)]
pub struct VoteInfo {
    pub epoch: u64,
    pub round: u64,
    pub vote_digest: [u8; 32],
}

/// Why the requesting peer could not be matched with the header's author.
#[derive(Debug, PartialEq, Eq, Structural)]
pub enum PeerError {
    MissingPeerId,
    UnknownNetworkKey,
    AuthorNotPeer,
}

/// The errors of the primary's handlers.
#[derive(Debug)]
pub enum DagError {
    InvalidSignature,
    InvalidHeaderDigest,
    HeaderHasBadWorkerIds([u8; 32]),
    TooManyParents(usize, usize),
    NetworkError(PeerError),
    HeaderHasInvalidParentRoundNumbers([u8; 32]),
    HeaderHasInvalidParentTimestamp([u8; 32]),
    HeaderHasDuplicateParentAuthorities([u8; 32]),
    HeaderRequiresQuorum([u8; 32]),
    InvalidTimestamp { created_time: u64, local_time: u64 },
    InvalidEpoch { expected: u64, received: u64 },
    AlreadyVoted([u8; 32], [u8; 32], u64),
    AlreadyVotedNewerHeader([u8; 32], u64, u64),
    TooOld([u8; 32], u64, u64),
    StoreError,
    Suspended,
}

/// The status a failed request is answered with.
#[derive(Debug, PartialEq, Eq, Structural)]
pub enum RpcStatus {
    /// The request cannot succeed if it is sent again.
    BadRequest,
    /// The request may succeed later.
    Unknown,
}

/// The errors that retrying cannot cure.
pub open spec fn is_unretriable(e: DagError) -> bool {
    match e {
        DagError::InvalidSignature => true,
        DagError::InvalidEpoch { .. } => true,
        DagError::InvalidHeaderDigest => true,
        DagError::HeaderHasBadWorkerIds(_) => true,
        DagError::HeaderHasInvalidParentRoundNumbers(_) => true,
        DagError::HeaderHasDuplicateParentAuthorities(_) => true,
        DagError::AlreadyVoted(_, _, _) => true,
        DagError::AlreadyVotedNewerHeader(_, _, _) => true,
        DagError::HeaderRequiresQuorum(_) => true,
        DagError::TooOld(_, _, _) => true,
        _ => false,
    }
}

/// The status a vote or event-verification request that failed with `e` is
/// answered with.
pub fn error_status(e: &DagError) -> (s: RpcStatus)
    ensures
        s == (if is_unretriable(*e) { RpcStatus::BadRequest } else { RpcStatus::Unknown }),
{
    match e {
        DagError::InvalidSignature
        | DagError::InvalidEpoch { .. }
        | DagError::InvalidHeaderDigest
        | DagError::HeaderHasBadWorkerIds(_)
        | DagError::HeaderHasInvalidParentRoundNumbers(_)
        | DagError::HeaderHasDuplicateParentAuthorities(_)
        | DagError::AlreadyVoted(_, _, _)
        | DagError::AlreadyVotedNewerHeader(_, _, _)
        | DagError::HeaderRequiresQuorum(_)
        | DagError::TooOld(_, _, _) => RpcStatus::BadRequest,
        _ => RpcStatus::Unknown,
    }
}

/// The answer to a peer that sent a certificate, given how accepting it
/// went: accepted, not accepted while it waits for missing ancestors
/// (suspended), or `None` for an internal error.
pub fn certificate_reply(outcome: &Result<(), DagError>) -> (r: Option<bool>)
    ensures
        r == match *outcome {
            Ok(_) => Some(true),
            Err(DagError::Suspended) => Some(false),
            Err(_) => None::<bool>,
        },
{
    match outcome {
        Ok(()) => Some(true),
        Err(DagError::Suspended) => Some(false),
        Err(_) => None,
    }
}

/// The identifier of the first authority whose network key is `key`.
pub open spec fn network_key_owner(auths: Seq<Authority>, key: Seq<u8>) -> Option<u16>
    decreases auths.len(),
{
    if auths.len() == 0 {
        None
    } else if auths[0].network_key@ == key {
        Some(auths[0].id)
    } else {
        network_key_owner(auths.drop_first(), key)
    }
}

pub(crate) proof fn lemma_network_key_owner_at(auths: Seq<Authority>, key: Seq<u8>, i: int)
    requires
        0 <= i < auths.len(),
        auths[i].network_key@ == key,
        forall|j: int| 0 <= j < i ==> auths[j].network_key@ != key,
    ensures
        network_key_owner(auths, key) == Some(auths[i].id),
    decreases i,
{
    if i > 0 {
        lemma_network_key_owner_at(auths.drop_first(), key, i - 1);
    }
}

pub(crate) proof fn lemma_network_key_owner_none(auths: Seq<Authority>, key: Seq<u8>)
    requires
        forall|j: int| 0 <= j < auths.len() ==> auths[j].network_key@ != key,
    ensures
        network_key_owner(auths, key) == None::<u16>,
    decreases auths.len(),
{
    if auths.len() > 0 {
        lemma_network_key_owner_none(auths.drop_first(), key);
    }
}

/// Whether a vote request may be looked at: it names no more parents than
/// the committee has authorities, and it comes from the header's author.
pub open spec fn admission(
    committee: Committee,
    header: HeaderInfo,
    num_parents: nat,
    peer_key: Option<Seq<u8>>,
) -> Result<(), DagError> {
    if num_parents > committee.authorities@.len() {
        Err(DagError::TooManyParents(num_parents as usize, committee.authorities@.len() as usize))
    } else {
        match peer_key {
            None => Err(DagError::NetworkError(PeerError::MissingPeerId)),
            Some(k) => match network_key_owner(committee.authorities@, k) {
                None => Err(DagError::NetworkError(PeerError::UnknownNetworkKey)),
                Some(id) => if id != header.author {
                    Err(DagError::NetworkError(PeerError::AuthorNotPeer))
                } else {
                    Ok(())
                },
            },
        }
    }
}

/// The key bytes of an optional key.
pub open spec fn opt_bytes(k: Option<&Vec<u8>>) -> Option<Seq<u8>> {
    match k {
        Some(v) => Some(v@),
        None => None,
    }
}

/// Checks that a vote request names at most as many parents as there are
/// authorities, and that the peer that sent it (`peer_key`, its network key,
/// if the transport knows it) is the header's author.
pub fn admit_vote_request(
    committee: &Committee,
    header: &HeaderInfo,
    num_parents: usize,
    peer_key: Option<&Vec<u8>>,
) -> (r: Result<(), DagError>)
    ensures
        r == admission(*committee, *header, num_parents as nat, opt_bytes(peer_key)),
{
    let size = committee.size();
    if num_parents > size {
        return Err(DagError::TooManyParents(num_parents, size));
    }
    match peer_key {
        None => Err(DagError::NetworkError(PeerError::MissingPeerId)),
        Some(k) => {
            match committee.authority_by_network_key(k) {
                None => {
                    proof {
                        lemma_network_key_owner_none(committee.authorities@, k@);
                    }
                    Err(DagError::NetworkError(PeerError::UnknownNetworkKey))
                },
                Some(a) => {
                    proof {
                        let i = choose|i: int|
                            0 <= i < committee.authorities@.len() && committee.authorities@[i] == *a
                                && a.network_key@ == k@ && forall|j: int|
                                0 <= j < i ==> committee.authorities@[j].network_key@ != k@;
                        lemma_network_key_owner_at(committee.authorities@, k@, i);
                    }
                    if a.id != header.author {
                        Err(DagError::NetworkError(PeerError::AuthorNotPeer))
                    } else {
                        Ok(())
                    }
                },
            }
        },
    }
}


/// The error the `i`-th parent of `header` causes, if any: it must be of the
/// round just below the header's, not be younger than the header, and come
/// from an author no earlier parent came from.
pub open spec fn parent_error(header: HeaderInfo, parents: Seq<ParentCertificate>, i: int) -> Option<DagError> {
    if parents[i].round + 1 != header.round {
        Some(DagError::HeaderHasInvalidParentRoundNumbers(header.digest))
    } else if header.created_at < parents[i].created_at {
        Some(DagError::HeaderHasInvalidParentTimestamp(header.digest))
    } else if exists|j: int| 0 <= j < i && parents[j].origin == parents[i].origin {
        Some(DagError::HeaderHasDuplicateParentAuthorities(header.digest))
    } else {
        None
    }
}

/// The stake of the first `n` parents, or the first error among them.
pub open spec fn parents_stake(
    auths: Seq<Authority>,
    header: HeaderInfo,
    parents: Seq<ParentCertificate>,
    n: int,
) -> Result<nat, DagError>
    decreases n,
{
    if n <= 0 {
        Ok(0)
    } else {
        match parents_stake(auths, header, parents, n - 1) {
            Err(e) => Err(e),
            Ok(s) => match parent_error(header, parents, n - 1) {
                Some(e) => Err(e),
                None => Ok(s + stake_of(auths, parents[n - 1].origin)),
            },
        }
    }
}

/// The verdict on the parents of a header: each is valid, and together they
/// carry a quorum of stake.
pub open spec fn parents_verdict(
    committee: Committee,
    header: HeaderInfo,
    parents: Seq<ParentCertificate>,
) -> Result<(), DagError> {
    match parents_stake(committee.authorities@, header, parents, parents.len() as int) {
        Err(e) => Err(e),
        Ok(s) => if s >= committee.quorum() {
            Ok(())
        } else {
            Err(DagError::HeaderRequiresQuorum(header.digest))
        },
    }
}

proof fn lemma_parents_stake_err(
    auths: Seq<Authority>,
    header: HeaderInfo,
    parents: Seq<ParentCertificate>,
    n: int,
    m: int,
)
    requires
        0 <= n <= m,
        parents_stake(auths, header, parents, n) is Err,
    ensures
        parents_stake(auths, header, parents, m) == parents_stake(auths, header, parents, n),
    decreases m - n,
{
    if n < m {
        lemma_parents_stake_err(auths, header, parents, n, m - 1);
    }
}

/// Checks the parent certificates of `header`: each is of the previous
/// round, none is younger than the header, no two come from the same
/// author, and their authors' stake reaches the quorum threshold.
pub fn check_parents(
    committee: &Committee,
    header: &HeaderInfo,
    parents: &Vec<ParentCertificate>,
) -> (r: Result<(), DagError>)
    requires
        2 * committee.total() <= u64::MAX,
    ensures
        r == parents_verdict(*committee, *header, parents@),
{
    let mut stake: u128 = 0;
    let mut i: usize = 0;
    while i < parents.len()
        invariant
            i <= parents.len(),
            parents_stake(committee.authorities@, *header, parents@, i as int) == Ok::<nat, DagError>(stake as nat),
            stake <= i * (u64::MAX as int),
            i <= usize::MAX,
        decreases parents.len() - i,
    {
        let p = &parents[i];
        if !(header.round >= 1 && p.round == header.round - 1) {
            proof {
                lemma_parents_stake_err(committee.authorities@, *header, parents@, i + 1, parents@.len() as int);
            }
            return Err(DagError::HeaderHasInvalidParentRoundNumbers(header.digest));
        }
        if header.created_at < p.created_at {
            proof {
                lemma_parents_stake_err(committee.authorities@, *header, parents@, i + 1, parents@.len() as int);
            }
            return Err(DagError::HeaderHasInvalidParentTimestamp(header.digest));
        }
        let mut j: usize = 0;
        while j < i
            invariant
                j <= i,
                i < parents.len(),
                forall|k: int| 0 <= k < j ==> parents@[k].origin != parents@[i as int].origin,
                parents@[i as int].round + 1 == header.round,
                header.created_at >= parents@[i as int].created_at,
                parents_stake(committee.authorities@, *header, parents@, i as int) == Ok::<nat, DagError>(stake as nat),
            decreases i - j,
        {
            if parents[j].origin == parents[i].origin {
                proof {
                    assert(parents@[j as int].origin == parents@[i as int].origin);
                    lemma_parents_stake_err(committee.authorities@, *header, parents@, i + 1, parents@.len() as int);
                }
                return Err(DagError::HeaderHasDuplicateParentAuthorities(header.digest));
            }
            j = j + 1;
        }
        let add = committee.stake_by_id(p.origin);
        proof {
            assert((i as int) * (u64::MAX as int) + u64::MAX as int == (i + 1) * (u64::MAX as int)) by (nonlinear_arith);
            assert((i + 1) * (u64::MAX as int) <= 0x1_0000_0000_0000_0000 * (u64::MAX as int)) by (nonlinear_arith)
                requires i + 1 <= 0x1_0000_0000_0000_0000;
        }
        stake = stake + add as u128;
        i = i + 1;
    }
    let quorum = committee.quorum_threshold();
    if stake >= quorum as u128 {
        Ok(())
    } else {
        Err(DagError::HeaderRequiresQuorum(header.digest))
    }
}

/// How long to wait before voting for a header created at `created_at`
/// when the local clock reads `now` (both in milliseconds): nothing for a
/// header from the past, the difference if it is under the tolerance, and
/// otherwise a refusal.
pub open spec fn header_wait(created_at: u64, now: u64) -> Result<u64, DagError> {
    if now < created_at {
        if created_at - now < TOLERANCE_MS {
            Ok((created_at - now) as u64)
        } else {
            Err(DagError::InvalidTimestamp { created_time: created_at, local_time: now })
        }
    } else {
        Ok(0)
    }
}

/// The milliseconds to wait before voting for a header created at
/// `created_at`, the local clock reading `now`; a header too far in the
/// future is refused.
pub fn header_time_check(created_at: u64, now: u64) -> (r: Result<u64, DagError>)
    ensures
        r == header_wait(created_at, now),
{
    if now < created_at {
        if created_at - now < TOLERANCE_MS {
            Ok(created_at - now)
        } else {
            Err(DagError::InvalidTimestamp { created_time: created_at, local_time: now })
        }
    } else {
        Ok(0)
    }
}

/// What to do with a vote request that passed every check.
#[derive(Debug, PartialEq, Eq, Structural)]
pub enum VoteDecision {
    /// Send again the vote already cast for this header.
    Resend,
    /// Cast a new vote and record it.
    Create,
}

/// The decision on a vote for `header`, given the vote last cast for its
/// author (`prior`) and the digest of the vote this authority would cast
/// now (`new_digest`).
pub open spec fn vote_verdict(
    header: HeaderInfo,
    prior: Option<VoteInfo>,
    new_digest: [u8; 32],
) -> Result<VoteDecision, DagError> {
    match prior {
        None => Ok(VoteDecision::Create),
        Some(v) => if header.epoch != v.epoch {
            Err(DagError::InvalidEpoch { expected: header.epoch, received: v.epoch })
        } else if header.round < v.round {
            Err(DagError::AlreadyVotedNewerHeader(header.digest, header.round, v.round))
        } else if header.round == v.round {
            if new_digest != v.vote_digest {
                Err(DagError::AlreadyVoted(v.vote_digest, header.digest, header.round))
            } else {
                Ok(VoteDecision::Resend)
            }
        } else {
            Ok(VoteDecision::Create)
        },
    }
}

/// The refusals of a vote for `header` that need no vote to be signed: the
/// vote last cast for its author (`prior`) is of another epoch or of a newer
/// round.
pub open spec fn vote_precheck(header: HeaderInfo, prior: Option<VoteInfo>) -> Option<DagError> {
    match prior {
        None => None,
        Some(v) => if header.epoch != v.epoch {
            Some(DagError::InvalidEpoch { expected: header.epoch, received: v.epoch })
        } else if header.round < v.round {
            Some(DagError::AlreadyVotedNewerHeader(header.digest, header.round, v.round))
        } else {
            None
        },
    }
}

/// Checks, before a vote is signed, that the vote last cast for the author
/// of `header` does not already rule it out (see [`vote_precheck`]).
pub fn precheck_vote(header: &HeaderInfo, prior: Option<VoteInfo>) -> (r: Result<(), DagError>)
    ensures
        r == (match vote_precheck(*header, prior) {
            Some(e) => Err::<(), DagError>(e),
            None => Ok(()),
        }),
{
    match prior {
        None => Ok(()),
        Some(v) => {
            if header.epoch != v.epoch {
                Err(DagError::InvalidEpoch { expected: header.epoch, received: v.epoch })
            } else if header.round < v.round {
                Err(DagError::AlreadyVotedNewerHeader(header.digest, header.round, v.round))
            } else {
                Ok(())
            }
        },
    }
}

/// Decides whether to vote for `header`: never for an older round than the
/// last vote for its author, never for a second header of the same round,
/// and never across epochs.
pub fn decide_vote(header: &HeaderInfo, prior: Option<&VoteInfo>, new_digest: &[u8; 32]) -> (r: Result<VoteDecision, DagError>)
    ensures
        r == vote_verdict(*header, match prior { Some(v) => Some(*v), None => None }, *new_digest),
{
    match prior {
        None => Ok(VoteDecision::Create),
        Some(v) => {
            if header.epoch != v.epoch {
                return Err(DagError::InvalidEpoch { expected: header.epoch, received: v.epoch });
            }
            if header.round < v.round {
                return Err(DagError::AlreadyVotedNewerHeader(header.digest, header.round, v.round));
            }
            if header.round == v.round {
                if !digest_eq(new_digest, &v.vote_digest) {
                    return Err(DagError::AlreadyVoted(v.vote_digest, header.digest, header.round));
                }
                return Ok(VoteDecision::Resend);
            }
            Ok(VoteDecision::Create)
        },
    }
}

/// The vote recorded for an author once a vote with digest `digest` has
/// been sent for `header`.
pub open spec fn vote_record(header: HeaderInfo, digest: [u8; 32]) -> VoteInfo {
    VoteInfo { epoch: header.epoch, round: header.round, vote_digest: digest }
}

/// The record written after a vote for `header` is sent.
pub fn record_vote(header: &HeaderInfo, digest: &[u8; 32]) -> (r: VoteInfo)
    ensures
        r == vote_record(*header, *digest),
{
    VoteInfo { epoch: header.epoch, round: header.round, vote_digest: *digest }
}

} // verus!
