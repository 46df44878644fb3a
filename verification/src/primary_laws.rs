//! Properties of the primary's bookkeeping that span several calls.
use vstd::prelude::*;

use crate::fetch::{fetch_before, is_fetch_answer, is_wanted};
use crate::parent_digests::{claim, claim_prefix, limit_round};
use crate::primary_net::{action_after_failures, BindAction, BIND_ATTEMPTS};
use crate::committee::{stake_of, Authority, Committee};
use crate::primary::{
    admission, header_wait, lemma_network_key_owner_at, lemma_network_key_owner_none, parent_error, parents_stake,
    parents_verdict, vote_record, vote_verdict, DagError, HeaderInfo, ParentCertificate, PeerError, VoteDecision, VoteInfo,
    TOLERANCE_MS,
};
use crate::vote_store::{answer_at, store_after, stored_vote, vote_step};

verus! {

proof fn lemma_claim_prefix(
    m: Map<(u64, [u8; 32]), u16>,
    round: u64,
    ds: Seq<[u8; 32]>,
    author: u16,
    n: int,
)
    requires
        0 <= n <= ds.len(),
    ensures
        forall|k: (u64, [u8; 32])| #[trigger] m.dom().contains(k) ==> claim_prefix(m, round, ds, author, n).1.dom().contains(k)
            && claim_prefix(m, round, ds, author, n).1[k] == m[k],
        forall|j: int| 0 <= j < n ==> claim_prefix(m, round, ds, author, n).1.dom().contains((round, #[trigger] ds[j])),
        forall|a: int| 0 <= a < claim_prefix(m, round, ds, author, n).0.len() ==> {
            let d = #[trigger] claim_prefix(m, round, ds, author, n).0[a];
            !m.dom().contains((round, d)) && claim_prefix(m, round, ds, author, n).1.dom().contains((round, d))
                && claim_prefix(m, round, ds, author, n).1[(round, d)] == author
        },
        claim_prefix(m, round, ds, author, n).0.no_duplicates(),
    decreases n,
{
    if n > 0 {
        lemma_claim_prefix(m, round, ds, author, n - 1);
        let prev = claim_prefix(m, round, ds, author, n - 1);
        if !prev.1.dom().contains((round, ds[n - 1])) {
            let cur = claim_prefix(m, round, ds, author, n);
            assert forall|a: int| 0 <= a < cur.0.len() implies {
                let d = #[trigger] cur.0[a];
                !m.dom().contains((round, d)) && cur.1.dom().contains((round, d)) && cur.1[(round, d)] == author
            } by {
                if a < prev.0.len() {
                    assert(cur.0[a] == prev.0[a]);
                    assert(prev.1.dom().contains((round, prev.0[a])));
                    assert((round, prev.0[a]) != (round, ds[n - 1]));
                }
            }
            assert forall|a: int, b: int| 0 <= a < b < cur.0.len() implies cur.0[a] != cur.0[b] by {
                if b == cur.0.len() - 1 {
                    assert(cur.0[a] == prev.0[a]);
                    assert(prev.1.dom().contains((round, prev.0[a])));
                } else {
                    assert(cur.0[a] == prev.0[a] && cur.0[b] == prev.0[b]);
                }
            }
        }
    }
}

proof fn lemma_claim_prefix_known(
    m: Map<(u64, [u8; 32]), u16>,
    round: u64,
    ds: Seq<[u8; 32]>,
    author: u16,
    n: int,
)
    requires
        0 <= n <= ds.len(),
        forall|j: int| 0 <= j < n ==> m.dom().contains((round, #[trigger] ds[j])),
    ensures
        claim_prefix(m, round, ds, author, n) == (Seq::<[u8; 32]>::empty(), m),
    decreases n,
{
    if n > 0 {
        lemma_claim_prefix_known(m, round, ds, author, n - 1);
        assert(m.dom().contains((round, ds[n - 1])));
    }
}

/// Claiming a batch of parent digests records every one of them, keeps
/// whatever was recorded before, and hands out each digest at most once:
/// only those that were unknown, now recorded as coming from `author`.
pub proof fn law_claim_records(m: Map<(u64, [u8; 32]), u16>, round: u64, ds: Seq<[u8; 32]>, author: u16)
    ensures
        forall|k: (u64, [u8; 32])| #[trigger] m.dom().contains(k) ==> claim(m, round, ds, author).1.dom().contains(k)
            && claim(m, round, ds, author).1[k] == m[k],
        forall|j: int| 0 <= j < ds.len() ==> claim(m, round, ds, author).1.dom().contains((round, #[trigger] ds[j])),
        forall|a: int| 0 <= a < claim(m, round, ds, author).0.len() ==> {
            let d = #[trigger] claim(m, round, ds, author).0[a];
            !m.dom().contains((round, d)) && claim(m, round, ds, author).1[(round, d)] == author
        },
        claim(m, round, ds, author).0.no_duplicates(),
{
    lemma_claim_prefix(m, round, ds, author, ds.len() as int);
}

/// A second request for the same parents, from any author, is told that
/// none of them is missing, and changes nothing: a parent is asked from one
/// header proposer only.
pub proof fn law_claim_once(m: Map<(u64, [u8; 32]), u16>, round: u64, ds: Seq<[u8; 32]>, a1: u16, a2: u16)
    ensures
        claim(claim(m, round, ds, a1).1, round, ds, a2) == (Seq::<[u8; 32]>::empty(), claim(m, round, ds, a1).1),
{
    lemma_claim_prefix(m, round, ds, a1, ds.len() as int);
    lemma_claim_prefix_known(claim(m, round, ds, a1).1, round, ds, a2, ds.len() as int);
}

/// Once an authority has voted for a header, it never votes for a different
/// header of the same author, epoch and round: the request is refused as an
/// equivocation, whether the first vote was new or sent again.
pub proof fn law_vote_once_per_round(
    h1: HeaderInfo,
    h2: HeaderInfo,
    prior: Option<VoteInfo>,
    d1: [u8; 32],
    d2: [u8; 32],
)
    requires
        vote_verdict(h1, prior, d1) is Ok,
        h2.epoch == h1.epoch,
        h2.round == h1.round,
        d2 != d1,
    ensures
        vote_verdict(h2, Some(vote_record(h1, d1)), d2) == Err::<VoteDecision, DagError>(
            DagError::AlreadyVoted(d1, h2.digest, h2.round),
        ),
        vote_verdict(h1, prior, d1) == Ok::<VoteDecision, DagError>(VoteDecision::Resend) ==> prior == Some(vote_record(h1, d1)),
{
}

/// After a vote for a header, any header of the same author and epoch from
/// an earlier round is refused.
pub proof fn law_no_vote_for_older(h1: HeaderInfo, h2: HeaderInfo, prior: Option<VoteInfo>, d1: [u8; 32], d2: [u8; 32])
    requires
        vote_verdict(h1, prior, d1) is Ok,
        h2.epoch == h1.epoch,
        h2.round < h1.round,
    ensures
        vote_verdict(h2, Some(vote_record(h1, d1)), d2) == Err::<VoteDecision, DagError>(
            DagError::AlreadyVotedNewerHeader(h2.digest, h2.round, h1.round),
        ),
{
}

/// Binding the primary's address is tried `BIND_ATTEMPTS` times: every
/// failure but the last is retried, the last gives up.
pub proof fn law_bind_attempts(n: int)
    requires
        1 <= n <= BIND_ATTEMPTS,
    ensures
        action_after_failures(n) == (if n == BIND_ATTEMPTS { BindAction::GiveUp } else { BindAction::Retry }),
{
}

/// The certificates sent to a peer leave no gap: every wanted certificate
/// that comes before one that is sent is sent too, so the peer can process
/// them in order without missing parents.
pub proof fn law_fetch_no_gaps(
    stored: Seq<(u16, u64)>,
    lower_bound: u64,
    skips: Seq<(u16, Vec<u64>)>,
    max_items: usize,
    out: Seq<(u16, u64)>,
    k: (u16, u64),
    a: int,
)
    requires
        is_fetch_answer(stored, lower_bound, skips, max_items, out),
        is_wanted(stored, lower_bound, skips, k),
        0 <= a < out.len(),
        fetch_before(k, out[a]),
    ensures
        out.contains(k),
{
    if a < out.len() - 1 {
        assert(fetch_before(out[a], out[out.len() - 1]));
    }
}

proof fn lemma_answers_agree_at(
    stored: Seq<(u16, u64)>,
    lower_bound: u64,
    skips: Seq<(u16, Vec<u64>)>,
    max_items: usize,
    x: Seq<(u16, u64)>,
    y: Seq<(u16, u64)>,
    i: int,
)
    requires
        is_fetch_answer(stored, lower_bound, skips, max_items, x),
        is_fetch_answer(stored, lower_bound, skips, max_items, y),
        0 <= i < x.len(),
        i < y.len(),
        forall|j: int| 0 <= j < i ==> x[j] == y[j],
    ensures
        !fetch_before(x[i], y[i]),
{
    if fetch_before(x[i], y[i]) {
        lemma_answer_before(stored, lower_bound, skips, max_items, x, y, i);
    }
}

proof fn lemma_answer_before(
    stored: Seq<(u16, u64)>,
    lower_bound: u64,
    skips: Seq<(u16, Vec<u64>)>,
    max_items: usize,
    x: Seq<(u16, u64)>,
    y: Seq<(u16, u64)>,
    i: int,
)
    requires
        is_fetch_answer(stored, lower_bound, skips, max_items, x),
        is_fetch_answer(stored, lower_bound, skips, max_items, y),
        0 <= i < x.len(),
        i < y.len(),
        forall|j: int| 0 <= j < i ==> x[j] == y[j],
    ensures
        fetch_before(x[i], y[i]) ==> x[i] == y[i],
{
    if fetch_before(x[i], y[i]) {
        let k = x[i];
        assert(is_wanted(stored, lower_bound, skips, k));
        if i < y.len() - 1 {
            assert(fetch_before(y[i], y[y.len() - 1]));
        }
        assert(!fetch_before(y.last(), k));
        assert(y.contains(k));
        let j = choose|j: int| 0 <= j < y.len() && y[j] == k;
        if j > i {
            assert(fetch_before(y[i], y[j]));
        } else if j < i {
            assert(x[j] == y[j]);
            assert(fetch_before(x[j], x[i]));
        }
    }
}

proof fn lemma_prefix_agree(
    stored: Seq<(u16, u64)>,
    lower_bound: u64,
    skips: Seq<(u16, Vec<u64>)>,
    max_items: usize,
    x: Seq<(u16, u64)>,
    y: Seq<(u16, u64)>,
    n: int,
)
    requires
        is_fetch_answer(stored, lower_bound, skips, max_items, x),
        is_fetch_answer(stored, lower_bound, skips, max_items, y),
        0 <= n <= x.len(),
        n <= y.len(),
    ensures
        forall|j: int| 0 <= j < n ==> x[j] == y[j],
    decreases n,
{
    if n > 0 {
        lemma_prefix_agree(stored, lower_bound, skips, max_items, x, y, n - 1);
        lemma_answers_agree_at(stored, lower_bound, skips, max_items, x, y, n - 1);
        lemma_answers_agree_at(stored, lower_bound, skips, max_items, y, x, n - 1);
    }
}

/// The answer to a certificate fetch is determined: two answers to the same
/// request over the same store are the same.
pub proof fn law_fetch_answer_unique(
    stored: Seq<(u16, u64)>,
    lower_bound: u64,
    skips: Seq<(u16, Vec<u64>)>,
    max_items: usize,
    x: Seq<(u16, u64)>,
    y: Seq<(u16, u64)>,
)
    requires
        is_fetch_answer(stored, lower_bound, skips, max_items, x),
        is_fetch_answer(stored, lower_bound, skips, max_items, y),
    ensures
        x == y,
{
    let n = if x.len() <= y.len() { x.len() as int } else { y.len() as int };
    lemma_prefix_agree(stored, lower_bound, skips, max_items, x, y, n);
    if x.len() < y.len() {
        let k = y[x.len() as int];
        assert(is_wanted(stored, lower_bound, skips, k));
        assert(x.contains(k));
        let j = choose|j: int| 0 <= j < x.len() && x[j] == k;
        assert(x[j] == y[j]);
        assert(fetch_before(y[j], y[x.len() as int]));
    } else if y.len() < x.len() {
        let k = x[y.len() as int];
        assert(is_wanted(stored, lower_bound, skips, k));
        assert(y.contains(k));
        let j = choose|j: int| 0 <= j < y.len() && y[j] == k;
        assert(x[j] == y[j]);
        assert(fetch_before(x[j], x[y.len() as int]));
    }
    assert(x =~= y);
}

/// What the store holds for an author at least as late as a vote cast at
/// `round` of `epoch` with digest `digest`.
spec fn holds_vote_since(store: Map<u16, VoteInfo>, author: u16, epoch: u64, round: u64, digest: [u8; 32]) -> bool {
    store.contains_key(author) && store[author].epoch == epoch && store[author].round >= round && (store[author].round
        == round ==> store[author].vote_digest == digest)
}

proof fn lemma_vote_kept(store: Map<u16, VoteInfo>, reqs: Seq<(HeaderInfo, [u8; 32])>, i: int, k: int)
    requires
        0 <= i < k <= reqs.len(),
        answer_at(store, reqs, i) is Ok,
    ensures
        holds_vote_since(store_after(store, reqs, k), reqs[i].0.author, reqs[i].0.epoch, reqs[i].0.round, reqs[i].1),
    decreases k,
{
    let a = reqs[i].0.author;
    if k == i + 1 {
        let before = store_after(store, reqs, i);
        assert(store_after(store, reqs, k) == vote_step(before, reqs[i].0, reqs[i].1).1);
    } else {
        lemma_vote_kept(store, reqs, i, k - 1);
        let before = store_after(store, reqs, k - 1);
        let h = reqs[k - 1].0;
        assert(store_after(store, reqs, k) == vote_step(before, h, reqs[k - 1].1).1);
        assert(stored_vote(before, a) == Some(before[a]));
    }
}

/// Across any sequence of vote requests on one store, an author gets at
/// most one vote digest per round: once a vote for one of its headers has
/// been given (cast or sent again), a later vote for that author is for the
/// same epoch and no older round, and for the same round has the same digest.
pub proof fn law_one_vote_per_author_round(
    store: Map<u16, VoteInfo>,
    reqs: Seq<(HeaderInfo, [u8; 32])>,
    i: int,
    j: int,
)
    requires
        0 <= i < j < reqs.len(),
        answer_at(store, reqs, i) is Ok,
        answer_at(store, reqs, j) is Ok,
        reqs[j].0.author == reqs[i].0.author,
    ensures
        reqs[j].0.epoch == reqs[i].0.epoch,
        reqs[j].0.round >= reqs[i].0.round,
        reqs[j].0.round == reqs[i].0.round ==> reqs[j].1 == reqs[i].1,
{
    lemma_vote_kept(store, reqs, i, j);
    let before = store_after(store, reqs, j);
    assert(stored_vote(before, reqs[i].0.author) == Some(before[reqs[i].0.author]));
}

/// The stake of the authors of the first `n` parents, each counted as often
/// as it occurs.
pub open spec fn parents_total(auths: Seq<Authority>, parents: Seq<ParentCertificate>, n: int) -> nat
    decreases n,
{
    if n <= 0 {
        0
    } else {
        parents_total(auths, parents, n - 1) + stake_of(auths, parents[n - 1].origin)
    }
}

/// Whether parent `i` of `header` is of the round just below the header's,
/// not younger than the header, and from an author no other parent has.
pub open spec fn valid_parent(header: HeaderInfo, parents: Seq<ParentCertificate>, i: int) -> bool {
    &&& parents[i].round + 1 == header.round
    &&& parents[i].created_at <= header.created_at
    &&& forall|j: int| 0 <= j < parents.len() && j != i ==> parents[j].origin != parents[i].origin
}

proof fn lemma_parents_stake(auths: Seq<Authority>, header: HeaderInfo, parents: Seq<ParentCertificate>, n: int)
    requires
        0 <= n <= parents.len(),
    ensures
        (forall|i: int| 0 <= i < n ==> parent_error(header, parents, i) is None) ==> parents_stake(auths, header, parents, n)
            == Ok::<nat, DagError>(parents_total(auths, parents, n)),
        (exists|i: int| 0 <= i < n && parent_error(header, parents, i) is Some) ==> parents_stake(auths, header, parents, n)
            is Err,
    decreases n,
{
    if n > 0 {
        lemma_parents_stake(auths, header, parents, n - 1);
        if exists|i: int| 0 <= i < n && parent_error(header, parents, i) is Some {
            let i = choose|i: int| 0 <= i < n && parent_error(header, parents, i) is Some;
            if i < n - 1 {
                assert(exists|i: int| 0 <= i < n - 1 && parent_error(header, parents, i) is Some);
            }
        }
    }
}

/// The parents of a header are accepted exactly when each is of the round
/// just below the header's and not younger than it, no two come from the same
/// authority, and their authors' stake reaches the committee's quorum.
pub proof fn law_accepted_parents(committee: Committee, header: HeaderInfo, parents: Seq<ParentCertificate>)
    ensures
        parents_verdict(committee, header, parents) is Ok <==> (forall|i: int| 0 <= i < parents.len() ==> valid_parent(
            header,
            parents,
            i,
        )) && parents_total(committee.authorities@, parents, parents.len() as int) >= committee.quorum(),
        (exists|i: int, j: int| 0 <= i < j < parents.len() && parents[i].origin == parents[j].origin) ==> parents_verdict(
            committee,
            header,
            parents,
        ) is Err,
{
    let n = parents.len() as int;
    let auths = committee.authorities@;
    lemma_parents_stake(auths, header, parents, n);
    if forall|i: int| 0 <= i < n ==> parent_error(header, parents, i) is None {
        assert forall|i: int| 0 <= i < n implies valid_parent(header, parents, i) by {
            assert(parent_error(header, parents, i) is None);
            assert forall|j: int| 0 <= j < n && j != i implies parents[j].origin != parents[i].origin by {
                if j < i {
                    assert(parent_error(header, parents, i) is None);
                } else {
                    assert(parent_error(header, parents, j) is None);
                }
            }
        }
    } else {
        let k = choose|i: int| 0 <= i < n && parent_error(header, parents, i) is Some;
        assert(!valid_parent(header, parents, k));
    }
    if exists|i: int, j: int| 0 <= i < j < n && parents[i].origin == parents[j].origin {
        let (i, j) = choose|i: int, j: int| 0 <= i < j < n && parents[i].origin == parents[j].origin;
        if parent_error(header, parents, j) is None {
            assert(exists|k: int| 0 <= k < j && parents[k].origin == parents[j].origin);
        }
        assert(exists|k: int| 0 <= k < n && parent_error(header, parents, k) is Some);
    }
}

/// The quorum threshold is the least stake above two thirds of the total.
pub proof fn law_quorum_two_thirds(committee: Committee)
    ensures
        3 * committee.quorum() > 2 * committee.total(),
        3 * (committee.quorum() - 1) <= 2 * committee.total(),
{
    let t = committee.total();
    let q = 2 * t / 3;
    assert(3 * q <= 2 * t && 2 * t < 3 * q + 3) by (nonlinear_arith)
        requires q == 2 * t / 3;
}

/// A header from the past is voted on at once; one from the future is
/// waited for until its creation time when that is less than the tolerance
/// away, and refused otherwise.
pub proof fn law_header_wait(created_at: u64, now: u64)
    ensures
        now >= created_at ==> header_wait(created_at, now) == Ok::<u64, DagError>(0),
        now < created_at && created_at - now < TOLERANCE_MS ==> header_wait(created_at, now) == Ok::<u64, DagError>(
            (created_at - now) as u64,
        ),
        header_wait(created_at, now) is Ok <==> created_at < now + TOLERANCE_MS,
        header_wait(created_at, now) matches Ok(w) ==> now + w >= created_at && w < TOLERANCE_MS,
        created_at >= now + TOLERANCE_MS ==> header_wait(created_at, now) == Err::<u64, DagError>(
            DagError::InvalidTimestamp { created_time: created_at, local_time: now },
        ),
{
}

proof fn lemma_stake_of_at(auths: Seq<Authority>, id: u16, i: int)
    requires
        0 <= i < auths.len(),
        auths[i].id == id,
        forall|j: int| 0 <= j < i ==> auths[j].id != id,
    ensures
        stake_of(auths, id) == auths[i].stake,
    decreases i,
{
    if i > 0 {
        lemma_stake_of_at(auths.drop_first(), id, i - 1);
    }
}

proof fn lemma_stake_of_none(auths: Seq<Authority>, id: u16)
    requires
        forall|j: int| 0 <= j < auths.len() ==> auths[j].id != id,
    ensures
        stake_of(auths, id) == 0,
    decreases auths.len(),
{
    if auths.len() > 0 {
        lemma_stake_of_none(auths.drop_first(), id);
    }
}

/// The stake of an authority is that of the first authority of the
/// committee with its identifier, and nothing for an identifier outside the
/// committee.
pub proof fn law_stake_of(auths: Seq<Authority>, id: u16, i: int)
    ensures
        0 <= i < auths.len() && auths[i].id == id && (forall|j: int| 0 <= j < i ==> auths[j].id != id) ==> stake_of(
            auths,
            id,
        ) == auths[i].stake,
        (forall|j: int| 0 <= j < auths.len() ==> auths[j].id != id) ==> stake_of(auths, id) == 0,
{
    if 0 <= i < auths.len() && auths[i].id == id && (forall|j: int| 0 <= j < i ==> auths[j].id != id) {
        lemma_stake_of_at(auths, id, i);
    }
    if forall|j: int| 0 <= j < auths.len() ==> auths[j].id != id {
        lemma_stake_of_none(auths, id);
    }
}

/// The decision on a vote: the first vote for an author is cast; a header
/// of the same epoch and a later round than the last vote gets a new vote;
/// the header already voted for gets the same vote again; a header of
/// another epoch is refused.
pub proof fn law_vote_decision(header: HeaderInfo, prior: VoteInfo, digest: [u8; 32])
    ensures
        vote_verdict(header, None, digest) == Ok::<VoteDecision, DagError>(VoteDecision::Create),
        header.epoch == prior.epoch && header.round > prior.round ==> vote_verdict(header, Some(prior), digest) == Ok::<
            VoteDecision,
            DagError,
        >(VoteDecision::Create),
        header.epoch == prior.epoch && header.round == prior.round && digest == prior.vote_digest ==> vote_verdict(
            header,
            Some(prior),
            digest,
        ) == Ok::<VoteDecision, DagError>(VoteDecision::Resend),
        header.epoch != prior.epoch ==> vote_verdict(header, Some(prior), digest) == Err::<VoteDecision, DagError>(
            DagError::InvalidEpoch { expected: header.epoch, received: prior.epoch },
        ),
{
}

/// A vote request is looked at exactly when it names at most as many
/// parents as the committee has authorities and the requesting peer's network
/// key is that of the header's author (the first authority with that key).
pub proof fn law_admission(committee: Committee, header: HeaderInfo, num_parents: nat, key: Seq<u8>, i: int)
    requires
        0 <= i < committee.authorities@.len(),
        committee.authorities@[i].network_key@ == key,
        forall|j: int| 0 <= j < i ==> committee.authorities@[j].network_key@ != key,
    ensures
        admission(committee, header, num_parents, Some(key)) is Ok <==> num_parents <= committee.authorities@.len()
            && committee.authorities@[i].id == header.author,
        admission(committee, header, num_parents, None) is Err,
{
    lemma_network_key_owner_at(committee.authorities@, key, i);
}

/// A request from a peer whose network key no authority has is refused.
pub proof fn law_admission_unknown_peer(committee: Committee, header: HeaderInfo, num_parents: nat, key: Seq<u8>)
    requires
        num_parents <= committee.authorities@.len(),
        forall|j: int| 0 <= j < committee.authorities@.len() ==> committee.authorities@[j].network_key@ != key,
    ensures
        admission(committee, header, num_parents, Some(key)) == Err::<(), DagError>(
            DagError::NetworkError(PeerError::UnknownNetworkKey),
        ),
{
    lemma_network_key_owner_none(committee.authorities@, key);
}

/// A header is too old to vote on exactly when the primary's round is more
/// than three rounds past it.
pub proof fn law_header_age(narwhal_round: u64, header_round: u64)
    ensures
        limit_round(narwhal_round) > header_round <==> narwhal_round > header_round + 3,
{
}

} // verus!
