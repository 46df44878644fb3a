//! The parent digests a primary is fetching from header proposers: for each
//! (round, digest) the authority it was first learnt from.
use vstd::prelude::*;

use crate::primary::{digest_eq, DagError, HeaderInfo, ParentCertificate};

verus! {

/// How many rounds behind the primary's round a header may be and still be
/// voted on.
pub const HEADER_AGE_LIMIT: u64 = 3;

/// One entry: (round, digest) and the authority it was first known from.
pub type ParentEntry = (u64, [u8; 32], u16);

/// The key of an entry.
pub open spec fn entry_key(e: ParentEntry) -> (u64, [u8; 32]) {
    (e.0, e.1)
}

/// The map the entries describe, later entries overriding earlier ones.
pub open spec fn entries_map(s: Seq<ParentEntry>) -> Map<(u64, [u8; 32]), u16>
    decreases s.len(),
{
    if s.len() == 0 {
        Map::empty()
    } else {
        entries_map(s.drop_last()).insert(entry_key(s.last()), s.last().2)
    }
}

/// No two entries share a key.
pub open spec fn unique_keys(s: Seq<ParentEntry>) -> bool {
    forall|i: int, j: int| 0 <= i < j < s.len() ==> entry_key(s[i]) != entry_key(s[j])
}

/// The entries whose round is at least `bound`.
pub open spec fn keep_from(m: Map<(u64, [u8; 32]), u16>, bound: u64) -> Map<(u64, [u8; 32]), u16> {
    Map::new(|k: (u64, [u8; 32])| m.dom().contains(k) && k.0 >= bound, |k: (u64, [u8; 32])| m[k])
}

/// Claims the first `n` of `ds` at `round` for `author`: a digest not yet
/// known is recorded and kept, one already known is dropped. Gives the kept
/// digests and the map afterwards.
pub open spec fn claim_prefix(
    m: Map<(u64, [u8; 32]), u16>,
    round: u64,
    ds: Seq<[u8; 32]>,
    author: u16,
    n: int,
) -> (Seq<[u8; 32]>, Map<(u64, [u8; 32]), u16>)
    decreases n,
{
    if n <= 0 {
        (Seq::empty(), m)
    } else {
        let prev = claim_prefix(m, round, ds, author, n - 1);
        if prev.1.dom().contains((round, ds[n - 1])) {
            prev
        } else {
            (prev.0.push(ds[n - 1]), prev.1.insert((round, ds[n - 1]), author))
        }
    }
}

/// The claim of all of `ds`.
pub open spec fn claim(
    m: Map<(u64, [u8; 32]), u16>,
    round: u64,
    ds: Seq<[u8; 32]>,
    author: u16,
) -> (Seq<[u8; 32]>, Map<(u64, [u8; 32]), u16>) {
    claim_prefix(m, round, ds, author, ds.len() as int)
}

/// The lowest round a header may have for a vote, the primary being at
/// `narwhal_round`.
pub open spec fn limit_round(narwhal_round: u64) -> u64 {
    narwhal_round.saturating_sub(HEADER_AGE_LIMIT)
}

proof fn lemma_entries_map_contains(s: Seq<ParentEntry>, k: (u64, [u8; 32]))
    ensures
        entries_map(s).dom().contains(k) <==> exists|i: int| 0 <= i < s.len() && entry_key(s[i]) == k,
    decreases s.len(),
{
    if s.len() > 0 {
        lemma_entries_map_contains(s.drop_last(), k);
        if entries_map(s.drop_last()).dom().contains(k) {
            let i = choose|i: int| 0 <= i < s.drop_last().len() && entry_key(s.drop_last()[i]) == k;
            assert(entry_key(s[i]) == k);
        }
        if exists|i: int| 0 <= i < s.len() && entry_key(s[i]) == k {
            let i = choose|i: int| 0 <= i < s.len() && entry_key(s[i]) == k;
            if i < s.len() - 1 {
                assert(entry_key(s.drop_last()[i]) == k);
            }
        }
    }
}

proof fn lemma_entries_map_value(s: Seq<ParentEntry>, i: int)
    requires
        unique_keys(s),
        0 <= i < s.len(),
    ensures
        entries_map(s).dom().contains(entry_key(s[i])),
        entries_map(s)[entry_key(s[i])] == s[i].2,
    decreases s.len(),
{
    if i < s.len() - 1 {
        assert(unique_keys(s.drop_last()));
        lemma_entries_map_value(s.drop_last(), i);
        assert(entry_key(s[i]) != entry_key(s.last()));
    }
}

proof fn lemma_entries_map_push(s: Seq<ParentEntry>, e: ParentEntry)
    ensures
        entries_map(s.push(e)) == entries_map(s).insert(entry_key(e), e.2),
{
    assert(s.push(e).drop_last() =~= s);
}

/// The position of the entry with key (`round`, `digest`).
fn find_entry(entries: &Vec<ParentEntry>, round: u64, digest: &[u8; 32]) -> (r: Option<usize>)
    ensures
        match r {
            Some(i) => i < entries@.len() && entry_key(entries@[i as int]) == (round, *digest),
            None => forall|j: int| 0 <= j < entries@.len() ==> entry_key(entries@[j]) != (round, *digest),
        },
{
    let mut i: usize = 0;
    while i < entries.len()
        invariant
            i <= entries@.len(),
            forall|j: int| 0 <= j < i ==> entry_key(entries@[j]) != (round, *digest),
        decreases entries@.len() - i,
    {
        if entries[i].0 == round && digest_eq(&entries[i].1, digest) {
            return Some(i);
        }
        i = i + 1;
    }
    None
}

/// The parent digests being fetched, each with the authority it was first
/// known from. The entries are a list with no key twice, seen as a map: the
/// keys hold a digest, a byte array, for which vstd states no ordering laws,
/// so an ordered map would carry no usable contract here.
pub struct ParentDigests {
    entries: Vec<ParentEntry>,
}

impl View for ParentDigests {
    type V = Map<(u64, [u8; 32]), u16>;

    closed spec fn view(&self) -> Map<(u64, [u8; 32]), u16> {
        entries_map(self.entries@)
    }
}

impl ParentDigests {
    #[verifier::type_invariant]
    spec fn inv(self) -> bool {
        unique_keys(self.entries@)
    }

    /// No digest is being fetched.
    pub fn new() -> (r: Self)
        ensures
            r@ == Map::<(u64, [u8; 32]), u16>::empty(),
    {
        ParentDigests { entries: Vec::new() }
    }

    /// The authority the parent (`round`, `digest`) was first known from.
    pub fn get(&self, round: u64, digest: &[u8; 32]) -> (r: Option<u16>)
        ensures
            r == (if self@.dom().contains((round, *digest)) {
                Some(self@[(round, *digest)])
            } else {
                None
            }),
    {
        proof {
            use_type_invariant(self);
            lemma_entries_map_contains(self.entries@, (round, *digest));
        }
        match find_entry(&self.entries, round, digest) {
            Some(i) => {
                proof {
                    lemma_entries_map_value(self.entries@, i as int);
                }
                Some(self.entries[i].2)
            },
            None => None,
        }
    }

    /// Forgets the parents of rounds below `bound`.
    pub fn forget_below(&mut self, bound: u64)
        ensures
            final(self)@ == keep_from(old(self)@, bound),
    {
        proof {
            use_type_invariant(&*self);
        }
        let mut kept: Vec<ParentEntry> = Vec::new();
        let mut i: usize = 0;
        while i < self.entries.len()
            invariant
                i <= self.entries@.len(),
                unique_keys(self.entries@),
                unique_keys(kept@),
                forall|a: int| 0 <= a < kept@.len() ==> exists|j: int| 0 <= j < i && #[trigger] kept@[a] == #[trigger] self.entries@[j],
                entries_map(kept@) == keep_from(entries_map(self.entries@.take(i as int)), bound),
            decreases self.entries@.len() - i,
        {
            let e = self.entries[i];
            let ghost s = self.entries@;
            proof {
                assert(s.take(i + 1).drop_last() =~= s.take(i as int));
                assert(entries_map(s.take(i + 1)) == entries_map(s.take(i as int)).insert(entry_key(e), e.2));
            }
            if e.0 >= bound {
                proof {
                    assert forall|a: int| 0 <= a < kept@.len() implies entry_key(#[trigger] kept@[a]) != entry_key(e) by {
                        let j = choose|j: int| 0 <= j < i && kept@[a] == s[j];
                    }
                    lemma_entries_map_push(kept@, e);
                    assert(keep_from(entries_map(s.take(i as int)).insert(entry_key(e), e.2), bound) =~= keep_from(
                        entries_map(s.take(i as int)),
                        bound,
                    ).insert(entry_key(e), e.2));
                }
                kept.push(e);
                proof {
                    assert forall|a: int| 0 <= a < kept@.len() implies exists|j: int| 0 <= j < i + 1 && #[trigger] kept@[a] == #[trigger] s[j] by {
                        if a == kept@.len() - 1 {
                            assert(kept@[a] == s[i as int]);
                        } else {
                            let j = choose|j: int| 0 <= j < i && kept@[a] == s[j];
                            assert(kept@[a] == s[j]);
                        }
                    }
                }
            } else {
                proof {
                    assert(keep_from(entries_map(s.take(i as int)).insert(entry_key(e), e.2), bound) =~= keep_from(
                        entries_map(s.take(i as int)),
                        bound,
                    ));
                }
            }
            i = i + 1;
        }
        proof {
            assert(self.entries@.take(i as int) =~= self.entries@);
        }
        self.entries = kept;
    }

    /// Claims `digests` at `round` for `author`: those not known yet are
    /// recorded as coming from `author` and returned, in order; those known
    /// already, from any author, are dropped.
    pub fn claim(&mut self, round: u64, digests: &Vec<[u8; 32]>, author: u16) -> (r: Vec<[u8; 32]>)
        ensures
            (r@, final(self)@) == claim(old(self)@, round, digests@, author),
    {
        proof {
            use_type_invariant(&*self);
        }
        let mut entries: Vec<ParentEntry> = Vec::new();
        std::mem::swap(&mut entries, &mut self.entries);
        let ghost m0 = entries_map(entries@);
        let mut kept: Vec<[u8; 32]> = Vec::new();
        let mut i: usize = 0;
        while i < digests.len()
            invariant
                i <= digests@.len(),
                unique_keys(entries@),
                (kept@, entries_map(entries@)) == claim_prefix(m0, round, digests@, author, i as int),
            decreases digests@.len() - i,
        {
            let d = digests[i];
            proof {
                lemma_entries_map_contains(entries@, (round, d));
            }
            match find_entry(&entries, round, &d) {
                Some(_) => {},
                None => {
                    proof {
                        lemma_entries_map_push(entries@, (round, d, author));
                    }
                    entries.push((round, d, author));
                    kept.push(d);
                },
            }
            i = i + 1;
        }
        self.entries = entries;
        kept
    }

    /// The parent digests of `header` still to be asked from its author.
    /// `digests` are those the synchronizer does not know, the primary is at
    /// `narwhal_round`. A header more than `HEADER_AGE_LIMIT` rounds behind
    /// is refused; parents below the round before the lowest acceptable header
    /// round are forgotten first.
    pub fn unknown_parent_digests(
        &mut self,
        header: &HeaderInfo,
        narwhal_round: u64,
        digests: &Vec<[u8; 32]>,
    ) -> (r: Result<Vec<[u8; 32]>, DagError>)
        requires
            header.round >= 1 || limit_round(narwhal_round) > header.round || digests@.len() == 0,
        ensures
            limit_round(narwhal_round) > header.round ==> r == Err::<Vec<[u8; 32]>, DagError>(
                DagError::TooOld(header.digest, header.round, narwhal_round),
            ) && final(self)@ == old(self)@,
            limit_round(narwhal_round) <= header.round ==> (r matches Ok(kept) && {
                let c = claim(
                    keep_from(old(self)@, limit_round(narwhal_round).saturating_sub(1)),
                    (header.round - 1) as u64,
                    digests@,
                    header.author,
                );
                kept@ == c.0 && final(self)@ == c.1
            }),
    {
        let limit = narwhal_round.saturating_sub(HEADER_AGE_LIMIT);
        if limit > header.round {
            return Err(DagError::TooOld(header.digest, header.round, narwhal_round));
        }
        self.forget_below(limit.saturating_sub(1));
        let parent_round: u64 = if header.round >= 1 { header.round - 1 } else { 0 };
        let kept = self.claim(parent_round, digests, header.author);
        Ok(kept)
    }

    /// The parents, among those the header's author sent along with its
    /// vote request, that were asked from that author.
    pub fn requested_parents(&self, header: &HeaderInfo, parents: &Vec<ParentCertificate>) -> (r: Vec<ParentCertificate>)
        ensures
            r@ == parents@.filter(|p: ParentCertificate| self@.dom().contains((p.round, p.digest)) && self@[(p.round, p.digest)] == header.author),
    {
        let ghost keep = |p: ParentCertificate| self@.dom().contains((p.round, p.digest)) && self@[(p.round, p.digest)] == header.author;
        let mut out: Vec<ParentCertificate> = Vec::new();
        let mut i: usize = 0;
        while i < parents.len()
            invariant
                i <= parents@.len(),
                keep == (|p: ParentCertificate| self@.dom().contains((p.round, p.digest)) && self@[(p.round, p.digest)] == header.author),
                out@ == parents@.take(i as int).filter(keep),
            decreases parents@.len() - i,
        {
            let p = parents[i];
            proof {
                assert(parents@.take(i + 1).drop_last() =~= parents@.take(i as int));
                reveal(Seq::filter);
            }
            match self.get(p.round, &p.digest) {
                Some(from) => {
                    if from == header.author {
                        out.push(p);
                    }
                },
                None => {},
            }
            i = i + 1;
        }
        proof {
            assert(parents@.take(i as int) =~= parents@);
        }
        out
    }
}

} // verus!
