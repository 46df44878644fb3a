//! The committee of authorities of an epoch, and the stake arithmetic the
//! primary and the TSS party use.
use vstd::prelude::*;

use crate::text::bytes_equal;

verus! {

/// An authority of the committee.
#[derive(Debug)]
pub struct Authority {
    /// The authority's identifier within the committee.
    pub id: u16,
    /// Its voting power.
    pub stake: u64,
    /// Its protocol public key.
    pub protocol_key: Vec<u8>,
    /// Its network public key; the bytes are also its peer id.
    pub network_key: Vec<u8>,
    /// The address of its primary.
    pub primary_address: String,
}

/// The committee of an epoch, its authorities in the committee's order.
#[derive(Debug)]
pub struct Committee {
    pub epoch: u64,
    pub authorities: Vec<Authority>,
}

/// The sum of the stakes of `auths`.
pub open spec fn stake_sum(auths: Seq<Authority>) -> nat
    decreases auths.len(),
{
    if auths.len() == 0 {
        0
    } else {
        stake_sum(auths.drop_last()) + auths.last().stake as nat
    }
}

/// The stake of the authority with identifier `id`, or 0 if there is none
/// (the first one counts, should there be several).
pub open spec fn stake_of(auths: Seq<Authority>, id: u16) -> nat
    decreases auths.len(),
{
    if auths.len() == 0 {
        0
    } else if auths[0].id == id {
        auths[0].stake as nat
    } else {
        stake_of(auths.drop_first(), id)
    }
}

/// The position of the first authority with identifier `id`, if any.
pub open spec fn position_of_id(auths: Seq<Authority>, id: u16) -> Option<int> {
    if exists|i: int| 0 <= i < auths.len() && auths[i].id == id {
        Some(choose|i: int| 0 <= i < auths.len() && auths[i].id == id && forall|j: int| 0 <= j < i ==> auths[j].id != id)
    } else {
        None
    }
}

impl Committee {
    pub open spec fn total(&self) -> nat {
        stake_sum(self.authorities@)
    }

    /// The total stake fits in a stake value.
    pub open spec fn wf(&self) -> bool {
        self.total() <= u64::MAX
    }

    /// The stake needed for a quorum: more than two thirds of the total.
    pub open spec fn quorum(&self) -> nat {
        2 * self.total() / 3 + 1
    }

    /// The number of authorities.
    pub fn size(&self) -> (r: usize)
        ensures r == self.authorities@.len(),
    {
        self.authorities.len()
    }

    pub fn epoch(&self) -> (r: u64)
        ensures r == self.epoch,
    {
        self.epoch
    }

    pub fn total_stake(&self) -> (r: u64)
        requires self.wf(),
        ensures r == self.total(),
    {
        let mut total: u64 = 0;
        let mut i: usize = 0;
        while i < self.authorities.len()
            invariant
                i <= self.authorities.len(),
                stake_sum(self.authorities@) <= u64::MAX,
                total == stake_sum(self.authorities@.subrange(0, i as int)),
            decreases self.authorities.len() - i,
        {
            proof {
                let p = self.authorities@.subrange(0, i + 1);
                assert(p.drop_last() =~= self.authorities@.subrange(0, i as int));
                lemma_stake_sum_prefix(self.authorities@, i + 1);
            }
            total = total + self.authorities[i].stake;
            i = i + 1;
        }
        proof {
            assert(self.authorities@.subrange(0, i as int) =~= self.authorities@);
        }
        total
    }

    /// The quorum threshold; twice the total stake must fit in a stake value.
    pub fn quorum_threshold(&self) -> (r: u64)
        requires 2 * self.total() <= u64::MAX,
        ensures r == self.quorum(),
    {
        let total = self.total_stake();
        2 * total / 3 + 1
    }

    /// The stake of authority `id`, 0 when it is not in the committee.
    pub fn stake_by_id(&self, id: u16) -> (r: u64)
        ensures r == stake_of(self.authorities@, id),
    {
        let mut i: usize = 0;
        proof {
            assert(self.authorities@.subrange(0, self.authorities@.len() as int) =~= self.authorities@);
        }
        while i < self.authorities.len()
            invariant
                i <= self.authorities.len(),
                stake_of(self.authorities@, id) == stake_of(self.authorities@.subrange(i as int, self.authorities@.len() as int), id),
            decreases self.authorities.len() - i,
        {
            let ghost rest = self.authorities@.subrange(i as int, self.authorities@.len() as int);
            proof {
                assert(rest.drop_first() =~= self.authorities@.subrange(i + 1, self.authorities@.len() as int));
            }
            if self.authorities[i].id == id {
                return self.authorities[i].stake;
            }
            i = i + 1;
        }
        0
    }

    /// The first authority with identifier `id`.
    pub fn authority(&self, id: u16) -> (r: Option<&Authority>)
        ensures
            match r {
                Some(a) => exists|i: int| 0 <= i < self.authorities@.len() && self.authorities@[i] == *a && a.id == id
                    && forall|j: int| 0 <= j < i ==> self.authorities@[j].id != id,
                None => forall|i: int| 0 <= i < self.authorities@.len() ==> self.authorities@[i].id != id,
            },
    {
        let mut i: usize = 0;
        while i < self.authorities.len()
            invariant
                i <= self.authorities.len(),
                forall|j: int| 0 <= j < i ==> self.authorities@[j].id != id,
            decreases self.authorities.len() - i,
        {
            if self.authorities[i].id == id {
                return Some(&self.authorities[i]);
            }
            i = i + 1;
        }
        None
    }

    /// The first authority whose network key is `key`.
    pub fn authority_by_network_key(&self, key: &Vec<u8>) -> (r: Option<&Authority>)
        ensures
            match r {
                Some(a) => exists|i: int| 0 <= i < self.authorities@.len() && self.authorities@[i] == *a && a.network_key@ == key@
                    && forall|j: int| 0 <= j < i ==> self.authorities@[j].network_key@ != key@,
                None => forall|i: int| 0 <= i < self.authorities@.len() ==> self.authorities@[i].network_key@ != key@,
            },
    {
        let mut i: usize = 0;
        while i < self.authorities.len()
            invariant
                i <= self.authorities.len(),
                forall|j: int| 0 <= j < i ==> self.authorities@[j].network_key@ != key@,
            decreases self.authorities.len() - i,
        {
            if bytes_equal(&self.authorities[i].network_key, key) {
                return Some(&self.authorities[i]);
            }
            i = i + 1;
        }
        None
    }

    /// The first authority whose protocol key is `key`.
    pub fn authority_by_key(&self, key: &Vec<u8>) -> (r: Option<&Authority>)
        ensures
            match r {
                Some(a) => exists|i: int| 0 <= i < self.authorities@.len() && self.authorities@[i] == *a && a.protocol_key@ == key@
                    && forall|j: int| 0 <= j < i ==> self.authorities@[j].protocol_key@ != key@,
                None => forall|i: int| 0 <= i < self.authorities@.len() ==> self.authorities@[i].protocol_key@ != key@,
            },
    {
        let mut i: usize = 0;
        while i < self.authorities.len()
            invariant
                i <= self.authorities.len(),
                forall|j: int| 0 <= j < i ==> self.authorities@[j].protocol_key@ != key@,
            decreases self.authorities.len() - i,
        {
            if bytes_equal(&self.authorities[i].protocol_key, key) {
                return Some(&self.authorities[i]);
            }
            i = i + 1;
        }
        None
    }

    /// The positions of the authorities other than `id`, in committee order.
    pub fn others_by_id(&self, id: u16) -> (r: Vec<usize>)
        ensures
            r@ == other_positions(self.authorities@, id, self.authorities@.len() as int),
    {
        let mut out: Vec<usize> = Vec::new();
        let mut i: usize = 0;
        while i < self.authorities.len()
            invariant
                i <= self.authorities.len(),
                out@ == other_positions(self.authorities@, id, i as int),
            decreases self.authorities.len() - i,
        {
            if self.authorities[i].id != id {
                out.push(i);
            }
            i = i + 1;
        }
        out
    }
}

/// The positions below `n` of authorities whose identifier is not `id`.
pub open spec fn other_positions(auths: Seq<Authority>, id: u16, n: int) -> Seq<usize>
    decreases n,
{
    if n <= 0 {
        Seq::empty()
    } else if auths[n - 1].id != id {
        other_positions(auths, id, n - 1).push((n - 1) as usize)
    } else {
        other_positions(auths, id, n - 1)
    }
}

/// The positions listed are positions of the committee below `n`.
pub proof fn lemma_other_positions_bound(auths: Seq<Authority>, id: u16, n: int)
    requires
        n <= usize::MAX,
    ensures
        forall|j: int| 0 <= j < other_positions(auths, id, n).len() ==> other_positions(auths, id, n)[j] < n,
    decreases n,
{
    if n > 0 {
        lemma_other_positions_bound(auths, id, n - 1);
        let prev = other_positions(auths, id, n - 1);
        if auths[n - 1].id != id {
            assert(other_positions(auths, id, n) == prev.push((n - 1) as usize));
            assert forall|j: int| 0 <= j < prev.len() + 1 implies #[trigger] prev.push((n - 1) as usize)[j] < n by {
                if j < prev.len() {
                    assert(prev.push((n - 1) as usize)[j] == prev[j]);
                }
            }
        }
    }
}

/// The stake of a prefix is at most the stake of the whole.
pub proof fn lemma_stake_sum_prefix(auths: Seq<Authority>, k: int)
    requires 0 <= k <= auths.len(),
    ensures stake_sum(auths.subrange(0, k)) <= stake_sum(auths),
    decreases auths.len() - k,
{
    if k < auths.len() {
        let p = auths.subrange(0, k + 1);
        assert(p.drop_last() =~= auths.subrange(0, k));
        lemma_stake_sum_prefix(auths, k + 1);
    } else {
        assert(auths.subrange(0, k) =~= auths);
    }
}

} // verus!
