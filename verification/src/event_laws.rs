//! Properties of signature collection on external events.
use vstd::prelude::*;

use crate::committee::{Authority, stake_of};
use crate::events::{merged, signature_map, signed_stake_of, signer_index, signers, with_signature, Signatures};

verus! {

proof fn lemma_signer_index_spec(s: Signatures, a: u16)
    ensures
        match signer_index(s, a) {
            Some(i) => 0 <= i < s.len() && s[i].0 == a && forall|j: int| 0 <= j < i ==> s[j].0 != a,
            None => forall|j: int| 0 <= j < s.len() ==> s[j].0 != a,
        },
    decreases s.len(),
{
    if s.len() > 0 && s[0].0 != a {
        lemma_signer_index_spec(s.drop_first(), a);
        match signer_index(s.drop_first(), a) {
            Some(i) => {
                assert forall|j: int| 0 <= j < i + 1 implies s[j].0 != a by {
                    if j > 0 {
                        assert(s[j] == s.drop_first()[j - 1]);
                    }
                }
            },
            None => {
                assert forall|j: int| 0 <= j < s.len() implies s[j].0 != a by {
                    if j > 0 {
                        assert(s[j] == s.drop_first()[j - 1]);
                    }
                }
            },
        }
    }
}

proof fn lemma_map_contains(s: Signatures, k: u16)
    ensures
        signature_map(s).dom().contains(k) <==> exists|i: int| 0 <= i < s.len() && s[i].0 == k,
    decreases s.len(),
{
    if s.len() > 0 {
        lemma_map_contains(s.drop_last(), k);
        if signature_map(s.drop_last()).dom().contains(k) {
            let i = choose|i: int| 0 <= i < s.drop_last().len() && s.drop_last()[i].0 == k;
            assert(s[i].0 == k);
        }
        if exists|i: int| 0 <= i < s.len() && s[i].0 == k {
            let i = choose|i: int| 0 <= i < s.len() && s[i].0 == k;
            if i < s.len() - 1 {
                assert(s.drop_last()[i].0 == k);
            }
        }
    }
}

proof fn lemma_map_at(s: Signatures, i: int)
    requires
        signers(s).no_duplicates(),
        0 <= i < s.len(),
    ensures
        signature_map(s).dom().contains(s[i].0),
        signature_map(s)[s[i].0] == s[i].1,
    decreases s.len(),
{
    if i < s.len() - 1 {
        assert(signers(s.drop_last()) =~= signers(s).drop_last());
        lemma_map_at(s.drop_last(), i);
        assert(signers(s)[i] != signers(s)[s.len() - 1]);
    }
}

proof fn lemma_with_signature_wf(s: Signatures, a: u16, g: Seq<u8>)
    requires
        signers(s).no_duplicates(),
    ensures
        signers(with_signature(s, a, g)).no_duplicates(),
{
    lemma_signer_index_spec(s, a);
    match signer_index(s, a) {
        Some(i) => {
            assert(signers(with_signature(s, a, g)) =~= signers(s));
        },
        None => {
            assert(signers(with_signature(s, a, g)) =~= signers(s).push(a));
            assert forall|j: int| 0 <= j < signers(s).len() implies signers(s)[j] != a by {
                assert(s[j].0 != a);
            }
        },
    }
}

proof fn lemma_same_signers_stake(auths: Seq<Authority>, t: Signatures, u: Signatures)
    requires
        signers(t) == signers(u),
    ensures
        signed_stake_of(auths, t) == signed_stake_of(auths, u),
    decreases t.len(),
{
    assert(t.len() == signers(t).len() && u.len() == signers(u).len());
    if t.len() > 0 {
        assert(signers(t.drop_last()) =~= signers(t).drop_last());
        assert(signers(u.drop_last()) =~= signers(u).drop_last());
        assert(t.last().0 == signers(t)[t.len() - 1]);
        assert(u.last().0 == signers(u)[u.len() - 1]);
        lemma_same_signers_stake(auths, t.drop_last(), u.drop_last());
    }
}

/// Signing records the signer's signature and leaves every other signature
/// as it was.
pub proof fn law_signature_recorded(s: Signatures, a: u16, g: Seq<u8>)
    requires
        signers(s).no_duplicates(),
    ensures
        signature_map(with_signature(s, a, g)) == signature_map(s).insert(a, g),
        signers(with_signature(s, a, g)).no_duplicates(),
{
    lemma_with_signature_wf(s, a, g);
    lemma_signer_index_spec(s, a);
    let t = with_signature(s, a, g);
    match signer_index(s, a) {
        Some(i) => {
            assert forall|k: u16| signature_map(t).dom().contains(k) <==> #[trigger] signature_map(s).insert(a, g).dom().contains(k) by {
                lemma_map_contains(t, k);
                lemma_map_contains(s, k);
                if exists|j: int| 0 <= j < s.len() && s[j].0 == k {
                    let j = choose|j: int| 0 <= j < s.len() && s[j].0 == k;
                    assert(t[j].0 == k);
                }
                if exists|j: int| 0 <= j < t.len() && t[j].0 == k {
                    let j = choose|j: int| 0 <= j < t.len() && t[j].0 == k;
                    assert(s[j].0 == k);
                }
                if k == a {
                    assert(s[i].0 == a);
                }
            }
            assert forall|k: u16| #[trigger] signature_map(t).dom().contains(k) implies signature_map(t)[k] == signature_map(s).insert(
                a,
                g,
            )[k] by {
                lemma_map_contains(t, k);
                let j = choose|j: int| 0 <= j < t.len() && t[j].0 == k;
                lemma_map_at(t, j);
                if k != a {
                    assert(s[j] == t[j]);
                    lemma_map_at(s, j);
                } else {
                    assert(signers(t)[j] == signers(t)[i]);
                }
            }
            assert(signature_map(t) =~= signature_map(s).insert(a, g));
        },
        None => {
            assert(t.drop_last() =~= s);
        },
    }
}

/// Signing never lowers the stake behind an event: a new signer adds its
/// stake, a signer signing again adds nothing.
pub proof fn law_stake_grows(auths: Seq<Authority>, s: Signatures, a: u16, g: Seq<u8>)
    ensures
        signed_stake_of(auths, with_signature(s, a, g)) == signed_stake_of(auths, s) + (if signer_index(s, a) is None {
            stake_of(auths, a)
        } else {
            0
        }),
{
    match signer_index(s, a) {
        Some(i) => {
            lemma_signer_index_spec(s, a);
            assert(signers(with_signature(s, a, g)) =~= signers(s));
            lemma_same_signers_stake(auths, with_signature(s, a, g), s);
        },
        None => {
            assert(with_signature(s, a, g).drop_last() =~= s);
        },
    }
}

proof fn lemma_merged(s: Signatures, inc: Signatures, n: int)
    requires
        signers(s).no_duplicates(),
        0 <= n <= inc.len(),
    ensures
        signers(merged(s, inc, n)).no_duplicates(),
        signature_map(merged(s, inc, n)) == signature_map(s).union_prefer_right(signature_map(inc.take(n))),
    decreases n,
{
    if n == 0 {
        assert(signature_map(inc.take(0)) =~= Map::<u16, Seq<u8>>::empty());
        assert(signature_map(s).union_prefer_right(Map::<u16, Seq<u8>>::empty()) =~= signature_map(s));
    } else {
        lemma_merged(s, inc, n - 1);
        law_signature_recorded(merged(s, inc, n - 1), inc[n - 1].0, inc[n - 1].1);
        assert(inc.take(n).drop_last() =~= inc.take(n - 1));
        assert(signature_map(s).union_prefer_right(signature_map(inc.take(n - 1))).insert(inc[n - 1].0, inc[n - 1].1)
            =~= signature_map(s).union_prefer_right(signature_map(inc.take(n))));
    }
}

/// Merging a peer's signatures into a stored copy gives the stored
/// signatures overridden by the peer's.
pub proof fn law_merge(s: Signatures, inc: Signatures)
    requires
        signers(s).no_duplicates(),
    ensures
        signers(merged(s, inc, inc.len() as int)).no_duplicates(),
        signature_map(merged(s, inc, inc.len() as int)) == signature_map(s).union_prefer_right(signature_map(inc)),
{
    lemma_merged(s, inc, inc.len() as int);
    assert(inc.take(inc.len() as int) =~= inc);
}

/// Merging the same peer copy twice records the same signatures as merging
/// it once.
pub proof fn law_merge_twice(s: Signatures, inc: Signatures)
    requires
        signers(s).no_duplicates(),
    ensures
        signature_map(merged(merged(s, inc, inc.len() as int), inc, inc.len() as int)) == signature_map(
            merged(s, inc, inc.len() as int),
        ),
{
    law_merge(s, inc);
    law_merge(merged(s, inc, inc.len() as int), inc);
    assert(signature_map(s).union_prefer_right(signature_map(inc)).union_prefer_right(signature_map(inc))
        =~= signature_map(s).union_prefer_right(signature_map(inc)));
}

/// Merging never lowers the stake behind an event.
pub proof fn law_merge_stake_grows(auths: Seq<Authority>, s: Signatures, inc: Signatures, n: int)
    requires
        0 <= n <= inc.len(),
    ensures
        signed_stake_of(auths, merged(s, inc, n)) >= signed_stake_of(auths, s),
    decreases n,
{
    if n > 0 {
        law_merge_stake_grows(auths, s, inc, n - 1);
        law_stake_grows(auths, merged(s, inc, n - 1), inc[n - 1].0, inc[n - 1].1);
    }
}

} // verus!
