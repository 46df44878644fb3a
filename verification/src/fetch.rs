//! Which certificates a primary returns to a peer that is catching up, and
//! the answers to certificate and payload lookups.
use vstd::prelude::*;

verus! {

/// Whether the certificate of `origin` at `round` is stored; `stored` lists
/// the (origin, round) of every stored certificate.
pub open spec fn is_stored(stored: Seq<(u16, u64)>, origin: u16, round: u64) -> bool {
    exists|j: int| 0 <= j < stored.len() && stored[j] == (origin, round)
}

/// Whether `round` of `origin` comes after `after`, is stored and is not to
/// be skipped.
pub open spec fn is_candidate(stored: Seq<(u16, u64)>, origin: u16, after: u64, skip: Seq<u64>, round: u64) -> bool {
    is_stored(stored, origin, round) && round > after && !skip.contains(round)
}

/// No origin is listed twice.
pub open spec fn distinct_origins(skips: Seq<(u16, Vec<u64>)>) -> bool {
    forall|i: int, j: int| 0 <= i < j < skips.len() ==> skips[i].0 != skips[j].0
}

/// Whether the certificate (origin, round) `k` is one the peer asked for:
/// its origin is listed, it lies above `lower_bound`, it is stored, and the
/// peer does not already have it.
pub open spec fn is_wanted(stored: Seq<(u16, u64)>, lower_bound: u64, skips: Seq<(u16, Vec<u64>)>, k: (u16, u64)) -> bool {
    exists|i: int| 0 <= i < skips.len() && skips[i].0 == k.0 && is_candidate(stored, k.0, lower_bound, skips[i].1@, k.1)
}

/// The order certificates are returned in: by round, then by origin.
pub open spec fn fetch_before(a: (u16, u64), b: (u16, u64)) -> bool {
    a.1 < b.1 || (a.1 == b.1 && a.0 < b.0)
}

fn contains_round(rounds: &Vec<u64>, r: u64) -> (b: bool)
    ensures
        b == rounds@.contains(r),
{
    let mut i: usize = 0;
    while i < rounds.len()
        invariant
            i <= rounds@.len(),
            forall|j: int| 0 <= j < i ==> rounds@[j] != r,
        decreases rounds@.len() - i,
    {
        if rounds[i] == r {
            return true;
        }
        i = i + 1;
    }
    false
}

/// The lowest stored round of `origin` after `after` that is not in `skip`.
pub fn next_round(stored: &Vec<(u16, u64)>, origin: u16, after: u64, skip: &Vec<u64>) -> (r: Option<u64>)
    ensures
        match r {
            Some(n) => is_candidate(stored@, origin, after, skip@, n) && forall|m: u64|
                #[trigger] is_candidate(stored@, origin, after, skip@, m) ==> n <= m,
            None => forall|m: u64| !#[trigger] is_candidate(stored@, origin, after, skip@, m),
        },
{
    let mut best: Option<u64> = None;
    let mut j: usize = 0;
    while j < stored.len()
        invariant
            j <= stored@.len(),
            match best {
                Some(n) => is_candidate(stored@, origin, after, skip@, n) && forall|jj: int|
                    0 <= jj < j && (#[trigger] stored@[jj]).0 == origin && stored@[jj].1 > after && !skip@.contains(stored@[jj].1)
                    ==> n <= stored@[jj].1,
                None => forall|jj: int|
                    0 <= jj < j && (#[trigger] stored@[jj]).0 == origin && stored@[jj].1 > after ==> skip@.contains(stored@[jj].1),
            },
        decreases stored@.len() - j,
    {
        let (o, r) = stored[j];
        if o == origin && r > after && !contains_round(skip, r) {
            proof {
                assert(stored@[j as int] == (origin, r));
            }
            match best {
                Some(n) => {
                    if r < n {
                        best = Some(r);
                    }
                },
                None => {
                    best = Some(r);
                },
            }
        }
        j = j + 1;
    }
    proof {
        assert forall|m: u64| #[trigger] is_candidate(stored@, origin, after, skip@, m) implies match best {
            Some(n) => n <= m,
            None => false,
        } by {
            let jj = choose|jj: int| 0 <= jj < stored@.len() && stored@[jj] == (origin, m);
            assert(stored@[jj].0 == origin);
        }
    }
    best
}

/// The position in `skips` of the origin `k.0`, when `k` is wanted.
proof fn lemma_wanted_index(
    stored: Seq<(u16, u64)>,
    lower_bound: u64,
    skips: Seq<(u16, Vec<u64>)>,
    k: (u16, u64),
    idx: int,
)
    requires
        distinct_origins(skips),
        0 <= idx < skips.len(),
        skips[idx].0 == k.0,
    ensures
        is_wanted(stored, lower_bound, skips, k) <==> is_candidate(stored, k.0, lower_bound, skips[idx].1@, k.1),
{
    if is_wanted(stored, lower_bound, skips, k) {
        let i = choose|i: int| 0 <= i < skips.len() && skips[i].0 == k.0 && is_candidate(stored, k.0, lower_bound, skips[i].1@, k.1);
        if i != idx {
            if i < idx {
                assert(skips[i].0 != skips[idx].0);
            } else {
                assert(skips[idx].0 != skips[i].0);
            }
        }
    }
}

/// What a certificate fetch may answer: at most `max_items` wanted
/// certificates in strictly increasing order, with none missing up to the
/// last one sent, and all of them when fewer than `max_items` are sent.
pub open spec fn is_fetch_answer(
    stored: Seq<(u16, u64)>,
    lower_bound: u64,
    skips: Seq<(u16, Vec<u64>)>,
    max_items: usize,
    out: Seq<(u16, u64)>,
) -> bool {
    &&& out.len() <= max_items
    &&& forall|a: int| 0 <= a < out.len() ==> is_wanted(stored, lower_bound, skips, #[trigger] out[a])
    &&& forall|i: int, j: int| 0 <= i < j < out.len() ==> fetch_before(out[i], out[j])
    &&& forall|k: (u16, u64)|
        is_wanted(stored, lower_bound, skips, k) && (out.len() < max_items || (out.len() > 0 && !fetch_before(
            out.last(),
            k,
        ))) ==> #[trigger] out.contains(k)
}

/// The (origin, round) an entry of the fetch queue stands for; the entry
/// holds the round and the position of the origin in the skip lists.
pub open spec fn qkey(skips: Seq<(u16, Vec<u64>)>, q: (u64, usize)) -> (u16, u64) {
    (skips[q.1 as int].0, q.0)
}

/// Whether the queue holds an entry of the origin of `k` at or below its
/// round.
pub open spec fn queued(skips: Seq<(u16, Vec<u64>)>, queue: Seq<(u64, usize)>, k: (u16, u64)) -> bool {
    exists|c: int| 0 <= c < queue.len() && skips[queue[c].1 as int].0 == k.0 && queue[c].0 <= k.1
}

/// Whether origin `o` is among the first `n` skip lists.
pub open spec fn origin_below(skips: Seq<(u16, Vec<u64>)>, o: u16, n: int) -> bool {
    exists|idx: int| 0 <= idx < n && skips[idx].0 == o
}

/// The certificates a peer catching up is sent, as (origin, round): those
/// of the listed origins above `lower_bound` that are stored and not among
/// the rounds the peer lists as held for that origin, in the order of
/// round then origin, at most `max_items` of them. The handler answers with
/// the certificates so named, which the peer can process in this order
/// without missing parents.
pub fn fetch_certificates(
    stored: &Vec<(u16, u64)>,
    lower_bound: u64,
    skips: &Vec<(u16, Vec<u64>)>,
    max_items: usize,
) -> (out: Vec<(u16, u64)>)
    requires
        distinct_origins(skips@),
    ensures
        is_fetch_answer(stored@, lower_bound, skips@, max_items, out@),
{
    let mut out: Vec<(u16, u64)> = Vec::new();
    if max_items == 0 {
        return out;
    }
    // For each origin, the next round to send, as (round, position in `skips`).
    let mut queue: Vec<(u64, usize)> = Vec::new();
    let mut i: usize = 0;
    while i < skips.len()
        invariant
            i <= skips@.len(),
            distinct_origins(skips@),
            out@.len() == 0,
            forall|c: int| 0 <= c < queue@.len() ==> (#[trigger] queue@[c]).1 < i && is_wanted(
                stored@,
                lower_bound,
                skips@,
                qkey(skips@, queue@[c]),
            ),
            forall|c: int, d: int| 0 <= c < d < queue@.len() ==> (#[trigger] queue@[c]).1 != (#[trigger] queue@[d]).1,
            forall|k: (u16, u64)|
                is_wanted(stored@, lower_bound, skips@, k) && origin_below(skips@, k.0, i as int) ==> #[trigger] out@.contains(k)
                    || queued(skips@, queue@, k),
        decreases skips@.len() - i,
    {
        let next = next_round(stored, skips[i].0, lower_bound, &skips[i].1);
        let ghost q0 = queue@;
        match next {
            Some(r) => {
                proof {
                    lemma_wanted_index(stored@, lower_bound, skips@, (skips@[i as int].0, r), i as int);
                }
                queue.push((r, i));
            },
            None => {},
        }
        proof {
            assert forall|k: (u16, u64)|
                is_wanted(stored@, lower_bound, skips@, k) && origin_below(skips@, k.0, i + 1) implies #[trigger] out@.contains(k)
                    || queued(skips@, queue@, k) by {
                if origin_below(skips@, k.0, i as int) {
                    if queued(skips@, q0, k) {
                        let c = choose|c: int| 0 <= c < q0.len() && skips@[q0[c].1 as int].0 == k.0 && q0[c].0 <= k.1;
                        assert(queue@[c] == q0[c]);
                    }
                } else {
                    let idx = choose|idx: int| 0 <= idx < i + 1 && skips@[idx].0 == k.0;
                    assert(idx == i);
                    lemma_wanted_index(stored@, lower_bound, skips@, k, idx);
                    assert(is_candidate(stored@, skips@[idx].0, lower_bound, skips@[idx].1@, k.1));
                    assert(queue@[q0.len() as int] == (next.unwrap(), i));
                }
            }
        }
        i = i + 1;
    }
    while queue.len() > 0 && out.len() < max_items
        invariant
            distinct_origins(skips@),
            out@.len() <= max_items,
            forall|c: int| 0 <= c < queue@.len() ==> (#[trigger] queue@[c]).1 < skips@.len() && is_wanted(
                stored@,
                lower_bound,
                skips@,
                qkey(skips@, queue@[c]),
            ),
            forall|c: int, d: int| 0 <= c < d < queue@.len() ==> (#[trigger] queue@[c]).1 != (#[trigger] queue@[d]).1,
            forall|a: int| 0 <= a < out@.len() ==> is_wanted(stored@, lower_bound, skips@, #[trigger] out@[a]),
            forall|a: int, b: int| 0 <= a < b < out@.len() ==> fetch_before(out@[a], out@[b]),
            forall|a: int, c: int|
                0 <= a < out@.len() && 0 <= c < queue@.len() ==> fetch_before(#[trigger] out@[a], qkey(skips@, #[trigger] queue@[c])),
            forall|k: (u16, u64)| is_wanted(stored@, lower_bound, skips@, k) ==> #[trigger] out@.contains(k) || queued(skips@, queue@, k),
        decreases max_items - out@.len(),
    {
        // The smallest entry of the queue.
        let mut m: usize = 0;
        let mut c: usize = 1;
        while c < queue.len()
            invariant
                1 <= c <= queue@.len(),
                m < c,
                forall|c: int| 0 <= c < queue@.len() ==> (#[trigger] queue@[c]).1 < skips@.len(),
                forall|d: int| 0 <= d < c ==> !fetch_before(qkey(skips@, #[trigger] queue@[d]), qkey(skips@, queue@[m as int])),
            decreases queue@.len() - c,
        {
            let (r, idx) = queue[c];
            let (rm, idxm) = queue[m];
            if r < rm || (r == rm && skips[idx].0 < skips[idxm].0) {
                m = c;
            }
            c = c + 1;
        }
        let ghost q0 = queue@;
        let ghost o0 = out@;
        let (round, idx) = queue.remove(m);
        let origin = skips[idx].0;
        let ghost mk = (origin, round);
        proof {
            lemma_wanted_index(stored@, lower_bound, skips@, mk, idx as int);
            assert(q0[m as int] == (round, idx));
            assert forall|d: int| 0 <= d < q0.len() && d != m implies fetch_before(mk, qkey(skips@, #[trigger] q0[d])) by {
                if d < m {
                    assert(q0[d].1 != q0[m as int].1);
                } else {
                    assert(q0[m as int].1 != q0[d].1);
                }
                let di = q0[d].1 as int;
                if di < idx {
                    assert(skips@[di].0 != skips@[idx as int].0);
                } else {
                    assert(skips@[idx as int].0 != skips@[di].0);
                }
            }
        }
        out.push((origin, round));
        let next = next_round(stored, origin, round, &skips[idx].1);
        let ghost q1 = queue@;
        match next {
            Some(r) => {
                proof {
                    lemma_wanted_index(stored@, lower_bound, skips@, (origin, r), idx as int);
                }
                queue.push((r, idx));
            },
            None => {},
        }
        proof {
            assert forall|c: int| 0 <= c < q1.len() implies #[trigger] q1[c] == q0[if c < m { c } else { c + 1 }] by {}
            assert forall|c: int| 0 <= c < queue@.len() implies (#[trigger] queue@[c]).1 < skips@.len() && is_wanted(
                stored@,
                lower_bound,
                skips@,
                qkey(skips@, queue@[c]),
            ) && fetch_before(mk, qkey(skips@, queue@[c])) by {
                if c < q1.len() {
                    assert(queue@[c] == q1[c]);
                    let cc = if c < m { c } else { c + 1 };
                    assert(queue@[c] == q0[cc]);
                }
            }
            assert forall|c: int, d: int| 0 <= c < d < queue@.len() implies (#[trigger] queue@[c]).1 != (#[trigger] queue@[d]).1 by {
                let cc = if c < m { c } else { c + 1 };
                assert(queue@[c] == q1[c]);
                assert(queue@[c] == q0[cc]);
                if d < q1.len() {
                    let dd = if d < m { d } else { d + 1 };
                    assert(queue@[d] == q1[d]);
                    assert(queue@[d] == q0[dd]);
                } else {
                    if cc < m {
                    } else {
                        assert(q0[m as int].1 != q0[cc].1);
                    }
                }
            }
            assert forall|a: int, c: int|
                0 <= a < out@.len() && 0 <= c < queue@.len() implies fetch_before(#[trigger] out@[a], qkey(skips@, #[trigger] queue@[c])) by {
                if a < o0.len() {
                    assert(out@[a] == o0[a]);
                    assert(fetch_before(o0[a], qkey(skips@, q0[m as int])));
                }
            }
            assert forall|a: int, b: int| 0 <= a < b < out@.len() implies fetch_before(out@[a], out@[b]) by {
                assert(out@[a] == o0[a]);
                if b == o0.len() {
                    assert(fetch_before(o0[a], qkey(skips@, q0[m as int])));
                } else {
                    assert(out@[b] == o0[b]);
                }
            }
            assert forall|a: int| 0 <= a < out@.len() implies is_wanted(stored@, lower_bound, skips@, #[trigger] out@[a]) by {
                if a < o0.len() {
                    assert(out@[a] == o0[a]);
                }
            }
            assert forall|k: (u16, u64)| is_wanted(stored@, lower_bound, skips@, k) implies #[trigger] out@.contains(k) || queued(
                skips@,
                queue@,
                k,
            ) by {
                if o0.contains(k) {
                    let a = choose|a: int| 0 <= a < o0.len() && o0[a] == k;
                    assert(out@[a] == k);
                } else {
                    let c = choose|c: int| 0 <= c < q0.len() && skips@[q0[c].1 as int].0 == k.0 && q0[c].0 <= k.1;
                    if c == m {
                        if k.1 == round {
                            assert(out@[o0.len() as int] == k);
                        } else {
                            lemma_wanted_index(stored@, lower_bound, skips@, k, idx as int);
                            assert(is_candidate(stored@, origin, round, skips@[idx as int].1@, k.1));
                            assert(queue@[q1.len() as int] == (next.unwrap(), idx));
                        }
                    } else if c < m {
                        assert(queue@[c] == q0[c]);
                    } else {
                        assert(queue@[c - 1] == q0[c]);
                    }
                }
            }
        }
    }
    proof {
        assert forall|k: (u16, u64)|
            is_wanted(stored@, lower_bound, skips@, k) && (out@.len() < max_items || (out@.len() > 0 && !fetch_before(
                out@.last(),
                k,
            ))) implies #[trigger] out@.contains(k) by {
            if queued(skips@, queue@, k) {
                let c = choose|c: int| 0 <= c < queue@.len() && skips@[queue@[c].1 as int].0 == k.0 && queue@[c].0 <= k.1;
                assert(fetch_before(out@[out@.len() - 1], qkey(skips@, queue@[c])));
            }
        }
    }
    out
}

/// What the lookup of one certificate's payload gave.
#[derive(Debug)]
pub enum PayloadLookup {
    /// The certificate is not stored.
    MissingCertificate,
    /// Reading the batches failed.
    StoreError,
    /// For each batch of the certificate's payload, whether it is stored.
    Batches(Vec<bool>),
}

/// Whether the payload of a certificate counts as available.
pub open spec fn available(l: PayloadLookup) -> bool {
    match l {
        PayloadLookup::Batches(v) => forall|i: int| 0 <= i < v@.len() ==> v@[i],
        _ => false,
    }
}

/// For each requested certificate digest, whether its whole payload is
/// stored: false when the certificate itself is missing or its batches
/// could not be read. `lookups` are the results for `digests`, in order.
pub fn payload_availability(digests: &Vec<[u8; 32]>, lookups: &Vec<PayloadLookup>) -> (r: Vec<([u8; 32], bool)>)
    ensures
        r@.len() == if digests@.len() <= lookups@.len() { digests@.len() } else { lookups@.len() },
        forall|i: int| 0 <= i < r@.len() ==> #[trigger] r@[i] == (digests@[i], available(lookups@[i])),
{
    let mut r: Vec<([u8; 32], bool)> = Vec::new();
    let mut i: usize = 0;
    while i < digests.len() && i < lookups.len()
        invariant
            i <= digests@.len(),
            i <= lookups@.len(),
            r@.len() == i,
            forall|j: int| 0 <= j < i ==> #[trigger] r@[j] == (digests@[j], available(lookups@[j])),
        decreases digests@.len() - i,
    {
        let ok = match &lookups[i] {
            PayloadLookup::Batches(v) => {
                let mut all = true;
                let mut j: usize = 0;
                while j < v.len()
                    invariant
                        j <= v@.len(),
                        all == forall|k: int| 0 <= k < j ==> v@[k],
                    decreases v@.len() - j,
                {
                    all = all && v[j];
                    j = j + 1;
                }
                all
            },
            _ => false,
        };
        r.push((digests[i], ok));
        i = i + 1;
    }
    r
}

/// The present values of `s`, in order.
pub open spec fn present<T>(s: Seq<Option<T>>) -> Seq<T>
    decreases s.len(),
{
    if s.len() == 0 {
        Seq::empty()
    } else {
        match s[0] {
            Some(x) => seq![x] + present(s.drop_first()),
            None => present(s.drop_first()),
        }
    }
}

/// The certificates found among those asked for by digest, in the order
/// asked; those not stored are left out.
pub fn found_certificates<T>(results: Vec<Option<T>>) -> (r: Vec<T>)
    ensures
        r@ == present(results@),
{
    let ghost all = results@;
    let mut results = results;
    let mut r: Vec<T> = Vec::new();
    while results.len() > 0
        invariant
            r@ + present(results@) == present(all),
        decreases results@.len(),
    {
        let ghost before = results@;
        let x = results.remove(0);
        proof {
            assert(before.drop_first() =~= results@);
        }
        match x {
            Some(c) => {
                proof {
                    assert(r@.push(c) + present(results@) =~= r@ + (seq![c] + present(results@)));
                }
                r.push(c);
            },
            None => {},
        }
    }
    proof {
        assert(r@ + present(results@) =~= r@);
    }
    r
}

} // verus!
