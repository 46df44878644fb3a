//! The stores of a primary that the TSS party and the event verification
//! use: key reservations of the TSS daemon, and the events under
//! verification, each keyed by its digest.
use vstd::prelude::*;

use crate::committee::Committee;
use crate::events::{merged, process_event_verify, signed_stake_of, EventVerify, Signatures};
use crate::primary::digest_eq;
use crate::text::copy_bytes;

verus! {

/// The key-value pairs of a TSS store as a map.
pub open spec fn kv_map(s: Seq<(String, Vec<u8>)>) -> Map<Seq<char>, Seq<u8>>
    decreases s.len(),
{
    if s.len() == 0 {
        Map::empty()
    } else {
        kv_map(s.drop_last()).insert(s.last().0@, s.last().1@)
    }
}

/// The store after reserving `key`: an empty value unless it has one.
pub open spec fn reserved(m: Map<Seq<char>, Seq<u8>>, key: Seq<char>) -> Map<Seq<char>, Seq<u8>> {
    if m.dom().contains(key) {
        m
    } else {
        m.insert(key, Seq::<u8>::empty())
    }
}

/// Reserving a key twice is reserving it once, a reserved key is present,
/// and a value already written is kept.
pub proof fn law_reserve(m: Map<Seq<char>, Seq<u8>>, key: Seq<char>)
    ensures
        reserved(reserved(m, key), key) == reserved(m, key),
        reserved(m, key).dom().contains(key),
        m.dom().contains(key) ==> reserved(m, key)[key] == m[key],
        forall|k: Seq<char>| k != key ==> (#[trigger] reserved(m, key).dom().contains(k)) == m.dom().contains(k),
{
}

/// The first `n` of `keys`, as a set of texts.
pub open spec fn key_set(keys: Seq<String>, n: int) -> Set<Seq<char>>
    decreases n,
{
    if n <= 0 {
        Set::empty()
    } else {
        key_set(keys, n - 1).insert(keys[n - 1]@)
    }
}

/// No key occurs twice.
pub open spec fn kv_unique(s: Seq<(String, Vec<u8>)>) -> bool {
    forall|i: int, j: int| 0 <= i < j < s.len() ==> s[i].0@ != s[j].0@
}

proof fn lemma_kv_map(s: Seq<(String, Vec<u8>)>, k: Seq<char>)
    requires
        kv_unique(s),
    ensures
        kv_map(s).dom().contains(k) <==> exists|i: int| 0 <= i < s.len() && s[i].0@ == k,
        forall|i: int| 0 <= i < s.len() && s[i].0@ == k ==> kv_map(s)[k] == s[i].1@,
    decreases s.len(),
{
    if s.len() > 0 {
        lemma_kv_map(s.drop_last(), k);
        if exists|i: int| 0 <= i < s.len() && s[i].0@ == k {
            let i = choose|i: int| 0 <= i < s.len() && s[i].0@ == k;
            if i < s.len() - 1 {
                assert(s.drop_last()[i].0@ == k);
            }
        }
        if kv_map(s.drop_last()).dom().contains(k) {
            let i = choose|i: int| 0 <= i < s.drop_last().len() && s.drop_last()[i].0@ == k;
            assert(s[i].0@ == k);
        }
        assert forall|i: int| 0 <= i < s.len() && s[i].0@ == k implies kv_map(s)[k] == s[i].1@ by {
            if i < s.len() - 1 {
                assert(s.drop_last()[i] == s[i]);
                assert(s[i].0@ != s[s.len() - 1].0@);
            }
        }
    }
}

fn find_key(s: &Vec<(String, Vec<u8>)>, key: &String) -> (r: Option<usize>)
    ensures
        match r {
            Some(i) => i < s@.len() && s@[i as int].0@ == key@,
            None => forall|j: int| 0 <= j < s@.len() ==> s@[j].0@ != key@,
        },
{
    let mut i: usize = 0;
    while i < s.len()
        invariant
            i <= s@.len(),
            forall|j: int| 0 <= j < i ==> s@[j].0@ != key@,
        decreases s@.len() - i,
    {
        if s[i].0 == *key {
            return Some(i);
        }
        i = i + 1;
    }
    None
}

/// The key reservations of the TSS daemon: a value for each reserved key.
#[derive(Debug)]
pub struct TssStore {
    entries: Vec<(String, Vec<u8>)>,
}

impl View for TssStore {
    type V = Map<Seq<char>, Seq<u8>>;

    closed spec fn view(&self) -> Map<Seq<char>, Seq<u8>> {
        kv_map(self.entries@)
    }
}

impl TssStore {
    #[verifier::type_invariant]
    spec fn inv(self) -> bool {
        kv_unique(self.entries@)
    }

    /// An empty store.
    pub fn new() -> (r: Self)
        ensures
            r@ == Map::<Seq<char>, Seq<u8>>::empty(),
    {
        TssStore { entries: Vec::new() }
    }

    /// The value of `key`.
    pub fn read(&self, key: &String) -> (r: Option<Vec<u8>>)
        ensures
            match r {
                Some(v) => self@.dom().contains(key@) && self@[key@] == v@,
                None => !self@.dom().contains(key@),
            },
    {
        proof {
            use_type_invariant(self);
            lemma_kv_map(self.entries@, key@);
        }
        match find_key(&self.entries, key) {
            Some(i) => Some(copy_bytes(&self.entries[i].1)),
            None => None,
        }
    }

    /// Sets the value of `key`.
    pub fn write(&mut self, key: &String, value: &Vec<u8>)
        ensures
            final(self)@ == old(self)@.insert(key@, value@),
    {
        proof {
            use_type_invariant(&*self);
        }
        let mut entries: Vec<(String, Vec<u8>)> = Vec::new();
        std::mem::swap(&mut entries, &mut self.entries);
        let ghost s0 = entries@;
        let mut kept = without_key(&entries, key);
        let ghost s1 = kept@;
        proof {
            assert forall|i: int| 0 <= i < s1.len() implies s1[i].0@ != key@ by {
                lemma_kv_map(s1, s1[i].0@);
            }
        }
        kept.push((key.clone(), copy_bytes(value)));
        proof {
            assert(kept@.drop_last() =~= s1);
            assert(kv_map(kept@) =~= kv_map(s0).insert(key@, value@));
            assert forall|i: int, j: int| 0 <= i < j < kept@.len() implies kept@[i].0@ != kept@[j].0@ by {
                if j == kept@.len() - 1 {
                    assert(kept@[i] == s1[i]);
                }
            }
        }
        self.entries = kept;
    }

    /// Removes `key` and its value.
    pub fn remove(&mut self, key: &String)
        ensures
            final(self)@ == old(self)@.remove(key@),
    {
        proof {
            use_type_invariant(&*self);
        }
        let mut entries: Vec<(String, Vec<u8>)> = Vec::new();
        std::mem::swap(&mut entries, &mut self.entries);
        self.entries = without_key(&entries, key);
    }

    /// Removes each of `keys`.
    pub fn remove_all(&mut self, keys: &Vec<String>)
        ensures
            final(self)@ == old(self)@.remove_keys(key_set(keys@, keys@.len() as int)),
    {
        let ghost m0 = self@;
        let mut i: usize = 0;
        while i < keys.len()
            invariant
                i <= keys@.len(),
                self@ == m0.remove_keys(key_set(keys@, i as int)),
            decreases keys@.len() - i,
        {
            self.remove(&keys[i]);
            proof {
                assert(self@ =~= m0.remove_keys(key_set(keys@, i + 1)));
            }
            i = i + 1;
        }
    }

    /// Reserves `key` for the daemon: it gets an empty value unless it
    /// already has one. Gives back the key.
    pub fn reserve_key(&mut self, key: &String) -> (r: String)
        ensures
            r@ == key@,
            final(self)@ == reserved(old(self)@, key@),
    {
        match self.read(key) {
            Some(_) => {},
            None => {
                let empty: Vec<u8> = Vec::new();
                self.write(key, &empty);
            },
        }
        key.clone()
    }
}

/// The entries of `s` without `key`, in order.
fn without_key(s: &Vec<(String, Vec<u8>)>, key: &String) -> (r: Vec<(String, Vec<u8>)>)
    requires
        kv_unique(s@),
    ensures
        kv_unique(r@),
        kv_map(r@) == kv_map(s@).remove(key@),
{
    let mut out: Vec<(String, Vec<u8>)> = Vec::new();
    let mut i: usize = 0;
    while i < s.len()
        invariant
            i <= s@.len(),
            kv_unique(s@),
            kv_unique(out@),
            kv_map(out@) == kv_map(s@.take(i as int)).remove(key@),
            forall|a: int| 0 <= a < out@.len() ==> exists|b: int| 0 <= b < i && (#[trigger] out@[a]).0@ == #[trigger] s@[b].0@,
        decreases s@.len() - i,
    {
        proof {
            assert(s@.take(i + 1).drop_last() =~= s@.take(i as int));
        }
        if s[i].0 == *key {
            proof {
                assert(kv_map(s@.take(i + 1)).remove(key@) =~= kv_map(s@.take(i as int)).remove(key@));
            }
        } else {
            let ghost o0 = out@;
            let e = (s[i].0.clone(), copy_bytes(&s[i].1));
            out.push(e);
            proof {
                assert(out@.drop_last() =~= o0);
                assert(kv_map(out@) =~= kv_map(s@.take(i + 1)).remove(key@));
                assert forall|x: int, y: int| 0 <= x < y < out@.len() implies out@[x].0@ != out@[y].0@ by {
                    if y == out@.len() - 1 {
                        let b = choose|b: int| 0 <= b < i && (#[trigger] o0[x]).0@ == #[trigger] s@[b].0@;
                        assert(out@[x] == o0[x]);
                    } else {
                        assert(out@[x] == o0[x] && out@[y] == o0[y]);
                    }
                }
                assert forall|a: int| 0 <= a < out@.len() implies exists|b: int| 0 <= b < i + 1 && (#[trigger] out@[a]).0@ == #[trigger] s@[b].0@ by {
                    if a == out@.len() - 1 {
                        assert(out@[a].0@ == s@[i as int].0@);
                    } else {
                        let b = choose|b: int| 0 <= b < i && (#[trigger] o0[a]).0@ == #[trigger] s@[b].0@;
                        assert(out@[a] == o0[a]);
                    }
                }
            }
        }
        i = i + 1;
    }
    proof {
        assert(s@.take(i as int) =~= s@);
    }
    out
}


/// What is stored of an event: its authority, round, epoch and signatures.
pub open spec fn event_record(e: EventVerify) -> (u16, u64, u64, Signatures) {
    (e.authority, e.round, e.epoch, e.sigs())
}

/// The events of a store as a map from digest to record.
pub open spec fn event_map(s: Seq<EventVerify>) -> Map<[u8; 32], (u16, u64, u64, Signatures)>
    decreases s.len(),
{
    if s.len() == 0 {
        Map::empty()
    } else {
        event_map(s.drop_last()).insert(s.last().digest, event_record(s.last()))
    }
}

/// No digest occurs twice.
pub open spec fn events_unique(s: Seq<EventVerify>) -> bool {
    forall|i: int, j: int| 0 <= i < j < s.len() ==> s[i].digest != s[j].digest
}

proof fn lemma_event_map(s: Seq<EventVerify>, d: [u8; 32])
    requires
        events_unique(s),
    ensures
        event_map(s).dom().contains(d) <==> exists|i: int| 0 <= i < s.len() && s[i].digest == d,
        forall|i: int| 0 <= i < s.len() && s[i].digest == d ==> event_map(s)[d] == event_record(s[i]),
    decreases s.len(),
{
    if s.len() > 0 {
        lemma_event_map(s.drop_last(), d);
        if exists|i: int| 0 <= i < s.len() && s[i].digest == d {
            let i = choose|i: int| 0 <= i < s.len() && s[i].digest == d;
            if i < s.len() - 1 {
                assert(s.drop_last()[i].digest == d);
            }
        }
        if event_map(s.drop_last()).dom().contains(d) {
            let i = choose|i: int| 0 <= i < s.drop_last().len() && s.drop_last()[i].digest == d;
            assert(s[i].digest == d);
        }
        assert forall|i: int| 0 <= i < s.len() && s[i].digest == d implies event_map(s)[d] == event_record(s[i]) by {
            if i < s.len() - 1 {
                assert(s.drop_last()[i] == s[i]);
                assert(s[i].digest != s[s.len() - 1].digest);
            }
        }
    }
}

/// The events under verification, by digest.
#[derive(Debug)]
pub struct EventStore {
    events: Vec<EventVerify>,
}

impl View for EventStore {
    type V = Map<[u8; 32], (u16, u64, u64, Signatures)>;

    closed spec fn view(&self) -> Map<[u8; 32], (u16, u64, u64, Signatures)> {
        event_map(self.events@)
    }
}

impl EventStore {
    #[verifier::type_invariant]
    spec fn inv(self) -> bool {
        events_unique(self.events@)
    }

    /// An empty store.
    pub fn new() -> (r: Self)
        ensures
            r@ == Map::<[u8; 32], (u16, u64, u64, Signatures)>::empty(),
    {
        EventStore { events: Vec::new() }
    }

    /// The stored copy of the event with digest `digest`.
    pub fn read(&self, digest: &[u8; 32]) -> (r: Option<EventVerify>)
        ensures
            match r {
                Some(e) => e.digest == *digest && self@.dom().contains(*digest) && self@[*digest] == event_record(e),
                None => !self@.dom().contains(*digest),
            },
    {
        proof {
            use_type_invariant(self);
            lemma_event_map(self.events@, *digest);
        }
        let mut i: usize = 0;
        while i < self.events.len()
            invariant
                i <= self.events@.len(),
                events_unique(self.events@),
                forall|j: int| 0 <= j < i ==> self.events@[j].digest != *digest,
            decreases self.events@.len() - i,
        {
            if digest_eq(&self.events[i].digest, digest) {
                proof {
                    lemma_event_map(self.events@, *digest);
                }
                return Some(self.events[i].copy());
            }
            i = i + 1;
        }
        None
    }

    /// Stores `event` under its digest, replacing an earlier copy.
    pub fn write(&mut self, event: &EventVerify)
        ensures
            final(self)@ == old(self)@.insert(event.digest, event_record(*event)),
    {
        proof {
            use_type_invariant(&*self);
        }
        let mut events: Vec<EventVerify> = Vec::new();
        std::mem::swap(&mut events, &mut self.events);
        let mut out: Vec<EventVerify> = Vec::new();
        let mut i: usize = 0;
        while i < events.len()
            invariant
                i <= events@.len(),
                events_unique(events@),
                events_unique(out@),
                forall|a: int| 0 <= a < out@.len() ==> (#[trigger] out@[a]).digest != event.digest,
                event_map(out@) == event_map(events@.take(i as int)).remove(event.digest),
                forall|a: int| 0 <= a < out@.len() ==> exists|b: int| 0 <= b < i && (#[trigger] out@[a]).digest == #[trigger] events@[b].digest,
            decreases events@.len() - i,
        {
            proof {
                assert(events@.take(i + 1).drop_last() =~= events@.take(i as int));
            }
            if digest_eq(&events[i].digest, &event.digest) {
                proof {
                    assert(event_map(events@.take(i + 1)).remove(event.digest) =~= event_map(events@.take(i as int)).remove(
                        event.digest,
                    ));
                }
            } else {
                let ghost o0 = out@;
                let c = events[i].copy();
                out.push(c);
                proof {
                    assert(out@.drop_last() =~= o0);
                    assert(event_map(out@) =~= event_map(events@.take(i + 1)).remove(event.digest));
                    assert forall|x: int, y: int| 0 <= x < y < out@.len() implies out@[x].digest != out@[y].digest by {
                        if y == out@.len() - 1 {
                            let b = choose|b: int| 0 <= b < i && (#[trigger] o0[x]).digest == #[trigger] events@[b].digest;
                            assert(out@[x] == o0[x]);
                        } else {
                            assert(out@[x] == o0[x] && out@[y] == o0[y]);
                        }
                    }
                    assert forall|a: int| 0 <= a < out@.len() implies exists|b: int| 0 <= b < i + 1 && (#[trigger] out@[a]).digest == #[trigger] events@[b].digest by {
                        if a == out@.len() - 1 {
                            assert(out@[a].digest == events@[i as int].digest);
                        } else {
                            let b = choose|b: int| 0 <= b < i && (#[trigger] o0[a]).digest == #[trigger] events@[b].digest;
                            assert(out@[a] == o0[a]);
                        }
                    }
                }
            }
            i = i + 1;
        }
        proof {
            assert(events@.take(i as int) =~= events@);
        }
        let ghost o1 = out@;
        out.push(event.copy());
        proof {
            assert(out@.drop_last() =~= o1);
            assert(event_map(out@) =~= event_map(events@).insert(event.digest, event_record(*event)));
            assert forall|x: int, y: int| 0 <= x < y < out@.len() implies out@[x].digest != out@[y].digest by {
                if y == out@.len() - 1 {
                    assert(out@[x] == o1[x]);
                }
            }
        }
        self.events = out;
    }

    /// Handles a peer's copy `incoming` of an event: its signatures are
    /// added to the stored copy, or, when there is none, it is stored as it
    /// came. Gives the copy the peer is answered with, and whether the
    /// stored copy now carries more than the quorum threshold of stake.
    pub fn verify_request(&mut self, committee: &Committee, incoming: &EventVerify) -> (r: (EventVerify, bool))
        requires
            2 * committee.total() <= u64::MAX,
        ensures
            event_record(r.0) == event_record(*incoming),
            r.0.digest == incoming.digest,
            old(self)@.dom().contains(incoming.digest) ==> {
                let s = old(self)@[incoming.digest];
                let sigs = merged(s.3, incoming.sigs(), incoming.sigs().len() as int);
                &&& final(self)@ == old(self)@.insert(incoming.digest, (s.0, s.1, s.2, sigs))
                &&& r.1 == (signed_stake_of(committee.authorities@, sigs) > committee.quorum())
            },
            !old(self)@.dom().contains(incoming.digest) ==> final(self)@ == old(self)@.insert(
                incoming.digest,
                event_record(*incoming),
            ) && !r.1,
    {
        let stored = self.read(&incoming.digest);
        let update = process_event_verify(committee, stored, incoming);
        self.write(&update.write);
        (incoming.copy(), update.quorum_reached)
    }
}

} // verus!
