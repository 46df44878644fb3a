//! External events that the primaries verify together: the signatures
//! collected for an event, the stake behind them, and how a primary updates
//! its stored copy when a peer's copy or its own signature comes in.
use vstd::prelude::*;

use crate::committee::{Authority, Committee, stake_of};
use crate::text::copy_bytes;

verus! {

/// Signatures as (authority, signature bytes).
pub type Signatures = Seq<(u16, Seq<u8>)>;

/// An event observed on an external chain, with the signatures of the
/// authorities that vouch for it.
#[derive(Debug)]
pub struct EventVerify {
    /// The authority that created this copy.
    pub authority: u16,
    pub round: u64,
    pub epoch: u64,
    /// The digest of the event: the hash of the external block.
    pub digest: [u8; 32],
    /// (authority, signature) pairs.
    pub signatures: Vec<(u16, Vec<u8>)>,
}

/// The signatures of `sigs` as plain values.
pub open spec fn sig_view(sigs: Seq<(u16, Vec<u8>)>) -> Signatures {
    sigs.map_values(|p: (u16, Vec<u8>)| (p.0, p.1@))
}

/// The authorities that signed, in order.
pub open spec fn signers(sigs: Signatures) -> Seq<u16> {
    sigs.map_values(|p: (u16, Seq<u8>)| p.0)
}

/// The signatures as a map from authority to signature bytes.
pub open spec fn signature_map(sigs: Signatures) -> Map<u16, Seq<u8>>
    decreases sigs.len(),
{
    if sigs.len() == 0 {
        Map::empty()
    } else {
        signature_map(sigs.drop_last()).insert(sigs.last().0, sigs.last().1)
    }
}

/// The stake of the signers that are members of the committee, each
/// signature counted once.
pub open spec fn signed_stake_of(auths: Seq<Authority>, sigs: Signatures) -> nat
    decreases sigs.len(),
{
    if sigs.len() == 0 {
        0
    } else {
        signed_stake_of(auths, sigs.drop_last()) + stake_of(auths, sigs.last().0)
    }
}

/// The position of the first signature of `authority`.
pub open spec fn signer_index(sigs: Signatures, authority: u16) -> Option<int>
    decreases sigs.len(),
{
    if sigs.len() == 0 {
        None
    } else if sigs[0].0 == authority {
        Some(0)
    } else {
        match signer_index(sigs.drop_first(), authority) {
            Some(i) => Some(i + 1),
            None => None,
        }
    }
}

/// The signatures after `authority` signs with `sig`: its earlier signature,
/// if any, is replaced in place; otherwise the new one is appended.
pub open spec fn with_signature(sigs: Signatures, authority: u16, sig: Seq<u8>) -> Signatures {
    match signer_index(sigs, authority) {
        Some(i) => sigs.update(i, (authority, sig)),
        None => sigs.push((authority, sig)),
    }
}

/// The signatures after adding, in order, the first `n` of `incoming`.
pub open spec fn merged(sigs: Signatures, incoming: Signatures, n: int) -> Signatures
    decreases n,
{
    if n <= 0 {
        sigs
    } else {
        with_signature(merged(sigs, incoming, n - 1), incoming[n - 1].0, incoming[n - 1].1)
    }
}

pub proof fn lemma_signer_index(sigs: Signatures, authority: u16, i: int)
    requires
        0 <= i <= sigs.len(),
        forall|j: int| 0 <= j < i ==> sigs[j].0 != authority,
        i < sigs.len() ==> sigs[i].0 == authority,
    ensures
        signer_index(sigs, authority) == (if i < sigs.len() { Some(i) } else { None::<int> }),
    decreases i,
{
    if i > 0 {
        lemma_signer_index(sigs.drop_first(), authority, i - 1);
    }
}

/// A copy of the signatures `sigs`.
fn copy_signatures(sigs: &Vec<(u16, Vec<u8>)>) -> (r: Vec<(u16, Vec<u8>)>)
    ensures
        sig_view(r@) == sig_view(sigs@),
{
    let mut r: Vec<(u16, Vec<u8>)> = Vec::new();
    let mut i: usize = 0;
    while i < sigs.len()
        invariant
            i <= sigs@.len(),
            r@.len() == i,
            forall|j: int| 0 <= j < i ==> (#[trigger] r@[j]).0 == sigs@[j].0 && r@[j].1@ == sigs@[j].1@,
        decreases sigs@.len() - i,
    {
        let c = copy_bytes(&sigs[i].1);
        r.push((sigs[i].0, c));
        i = i + 1;
    }
    proof {
        assert(sig_view(r@) =~= sig_view(sigs@));
    }
    r
}

impl EventVerify {
    /// The signatures as plain values.
    pub open spec fn sigs(&self) -> Signatures {
        sig_view(self.signatures@)
    }

    /// No authority signed twice.
    pub open spec fn wf(&self) -> bool {
        signers(self.sigs()).no_duplicates()
    }

    /// The copy of an event an authority creates, signed by it.
    pub fn new(authority: u16, round: u64, epoch: u64, digest: [u8; 32], signature: Vec<u8>) -> (r: Self)
        ensures
            r.wf(),
            r.authority == authority,
            r.round == round,
            r.epoch == epoch,
            r.digest == digest,
            r.sigs() == seq![(authority, signature@)],
    {
        let ghost sv = signature@;
        let mut signatures: Vec<(u16, Vec<u8>)> = Vec::new();
        signatures.push((authority, signature));
        let r = EventVerify { authority, round, epoch, digest, signatures };
        proof {
            assert(r.sigs() =~= seq![(authority, sv)]);
            assert(signers(r.sigs()) =~= seq![authority]);
        }
        r
    }

    /// A copy of this event.
    pub fn copy(&self) -> (r: EventVerify)
        ensures
            r.authority == self.authority,
            r.round == self.round,
            r.epoch == self.epoch,
            r.digest == self.digest,
            r.sigs() == self.sigs(),
    {
        let signatures = copy_signatures(&self.signatures);
        EventVerify { authority: self.authority, round: self.round, epoch: self.epoch, digest: self.digest, signatures }
    }

    /// The signature of `authority`, if it signed.
    pub fn get_signature(&self, authority: u16) -> (r: Option<&Vec<u8>>)
        ensures
            match r {
                Some(s) => signer_index(self.sigs(), authority) matches Some(i) && self.sigs()[i].1 == s@,
                None => signer_index(self.sigs(), authority) is None,
            },
    {
        let mut i: usize = 0;
        while i < self.signatures.len()
            invariant
                i <= self.signatures@.len(),
                forall|j: int| 0 <= j < i ==> self.sigs()[j].0 != authority,
            decreases self.signatures@.len() - i,
        {
            if self.signatures[i].0 == authority {
                proof {
                    lemma_signer_index(self.sigs(), authority, i as int);
                }
                return Some(&self.signatures[i].1);
            }
            i = i + 1;
        }
        proof {
            lemma_signer_index(self.sigs(), authority, i as int);
        }
        None
    }

    /// Records the signature `sig` of `authority`, replacing an earlier one.
    pub fn add_signature(&mut self, authority: u16, sig: Vec<u8>)
        ensures
            final(self).authority == old(self).authority,
            final(self).round == old(self).round,
            final(self).epoch == old(self).epoch,
            final(self).digest == old(self).digest,
            final(self).sigs() == with_signature(old(self).sigs(), authority, sig@),
            old(self).wf() ==> final(self).wf(),
    {
        let ghost s0 = self.sigs();
        let ghost g = sig@;
        let mut i: usize = 0;
        while i < self.signatures.len()
            invariant
                i <= self.signatures@.len(),
                *self == *old(self),
                self.sigs() == s0,
                g == sig@,
                forall|j: int| 0 <= j < i ==> s0[j].0 != authority,
            decreases self.signatures@.len() - i,
        {
            if self.signatures[i].0 == authority {
                proof {
                    lemma_signer_index(s0, authority, i as int);
                }
                self.signatures.set(i, (authority, sig));
                proof {
                    assert(self.sigs() =~= s0.update(i as int, (authority, g)));
                    assert(signers(self.sigs()) =~= signers(s0));
                }
                return;
            }
            i = i + 1;
        }
        self.signatures.push((authority, sig));
        proof {
            lemma_signer_index(s0, authority, s0.len() as int);
            assert(self.sigs() =~= s0.push((authority, g)));
            assert(signers(self.sigs()) =~= signers(s0).push(authority));
            assert forall|j: int| 0 <= j < signers(s0).len() implies signers(s0)[j] != authority by {
                assert(s0[j].0 != authority);
            }
        }
    }

    /// Adds, in order, every signature of `incoming`.
    pub fn merge_signatures(&mut self, incoming: &EventVerify)
        ensures
            final(self).authority == old(self).authority,
            final(self).round == old(self).round,
            final(self).epoch == old(self).epoch,
            final(self).digest == old(self).digest,
            final(self).sigs() == merged(old(self).sigs(), incoming.sigs(), incoming.sigs().len() as int),
            old(self).wf() ==> final(self).wf(),
    {
        let mut i: usize = 0;
        while i < incoming.signatures.len()
            invariant
                i <= incoming.signatures@.len(),
                old(self).wf() ==> self.wf(),
                self.authority == old(self).authority,
                self.round == old(self).round,
                self.epoch == old(self).epoch,
                self.digest == old(self).digest,
                self.sigs() == merged(old(self).sigs(), incoming.sigs(), i as int),
            decreases incoming.signatures@.len() - i,
        {
            let a = incoming.signatures[i].0;
            let sig = copy_bytes(&incoming.signatures[i].1);
            self.add_signature(a, sig);
            i = i + 1;
        }
    }
}


proof fn lemma_signed_stake_bound(auths: Seq<Authority>, sigs: Signatures)
    ensures
        signed_stake_of(auths, sigs) <= sigs.len() * (u64::MAX as int),
    decreases sigs.len(),
{
    if sigs.len() > 0 {
        lemma_signed_stake_bound(auths, sigs.drop_last());
        lemma_stake_of_le(auths, sigs.last().0);
        assert((sigs.len() - 1) * (u64::MAX as int) + u64::MAX as int == sigs.len() * (u64::MAX as int)) by (nonlinear_arith);
    }
}

proof fn lemma_stake_of_le(auths: Seq<Authority>, id: u16)
    ensures
        stake_of(auths, id) <= u64::MAX,
    decreases auths.len(),
{
    if auths.len() > 0 {
        lemma_stake_of_le(auths.drop_first(), id);
    }
}

/// The stake of the committee members that signed `event`.
pub fn signed_stake(committee: &Committee, event: &EventVerify) -> (r: u128)
    ensures
        r == signed_stake_of(committee.authorities@, event.sigs()),
{
    let mut total: u128 = 0;
    let mut i: usize = 0;
    while i < event.signatures.len()
        invariant
            i <= event.signatures@.len(),
            total == signed_stake_of(committee.authorities@, event.sigs().take(i as int)),
        decreases event.signatures@.len() - i,
    {
        proof {
            assert(event.sigs().take(i + 1).drop_last() =~= event.sigs().take(i as int));
            lemma_signed_stake_bound(committee.authorities@, event.sigs().take(i as int));
            assert((i as int) * (u64::MAX as int) <= 0x1_0000_0000_0000_0000 * (u64::MAX as int)) by (nonlinear_arith)
                requires i <= 0x1_0000_0000_0000_0000;
        }
        let add = committee.stake_by_id(event.signatures[i].0);
        total = total + add as u128;
        i = i + 1;
    }
    proof {
        assert(event.sigs().take(i as int) =~= event.sigs());
    }
    total
}

/// Whether the signatures on `event` carry more than the quorum threshold.
pub fn quorum_reached(committee: &Committee, event: &EventVerify) -> (r: bool)
    requires
        2 * committee.total() <= u64::MAX,
    ensures
        r == (signed_stake_of(committee.authorities@, event.sigs()) > committee.quorum()),
{
    let stake = signed_stake(committee, event);
    let quorum = committee.quorum_threshold();
    stake > quorum as u128
}

/// What a primary does with a peer's copy of an event.
#[derive(Debug)]
pub struct EventUpdate {
    /// The copy to store.
    pub write: EventVerify,
    /// Whether the stored copy now carries more than the quorum threshold of
    /// stake; false when there was no stored copy.
    pub quorum_reached: bool,
}

/// The update of the event store when a peer sends its copy `incoming` of
/// an event, `stored` being the copy on record: the peer's signatures are
/// added to the stored copy, or, when none is on record, the peer's copy is
/// stored as it came. The peer is answered with its own copy.
pub fn process_event_verify(committee: &Committee, stored: Option<EventVerify>, incoming: &EventVerify) -> (r: EventUpdate)
    requires
        2 * committee.total() <= u64::MAX,
    ensures
        match stored {
            Some(s) => r.write.authority == s.authority && r.write.round == s.round && r.write.epoch == s.epoch
                && r.write.digest == s.digest && r.write.sigs() == merged(s.sigs(), incoming.sigs(), incoming.sigs().len() as int)
                && r.quorum_reached == (signed_stake_of(committee.authorities@, r.write.sigs()) > committee.quorum()),
            None => r.write.authority == incoming.authority && r.write.round == incoming.round && r.write.epoch == incoming.epoch
                && r.write.digest == incoming.digest && r.write.sigs() == incoming.sigs() && !r.quorum_reached,
        },
{
    match stored {
        Some(mut s) => {
            s.merge_signatures(incoming);
            let q = quorum_reached(committee, &s);
            EventUpdate { write: s, quorum_reached: q }
        },
        None => EventUpdate { write: incoming.copy(), quorum_reached: false },
    }
}

/// The copy of an event to store when this authority signs it (`event`, its
/// own copy): its signature is added to the stored copy if there is one (and
/// nothing is stored if its own copy somehow lacks it), else its own copy is
/// stored.
pub fn own_event_update(stored: Option<EventVerify>, event: &EventVerify, authority: u16) -> (r: Option<EventVerify>)
    ensures
        match stored {
            Some(s) => match signer_index(event.sigs(), authority) {
                Some(i) => r matches Some(w) && w.authority == s.authority && w.round == s.round && w.epoch == s.epoch
                    && w.digest == s.digest && w.sigs() == with_signature(s.sigs(), authority, event.sigs()[i].1),
                None => r is None,
            },
            None => r matches Some(w) && w.authority == event.authority && w.round == event.round && w.epoch == event.epoch
                && w.digest == event.digest && w.sigs() == event.sigs(),
        },
{
    match stored {
        Some(mut s) => {
            match event.get_signature(authority) {
                Some(sig) => {
                    let c = copy_bytes(sig);
                    s.add_signature(authority, c);
                    Some(s)
                },
                None => None,
            }
        },
        None => Some(event.copy()),
    }
}

/// The header of a message from an external chain.
#[derive(Debug)]
pub struct MessageHeader {
    pub epoch: u64,
    pub payload: [u8; 32],
}

/// A certificate over an external message; it carries nothing yet.
#[derive(Debug)]
pub struct MessageCertificate {}

/// What the external message handler of a primary knows of itself.
#[derive(Debug)]
pub struct ExternalMessageHandler {
    pub authority_id: u16,
    pub committee: Committee,
    /// The current round of the DAG.
    pub round: u64,
}

impl ExternalMessageHandler {
    /// A handler for `authority_id`, at round 0.
    pub fn new(authority_id: u16, committee: Committee) -> (r: Self)
        ensures
            r.authority_id == authority_id,
            r.committee == committee,
            r.round == 0,
    {
        ExternalMessageHandler { authority_id, committee, round: 0 }
    }

    /// The header of `payload` in the current epoch.
    pub fn sign_message(&self, payload: [u8; 32]) -> (r: MessageHeader)
        ensures
            r.epoch == self.committee.epoch,
            r.payload == payload,
    {
        MessageHeader { epoch: self.committee.epoch(), payload }
    }

    /// This authority's copy of the event of an external block with hash
    /// `block_hash`, signed with `signature`.
    pub fn event_for_block(&self, block_hash: [u8; 32], signature: Vec<u8>) -> (r: EventVerify)
        ensures
            r.wf(),
            r.authority == self.authority_id,
            r.round == self.round,
            r.epoch == self.committee.epoch,
            r.digest == block_hash,
            r.sigs() == seq![(self.authority_id, signature@)],
    {
        EventVerify::new(self.authority_id, self.round, self.committee.epoch(), block_hash, signature)
    }
}

} // verus!
