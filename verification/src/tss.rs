//! The TSS party of a primary: what it hands the local tofnd daemon to start
//! key generation and signing, how it reacts to each message the daemon
//! sends back, and what it delivers to its peers.
use vstd::prelude::*;

use crate::committee::{Authority, Committee};
use crate::text::{copy_bytes, decimal, decimal_string, hex, hex_string};
use crate::tss_types::TssAnemoDeliveryMessage;

verus! {

// ---------------------------------------------------------------------------
// Messages of the tofnd daemon
// ---------------------------------------------------------------------------

/// Starts a key generation.
#[derive(Clone, Debug, PartialEq, Eq)]
pub struct KeygenInit {
    pub new_key_uid: String,
    pub party_uids: Vec<String>,
    pub party_share_counts: Vec<u32>,
    pub my_party_index: u32,
    pub threshold: u32,
}

/// Starts a signing session.
#[derive(Clone, Debug, PartialEq, Eq)]
pub struct SignInit {
    pub new_sig_uid: String,
    pub key_uid: String,
    pub party_uids: Vec<String>,
    pub message_to_sign: Vec<u8>,
}

/// A protocol message from another party, handed to the daemon.
#[derive(Clone, Debug, PartialEq, Eq)]
pub struct TrafficIn {
    pub from_party_uid: String,
    pub payload: Vec<u8>,
    pub is_broadcast: bool,
}

/// A protocol message the daemon wants sent to the other parties.
#[derive(Clone, Debug, PartialEq, Eq)]
pub struct TrafficOut {
    pub to_party_uid: String,
    pub payload: Vec<u8>,
    pub is_broadcast: bool,
}

#[derive(Clone, Debug, PartialEq, Eq)]
pub struct Criminal {
    pub party_uid: String,
    pub crime_type: i32,
}

#[derive(Clone, Debug, PartialEq, Eq)]
pub struct CriminalList {
    pub criminals: Vec<Criminal>,
}

#[derive(Clone, Debug, PartialEq, Eq)]
pub struct KeygenOutput {
    pub pub_key: Vec<u8>,
    pub group_recover_info: Vec<u8>,
    pub private_recover_info: Vec<u8>,
}

#[derive(Clone, Debug, PartialEq, Eq)]
pub enum KeygenResultData {
    Data(KeygenOutput),
    Criminals(CriminalList),
}

/// The outcome of a key generation; empty when it was cut short.
#[derive(Clone, Debug, PartialEq, Eq, Default)]
pub struct KeygenResult {
    pub keygen_result_data: Option<KeygenResultData>,
}

#[derive(Clone, Debug, PartialEq, Eq)]
pub enum SignResultData {
    Signature(Vec<u8>),
    Criminals(CriminalList),
}

/// The outcome of a signing session; empty when it was cut short.
#[derive(Clone, Debug, PartialEq, Eq, Default)]
pub struct SignResult {
    pub sign_result_data: Option<SignResultData>,
}

#[derive(Clone, Debug, PartialEq, Eq)]
pub enum MessageInData {
    KeygenInit(KeygenInit),
    SignInit(SignInit),
    Traffic(TrafficIn),
    Abort(bool),
}

/// A message to the daemon.
#[derive(Clone, Debug, PartialEq, Eq)]
pub struct MessageIn {
    pub data: Option<MessageInData>,
}

#[derive(Clone, Debug, PartialEq, Eq)]
pub enum MessageOutData {
    Traffic(TrafficOut),
    KeygenResult(KeygenResult),
    SignResult(SignResult),
    NeedRecover(bool),
}

/// A message from the daemon.
#[derive(Clone, Debug, PartialEq, Eq)]
pub struct MessageOut {
    pub data: Option<MessageOutData>,
}

/// Asks the daemon whether it holds a key.
#[derive(Clone, Debug, PartialEq, Eq)]
pub struct KeyPresenceRequest {
    pub key_uid: String,
    pub pub_key: Vec<u8>,
}

/// The daemon's answers to a key presence request.
pub const KEY_PRESENCE_UNSPECIFIED: i32 = 0;
pub const KEY_PRESENCE_PRESENT: i32 = 1;
pub const KEY_PRESENCE_ABSENT: i32 = 2;
pub const KEY_PRESENCE_FAIL: i32 = 3;

// ---------------------------------------------------------------------------
// Outside calls
// ---------------------------------------------------------------------------

/// A fresh random (version 4) UUID in its hyphenated lowercase form
/// (`uuid::Uuid::new_v4`, displayed). Its value rests on chance: only its
/// shape is stated, 36 characters with hyphens at positions 8, 13, 18 and 23.
#[verifier::external_body]
fn new_uuid_string() -> (r: String)
    ensures
        r@.len() == 36,
        r@[8] == '-' && r@[13] == '-' && r@[18] == '-' && r@[23] == '-',
{
    uuid::Uuid::new_v4().to_string()
}

// ---------------------------------------------------------------------------
// The party
// ---------------------------------------------------------------------------

/// The peer id of a network key, as the network displays it: the key's
/// bytes in lowercase hexadecimal.
pub open spec fn peer_id_string(network_key: Seq<u8>) -> Seq<char> {
    hex(network_key)
}

/// The identifier of the key of an epoch.
pub open spec fn session_key_uid(epoch: u64) -> Seq<char> {
    "tss_session"@ + decimal(epoch as nat)
}

/// The TSS party of one authority of the committee.
pub struct TssParty {
    authority: Authority,
    committee: Committee,
}

/// What the party does with a message of the daemon during key generation.
#[derive(Debug)]
pub enum KeygenStep {
    /// Deliver the traffic to the other parties.
    Deliver(TrafficOut),
    /// Key generation is over with this result.
    Finished(KeygenResult),
    /// The daemon closed the stream: key generation ends with an empty result.
    Aborted,
}

/// What the party does with a message of the daemon during signing.
#[derive(Debug)]
pub enum SignStep {
    Deliver(TrafficOut),
    Finished(SignResult),
    /// The daemon needs a recovery: signing is cancelled with an empty result.
    NeedRecover,
    /// The daemon closed the stream: signing ends with an empty result.
    Aborted,
}

/// The messages that go out when the daemon emits `traffic` as `from`.
#[derive(Debug)]
pub struct Delivery {
    /// The message for the party's own daemon.
    pub to_self: MessageIn,
    /// The message for the other parties.
    pub message: TssAnemoDeliveryMessage,
    /// The network keys of the other parties.
    pub peers: Vec<Vec<u8>>,
}

/// `d` is what goes out when the daemon of `authority` emits traffic `t` on
/// behalf of party `from`: the traffic as an incoming message for its own
/// daemon, the same traffic as a delivery message, and the network keys of
/// the other authorities of `committee`, in committee order.
pub open spec fn is_delivery(authority: Authority, committee: Committee, t: TrafficOut, from: Seq<char>, d: Delivery) -> bool {
    let others = crate::committee::other_positions(committee.authorities@, authority.id, committee.authorities@.len() as int);
    &&& d.to_self.data matches Some(MessageInData::Traffic(ti)) && ti.from_party_uid@ == from && ti.is_broadcast
        == t.is_broadcast && ti.payload@ == t.payload@
    &&& d.message.from_party_uid@ == from
    &&& d.message.is_broadcast == t.is_broadcast
    &&& d.message.payload@ == t.payload@
    &&& d.peers@.len() == others.len()
    &&& forall|k: int| 0 <= k < d.peers@.len() ==> #[trigger] d.peers@[k]@ == committee.authorities@[others[k] as int].network_key@
}

/// The message-out kinds the key generation loop accepts.
pub open spec fn keygen_message_ok(msg: Option<MessageOut>) -> bool {
    match msg {
        None => true,
        Some(m) => match m.data {
            Some(MessageOutData::Traffic(_)) | Some(MessageOutData::KeygenResult(_)) => true,
            _ => false,
        },
    }
}

/// The message-out kinds the signing loop accepts.
pub open spec fn sign_message_ok(msg: Option<MessageOut>) -> bool {
    match msg {
        None => true,
        Some(m) => match m.data {
            Some(MessageOutData::Traffic(_)) | Some(MessageOutData::SignResult(_))
            | Some(MessageOutData::NeedRecover(_)) => true,
            _ => false,
        },
    }
}

/// The sum of share counts.
pub open spec fn share_sum(counts: Seq<u32>) -> nat
    decreases counts.len(),
{
    if counts.len() == 0 {
        0
    } else {
        share_sum(counts.drop_last()) + counts.last() as nat
    }
}

/// The number of shares of all parties and of this party: one per party when
/// no share counts are given.
pub open spec fn share_counts(init: KeygenInit) -> (nat, nat) {
    if init.party_share_counts@.len() == 0 {
        (init.party_uids@.len(), 1)
    } else {
        (share_sum(init.party_share_counts@), init.party_share_counts@[init.my_party_index as int] as nat)
    }
}

/// The share counts of a key generation (see [`share_counts`]).
pub fn keygen_share_counts(init: &KeygenInit) -> (r: (usize, usize))
    requires
        init.party_share_counts@.len() > 0 ==> (init.my_party_index as int) < init.party_share_counts@.len()
            && share_sum(init.party_share_counts@) <= u32::MAX,
    ensures
        r.0 as nat == share_counts(*init).0,
        r.1 as nat == share_counts(*init).1,
{
    if init.party_share_counts.len() == 0 {
        (init.party_uids.len(), 1)
    } else {
        let mut sum: u32 = 0;
        let mut i: usize = 0;
        while i < init.party_share_counts.len()
            invariant
                i <= init.party_share_counts.len(),
                share_sum(init.party_share_counts@) <= u32::MAX,
                sum == share_sum(init.party_share_counts@.subrange(0, i as int)),
            decreases init.party_share_counts.len() - i,
        {
            proof {
                let p = init.party_share_counts@.subrange(0, i + 1);
                assert(p.drop_last() =~= init.party_share_counts@.subrange(0, i as int));
                lemma_share_sum_prefix(init.party_share_counts@, i + 1);
            }
            sum = sum + init.party_share_counts[i];
            i = i + 1;
        }
        proof {
            assert(init.party_share_counts@.subrange(0, i as int) =~= init.party_share_counts@);
        }
        (sum as usize, init.party_share_counts[init.my_party_index as usize] as usize)
    }
}

pub proof fn lemma_share_sum_prefix(counts: Seq<u32>, k: int)
    requires 0 <= k <= counts.len(),
    ensures share_sum(counts.subrange(0, k)) <= share_sum(counts),
    decreases counts.len() - k,
{
    if k < counts.len() {
        let p = counts.subrange(0, k + 1);
        assert(p.drop_last() =~= counts.subrange(0, k));
        lemma_share_sum_prefix(counts, k + 1);
    } else {
        assert(counts.subrange(0, k) =~= counts);
    }
}

/// The identifier of the key of epoch `epoch` (see [`session_key_uid`]).
pub fn session_key(epoch: u64) -> (r: String)
    ensures r@ == session_key_uid(epoch),
{
    let mut s = String::from_str("tss_session");
    let digits = decimal_string(epoch);
    s.append(digits.as_str());
    s
}

/// What the key generation loop does with the next message of the daemon
/// (`None` when the daemon closed the stream).
pub fn keygen_step(msg: Option<MessageOut>) -> (r: KeygenStep)
    requires keygen_message_ok(msg),
    ensures
        match msg {
            None => r is Aborted,
            Some(m) => match m.data {
                Some(MessageOutData::Traffic(t)) => r == KeygenStep::Deliver(t),
                Some(MessageOutData::KeygenResult(res)) => r == KeygenStep::Finished(res),
                _ => false,
            },
        },
{
    match msg {
        None => KeygenStep::Aborted,
        Some(m) => match m.data {
            Some(MessageOutData::Traffic(t)) => KeygenStep::Deliver(t),
            Some(MessageOutData::KeygenResult(res)) => KeygenStep::Finished(res),
            _ => KeygenStep::Aborted,
        },
    }
}

/// What the signing loop does with the next message of the daemon (`None`
/// when the daemon closed the stream).
pub fn sign_step(msg: Option<MessageOut>) -> (r: SignStep)
    requires sign_message_ok(msg),
    ensures
        match msg {
            None => r is Aborted,
            Some(m) => match m.data {
                Some(MessageOutData::Traffic(t)) => r == SignStep::Deliver(t),
                Some(MessageOutData::SignResult(res)) => r == SignStep::Finished(res),
                Some(MessageOutData::NeedRecover(_)) => r is NeedRecover,
                _ => false,
            },
        },
{
    match msg {
        None => SignStep::Aborted,
        Some(m) => match m.data {
            Some(MessageOutData::Traffic(t)) => SignStep::Deliver(t),
            Some(MessageOutData::SignResult(res)) => SignStep::Finished(res),
            Some(MessageOutData::NeedRecover(_)) => SignStep::NeedRecover,
            _ => SignStep::Aborted,
        },
    }
}

/// The result a finished key generation loop returns for its last step:
/// the daemon's result, or an empty one when the stream was closed.
pub fn keygen_outcome(step: KeygenStep) -> (r: Option<KeygenResult>)
    ensures
        match step {
            KeygenStep::Deliver(_) => r is None,
            KeygenStep::Finished(res) => r == Some(res),
            KeygenStep::Aborted => r == Some(KeygenResult { keygen_result_data: None }),
        },
{
    match step {
        KeygenStep::Deliver(_) => None,
        KeygenStep::Finished(res) => Some(res),
        KeygenStep::Aborted => Some(KeygenResult { keygen_result_data: None }),
    }
}

/// The result a finished signing loop returns for its last step: the
/// daemon's result, or an empty one when signing was cancelled or the stream
/// closed.
pub fn sign_outcome(step: SignStep) -> (r: Option<SignResult>)
    ensures
        match step {
            SignStep::Deliver(_) => r is None,
            SignStep::Finished(res) => r == Some(res),
            _ => r == Some(SignResult { sign_result_data: None }),
        },
{
    match step {
        SignStep::Deliver(_) => None,
        SignStep::Finished(res) => Some(res),
        _ => Some(SignResult { sign_result_data: None }),
    }
}

/// Whether a key presence answer means the key is present; the daemon's
/// failure and an unspecified or unknown answer are not accepted.
pub fn key_presence_answer(response: i32) -> (r: bool)
    requires response == KEY_PRESENCE_PRESENT || response == KEY_PRESENCE_ABSENT,
    ensures r == (response == KEY_PRESENCE_PRESENT),
{
    response == KEY_PRESENCE_PRESENT
}

/// Asks whether the daemon holds key `key_uid`.
pub fn key_presence_request(key_uid: String) -> (r: KeyPresenceRequest)
    ensures r.key_uid == key_uid, r.pub_key@.len() == 0,
{
    KeyPresenceRequest { key_uid, pub_key: Vec::new() }
}

impl TssParty {
    pub fn new(authority: Authority, committee: Committee) -> (r: TssParty)
        ensures r.authority() == authority, r.committee() == committee,
    {
        TssParty { authority, committee }
    }

    pub closed spec fn authority(&self) -> Authority {
        self.authority
    }

    pub closed spec fn committee(&self) -> Committee {
        self.committee
    }

    /// This party's identifier: the peer id of its network key.
    pub fn get_uid(&self) -> (r: String)
        ensures r@ == peer_id_string(self.authority().network_key@),
    {
        hex_string(&self.authority.network_key)
    }

    /// The identifiers of all parties, in committee order.
    pub fn get_parties(&self) -> (r: Vec<String>)
        ensures
            r@.len() == self.committee().authorities@.len(),
            forall|i: int| 0 <= i < r@.len() ==> #[trigger] r@[i]@ == peer_id_string(self.committee().authorities@[i].network_key@),
    {
        let mut out: Vec<String> = Vec::new();
        let mut i: usize = 0;
        while i < self.committee.authorities.len()
            invariant
                i <= self.committee.authorities.len(),
                out@.len() == i,
                forall|j: int| 0 <= j < i ==> #[trigger] out@[j]@ == peer_id_string(self.committee.authorities@[j].network_key@),
            decreases self.committee.authorities.len() - i,
        {
            out.push(hex_string(&self.committee.authorities[i].network_key));
            i = i + 1;
        }
        out
    }

    /// Starts a key generation of the epoch's key: every party holds one
    /// share of four, and two more than the threshold must take part.
    pub fn create_keygen_init(&self) -> (r: KeygenInit)
        ensures
            r.new_key_uid@ == session_key_uid(self.committee().epoch),
            r.party_uids@.len() == self.committee().authorities@.len(),
            forall|i: int| 0 <= i < r.party_uids@.len() ==> #[trigger] r.party_uids@[i]@ == peer_id_string(self.committee().authorities@[i].network_key@),
            r.party_share_counts@ == seq![1u32, 1u32, 1u32, 1u32],
            r.my_party_index == self.authority().id as u32,
            r.threshold == 2,
    {
        let mut counts: Vec<u32> = Vec::new();
        counts.push(1);
        counts.push(1);
        counts.push(1);
        counts.push(1);
        proof {
            assert(counts@ =~= seq![1u32, 1u32, 1u32, 1u32]);
        }
        KeygenInit {
            new_key_uid: session_key(self.committee.epoch),
            party_uids: self.get_parties(),
            party_share_counts: counts,
            my_party_index: self.authority.id as u32,
            threshold: 2,
        }
    }

    /// Starts signing `message` with the epoch's key, under a fresh random
    /// signature identifier.
    pub fn create_sign_init(&self, message: Vec<u8>) -> (r: SignInit)
        ensures
            r.new_sig_uid@.len() == 36,
            r.key_uid@ == session_key_uid(self.committee().epoch),
            r.party_uids@.len() == self.committee().authorities@.len(),
            forall|i: int| 0 <= i < r.party_uids@.len() ==> #[trigger] r.party_uids@[i]@ == peer_id_string(self.committee().authorities@[i].network_key@),
            r.message_to_sign == message,
    {
        SignInit {
            new_sig_uid: new_uuid_string(),
            key_uid: session_key(self.committee.epoch),
            party_uids: self.get_parties(),
            message_to_sign: message,
        }
    }

    /// The port of the party's tofnd daemon when none is configured.
    pub fn default_tofnd_port(&self) -> (r: u16)
        requires self.authority().id <= 15525,
        ensures r == 50010 + self.authority().id,
    {
        50010 + self.authority.id
    }

    /// The network keys of the other parties, in committee order.
    pub fn delivery_peers(&self) -> (r: Vec<Vec<u8>>)
        ensures
            r@.len() == crate::committee::other_positions(self.committee().authorities@, self.authority().id, self.committee().authorities@.len() as int).len(),
            forall|k: int| 0 <= k < r@.len() ==> #[trigger] r@[k]@ == self.committee().authorities@[
                crate::committee::other_positions(self.committee().authorities@, self.authority().id, self.committee().authorities@.len() as int)[k] as int].network_key@,
    {
        let positions = self.committee.others_by_id(self.authority.id);
        let ghost ps = positions@;
        proof {
            assert(self.committee.authorities.len() == self.committee.authorities@.len());
            crate::committee::lemma_other_positions_bound(self.committee.authorities@, self.authority.id, self.committee.authorities@.len() as int);
        }
        let mut out: Vec<Vec<u8>> = Vec::new();
        let mut k: usize = 0;
        while k < positions.len()
            invariant
                k <= positions.len(),
                ps == positions@,
                ps == crate::committee::other_positions(self.committee.authorities@, self.authority.id, self.committee.authorities@.len() as int),
                forall|j: int| 0 <= j < ps.len() ==> (#[trigger] ps[j] as int) < self.committee.authorities@.len(),
                out@.len() == k,
                forall|j: int| 0 <= j < k ==> #[trigger] out@[j]@ == self.committee.authorities@[ps[j] as int].network_key@,
            decreases positions.len() - k,
        {
            out.push(copy_bytes(&self.committee.authorities[positions[k]].network_key));
            k = k + 1;
        }
        out
    }

    /// What goes out when the daemon emits `msg` (which must be traffic)
    /// on behalf of party `from`: the traffic as an incoming message for the
    /// party's own daemon, and as a delivery message for the other parties.
    pub fn prepare_delivery(&self, msg: &MessageOut, from: &str) -> (r: Delivery)
        requires msg.data matches Some(MessageOutData::Traffic(_)),
        ensures
            match msg.data {
                Some(MessageOutData::Traffic(t)) => is_delivery(self.authority(), self.committee(), t, from@, r),
                _ => false,
            },
    {
        let traffic = match &msg.data {
            Some(MessageOutData::Traffic(t)) => t,
            _ => {
                proof {
                    assert(false);
                }
                return Delivery {
                    to_self: MessageIn { data: None },
                    message: TssAnemoDeliveryMessage { from_party_uid: String::new(), is_broadcast: false, payload: Vec::new() },
                    peers: Vec::new(),
                };
            },
        };
        let to_self = MessageIn {
            data: Some(MessageInData::Traffic(TrafficIn {
                from_party_uid: String::from_str(from),
                is_broadcast: traffic.is_broadcast,
                payload: copy_bytes(&traffic.payload),
            })),
        };
        let message = TssAnemoDeliveryMessage {
            from_party_uid: String::from_str(from),
            is_broadcast: traffic.is_broadcast,
            payload: copy_bytes(&traffic.payload),
        };
        Delivery { to_self, message, peers: self.delivery_peers() }
    }
}

} // verus!
