//! The course of a key generation and of a signing session with the local
//! tofnd daemon. The party connects to the daemon, sends it the init message
//! first, then handles the daemon's messages in the order they arrive: each
//! piece of traffic is delivered under the party's own uid, and the result
//! ends the session. A transport error ends it too and is handed back as it
//! came. The caller performs each action and hands back what came of it.
use vstd::prelude::*;

use crate::tss::{
    is_delivery, peer_id_string, Delivery, KeygenInit, KeygenResult, MessageIn, MessageInData, MessageOut,
    MessageOutData, SignInit, SignResult, TssParty, keygen_message_ok, sign_message_ok,
};

verus! {

/// Where a session with the daemon stands.
#[derive(Debug, Clone, Copy, PartialEq, Eq, Structural)]
pub enum SessionStage {
    /// Waiting for the client of the daemon.
    Connecting,
    /// The init message was sent; the daemon's messages are being handled.
    Running,
    /// The session has its answer.
    Done,
}

/// What came of the last action of a session; `E` is the transport's error.
#[derive(Debug)]
pub enum SessionEvent<E> {
    /// Whether a client of the daemon could be had.
    Connected(bool),
    /// The next message of the daemon.
    Message(MessageOut),
    /// The daemon closed its stream.
    Closed,
    /// The stream from the daemon failed.
    TransportError(E),
}

/// What a key generation does next.
#[derive(Debug)]
pub enum KeygenAction<E> {
    /// Send this message to the daemon.
    Send(MessageIn),
    /// Send the traffic to the party's own daemon and to the other parties.
    Deliver(Delivery),
    /// The session ends with this result.
    Reply(KeygenResult),
    /// The session ends with the transport's error.
    Fail(E),
    /// The session ends: no client of the daemon was found.
    NotFound,
    /// The event does not belong to this stage: nothing to do.
    Ignore,
}

/// What a signing session does next.
#[derive(Debug)]
pub enum SignAction<E> {
    Send(MessageIn),
    Deliver(Delivery),
    Reply(SignResult),
    Fail(E),
    NotFound,
    Ignore,
}

/// A key generation in progress.
pub struct KeygenSession {
    pub stage: SessionStage,
    /// The init message, until it is sent.
    pub init: Option<KeygenInit>,
}

/// A signing session in progress.
pub struct SignSession {
    pub stage: SessionStage,
    /// The init message, until it is sent.
    pub init: Option<SignInit>,
}

/// One step of a key generation of `party` on `event`: the next stage and
/// whether `a` is the action. The init message goes out first; traffic is
/// delivered under the party's uid; the result, a closed stream (an empty
/// result) or a transport error ends the session.
pub open spec fn keygen_session_step<E>(
    party: TssParty,
    stage: SessionStage,
    init: Option<KeygenInit>,
    event: SessionEvent<E>,
    next: SessionStage,
    a: KeygenAction<E>,
) -> bool {
    let ignored = next == stage && a is Ignore;
    match stage {
        SessionStage::Connecting => match event {
            SessionEvent::Connected(ok) => if !ok {
                next == SessionStage::Done && a is NotFound
            } else {
                next == SessionStage::Running && a == KeygenAction::<E>::Send(
                    MessageIn { data: Some(MessageInData::KeygenInit(init->Some_0)) },
                )
            },
            _ => ignored,
        },
        SessionStage::Running => match event {
            SessionEvent::Message(m) => match m.data {
                Some(MessageOutData::Traffic(t)) => next == SessionStage::Running && (a matches KeygenAction::Deliver(
                    d,
                ) && is_delivery(party.authority(), party.committee(), t, peer_id_string(party.authority().network_key@), d)),
                Some(MessageOutData::KeygenResult(res)) => next == SessionStage::Done && a == KeygenAction::<E>::Reply(res),
                _ => false,
            },
            SessionEvent::Closed => next == SessionStage::Done && a == KeygenAction::<E>::Reply(
                KeygenResult { keygen_result_data: None },
            ),
            SessionEvent::TransportError(e) => next == SessionStage::Done && a == KeygenAction::<E>::Fail(e),
            SessionEvent::Connected(_) => ignored,
        },
        SessionStage::Done => ignored,
    }
}

/// One step of a signing session of `party` on `event` (see
/// [`keygen_session_step`]); a request for recovery cancels signing with an
/// empty result.
pub open spec fn sign_session_step<E>(
    party: TssParty,
    stage: SessionStage,
    init: Option<SignInit>,
    event: SessionEvent<E>,
    next: SessionStage,
    a: SignAction<E>,
) -> bool {
    let ignored = next == stage && a is Ignore;
    match stage {
        SessionStage::Connecting => match event {
            SessionEvent::Connected(ok) => if !ok {
                next == SessionStage::Done && a is NotFound
            } else {
                next == SessionStage::Running && a == SignAction::<E>::Send(
                    MessageIn { data: Some(MessageInData::SignInit(init->Some_0)) },
                )
            },
            _ => ignored,
        },
        SessionStage::Running => match event {
            SessionEvent::Message(m) => match m.data {
                Some(MessageOutData::Traffic(t)) => next == SessionStage::Running && (a matches SignAction::Deliver(d)
                    && is_delivery(party.authority(), party.committee(), t, peer_id_string(party.authority().network_key@), d)),
                Some(MessageOutData::SignResult(res)) => next == SessionStage::Done && a == SignAction::<E>::Reply(res),
                Some(MessageOutData::NeedRecover(_)) => next == SessionStage::Done && a == SignAction::<E>::Reply(
                    SignResult { sign_result_data: None },
                ),
                _ => false,
            },
            SessionEvent::Closed => next == SessionStage::Done && a == SignAction::<E>::Reply(
                SignResult { sign_result_data: None },
            ),
            SessionEvent::TransportError(e) => next == SessionStage::Done && a == SignAction::<E>::Fail(e),
            SessionEvent::Connected(_) => ignored,
        },
        SessionStage::Done => ignored,
    }
}

impl KeygenSession {
    /// A key generation that will start with `init`.
    pub fn new(init: KeygenInit) -> (r: Self)
        ensures
            r.stage == SessionStage::Connecting,
            r.init == Some(init),
    {
        KeygenSession { stage: SessionStage::Connecting, init: Some(init) }
    }

    /// Takes the key generation one step further on `event` (see
    /// [`keygen_session_step`]).
    pub fn step<E>(&mut self, party: &TssParty, event: SessionEvent<E>) -> (a: KeygenAction<E>)
        requires
            old(self).stage == SessionStage::Connecting ==> old(self).init is Some,
            old(self).stage == SessionStage::Running ==> match event {
                SessionEvent::Message(m) => keygen_message_ok(Some(m)),
                _ => true,
            },
        ensures
            keygen_session_step(*party, old(self).stage, old(self).init, event, final(self).stage, a),
    {
        match self.stage {
            SessionStage::Connecting => match event {
                SessionEvent::Connected(ok) => {
                    if !ok {
                        self.stage = SessionStage::Done;
                        KeygenAction::NotFound
                    } else {
                        let init = self.init.take().unwrap();
                        self.stage = SessionStage::Running;
                        KeygenAction::Send(MessageIn { data: Some(MessageInData::KeygenInit(init)) })
                    }
                },
                _ => KeygenAction::Ignore,
            },
            SessionStage::Running => match event {
                SessionEvent::Message(m) => {
                    match m.data {
                        Some(MessageOutData::KeygenResult(res)) => {
                            self.stage = SessionStage::Done;
                            KeygenAction::Reply(res)
                        },
                        _ => {
                            let uid = party.get_uid();
                            KeygenAction::Deliver(party.prepare_delivery(&m, uid.as_str()))
                        },
                    }
                },
                SessionEvent::Closed => {
                    self.stage = SessionStage::Done;
                    KeygenAction::Reply(KeygenResult { keygen_result_data: None })
                },
                SessionEvent::TransportError(e) => {
                    self.stage = SessionStage::Done;
                    KeygenAction::Fail(e)
                },
                SessionEvent::Connected(_) => KeygenAction::Ignore,
            },
            SessionStage::Done => KeygenAction::Ignore,
        }
    }
}

impl SignSession {
    /// A signing session that will start with `init`.
    pub fn new(init: SignInit) -> (r: Self)
        ensures
            r.stage == SessionStage::Connecting,
            r.init == Some(init),
    {
        SignSession { stage: SessionStage::Connecting, init: Some(init) }
    }

    /// Takes the signing session one step further on `event` (see
    /// [`sign_session_step`]).
    pub fn step<E>(&mut self, party: &TssParty, event: SessionEvent<E>) -> (a: SignAction<E>)
        requires
            old(self).stage == SessionStage::Connecting ==> old(self).init is Some,
            old(self).stage == SessionStage::Running ==> match event {
                SessionEvent::Message(m) => sign_message_ok(Some(m)),
                _ => true,
            },
        ensures
            sign_session_step(*party, old(self).stage, old(self).init, event, final(self).stage, a),
    {
        match self.stage {
            SessionStage::Connecting => match event {
                SessionEvent::Connected(ok) => {
                    if !ok {
                        self.stage = SessionStage::Done;
                        SignAction::NotFound
                    } else {
                        let init = self.init.take().unwrap();
                        self.stage = SessionStage::Running;
                        SignAction::Send(MessageIn { data: Some(MessageInData::SignInit(init)) })
                    }
                },
                _ => SignAction::Ignore,
            },
            SessionStage::Running => match event {
                SessionEvent::Message(m) => {
                    match m.data {
                        Some(MessageOutData::SignResult(res)) => {
                            self.stage = SessionStage::Done;
                            SignAction::Reply(res)
                        },
                        Some(MessageOutData::NeedRecover(_)) => {
                            self.stage = SessionStage::Done;
                            SignAction::Reply(SignResult { sign_result_data: None })
                        },
                        _ => {
                            let uid = party.get_uid();
                            SignAction::Deliver(party.prepare_delivery(&m, uid.as_str()))
                        },
                    }
                },
                SessionEvent::Closed => {
                    self.stage = SessionStage::Done;
                    SignAction::Reply(SignResult { sign_result_data: None })
                },
                SessionEvent::TransportError(e) => {
                    self.stage = SessionStage::Done;
                    SignAction::Fail(e)
                },
                SessionEvent::Connected(_) => SignAction::Ignore,
            },
            SessionStage::Done => SignAction::Ignore,
        }
    }
}

} // verus!
