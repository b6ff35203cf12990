//! The connection session: the handshake state machine that turns two
//! manually exchanged descriptors into a live channel, and the application
//! key-exchange that runs once the channel opens.
//!
//! The network itself (ICE negotiation, the data channel) lives outside; it
//! feeds the session plain events and performs the actions the session hands
//! back.  Every decision — what a signal means, when a descriptor may be
//! published, when sending is allowed, what goes on the wire — is taken here.

use vstd::prelude::*;

verus! {

use crate::codec::EnvelopeView;
use crate::codec::RtcMessage;
use crate::codec::RtcSignalData;
use crate::codec::SignalView;
use crate::codec::envelope_json;
use crate::codec::lemma_envelope_round_trip;
use crate::codec::signal_json;
use crate::codec::spec_parse_envelope;
use crate::codec::spec_parse_signal;
use crate::crypto::canonical_recipient;
use crate::crypto::ciphertext_for;
use crate::crypto::valid_public_key;

/// Which side of the handshake this session plays.
#[derive(Clone, Copy, Debug, PartialEq, Eq, Structural)]
pub enum Role {
    Initiator,
    Responder,
}

/// The lifecycle of one handshake attempt.  `New` is the notional state
/// before anything happened; both constructors enter `Negotiating` at once.
/// `Failed` is terminal: retrying means a brand-new session with fresh
/// descriptors.
#[derive(Clone, Copy, Debug, PartialEq, Eq, Structural)]
pub enum Lifecycle {
    New,
    Negotiating,
    LocalDescriptorReady,
    Connected,
    ChannelOpen,
    Closed,
    Failed,
}

/// Errors of the session layer.
#[derive(Clone, Copy, Debug, PartialEq, Eq, Structural)]
pub enum SessionError {
    /// A descriptor was malformed or arrived out of order; the session is
    /// left in `Failed`.
    SignalRejected,
    /// A send was attempted before the channel opened.  Nothing is queued and
    /// nothing is silently dropped; the caller must surface this.
    ChannelNotReady,
    /// No peer public key has arrived yet, so nothing can be sealed for the
    /// peer.
    NoPeerKey,
    /// The stored peer public key does not parse as a public key.
    InvalidPeerKey,
}

/// A network-side occurrence fed into the session.
pub enum Event {
    /// ICE candidate gathering finished and produced the local description.
    /// Only now may a descriptor be published; premature ones are invalid.
    GatheringComplete { sdp: String },
    /// Network-level reachability was achieved.
    IceConnected,
    /// Negotiation failed; terminal for the session.
    IceFailed,
    /// The data channel became usable.
    ChannelOpened,
    /// A text arrived on the data channel.
    WireMessage { data: String },
    /// The peer dropped after a successful connection.
    PeerDisconnected,
    /// The session was closed locally.
    SessionClosed,
}

/// The mathematical value of an event.
pub enum EventView {
    GatheringComplete { sdp: Seq<char> },
    IceConnected,
    IceFailed,
    ChannelOpened,
    WireMessage { data: Seq<char> },
    PeerDisconnected,
    SessionClosed,
}

impl View for Event {
    type V = EventView;

    open spec fn view(&self) -> EventView {
        match self {
            Event::GatheringComplete { sdp } => EventView::GatheringComplete { sdp: sdp@ },
            Event::IceConnected => EventView::IceConnected,
            Event::IceFailed => EventView::IceFailed,
            Event::ChannelOpened => EventView::ChannelOpened,
            Event::WireMessage { data } => EventView::WireMessage { data: data@ },
            Event::PeerDisconnected => EventView::PeerDisconnected,
            Event::SessionClosed => EventView::SessionClosed,
        }
    }
}

/// What the surrounding runtime must do after an event was absorbed.
pub enum Action {
    /// Nothing.
    Nothing,
    /// Carry the completed local descriptor to the peer out of band.
    PublishLocalDescriptor { descriptor_wire: String },
    /// Send a text on the open data channel.
    SendWire { message_wire: String },
    /// Hand a received sealed payload to the decrypt flow.
    DeliverCiphertext { ciphertext: String },
    /// Tell the user the peer dropped; local state is kept.
    ReportDisconnected,
}

/// The mathematical value of an action.
pub enum ActionView {
    Nothing,
    PublishLocalDescriptor { descriptor_wire: Seq<char> },
    SendWire { message_wire: Seq<char> },
    DeliverCiphertext { ciphertext: Seq<char> },
    ReportDisconnected,
}

impl View for Action {
    type V = ActionView;

    open spec fn view(&self) -> ActionView {
        match self {
            Action::Nothing => ActionView::Nothing,
            Action::PublishLocalDescriptor { descriptor_wire } => {
                ActionView::PublishLocalDescriptor { descriptor_wire: descriptor_wire@ }
            },
            Action::SendWire { message_wire } => ActionView::SendWire {
                message_wire: message_wire@,
            },
            Action::DeliverCiphertext { ciphertext } => ActionView::DeliverCiphertext {
                ciphertext: ciphertext@,
            },
            Action::ReportDisconnected => ActionView::ReportDisconnected,
        }
    }
}

/// The live state of one handshake attempt, owned by whoever drives it and
/// never shared across sessions.
pub struct Session {
    pub role: Role,
    pub lifecycle: Lifecycle,
    /// The completed local description; immutable once set, at most one per
    /// session.
    pub local_descriptor: Option<RtcSignalData>,
    /// The session description received from the peer.
    pub remote_sdp: Option<String>,
    /// Our own public key, sent automatically when the channel opens.
    pub own_public_key: String,
    /// The peer's public key, once a `PublicKey` envelope arrived.  A later
    /// envelope overwrites it; there is no replay protection at this layer.
    pub peer_public_key: Option<String>,
}

/// The mathematical value of a session.
pub struct SessionView {
    pub role: Role,
    pub lifecycle: Lifecycle,
    pub local_descriptor: Option<SignalView>,
    pub remote_sdp: Option<Seq<char>>,
    pub own_public_key: Seq<char>,
    pub peer_public_key: Option<Seq<char>>,
}

impl View for Session {
    type V = SessionView;

    open spec fn view(&self) -> SessionView {
        SessionView {
            role: self.role,
            lifecycle: self.lifecycle,
            local_descriptor: match self.local_descriptor {
                Option::Some(d) => Some(d@),
                Option::None => None,
            },
            remote_sdp: match self.remote_sdp {
                Option::Some(r) => Some(r@),
                Option::None => None,
            },
            own_public_key: self.own_public_key@,
            peer_public_key: match self.peer_public_key {
                Option::Some(k) => Some(k@),
                Option::None => None,
            },
        }
    }
}

/// Whether a lifecycle state may still absorb handshake progress.
pub open spec fn pre_open(l: Lifecycle) -> bool {
    l == Lifecycle::Negotiating || l == Lifecycle::LocalDescriptorReady || l
        == Lifecycle::Connected
}

/// The transition function: what one event does to a session, and which
/// action it demands.
pub open spec fn step_spec(s: SessionView, e: EventView) -> (SessionView, ActionView) {
    match e {
        EventView::GatheringComplete { sdp } => {
            if s.lifecycle == Lifecycle::Negotiating {
                let d = match s.role {
                    Role::Initiator => SignalView::Offer { sdp },
                    Role::Responder => SignalView::Answer { sdp },
                };
                (
                    SessionView {
                        lifecycle: Lifecycle::LocalDescriptorReady,
                        local_descriptor: Some(d),
                        ..s
                    },
                    ActionView::PublishLocalDescriptor { descriptor_wire: signal_json(d) },
                )
            } else {
                (s, ActionView::Nothing)
            }
        },
        EventView::IceConnected => {
            if s.lifecycle == Lifecycle::Negotiating || s.lifecycle
                == Lifecycle::LocalDescriptorReady {
                (SessionView { lifecycle: Lifecycle::Connected, ..s }, ActionView::Nothing)
            } else {
                (s, ActionView::Nothing)
            }
        },
        EventView::IceFailed => {
            if s.lifecycle == Lifecycle::Closed {
                (s, ActionView::Nothing)
            } else {
                (SessionView { lifecycle: Lifecycle::Failed, ..s }, ActionView::Nothing)
            }
        },
        EventView::ChannelOpened => {
            if pre_open(s.lifecycle) {
                (
                    SessionView { lifecycle: Lifecycle::ChannelOpen, ..s },
                    ActionView::SendWire {
                        message_wire: envelope_json(
                            EnvelopeView::PublicKey { key: s.own_public_key },
                        ),
                    },
                )
            } else {
                (s, ActionView::Nothing)
            }
        },
        EventView::WireMessage { data } => {
            match spec_parse_envelope(data) {
                Option::Some(EnvelopeView::PublicKey { key }) => {
                    (SessionView { peer_public_key: Some(key), ..s }, ActionView::Nothing)
                },
                Option::Some(EnvelopeView::EncryptedData { blob }) => {
                    (s, ActionView::DeliverCiphertext { ciphertext: blob })
                },
                Option::None => (s, ActionView::Nothing),
            }
        },
        EventView::PeerDisconnected => (s, ActionView::ReportDisconnected),
        EventView::SessionClosed => {
            (SessionView { lifecycle: Lifecycle::Closed, ..s }, ActionView::Nothing)
        },
    }
}

impl Session {
    /// Starts the side that creates the data channel and produces the Offer.
    pub fn start_as_initiator(own_public_key: String) -> (s: Session)
        ensures
            s@ == (SessionView {
                role: Role::Initiator,
                lifecycle: Lifecycle::Negotiating,
                local_descriptor: None,
                remote_sdp: None,
                own_public_key: own_public_key@,
                peer_public_key: None,
            }),
    {
        Session {
            role: Role::Initiator,
            lifecycle: Lifecycle::Negotiating,
            local_descriptor: None,
            remote_sdp: None,
            own_public_key,
            peer_public_key: None,
        }
    }

    /// Starts the responding side from a received Offer wire text.  Anything
    /// that is not an Offer — an Answer, or a malformed text — is rejected.
    /// The network layer must wire its channel-acceptance callback before it
    /// processes the remote descriptor this session hands back: an incoming
    /// channel announcement can race with descriptor processing.
    pub fn accept_offer(own_public_key: String, offer_wire: &str) -> (r: Result<
        Session,
        SessionError,
    >)
        ensures
            match r {
                Ok(s) => spec_parse_signal(offer_wire@) matches Some(SignalView::Offer { sdp })
                    && s@ == (SessionView {
                    role: Role::Responder,
                    lifecycle: Lifecycle::Negotiating,
                    local_descriptor: None,
                    remote_sdp: Some(sdp),
                    own_public_key: own_public_key@,
                    peer_public_key: None,
                }),
                Err(e) => e == SessionError::SignalRejected && !(spec_parse_signal(offer_wire@)
                    matches Some(SignalView::Offer { .. })),
            },
    {
        match RtcSignalData::from_wire(offer_wire) {
            Some(RtcSignalData::Offer { sdp_data }) => Ok(
                Session {
                    role: Role::Responder,
                    lifecycle: Lifecycle::Negotiating,
                    local_descriptor: None,
                    remote_sdp: Some(sdp_data),
                    own_public_key,
                    peer_public_key: None,
                },
            ),
            _ => Err(SessionError::SignalRejected),
        }
    }

    /// Finalizes the initiator side with a received Answer wire text.  An
    /// invalid or out-of-order answer is rejected and leaves the session in
    /// `Failed`.
    pub fn accept_answer(&mut self, answer_wire: &str) -> (r: Result<(), SessionError>)
        ensures
            ({
                let fits = old(self)@.role == Role::Initiator && old(self)@.lifecycle
                    == Lifecycle::LocalDescriptorReady && spec_parse_signal(answer_wire@) matches Some(
                    SignalView::Answer { .. },
                );
                if fits {
                    r == Ok::<(), SessionError>(()) && final(self)@ == (SessionView {
                        remote_sdp: Some(spec_parse_signal(answer_wire@)->Some_0->Answer_sdp),
                        ..old(self)@
                    })
                } else {
                    r == Err::<(), SessionError>(SessionError::SignalRejected) && final(self)@ == (
                    SessionView { lifecycle: Lifecycle::Failed, ..old(self)@ })
                }
            }),
    {
        let parsed = RtcSignalData::from_wire(answer_wire);
        match parsed {
            Some(RtcSignalData::Answer { sdp_data }) => {
                if matches!(self.role, Role::Initiator) && matches!(
                    self.lifecycle,
                    Lifecycle::LocalDescriptorReady,
                ) {
                    self.remote_sdp = Some(sdp_data);
                    Ok(())
                } else {
                    self.lifecycle = Lifecycle::Failed;
                    Err(SessionError::SignalRejected)
                }
            },
            _ => {
                self.lifecycle = Lifecycle::Failed;
                Err(SessionError::SignalRejected)
            },
        }
    }

    /// Absorbs one network event and returns the demanded action.
    pub fn on_event(&mut self, e: Event) -> (a: Action)
        ensures
            (final(self)@, a@) == step_spec(old(self)@, e@),
    {
        match e {
            Event::GatheringComplete { sdp } => {
                if matches!(self.lifecycle, Lifecycle::Negotiating) {
                    let d = match self.role {
                        Role::Initiator => RtcSignalData::Offer { sdp_data: sdp },
                        Role::Responder => RtcSignalData::Answer { sdp_data: sdp },
                    };
                    let wire = d.to_wire();
                    self.lifecycle = Lifecycle::LocalDescriptorReady;
                    self.local_descriptor = Some(d);
                    Action::PublishLocalDescriptor { descriptor_wire: wire }
                } else {
                    Action::Nothing
                }
            },
            Event::IceConnected => {
                if matches!(self.lifecycle, Lifecycle::Negotiating)
                    || matches!(self.lifecycle, Lifecycle::LocalDescriptorReady) {
                    self.lifecycle = Lifecycle::Connected;
                }
                Action::Nothing
            },
            Event::IceFailed => {
                if !matches!(self.lifecycle, Lifecycle::Closed) {
                    self.lifecycle = Lifecycle::Failed;
                }
                Action::Nothing
            },
            Event::ChannelOpened => {
                if matches!(self.lifecycle, Lifecycle::Negotiating) || matches!(
                    self.lifecycle,
                    Lifecycle::LocalDescriptorReady,
                ) || matches!(self.lifecycle, Lifecycle::Connected) {
                    self.lifecycle = Lifecycle::ChannelOpen;
                    let envelope = RtcMessage::PublicKey {
                        public_key: self.own_public_key.clone(),
                    };
                    let wire = envelope.to_wire();
                    Action::SendWire { message_wire: wire }
                } else {
                    Action::Nothing
                }
            },
            Event::WireMessage { data } => {
                match RtcMessage::from_wire(data.as_str()) {
                    Some(RtcMessage::PublicKey { public_key }) => {
                        self.peer_public_key = Some(public_key);
                        Action::Nothing
                    },
                    Some(RtcMessage::EncryptedData { encrypted_data }) => {
                        Action::DeliverCiphertext { ciphertext: encrypted_data }
                    },
                    None => Action::Nothing,
                }
            },
            Event::PeerDisconnected => Action::ReportDisconnected,
            Event::SessionClosed => {
                self.lifecycle = Lifecycle::Closed;
                Action::Nothing
            },
        }
    }

    /// Serializes an envelope for the data channel.  Fails immediately with
    /// `ChannelNotReady` — no queuing, no retry — unless the channel is open.
    pub fn send_envelope(&self, envelope: &RtcMessage) -> (r: Result<String, SessionError>)
        ensures
            self@.lifecycle == Lifecycle::ChannelOpen ==> (r matches Ok(w) && w@ == envelope_json(
                envelope@,
            )),
            self@.lifecycle != Lifecycle::ChannelOpen ==> r == Err::<String, SessionError>(
                SessionError::ChannelNotReady,
            ),
    {
        if matches!(self.lifecycle, Lifecycle::ChannelOpen) {
            Ok(envelope.to_wire())
        } else {
            Err(SessionError::ChannelNotReady)
        }
    }

    /// Seals a chat message for the peer and wraps it in an `EncryptedData`
    /// envelope, ready for the data channel.  Fails with `ChannelNotReady`
    /// before the channel opens, `NoPeerKey` before the peer's key arrived,
    /// and `InvalidPeerKey` when what arrived does not parse as a key.
    pub fn seal_chat_message(&self, plaintext: &str) -> (r: Result<String, SessionError>)
        ensures
            self@.lifecycle != Lifecycle::ChannelOpen ==> r == Err::<String, SessionError>(
                SessionError::ChannelNotReady,
            ),
            self@.lifecycle == Lifecycle::ChannelOpen && self@.peer_public_key is None ==> r
                == Err::<String, SessionError>(SessionError::NoPeerKey),
            self@.peer_public_key is Some && self@.lifecycle == Lifecycle::ChannelOpen ==> ((r
                is Ok <==> valid_public_key(self@.peer_public_key->Some_0)) && (r is Err ==> r
                == Err::<String, SessionError>(SessionError::InvalidPeerKey))),
            r matches Ok(w) ==> (self@.peer_public_key matches Some(pk) && exists|ct: Seq<char>|
                w@ == envelope_json(EnvelopeView::EncryptedData { blob: ct }) && ciphertext_for(
                    ct,
                    canonical_recipient(pk),
                    plaintext@,
                )),
    {
        if !matches!(self.lifecycle, Lifecycle::ChannelOpen) {
            return Err(SessionError::ChannelNotReady);
        }
        let peer = match &self.peer_public_key {
            Some(k) => k,
            None => {
                return Err(SessionError::NoPeerKey);
            },
        };
        match crate::crypto::encrypt(peer.as_str(), plaintext) {
            Ok(ciphertext) => {
                let ghost ct = ciphertext@;
                let envelope = RtcMessage::EncryptedData { encrypted_data: ciphertext };
                let wire = envelope.to_wire();
                proof {
                    assert(wire@ == envelope_json(EnvelopeView::EncryptedData { blob: ct }));
                }
                Ok(wire)
            },
            Err(_) => Err(SessionError::InvalidPeerKey),
        }
    }
}

/// Handshake symmetry law: wire two sessions to each other; once each learns
/// its channel is open, each automatically emits its own public key, and
/// delivering each emission to the other side leaves every side holding
/// exactly the other's key — within one delivered message, no more rounds.
pub proof fn lemma_handshake_symmetry(a: SessionView, b: SessionView)
    requires
        a.lifecycle == Lifecycle::Connected,
        b.lifecycle == Lifecycle::Connected,
    ensures
        ({
            let a_open = step_spec(a, EventView::ChannelOpened);
            let b_open = step_spec(b, EventView::ChannelOpened);
            let a_done = step_spec(
                a_open.0,
                EventView::WireMessage { data: b_open.1->message_wire },
            );
            let b_done = step_spec(
                b_open.0,
                EventView::WireMessage { data: a_open.1->message_wire },
            );
            &&& a_open.0.lifecycle == Lifecycle::ChannelOpen
            &&& b_open.0.lifecycle == Lifecycle::ChannelOpen
            &&& a_done.0.peer_public_key == Some(b.own_public_key)
            &&& b_done.0.peer_public_key == Some(a.own_public_key)
        }),
{
    lemma_envelope_round_trip(EnvelopeView::PublicKey { key: a.own_public_key });
    lemma_envelope_round_trip(EnvelopeView::PublicKey { key: b.own_public_key });
}

} // verus!
