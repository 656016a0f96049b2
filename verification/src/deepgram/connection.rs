//! The connection manager: the state of one session and the decisions of its
//! outbound and inbound sides.
//!
//! The network itself is driven from outside. Each operation here takes what
//! happened and says what the state becomes and what is to be done next.

use vstd::prelude::*;
use vstd::string::*;
use crate::deepgram::audio::{encode_linear16, linear16};
use crate::deepgram::config::DeepgramConfig;
use crate::deepgram::handshake::{
    build_handshake,
    generate_websocket_key,
    handshake_headers,
    HandshakeRequest,
};
use crate::deepgram::response::{
    parse_deepgram_response,
    parsed_segment,
    DeepgramResponse,
    TranscriptionSegment,
};

verus! {

/// State of the connection.
#[derive(Debug, Clone, PartialEq)]
pub enum ConnectionState {
    Disconnected,
    Connecting,
    Connected,
    Error(String),
}

/// What a [`ConnectionState`] holds.
pub enum ConnectionPhase {
    Disconnected,
    Connecting,
    Connected,
    Error(Seq<char>),
}

impl View for ConnectionState {
    type V = ConnectionPhase;

    open spec fn view(&self) -> ConnectionPhase {
        match self {
            ConnectionState::Disconnected => ConnectionPhase::Disconnected,
            ConnectionState::Connecting => ConnectionPhase::Connecting,
            ConnectionState::Connected => ConnectionPhase::Connected,
            ConnectionState::Error(reason) => ConnectionPhase::Error(reason@),
        }
    }
}

/// Why an operation on the connection was refused.
#[derive(Debug, Clone)]
pub enum ConnectionError {
    /// A session is already established.
    AlreadyStreaming,
    /// The connect attempt failed; the text says how.
    ConnectFailed(String),
    /// There is no established session to send on.
    NotConnected,
}

/// The message of a refusal.
pub open spec fn refusal_text(error: ConnectionError) -> Seq<char> {
    match error {
        ConnectionError::AlreadyStreaming => "Already connected"@,
        ConnectionError::ConnectFailed(reason) => reason@,
        ConnectionError::NotConnected => "Not connected"@,
    }
}

impl ConnectionError {
    /// The message of the refusal.
    pub fn message(&self) -> (text: String)
        ensures
            text@ == refusal_text(*self),
    {
        match self {
            ConnectionError::AlreadyStreaming => "Already connected".to_owned(),
            ConnectionError::ConnectFailed(reason) => reason.clone(),
            ConnectionError::NotConnected => "Not connected".to_owned(),
        }
    }
}

/// The text of an opening exchange that the network refused or lost.
pub open spec fn exchange_failure_text(detail: Seq<char>) -> Seq<char> {
    "Failed to connect to Deepgram: "@ + detail
}

/// The outcome of an opening exchange that the network refused or lost, for
/// the reason that the network layer gave.
pub fn exchange_failed(detail: &str) -> (outcome: HandshakeOutcome)
    ensures
        outcome matches HandshakeOutcome::Failed(reason) && reason@ == exchange_failure_text(
            detail@,
        ),
{
    let mut reason = "Failed to connect to Deepgram: ".to_owned();
    reason.append(detail);
    HandshakeOutcome::Failed(reason)
}

/// The outcome of an opening exchange that did not take place because of
/// `error`: it failed with the message of the error.
pub fn attempt_failed(error: &ConnectionError) -> (outcome: HandshakeOutcome)
    ensures
        outcome matches HandshakeOutcome::Failed(reason) && reason@ == refusal_text(*error),
{
    HandshakeOutcome::Failed(error.message())
}

/// An item of the outbound queue.
#[derive(Debug, Clone)]
pub enum AudioMessage {
    /// Encoded audio to send.
    Audio(Vec<u8>),
    /// The request to finish: no more audio follows.
    CloseStream,
}

/// A frame for the wire.
#[derive(Debug, Clone)]
pub enum Frame {
    Binary(Vec<u8>),
    Text(String),
    Close,
}

/// What a [`Frame`] holds.
pub enum FrameContent {
    Binary(Seq<u8>),
    Text(Seq<char>),
    Close,
}

impl View for Frame {
    type V = FrameContent;

    open spec fn view(&self) -> FrameContent {
        match self {
            Frame::Binary(bytes) => FrameContent::Binary(bytes@),
            Frame::Text(text) => FrameContent::Text(text@),
            Frame::Close => FrameContent::Close,
        }
    }
}

/// The observable state of a session: its phase, and whether it holds the
/// handle through which audio is queued.
pub struct SessionView {
    pub phase: ConnectionPhase,
    pub has_sender: bool,
}

impl SessionView {
    /// The session holds a sender exactly while it is connected.
    pub open spec fn consistent(self) -> bool {
        self.has_sender <==> self.phase is Connected
    }

    /// Audio and the request to finish are accepted only through the sender.
    pub open spec fn accepts_audio(self) -> bool {
        self.has_sender
    }

    /// A session that was just created.
    pub open spec fn initial() -> SessionView {
        SessionView { phase: ConnectionPhase::Disconnected, has_sender: false }
    }

    /// After a connect attempt was started: unchanged when already
    /// connected, else connecting.
    pub open spec fn connect_started(self) -> SessionView {
        if self.phase is Connected {
            self
        } else {
            SessionView { phase: ConnectionPhase::Connecting, has_sender: false }
        }
    }

    /// After the opening exchange succeeded.
    pub open spec fn established(self) -> SessionView {
        SessionView { phase: ConnectionPhase::Connected, has_sender: true }
    }

    /// After the opening exchange failed for `reason`.
    pub open spec fn failed(self, reason: Seq<char>) -> SessionView {
        SessionView { phase: ConnectionPhase::Error(reason), has_sender: false }
    }

    /// After the session was closed from either side.
    pub open spec fn closed(self) -> SessionView {
        SessionView { phase: ConnectionPhase::Disconnected, has_sender: false }
    }
}

/// Every step of a session keeps it consistent: from a consistent state,
/// and from the initial one, no operation leads to a state that is connected
/// without a sender or holds a sender without being connected.
pub proof fn lemma_steps_keep_consistency(s: SessionView, reason: Seq<char>)
    requires
        s.consistent(),
    ensures
        SessionView::initial().consistent(),
        s.connect_started().consistent(),
        s.established().consistent(),
        s.failed(reason).consistent(),
        s.closed().consistent(),
{
}

/// Connecting again while connected changes nothing.
pub proof fn lemma_connect_while_connected_keeps_state(s: SessionView)
    requires
        s.phase is Connected,
    ensures
        s.connect_started() == s,
{
}

/// A closed session is disconnected and accepts no audio, and stays so until
/// an opening exchange succeeds: starting a connect attempt or failing one
/// does not make it accept audio.
pub proof fn lemma_closed_session_accepts_no_audio(s: SessionView, reason: Seq<char>)
    ensures
        s.closed().phase is Disconnected,
        !s.closed().accepts_audio(),
        !s.closed().connect_started().accepts_audio(),
        !s.closed().connect_started().failed(reason).accepts_audio(),
{
}

/// How the opening exchange ended.
#[derive(Debug, Clone)]
pub enum HandshakeOutcome {
    Established,
    /// It failed; the text says how.
    Failed(String),
}

/// What arrived on the inbound side.
#[derive(Debug, Clone)]
pub enum InboundEvent {
    /// A text frame that holds a message of the service.
    Message(DeepgramResponse),
    /// A text frame that could not be read as a message.
    Malformed,
    /// A frame that carries nothing for the consumer.
    Ignored,
    /// The close frame of the remote side.
    Closed,
    /// The transport failed.
    TransportError,
    /// The consumer of the results is gone.
    ConsumerGone,
}

/// What the inbound side does next.
#[derive(Debug, Clone)]
pub enum InboundAction {
    /// Hand the segment to the consumer, then go on reading.
    Emit(TranscriptionSegment),
    /// Go on reading.
    Continue,
    /// Stop reading: the session is over.
    Stop,
}

/// What the outbound side does next.
#[derive(Debug, Clone)]
pub enum OutboundAction {
    /// Send the frame, then go on with the queue.
    Send(Frame),
    /// Send the frame, then stop: the queue is closed.
    Finish(Frame),
}

/// The text of the control message that asks the service to finish.
pub open spec fn close_stream_text() -> Seq<char> {
    "{\"type\": \"CloseStream\"}"@
}

/// The frame that carries an outbound message: audio as a binary frame, the
/// request to finish as one text frame.
pub open spec fn frame_of(message: AudioMessage) -> FrameContent {
    match message {
        AudioMessage::Audio(bytes) => FrameContent::Binary(bytes@),
        AudioMessage::CloseStream => FrameContent::Text(close_stream_text()),
    }
}

/// The next step of the outbound side for the next item of the queue, or for
/// the end of the queue: each message is sent as its frame, and the closed
/// queue is answered with the close frame.
pub fn outbound_step(next: Option<AudioMessage>) -> (action: OutboundAction)
    ensures
        match next {
            Some(message) => action matches OutboundAction::Send(frame) && frame@ == frame_of(
                message,
            ),
            None => action matches OutboundAction::Finish(frame) && frame@ == FrameContent::Close,
        },
{
    match next {
        Some(AudioMessage::Audio(bytes)) => OutboundAction::Send(Frame::Binary(bytes)),
        Some(AudioMessage::CloseStream) => OutboundAction::Send(
            Frame::Text("{\"type\": \"CloseStream\"}".to_owned()),
        ),
        None => OutboundAction::Finish(Frame::Close),
    }
}

/// Whether the outbound side goes on with the queue after a frame could not
/// be sent: lost audio ends it, a lost request to finish does not.
pub fn continues_after_send_failure(frame: &Frame) -> (go_on: bool)
    ensures
        go_on == (frame@ is Text),
{
    match frame {
        Frame::Text(_) => true,
        _ => false,
    }
}

/// The decision that an inbound event calls for: a message that yields a
/// segment is handed on; one that yields none, a malformed frame and a frame
/// without content are passed over; a close, a transport failure or a
/// vanished consumer ends the reading.
pub open spec fn inbound_decision(event: InboundEvent, action: InboundAction) -> bool {
    match event {
        InboundEvent::Message(response) => match parsed_segment(response) {
            Some(content) => action matches InboundAction::Emit(segment) && segment@ == content,
            None => action is Continue,
        },
        InboundEvent::Malformed | InboundEvent::Ignored => action is Continue,
        InboundEvent::Closed | InboundEvent::TransportError | InboundEvent::ConsumerGone =>
            action is Stop,
    }
}

/// Decides what the inbound side does for one event.
pub fn inbound_action(event: InboundEvent) -> (action: InboundAction)
    ensures
        inbound_decision(event, action),
{
    match event {
        InboundEvent::Message(response) => match parse_deepgram_response(&response) {
            Some(segment) => InboundAction::Emit(segment),
            None => InboundAction::Continue,
        },
        InboundEvent::Malformed => InboundAction::Continue,
        InboundEvent::Ignored => InboundAction::Continue,
        InboundEvent::Closed => InboundAction::Stop,
        InboundEvent::TransportError => InboundAction::Stop,
        InboundEvent::ConsumerGone => InboundAction::Stop,
    }
}

struct Link {
    state: ConnectionState,
    sender_open: bool,
}

/// One session with the transcription service.
pub struct DeepgramWebSocket {
    config: DeepgramConfig,
    link: Link,
}

impl View for DeepgramWebSocket {
    type V = SessionView;

    closed spec fn view(&self) -> SessionView {
        SessionView { phase: self.link.state@, has_sender: self.link.sender_open }
    }
}

impl DeepgramWebSocket {
    #[verifier::type_invariant]
    spec fn link_is_consistent(self) -> bool {
        self.link.sender_open <==> self.link.state is Connected
    }

    /// The configuration that the session was created with.
    pub closed spec fn config(&self) -> DeepgramConfig {
        self.config
    }

    /// Creates a session, not yet connected.
    pub fn new(config: DeepgramConfig) -> (session: Self)
        ensures
            session@ == SessionView::initial(),
            session@.consistent(),
            session.config() == config,
    {
        DeepgramWebSocket {
            config,
            link: Link { state: ConnectionState::Disconnected, sender_open: false },
        }
    }

    /// Creates a session and starts its first connect attempt: the session
    /// is connecting, and the opening request is to be performed once.
    pub fn open(config: DeepgramConfig) -> (opened: (Self, HandshakeRequest))
        ensures
            opened.0@ == SessionView::initial().connect_started(),
            opened.0@.consistent(),
            opened.0.config() == config,
            opened.1.url@ == config.url(),
            exists|key: Seq<char>|
                key.len() == 24 && #[trigger] handshake_headers(opened.1.headers@, config, key),
    {
        let key = generate_websocket_key();
        let request = build_handshake(&config, key);
        let session = DeepgramWebSocket {
            config,
            link: Link { state: ConnectionState::Connecting, sender_open: false },
        };
        (session, request)
    }

    /// The current state.
    pub fn get_state(&self) -> (state: ConnectionState)
        ensures
            state@ == self@.phase,
            self@.consistent(),
    {
        proof {
            use_type_invariant(self);
        }
        match &self.link.state {
            ConnectionState::Disconnected => ConnectionState::Disconnected,
            ConnectionState::Connecting => ConnectionState::Connecting,
            ConnectionState::Connected => ConnectionState::Connected,
            ConnectionState::Error(reason) => ConnectionState::Error(reason.clone()),
        }
    }

    /// Whether the session is connected.
    pub fn is_connected(&self) -> (connected: bool)
        ensures
            connected == (self@.phase is Connected),
            connected == self@.has_sender,
            self@.consistent(),
    {
        proof {
            use_type_invariant(self);
        }
        self.link.sender_open
    }

    /// Starts a connect attempt. A connected session refuses and stays as it
    /// is; any other becomes connecting and gets the opening request to
    /// perform, once.
    pub fn connect(&mut self) -> (result: Result<HandshakeRequest, ConnectionError>)
        ensures
            final(self)@ == old(self)@.connect_started(),
            final(self).config() == old(self).config(),
            old(self)@.phase is Connected ==> result == Err::<HandshakeRequest, ConnectionError>(
                ConnectionError::AlreadyStreaming,
            ),
            !(old(self)@.phase is Connected) ==> (result matches Ok(request) && request.url@
                == old(self).config().url() && exists|key: Seq<char>|
                key.len() == 24 && #[trigger] handshake_headers(
                    request.headers@,
                    old(self).config(),
                    key,
                )),
    {
        proof {
            use_type_invariant(&*self);
        }
        if self.link.sender_open {
            return Err(ConnectionError::AlreadyStreaming);
        }
        self.link = Link { state: ConnectionState::Connecting, sender_open: false };
        let key = generate_websocket_key();
        Ok(build_handshake(&self.config, key))
    }

    /// Records how the opening exchange ended. On success the session is
    /// connected and holds its sender; on failure it is in error, holds no
    /// sender, and the attempt is reported as failed.
    pub fn complete_connect(&mut self, outcome: HandshakeOutcome) -> (result: Result<
        (),
        ConnectionError,
    >)
        ensures
            final(self).config() == old(self).config(),
            match outcome {
                HandshakeOutcome::Established => result is Ok && final(self)@ == old(
                    self,
                )@.established(),
                HandshakeOutcome::Failed(reason) => (result matches Err(
                    ConnectionError::ConnectFailed(why),
                ) && why@ == reason@) && final(self)@ == old(self)@.failed(reason@),
            },
    {
        match outcome {
            HandshakeOutcome::Established => {
                self.link = Link { state: ConnectionState::Connected, sender_open: true };
                Ok(())
            },
            HandshakeOutcome::Failed(reason) => {
                self.link = Link {
                    state: ConnectionState::Error(reason.clone()),
                    sender_open: false,
                };
                Err(ConnectionError::ConnectFailed(reason))
            },
        }
    }

    /// Encodes samples for the outbound queue. Refused when the session holds
    /// no sender.
    pub fn send_audio(&self, samples: &[i16]) -> (result: Result<AudioMessage, ConnectionError>)
        ensures
            self@.accepts_audio() ==> (result matches Ok(AudioMessage::Audio(bytes)) && bytes@
                == linear16(samples@)),
            !self@.accepts_audio() ==> result == Err::<AudioMessage, ConnectionError>(
                ConnectionError::NotConnected,
            ),
    {
        if self.link.sender_open {
            Ok(AudioMessage::Audio(encode_linear16(samples)))
        } else {
            Err(ConnectionError::NotConnected)
        }
    }

    /// The message that tells the service that no more audio follows. The
    /// session stays connected, so that trailing results still arrive.
    /// Refused when the session holds no sender.
    pub fn signal_end_of_audio(&self) -> (result: Result<AudioMessage, ConnectionError>)
        ensures
            self@.accepts_audio() ==> result == Ok::<AudioMessage, ConnectionError>(
                AudioMessage::CloseStream,
            ),
            !self@.accepts_audio() ==> result == Err::<AudioMessage, ConnectionError>(
                ConnectionError::NotConnected,
            ),
    {
        if self.link.sender_open {
            Ok(AudioMessage::CloseStream)
        } else {
            Err(ConnectionError::NotConnected)
        }
    }

    /// Closes the session from this side, whatever it was doing: the sender
    /// is dropped and the state is disconnected, together.
    pub fn disconnect(&mut self)
        ensures
            final(self)@ == old(self)@.closed(),
            final(self).config() == old(self).config(),
    {
        self.link = Link { state: ConnectionState::Disconnected, sender_open: false };
    }

    /// Takes one inbound event: decides as [`inbound_action`] does, and where
    /// that ends the reading, closes the session as `disconnect` does.
    pub fn on_inbound(&mut self, event: InboundEvent) -> (action: InboundAction)
        ensures
            final(self).config() == old(self).config(),
            inbound_decision(event, action),
            action is Stop ==> final(self)@ == old(self)@.closed(),
            !(action is Stop) ==> final(self)@ == old(self)@,
    {
        let action = inbound_action(event);
        match action {
            InboundAction::Stop => {
                self.link = Link { state: ConnectionState::Disconnected, sender_open: false };
            },
            _ => {},
        }
        action
    }
}

} // verus!
