//! The bounded transcribe-and-wait call, as a sequence of decisions: open a
//! session, push the whole audio and the request to finish, gather final
//! segments until the service closes or the wait times out, and always close
//! the session before the outcome is given.

use vstd::prelude::*;
use vstd::string::*;
use crate::deepgram::audio::{encode_linear16, linear16};
use crate::deepgram::config::DeepgramConfig;
use crate::deepgram::connection::{
    AudioMessage,
    DeepgramWebSocket,
    HandshakeOutcome,
    SessionView,
};
use crate::deepgram::handshake::{handshake_headers, HandshakeRequest};
use crate::deepgram::response::TranscriptionSegment;
use crate::deepgram::transcript::{
    Gathered,
    TranscriptAccumulator,
    TranscriptContent,
    TranscriptResult,
    TranscriptionError,
    TranscriptionFailure,
};

verus! {

/// Where a bounded transcription stands.
#[derive(Debug, Clone, Copy, PartialEq, Eq, Structural)]
pub enum ShotStage {
    /// The opening exchange is under way.
    Connecting,
    /// The audio was handed over; results are awaited.
    Draining,
    /// The outcome was given.
    Done,
}

/// What happened during a bounded transcription.
#[derive(Debug, Clone)]
pub enum ShotEvent {
    /// The opening exchange ended.
    Handshake(HandshakeOutcome),
    /// The audio could not be queued, for the reason given.
    QueueFailed(String),
    /// A segment arrived.
    Segment(TranscriptionSegment),
    /// The result channel closed: the service ended the session.
    ChannelClosed,
    /// The wait for results timed out.
    TimedOut,
}

/// What is to be done next in a bounded transcription.
#[derive(Debug)]
pub enum ShotAction {
    /// Queue the audio, then the request to finish, then wait for results.
    Enqueue(AudioMessage, AudioMessage),
    /// Go on waiting for results.
    Drain,
    /// The call is over, with this outcome. The session is closed.
    Finished(Result<TranscriptResult, TranscriptionError>),
    /// The event does not belong to the current stage; nothing changed.
    Ignored,
}

/// The observable state of a bounded transcription.
pub struct ShotView {
    pub stage: ShotStage,
    pub session: SessionView,
    pub audio: Seq<i16>,
    pub gathered: Gathered,
}

/// The message of audio that could not be queued.
pub open spec fn queue_failure_text(reason: Seq<char>) -> Seq<char> {
    "Failed to queue audio data: "@ + reason
}

/// The outcome `result` is the one that `expected` describes.
pub open spec fn is_outcome(
    result: Result<TranscriptResult, TranscriptionError>,
    expected: Result<TranscriptContent, TranscriptionFailure>,
) -> bool {
    match result {
        Ok(r) => expected == Ok::<TranscriptContent, TranscriptionFailure>(r@),
        Err(e) => expected == Err::<TranscriptContent, TranscriptionFailure>(e@),
    }
}

/// The action gives the outcome that `expected` describes.
pub open spec fn finishes_with(
    action: ShotAction,
    expected: Result<TranscriptContent, TranscriptionFailure>,
) -> bool {
    action matches ShotAction::Finished(result) && is_outcome(result, expected)
}

impl ShotView {
    /// The stage and the session agree: connecting while the exchange is
    /// under way, connected while results are awaited, closed once the
    /// outcome was given.
    pub open spec fn consistent(self) -> bool {
        match self.stage {
            ShotStage::Connecting => self.session == SessionView::initial().connect_started(),
            ShotStage::Draining => self.session == self.session.established(),
            ShotStage::Done => self.session == self.session.closed(),
        }
    }

    /// The state after the outcome was given: the session closed, the rest
    /// as it was.
    pub open spec fn finished(self) -> ShotView {
        ShotView { stage: ShotStage::Done, session: self.session.closed(), ..self }
    }

    /// The event belongs to the stage.
    pub open spec fn expects(self, event: ShotEvent) -> bool {
        match self.stage {
            ShotStage::Connecting => event is Handshake,
            ShotStage::Draining => !(event is Handshake),
            ShotStage::Done => false,
        }
    }

    /// One step: `self` and `event` lead to `next` and `action`.
    pub open spec fn steps_to(self, event: ShotEvent, next: ShotView, action: ShotAction) -> bool {
        if !self.expects(event) {
            next == self && action is Ignored
        } else {
            match event {
                ShotEvent::Handshake(HandshakeOutcome::Established) => {
                    &&& next == ShotView {
                        stage: ShotStage::Draining,
                        session: self.session.established(),
                        ..self
                    }
                    &&& action matches ShotAction::Enqueue(
                        AudioMessage::Audio(bytes),
                        AudioMessage::CloseStream,
                    )
                    &&& bytes@ == linear16(self.audio)
                },
                ShotEvent::Handshake(HandshakeOutcome::Failed(reason)) => {
                    &&& next == self.finished()
                    &&& finishes_with(action, Err(TranscriptionFailure::EngineFailed(reason@)))
                },
                ShotEvent::QueueFailed(reason) => {
                    &&& next == self.finished()
                    &&& finishes_with(
                        action,
                        Err(TranscriptionFailure::EngineFailed(queue_failure_text(reason@))),
                    )
                },
                ShotEvent::Segment(segment) => {
                    &&& next == ShotView { gathered: self.gathered.absorb(segment@), ..self }
                    &&& action is Drain
                },
                ShotEvent::ChannelClosed => {
                    &&& next == self.finished()
                    &&& finishes_with(action, self.gathered.outcome(false))
                },
                ShotEvent::TimedOut => {
                    &&& next == self.finished()
                    &&& finishes_with(action, self.gathered.outcome(true))
                },
            }
        }
    }
}

/// Whatever the step, the stage and the session still agree after it, and
/// an outcome is given only with the session closed.
pub proof fn lemma_step_closes_session(
    before: ShotView,
    event: ShotEvent,
    after: ShotView,
    action: ShotAction,
)
    requires
        before.consistent(),
        before.steps_to(event, after, action),
    ensures
        after.consistent(),
        action is Finished ==> after.stage == ShotStage::Done && after.session.phase is Disconnected
            && !after.session.has_sender,
        after.stage == ShotStage::Done ==> after.session.phase is Disconnected,
{
}

/// A bounded transcription under way.
pub struct SingleShot {
    session: DeepgramWebSocket,
    audio: Vec<i16>,
    stage: ShotStage,
    accumulator: TranscriptAccumulator,
}

impl View for SingleShot {
    type V = ShotView;

    closed spec fn view(&self) -> ShotView {
        ShotView {
            stage: self.stage,
            session: self.session@,
            audio: self.audio@,
            gathered: self.accumulator@,
        }
    }
}

fn engine_failed(prefix: &str, reason: &String) -> (action: ShotAction)
    ensures
        finishes_with(action, Err(TranscriptionFailure::EngineFailed(prefix@ + reason@))),
{
    let mut detail = prefix.to_owned();
    detail.append(reason.as_str());
    ShotAction::Finished(Err(TranscriptionError::EngineFailed(detail)))
}

impl SingleShot {
    #[verifier::type_invariant]
    spec fn stage_matches_session(self) -> bool {
        self@.consistent()
    }

    /// The configuration of the session.
    pub closed spec fn config(&self) -> DeepgramConfig {
        self.session.config()
    }

    /// Starts a bounded transcription of `audio` on a new session with the
    /// given configuration, and gives the opening request to perform.
    pub fn begin(config: DeepgramConfig, audio: Vec<i16>) -> (started: (SingleShot, HandshakeRequest))
        ensures
            started.0@ == (ShotView {
                stage: ShotStage::Connecting,
                session: SessionView::initial().connect_started(),
                audio: audio@,
                gathered: Gathered::nothing(),
            }),
            started.0@.consistent(),
            started.0.config() == config,
            started.1.url@ == config.url(),
            exists|key: Seq<char>|
                key.len() == 24 && #[trigger] handshake_headers(started.1.headers@, config, key),
    {
        let (session, request) = DeepgramWebSocket::open(config);
        let shot = SingleShot {
            session,
            audio,
            stage: ShotStage::Connecting,
            accumulator: TranscriptAccumulator::new(),
        };
        (shot, request)
    }

    /// The current stage.
    pub fn stage(&self) -> (stage: ShotStage)
        ensures
            stage == self@.stage,
            self@.consistent(),
    {
        proof {
            use_type_invariant(self);
        }
        self.stage
    }

    /// Takes one event and gives the state that follows and what to do
    /// next. Whenever the outcome is given, the session has been closed
    /// first.
    pub fn step(self, event: ShotEvent) -> (next: (SingleShot, ShotAction))
        ensures
            self@.steps_to(event, next.0@, next.1),
            next.0.config() == self.config(),
            next.0@.consistent(),
    {
        proof {
            use_type_invariant(&self);
        }
        let SingleShot { mut session, audio, stage, mut accumulator } = self;
        match (stage, event) {
            (ShotStage::Connecting, ShotEvent::Handshake(outcome)) => {
                match outcome {
                    HandshakeOutcome::Established => {
                        let _ = session.complete_connect(HandshakeOutcome::Established);
                        let message = AudioMessage::Audio(encode_linear16(audio.as_slice()));
                        let shot = SingleShot {
                            session,
                            audio,
                            stage: ShotStage::Draining,
                            accumulator,
                        };
                        (shot, ShotAction::Enqueue(message, AudioMessage::CloseStream))
                    },
                    HandshakeOutcome::Failed(reason) => {
                        let action = ShotAction::Finished(
                            Err(TranscriptionError::EngineFailed(reason.clone())),
                        );
                        let _ = session.complete_connect(HandshakeOutcome::Failed(reason));
                        session.disconnect();
                        (SingleShot { session, audio, stage: ShotStage::Done, accumulator }, action)
                    },
                }
            },
            (ShotStage::Draining, ShotEvent::QueueFailed(reason)) => {
                session.disconnect();
                let action = engine_failed("Failed to queue audio data: ", &reason);
                (SingleShot { session, audio, stage: ShotStage::Done, accumulator }, action)
            },
            (ShotStage::Draining, ShotEvent::Segment(segment)) => {
                accumulator.absorb(&segment);
                (SingleShot { session, audio, stage, accumulator }, ShotAction::Drain)
            },
            (ShotStage::Draining, ShotEvent::ChannelClosed) => {
                session.disconnect();
                let action = ShotAction::Finished(accumulator.finish(false));
                (SingleShot { session, audio, stage: ShotStage::Done, accumulator }, action)
            },
            (ShotStage::Draining, ShotEvent::TimedOut) => {
                session.disconnect();
                let action = ShotAction::Finished(accumulator.finish(true));
                (SingleShot { session, audio, stage: ShotStage::Done, accumulator }, action)
            },
            (stage, _) => (SingleShot { session, audio, stage, accumulator }, ShotAction::Ignored),
        }
    }
}

} // verus!
