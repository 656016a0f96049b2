//! The transcription provider: live streaming sessions and the bounded
//! transcribe-and-wait call.

use vstd::prelude::*;
use vstd::string::*;
use crate::deepgram::audio::{linear16, MIN_AUDIO_SAMPLES};
use crate::deepgram::config::DeepgramConfig;
use crate::deepgram::connection::{
    inbound_action,
    inbound_decision,
    AudioMessage,
    ConnectionError,
    DeepgramWebSocket,
    InboundAction,
    InboundEvent,
    HandshakeOutcome,
    SessionView,
};
use crate::deepgram::handshake::{handshake_headers, HandshakeRequest};
use crate::deepgram::model::{denotes_english, effective_model, language_is_english, select_model};
use crate::deepgram::response::{SegmentContent, TranscriptionSegment};
use crate::deepgram::single_shot::{ShotStage, ShotView, SingleShot};
use crate::deepgram::transcript::{
    segment_contents,
    Gathered,
    TranscriptionError,
    TranscriptionFailure,
};
use crate::text::option_text;

verus! {

/// How long the bounded call waits for results, in seconds.
pub const RESULT_TIMEOUT_SECS: u64 = 10;

/// The configuration of a session of this crate: 16 kHz mono 16-bit audio
/// with diarization, punctuation and smart formatting; interim results as
/// asked.
pub open spec fn is_session_config(
    config: DeepgramConfig,
    api_key: Seq<char>,
    model: Seq<char>,
    language: Option<Seq<char>>,
    interim_results: bool,
) -> bool {
    &&& config.api_key@ == api_key
    &&& config.model@ == model
    &&& option_text(config.language) == language
    &&& config.sample_rate == 16000
    &&& config.channels == 1
    &&& config.encoding@ == "linear16"@
    &&& config.diarize
    &&& config.punctuate
    &&& config.interim_results == interim_results
    &&& config.smart_format
}

fn session_config(api_key: &String, model: String, language: Option<String>, interim_results: bool) -> (config:
    DeepgramConfig)
    ensures
        is_session_config(config, api_key@, model@, option_text(language), interim_results),
{
    DeepgramConfig {
        api_key: api_key.clone(),
        model,
        language,
        sample_rate: 16000,
        channels: 1,
        encoding: "linear16".to_owned(),
        diarize: true,
        punctuate: true,
        interim_results,
        smart_format: true,
    }
}

/// The observable state of a provider.
pub struct ProviderView {
    pub api_key: Seq<char>,
    pub model: Seq<char>,
    /// The session of the current or pending stream, if any.
    pub session: Option<SessionView>,
    pub streaming: bool,
    /// The buffered partial results.
    pub buffered: Seq<SegmentContent>,
}

/// The message of a refusal on the provider's streaming surface.
pub open spec fn stream_refusal_text(error: ConnectionError) -> Seq<char> {
    match error {
        ConnectionError::AlreadyStreaming => "Already streaming"@,
        ConnectionError::ConnectFailed(reason) => reason@,
        ConnectionError::NotConnected => "Not connected - call start_streaming first"@,
    }
}

/// The message of a refusal on the provider's streaming surface.
pub fn stream_refusal_message(error: &ConnectionError) -> (text: String)
    ensures
        text@ == stream_refusal_text(*error),
{
    match error {
        ConnectionError::AlreadyStreaming => "Already streaming".to_owned(),
        ConnectionError::ConnectFailed(reason) => reason.clone(),
        ConnectionError::NotConnected => "Not connected - call start_streaming first".to_owned(),
    }
}

/// Cloud transcription provider with speaker diarization.
pub struct DeepgramProvider {
    api_key: String,
    model: String,
    websocket: Option<DeepgramWebSocket>,
    result_buffer: Vec<TranscriptionSegment>,
    is_streaming: bool,
}

impl View for DeepgramProvider {
    type V = ProviderView;

    closed spec fn view(&self) -> ProviderView {
        ProviderView {
            api_key: self.api_key@,
            model: self.model@,
            session: match self.websocket {
                Some(ws) => Some(ws@),
                None => None,
            },
            streaming: self.is_streaming,
            buffered: segment_contents(self.result_buffer@),
        }
    }
}

impl ProviderView {
    /// A provider that was just created.
    pub open spec fn fresh(api_key: Seq<char>, model: Seq<char>) -> ProviderView {
        ProviderView { api_key, model, session: None, streaming: false, buffered: Seq::empty() }
    }

    /// A new stream is refused while one is active or being opened.
    pub open spec fn refuses_stream(self) -> bool {
        self.streaming || self.session is Some
    }

    /// After a stream was stopped: no session, not streaming, nothing
    /// buffered.
    pub open spec fn stopped(self) -> ProviderView {
        ProviderView { session: None, streaming: false, buffered: Seq::empty(), ..self }
    }
}

impl DeepgramProvider {
    /// The configuration of the session of the current or pending stream.
    pub closed spec fn session_config(&self) -> DeepgramConfig {
        self.websocket->0.config()
    }

    /// Creates a provider that uses the meeting model.
    pub fn new(api_key: String) -> (provider: Self)
        ensures
            provider@ == ProviderView::fresh(api_key@, "nova-2-meeting"@),
    {
        let provider = DeepgramProvider {
            api_key,
            model: "nova-2-meeting".to_owned(),
            websocket: None,
            result_buffer: Vec::new(),
            is_streaming: false,
        };
        proof {
            assert(provider@.buffered =~= Seq::<SegmentContent>::empty());
        }
        provider
    }

    /// Creates a provider that uses the given model.
    pub fn with_model(api_key: String, model: String) -> (provider: Self)
        ensures
            provider@ == ProviderView::fresh(api_key@, model@),
    {
        let provider = DeepgramProvider {
            api_key,
            model,
            websocket: None,
            result_buffer: Vec::new(),
            is_streaming: false,
        };
        proof {
            assert(provider@.buffered =~= Seq::<SegmentContent>::empty());
        }
        provider
    }

    /// Starts a streaming session. Refused, with nothing changed, while a
    /// stream is active or being opened. Otherwise a session with interim
    /// results is created and its connect attempt started; the opening
    /// request is returned to be performed.
    pub fn start_streaming(&mut self, language: Option<String>) -> (result: Result<
        HandshakeRequest,
        ConnectionError,
    >)
        ensures
            old(self)@.refuses_stream() ==> final(self)@ == old(self)@ && result == Err::<
                HandshakeRequest,
                ConnectionError,
            >(ConnectionError::AlreadyStreaming),
            !old(self)@.refuses_stream() ==> {
                &&& final(self)@ == ProviderView {
                    session: Some(SessionView::initial().connect_started()),
                    ..old(self)@
                }
                &&& is_session_config(
                    final(self).session_config(),
                    old(self)@.api_key,
                    old(self)@.model,
                    option_text(language),
                    true,
                )
                &&& result matches Ok(request)
                &&& request.url@ == final(self).session_config().url()
                &&& exists|key: Seq<char>|
                    key.len() == 24 && #[trigger] handshake_headers(
                        request.headers@,
                        final(self).session_config(),
                        key,
                    )
            },
    {
        if self.is_streaming || self.websocket.is_some() {
            return Err(ConnectionError::AlreadyStreaming);
        }
        let config = session_config(&self.api_key, self.model.clone(), language, true);
        let (websocket, request) = DeepgramWebSocket::open(config);
        self.websocket = Some(websocket);
        Ok(request)
    }

    /// Records how the opening exchange of a pending stream ended. On
    /// success the provider is streaming. On failure the pending session is
    /// given up and the failure reported. Without a session there is nothing
    /// to complete.
    pub fn complete_start(&mut self, outcome: HandshakeOutcome) -> (result: Result<
        (),
        ConnectionError,
    >)
        ensures
            old(self)@.session is None ==> final(self)@ == old(self)@ && result == Err::<
                (),
                ConnectionError,
            >(ConnectionError::NotConnected),
            old(self)@.session is Some ==> match outcome {
                HandshakeOutcome::Established => result is Ok && final(self)@ == ProviderView {
                    session: Some(old(self)@.session->0.established()),
                    streaming: true,
                    ..old(self)@
                } && final(self).session_config() == old(self).session_config(),
                HandshakeOutcome::Failed(reason) => (result matches Err(
                    ConnectionError::ConnectFailed(why),
                ) && why@ == reason@) && final(self)@ == ProviderView {
                    session: None,
                    ..old(self)@
                },
            },
    {
        match self.websocket.take() {
            None => Err(ConnectionError::NotConnected),
            Some(mut websocket) => {
                let result = websocket.complete_connect(outcome);
                match result {
                    Ok(()) => {
                        self.websocket = Some(websocket);
                        self.is_streaming = true;
                        Ok(())
                    },
                    Err(e) => Err(e),
                }
            },
        }
    }

    /// Encodes samples for the outbound queue of the active stream. Refused
    /// when there is no session, or the session accepts no audio.
    pub fn send_audio_stream(&self, samples: &[i16]) -> (result: Result<
        AudioMessage,
        ConnectionError,
    >)
        ensures
            self.accepts_audio() ==> (result matches Ok(AudioMessage::Audio(bytes)) && bytes@
                == linear16(samples@)),
            !self.accepts_audio() ==> result == Err::<AudioMessage, ConnectionError>(
                ConnectionError::NotConnected,
            ),
    {
        match &self.websocket {
            Some(websocket) => websocket.send_audio(samples),
            None => Err(ConnectionError::NotConnected),
        }
    }

    /// The provider has a session that accepts audio.
    pub open spec fn accepts_audio(&self) -> bool {
        self@.session is Some && self@.session->0.accepts_audio()
    }

    /// Stops the streaming session: the session, if any, is closed and
    /// dropped, the provider is no longer streaming, and buffered results are
    /// discarded.
    pub fn stop_streaming(&mut self)
        ensures
            final(self)@ == old(self)@.stopped(),
    {
        match self.websocket.take() {
            Some(mut websocket) => {
                websocket.disconnect();
            },
            None => {},
        }
        self.is_streaming = false;
        self.result_buffer.clear();
        proof {
            assert(self@.buffered =~= Seq::<SegmentContent>::empty());
        }
    }

    /// Takes one inbound event of the stream: decides as the session does,
    /// and where that ends the reading, the session is closed. The provider
    /// stays streaming until the stream is stopped.
    pub fn on_inbound(&mut self, event: InboundEvent) -> (action: InboundAction)
        ensures
            inbound_decision(event, action),
            old(self)@.session is Some ==> final(self).session_config() == old(
                self,
            ).session_config(),
            final(self)@ == (ProviderView {
                session: match old(self)@.session {
                    Some(session) => Some(
                        if action is Stop {
                            session.closed()
                        } else {
                            session
                        },
                    ),
                    None => None,
                },
                ..old(self)@
            }),
    {
        match self.websocket.take() {
            Some(mut websocket) => {
                let action = websocket.on_inbound(event);
                self.websocket = Some(websocket);
                action
            },
            None => inbound_action(event),
        }
    }

    /// Whether a streaming session is active.
    pub fn is_streaming(&self) -> (streaming: bool)
        ensures
            streaming == self@.streaming,
    {
        self.is_streaming
    }

    /// The model to use for a language: the configured model, unless the
    /// language is not English and the configured model understands English
    /// only.
    pub fn get_model_for_language(&self, language: Option<&str>) -> (model: String)
        ensures
            model@ == effective_model(
                self@.model,
                denotes_english(
                    match language {
                        Some(lang) => Some(lang@),
                        None => None,
                    },
                ),
            ),
    {
        let english = language_is_english(language);
        select_model(self.model.as_str(), english)
    }

    /// Starts a bounded transcription of `audio`. Refused without a
    /// credential, and for audio of fewer than 1600 samples. Otherwise a
    /// session for final results only is opened, with the model that suits
    /// the language, and the opening request is returned to be performed.
    pub fn transcribe(&self, audio: Vec<i16>, language: Option<String>) -> (result: Result<
        (SingleShot, HandshakeRequest),
        TranscriptionError,
    >)
        ensures
            self@.api_key.len() == 0 ==> (result matches Err(e) && e@
                == TranscriptionFailure::EngineFailed("Deepgram API key not configured"@)),
            self@.api_key.len() > 0 && audio@.len() < 1600 ==> (result matches Err(e) && e@ == (
            TranscriptionFailure::AudioTooShort { samples: audio@.len() as usize, minimum: 1600 })),
            self@.api_key.len() > 0 && audio@.len() >= 1600 ==> {
                &&& result matches Ok(started)
                &&& started.0@ == (ShotView {
                    stage: ShotStage::Connecting,
                    session: SessionView::initial().connect_started(),
                    audio: audio@,
                    gathered: Gathered::nothing(),
                })
                &&& is_session_config(
                    started.0.config(),
                    self@.api_key,
                    effective_model(self@.model, denotes_english(option_text(language))),
                    option_text(language),
                    false,
                )
                &&& started.1.url@ == started.0.config().url()
                &&& exists|key: Seq<char>|
                    key.len() == 24 && #[trigger] handshake_headers(
                        started.1.headers@,
                        started.0.config(),
                        key,
                    )
            },
    {
        if self.api_key.as_str().is_empty() {
            return Err(
                TranscriptionError::EngineFailed("Deepgram API key not configured".to_owned()),
            );
        }
        if audio.len() < MIN_AUDIO_SAMPLES {
            return Err(
                TranscriptionError::AudioTooShort {
                    samples: audio.len(),
                    minimum: MIN_AUDIO_SAMPLES,
                },
            );
        }
        let model = match &language {
            Some(lang) => self.get_model_for_language(Some(lang.as_str())),
            None => self.get_model_for_language(None),
        };
        let config = session_config(&self.api_key, model, language, false);
        Ok(SingleShot::begin(config, audio))
    }

    /// The service is always ready; all it needs is a credential.
    pub fn is_model_loaded(&self) -> (loaded: bool)
        ensures
            loaded == (self@.api_key.len() > 0),
    {
        !self.api_key.as_str().is_empty()
    }

    /// The configured model.
    pub fn get_current_model(&self) -> (model: Option<String>)
        ensures
            model matches Some(m) && m@ == self@.model,
    {
        Some(self.model.clone())
    }

    /// The name of the provider.
    pub fn provider_name(&self) -> (name: &'static str)
        ensures
            name@ == "Deepgram"@,
    {
        "Deepgram"
    }
}

} // verus!
