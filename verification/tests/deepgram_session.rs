use meeting_companion::deepgram::config::DeepgramConfig;
use meeting_companion::deepgram::connection::{
    attempt_failed, continues_after_send_failure, exchange_failed, outbound_step, AudioMessage,
    ConnectionError, ConnectionState, DeepgramWebSocket, Frame, HandshakeOutcome, InboundAction,
    InboundEvent, OutboundAction,
};
use meeting_companion::deepgram::model::{english_only, is_english_lowered, select_model};
use meeting_companion::deepgram::provider::{
    stream_refusal_message, DeepgramProvider, RESULT_TIMEOUT_SECS,
};
use meeting_companion::deepgram::response::{
    DeepgramAlternative, DeepgramChannel, DeepgramResponse, TranscriptionSegment,
};
use meeting_companion::deepgram::single_shot::{ShotAction, ShotEvent, ShotStage, SingleShot};
use meeting_companion::deepgram::transcript::TranscriptionError;

fn config() -> DeepgramConfig {
    let mut config = DeepgramConfig::default();
    config.api_key = "test_key".to_string();
    config
}

fn connected() -> DeepgramWebSocket {
    let mut session = DeepgramWebSocket::new(config());
    session.connect().unwrap();
    session.complete_connect(HandshakeOutcome::Established).unwrap();
    session
}

fn results(transcript: &str, is_final: bool) -> DeepgramResponse {
    DeepgramResponse {
        response_type: Some("Results".to_string()),
        channel_index: None,
        duration: None,
        start: None,
        is_final: Some(is_final),
        speech_final: None,
        channel: Some(DeepgramChannel {
            alternatives: vec![DeepgramAlternative {
                transcript: transcript.to_string(),
                confidence: Some(800_000),
                words: None,
            }],
        }),
        metadata: None,
    }
}

fn final_segment(text: &str) -> TranscriptionSegment {
    TranscriptionSegment {
        text: text.to_string(),
        confidence: Some(910_000),
        is_final: true,
        start_time: None,
        end_time: None,
        speakers: vec![],
    }
}

fn is_not_connected<T>(result: Result<T, ConnectionError>) -> bool {
    matches!(result, Err(ConnectionError::NotConnected))
}

#[test]
fn new_session_is_disconnected() {
    let session = DeepgramWebSocket::new(config());
    assert_eq!(session.get_state(), ConnectionState::Disconnected);
    assert!(!session.is_connected());
    assert!(is_not_connected(session.send_audio(&[1, 2, 3])));
    assert!(is_not_connected(session.signal_end_of_audio()));
}

#[test]
fn connect_gives_the_opening_request() {
    let mut session = DeepgramWebSocket::new(config());
    let request = session.connect().unwrap();
    assert_eq!(session.get_state(), ConnectionState::Connecting);
    assert_eq!(request.url, config().build_url());
    assert_eq!(request.headers.len(), 6);
    assert_eq!(request.headers[0].name, "Authorization");
    assert_eq!(request.headers[0].value, "Token test_key");
    assert_eq!(request.headers[5].name, "Sec-WebSocket-Key");
    assert_eq!(request.headers[5].value.len(), 24);
    assert!(is_not_connected(session.send_audio(&[0])));
}

#[test]
fn open_starts_the_first_attempt() {
    let (session, request) = DeepgramWebSocket::open(config());
    assert_eq!(session.get_state(), ConnectionState::Connecting);
    assert!(request.url.starts_with("wss://api.deepgram.com/v1/listen?model=nova-2&"));
}

#[test]
fn connect_on_connected_session_is_refused() {
    let mut session = connected();
    assert!(matches!(session.connect(), Err(ConnectionError::AlreadyStreaming)));
    assert_eq!(session.get_state(), ConnectionState::Connected);
    assert!(session.is_connected());
    assert!(session.send_audio(&[0]).is_ok());
}

#[test]
fn failed_handshake_leaves_an_error_state() {
    let mut session = DeepgramWebSocket::new(config());
    session.connect().unwrap();
    let result = session.complete_connect(HandshakeOutcome::Failed("HTTP 401".to_string()));
    match result {
        Err(ConnectionError::ConnectFailed(reason)) => assert_eq!(reason, "HTTP 401"),
        _ => panic!("expected a failed connect"),
    }
    assert_eq!(session.get_state(), ConnectionState::Error("HTTP 401".to_string()));
    assert!(is_not_connected(session.send_audio(&[0])));
    // A new attempt may follow.
    assert!(session.connect().is_ok());
    assert_eq!(session.get_state(), ConnectionState::Connecting);
}

#[test]
fn connected_session_encodes_audio() {
    let session = connected();
    match session.send_audio(&[0, 32767, -32767, 16383]) {
        Ok(AudioMessage::Audio(bytes)) => {
            assert_eq!(bytes, vec![0x00, 0x00, 0xff, 0x7f, 0x01, 0x80, 0xff, 0x3f]);
        }
        _ => panic!("expected audio"),
    }
    assert!(matches!(session.signal_end_of_audio(), Ok(AudioMessage::CloseStream)));
    // The request to finish does not end the session.
    assert!(session.is_connected());
}

#[test]
fn nothing_is_sent_after_disconnect() {
    let mut session = connected();
    session.disconnect();
    assert_eq!(session.get_state(), ConnectionState::Disconnected);
    assert!(is_not_connected(session.send_audio(&[1])));
    assert!(is_not_connected(session.signal_end_of_audio()));
    assert!(is_not_connected(session.send_audio(&[])));
    assert!(!session.is_connected());
}

#[test]
fn outbound_frames() {
    match outbound_step(Some(AudioMessage::Audio(vec![1, 2, 3]))) {
        OutboundAction::Send(Frame::Binary(bytes)) => assert_eq!(bytes, vec![1, 2, 3]),
        _ => panic!("expected a binary frame"),
    }
    match outbound_step(Some(AudioMessage::CloseStream)) {
        OutboundAction::Send(Frame::Text(text)) => assert_eq!(text, r#"{"type": "CloseStream"}"#),
        _ => panic!("expected a text frame"),
    }
    assert!(matches!(outbound_step(None), OutboundAction::Finish(Frame::Close)));
}

#[test]
fn outbound_goes_on_only_after_a_lost_control_message() {
    assert!(continues_after_send_failure(&Frame::Text("x".to_string())));
    assert!(!continues_after_send_failure(&Frame::Binary(vec![])));
    assert!(!continues_after_send_failure(&Frame::Close));
}

#[test]
fn inbound_message_is_handed_on() {
    let mut session = connected();
    match session.on_inbound(InboundEvent::Message(results("Hello.", true))) {
        InboundAction::Emit(segment) => {
            assert_eq!(segment.text, "Hello.");
            assert!(segment.is_final);
            assert_eq!(segment.confidence, Some(800_000));
        }
        _ => panic!("expected a segment"),
    }
    assert!(session.is_connected());
}

#[test]
fn inbound_noise_is_passed_over() {
    let mut session = connected();
    assert!(matches!(session.on_inbound(InboundEvent::Malformed), InboundAction::Continue));
    assert!(matches!(session.on_inbound(InboundEvent::Ignored), InboundAction::Continue));
    assert!(matches!(
        session.on_inbound(InboundEvent::Message(results("  ", true))),
        InboundAction::Continue
    ));
    assert!(session.is_connected());
}

#[test]
fn inbound_end_closes_the_session() {
    for event in [
        InboundEvent::Closed,
        InboundEvent::TransportError,
        InboundEvent::ConsumerGone,
    ] {
        let mut session = connected();
        assert!(matches!(session.on_inbound(event), InboundAction::Stop));
        assert_eq!(session.get_state(), ConnectionState::Disconnected);
        assert!(is_not_connected(session.send_audio(&[1])));
    }
}

// ===== Provider: streaming =====

#[test]
fn test_provider_name() {
    let provider = DeepgramProvider::new("test_key".to_string());
    assert_eq!(provider.provider_name(), "Deepgram");
}

#[test]
fn test_is_model_loaded_with_key() {
    let provider = DeepgramProvider::new("test_key".to_string());
    assert!(provider.is_model_loaded());
}

#[test]
fn test_is_model_loaded_without_key() {
    let provider = DeepgramProvider::new("".to_string());
    assert!(!provider.is_model_loaded());
}

#[test]
fn test_get_current_model() {
    let provider =
        DeepgramProvider::with_model("test_key".to_string(), "nova-2-general".to_string());
    assert_eq!(provider.get_current_model(), Some("nova-2-general".to_string()));
}

#[test]
fn default_model_is_the_meeting_model() {
    let provider = DeepgramProvider::new("k".to_string());
    assert_eq!(provider.get_current_model(), Some("nova-2-meeting".to_string()));
}

#[test]
fn streaming_session_life() {
    let mut provider = DeepgramProvider::new("test_key".to_string());
    assert!(!provider.is_streaming());
    assert!(is_not_connected(provider.send_audio_stream(&[1])));

    let request = provider.start_streaming(Some("en".to_string())).unwrap();
    assert!(request.url.contains("model=nova-2-meeting"));
    assert!(request.url.contains("interim_results=true"));
    assert!(request.url.contains("language=en"));
    assert!(!provider.is_streaming());
    assert!(is_not_connected(provider.send_audio_stream(&[1])));

    provider.complete_start(HandshakeOutcome::Established).unwrap();
    assert!(provider.is_streaming());
    assert!(matches!(provider.send_audio_stream(&[1]), Ok(AudioMessage::Audio(_))));

    assert!(matches!(
        provider.start_streaming(None),
        Err(ConnectionError::AlreadyStreaming)
    ));
    assert!(provider.is_streaming());

    provider.stop_streaming();
    assert!(!provider.is_streaming());
    assert!(is_not_connected(provider.send_audio_stream(&[1])));
    assert!(provider.start_streaming(None).is_ok());
}

#[test]
fn second_stream_is_refused_while_one_is_being_opened() {
    let mut provider = DeepgramProvider::new("k".to_string());
    provider.start_streaming(None).unwrap();
    assert!(matches!(
        provider.start_streaming(None),
        Err(ConnectionError::AlreadyStreaming)
    ));
}

#[test]
fn failed_stream_start_can_be_repeated() {
    let mut provider = DeepgramProvider::new("k".to_string());
    assert!(is_not_connected(provider.complete_start(HandshakeOutcome::Established)));
    provider.start_streaming(None).unwrap();
    match provider.complete_start(HandshakeOutcome::Failed("refused".to_string())) {
        Err(ConnectionError::ConnectFailed(reason)) => assert_eq!(reason, "refused"),
        _ => panic!("expected a failed connect"),
    }
    assert!(!provider.is_streaming());
    assert!(provider.start_streaming(None).is_ok());
}

#[test]
fn stop_without_stream_changes_nothing() {
    let mut provider = DeepgramProvider::new("k".to_string());
    provider.stop_streaming();
    assert!(!provider.is_streaming());
}

// ===== Model choice =====

#[test]
fn model_substitution() {
    let provider = DeepgramProvider::new("k".to_string());
    assert_eq!(provider.get_model_for_language(Some("es")), "nova-2");
    assert_eq!(provider.get_model_for_language(Some("en")), "nova-2-meeting");
    assert_eq!(provider.get_model_for_language(None), "nova-2-meeting");
    assert_eq!(provider.get_model_for_language(Some("EN-us")), "nova-2-meeting");
    assert_eq!(provider.get_model_for_language(Some("Multi")), "nova-2-meeting");
    assert_eq!(provider.get_model_for_language(Some("multilingual")), "nova-2");
    assert_eq!(provider.get_model_for_language(Some("")), "nova-2");
}

#[test]
fn general_models_are_kept_for_every_language() {
    let provider = DeepgramProvider::with_model("k".to_string(), "nova-2-general".to_string());
    assert_eq!(provider.get_model_for_language(Some("es")), "nova-2-general");
    let provider = DeepgramProvider::with_model("k".to_string(), "nova-2".to_string());
    assert_eq!(provider.get_model_for_language(Some("nl")), "nova-2");
}

#[test]
fn english_only_models() {
    for model in [
        "nova-2-meeting",
        "nova-2-phonecall",
        "nova-2-conversationalai",
        "nova-2-voicemail",
        "nova-2-video",
        "nova-2-medical",
        "nova-2-finance",
        "nova-3",
        "nova-3-medical",
    ] {
        assert!(english_only(model));
        assert_eq!(select_model(model, false), "nova-2");
        assert_eq!(select_model(model, true), model);
    }
    assert!(!english_only("nova-2"));
    assert!(!english_only("nova-3-general"));
    assert!(!english_only("Nova-3"));
}

#[test]
fn lowercase_language_values() {
    assert!(is_english_lowered("en"));
    assert!(is_english_lowered("en-gb"));
    assert!(is_english_lowered("multi"));
    assert!(!is_english_lowered("e"));
    assert!(!is_english_lowered("EN"));
    assert!(!is_english_lowered("multi "));
    assert!(!is_english_lowered("fr"));
}

// ===== Provider: bounded transcription =====

#[test]
fn short_audio_is_refused() {
    let provider = DeepgramProvider::new("test_key".to_string());
    match provider.transcribe(vec![0; 1599], None) {
        Err(TranscriptionError::AudioTooShort { samples, minimum }) => {
            assert_eq!((samples, minimum), (1599, 1600));
        }
        _ => panic!("expected audio too short"),
    }
    assert!(provider.transcribe(vec![0; 1600], None).is_ok());
    assert!(matches!(
        provider.transcribe(vec![], None),
        Err(TranscriptionError::AudioTooShort { samples: 0, minimum: 1600 })
    ));
}

#[test]
fn missing_credential_is_refused_first() {
    let provider = DeepgramProvider::new(String::new());
    for samples in [0usize, 1600] {
        match provider.transcribe(vec![0; samples], None) {
            Err(TranscriptionError::EngineFailed(detail)) => {
                assert_eq!(detail, "Deepgram API key not configured");
            }
            _ => panic!("expected a failure"),
        }
    }
}

#[test]
fn bounded_call_wants_final_results_and_a_suitable_model() {
    let provider = DeepgramProvider::new("test_key".to_string());
    let (shot, request) = provider.transcribe(vec![0; 1600], Some("es".to_string())).unwrap();
    assert_eq!(shot.stage(), ShotStage::Connecting);
    assert!(request.url.contains("model=nova-2&"));
    assert!(request.url.contains("language=es"));
    assert!(!request.url.contains("interim_results"));
    assert!(request.url.contains("diarize=true"));
    let (_, request) = provider.transcribe(vec![0; 1600], Some("en".to_string())).unwrap();
    assert!(request.url.contains("model=nova-2-meeting&"));
    let (_, request) = provider.transcribe(vec![0; 1600], None).unwrap();
    assert!(request.url.contains("model=nova-2-meeting&"));
    assert!(!request.url.contains("language="));
}

fn draining(audio: Vec<i16>) -> SingleShot {
    let (shot, _) = SingleShot::begin(config(), audio);
    let (shot, action) = shot.step(ShotEvent::Handshake(HandshakeOutcome::Established));
    assert!(matches!(action, ShotAction::Enqueue(_, _)));
    shot
}

fn outcome(action: ShotAction) -> Result<(String, Option<u32>, bool), String> {
    match action {
        ShotAction::Finished(Ok(result)) => Ok((result.text, result.confidence, result.is_partial)),
        ShotAction::Finished(Err(TranscriptionError::EngineFailed(detail))) => Err(detail),
        _ => panic!("expected an outcome"),
    }
}

#[test]
fn bounded_call_queues_audio_then_the_request_to_finish() {
    let (shot, _) = SingleShot::begin(config(), vec![1, -1]);
    let (shot, action) = shot.step(ShotEvent::Handshake(HandshakeOutcome::Established));
    match action {
        ShotAction::Enqueue(AudioMessage::Audio(bytes), AudioMessage::CloseStream) => {
            assert_eq!(bytes, vec![0x01, 0x00, 0xff, 0xff]);
        }
        _ => panic!("expected the audio and the request to finish"),
    }
    assert_eq!(shot.stage(), ShotStage::Draining);
}

#[test]
fn bounded_call_times_out_with_a_partial_result() {
    let shot = draining(vec![0; 1600]);
    let (shot, action) = shot.step(ShotEvent::Segment(final_segment("Hello there.")));
    assert!(matches!(action, ShotAction::Drain));
    let (shot, action) = shot.step(ShotEvent::TimedOut);
    assert_eq!(
        outcome(action),
        Ok(("Hello there.".to_string(), Some(910_000), true))
    );
    assert_eq!(shot.stage(), ShotStage::Done);
}

#[test]
fn bounded_call_without_results_fails() {
    let (_, action) = draining(vec![0; 1600]).step(ShotEvent::TimedOut);
    assert_eq!(outcome(action), Err("No transcription results received".to_string()));
    let (_, action) = draining(vec![0; 1600]).step(ShotEvent::ChannelClosed);
    assert_eq!(outcome(action), Err("No transcription results received".to_string()));
}

#[test]
fn bounded_call_ends_complete_when_the_service_closes() {
    let shot = draining(vec![0; 1600]);
    let (shot, _) = shot.step(ShotEvent::Segment(final_segment("one")));
    let (shot, _) = shot.step(ShotEvent::Segment(final_segment("two")));
    let (shot, action) = shot.step(ShotEvent::ChannelClosed);
    assert_eq!(outcome(action), Ok(("one two".to_string(), Some(910_000), false)));
    // Once the outcome was given nothing more happens.
    let (shot, action) = shot.step(ShotEvent::Segment(final_segment("late")));
    assert!(matches!(action, ShotAction::Ignored));
    let (_, action) = shot.step(ShotEvent::TimedOut);
    assert!(matches!(action, ShotAction::Ignored));
}

#[test]
fn bounded_call_reports_a_failed_connect() {
    let (shot, _) = SingleShot::begin(config(), vec![0; 1600]);
    let (shot, action) = shot.step(ShotEvent::Handshake(exchange_failed("HTTP 401")));
    assert_eq!(
        outcome(action),
        Err("Failed to connect to Deepgram: HTTP 401".to_string())
    );
    assert_eq!(shot.stage(), ShotStage::Done);
}

#[test]
fn bounded_call_reports_a_request_that_could_not_be_built() {
    let (shot, _) = SingleShot::begin(config(), vec![0; 1600]);
    let refusal =
        ConnectionError::ConnectFailed("Failed to build request: invalid uri character".to_string());
    let (shot, action) = shot.step(ShotEvent::Handshake(attempt_failed(&refusal)));
    assert_eq!(
        outcome(action),
        Err("Failed to build request: invalid uri character".to_string())
    );
    assert_eq!(shot.stage(), ShotStage::Done);
}

#[test]
fn failure_outcomes_carry_the_whole_message() {
    match exchange_failed("timed out") {
        HandshakeOutcome::Failed(reason) => {
            assert_eq!(reason, "Failed to connect to Deepgram: timed out");
        }
        _ => panic!("expected a failure"),
    }
    match attempt_failed(&ConnectionError::NotConnected) {
        HandshakeOutcome::Failed(reason) => assert_eq!(reason, "Not connected"),
        _ => panic!("expected a failure"),
    }
}

#[test]
fn streaming_refusals_read_as_the_provider_says_them() {
    assert_eq!(stream_refusal_message(&ConnectionError::AlreadyStreaming), "Already streaming");
    assert_eq!(
        stream_refusal_message(&ConnectionError::NotConnected),
        "Not connected - call start_streaming first"
    );
    assert_eq!(
        stream_refusal_message(&ConnectionError::ConnectFailed("why".to_string())),
        "why"
    );
}

#[test]
fn bounded_call_reports_audio_that_could_not_be_queued() {
    let (shot, action) = draining(vec![0; 1600]).step(ShotEvent::QueueFailed("closed".to_string()));
    assert_eq!(outcome(action), Err("Failed to queue audio data: closed".to_string()));
    assert_eq!(shot.stage(), ShotStage::Done);
}

#[test]
fn bounded_call_ignores_events_of_another_stage() {
    let (shot, _) = SingleShot::begin(config(), vec![0; 1600]);
    let (shot, action) = shot.step(ShotEvent::TimedOut);
    assert!(matches!(action, ShotAction::Ignored));
    assert_eq!(shot.stage(), ShotStage::Connecting);
    let shot = draining(vec![0; 1600]);
    let (shot, action) = shot.step(ShotEvent::Handshake(HandshakeOutcome::Established));
    assert!(matches!(action, ShotAction::Ignored));
    assert_eq!(shot.stage(), ShotStage::Draining);
}

#[test]
fn wait_is_ten_seconds() {
    assert_eq!(RESULT_TIMEOUT_SECS, 10);
}
