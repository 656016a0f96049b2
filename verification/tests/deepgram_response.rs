use meeting_companion::deepgram::response::{
    extract_speaker_segments, parse_deepgram_response, DeepgramAlternative, DeepgramChannel,
    DeepgramResponse, DeepgramWord, SpeakerSegment, TranscriptionSegment,
};
use meeting_companion::deepgram::transcript::{
    format_segment_with_speakers, format_timestamp, single_shot_outcome, TranscriptAccumulator,
    TranscriptionError,
};

fn word(text: &str, punctuated: Option<&str>, speaker: Option<i32>, start: u64, end: u64) -> DeepgramWord {
    DeepgramWord {
        word: text.to_string(),
        start,
        end,
        confidence: 990_000,
        speaker,
        punctuated_word: punctuated.map(|p| p.to_string()),
    }
}

fn results(transcript: &str, words: Option<Vec<DeepgramWord>>) -> DeepgramResponse {
    DeepgramResponse {
        response_type: Some("Results".to_string()),
        channel_index: Some(vec![0, 1]),
        duration: Some(1_500_000),
        start: Some(2_000_000),
        is_final: Some(true),
        speech_final: Some(true),
        channel: Some(DeepgramChannel {
            alternatives: vec![DeepgramAlternative {
                transcript: transcript.to_string(),
                confidence: Some(987_000),
                words,
            }],
        }),
        metadata: None,
    }
}

fn segment(text: &str, is_final: bool, speakers: Vec<(i32, &str)>, confidence: Option<u32>) -> TranscriptionSegment {
    TranscriptionSegment {
        text: text.to_string(),
        confidence,
        is_final,
        start_time: None,
        end_time: None,
        speakers: speakers
            .into_iter()
            .map(|(id, t)| SpeakerSegment {
                speaker_id: id,
                text: t.to_string(),
                start_time: 0,
                end_time: 0,
            })
            .collect(),
    }
}

#[test]
fn test_extract_speaker_segments_single_speaker() {
    let words = vec![
        DeepgramWord {
            word: "hello".to_string(),
            start: 0,
            end: 500_000,
            confidence: 990_000,
            speaker: Some(0),
            punctuated_word: Some("Hello".to_string()),
        },
        DeepgramWord {
            word: "world".to_string(),
            start: 500_000,
            end: 1_000_000,
            confidence: 990_000,
            speaker: Some(0),
            punctuated_word: Some("world.".to_string()),
        },
    ];

    let segments = extract_speaker_segments(&words);
    assert_eq!(segments.len(), 1);
    assert_eq!(segments[0].speaker_id, 0);
    assert_eq!(segments[0].text, "Hello world.");
}

#[test]
fn test_extract_speaker_segments_multiple_speakers() {
    let words = vec![
        DeepgramWord {
            word: "hello".to_string(),
            start: 0,
            end: 500_000,
            confidence: 990_000,
            speaker: Some(0),
            punctuated_word: Some("Hello.".to_string()),
        },
        DeepgramWord {
            word: "hi".to_string(),
            start: 600_000,
            end: 800_000,
            confidence: 990_000,
            speaker: Some(1),
            punctuated_word: Some("Hi!".to_string()),
        },
    ];

    let segments = extract_speaker_segments(&words);
    assert_eq!(segments.len(), 2);
    assert_eq!(segments[0].speaker_id, 0);
    assert_eq!(segments[0].text, "Hello.");
    assert_eq!(segments[1].speaker_id, 1);
    assert_eq!(segments[1].text, "Hi!");
}

#[test]
fn merge_two_speakers_three_words() {
    let words = vec![
        word("hello", Some("Hello"), Some(0), 0, 400_000),
        word("world", Some("world."), Some(0), 400_000, 900_000),
        word("hi", Some("Hi!"), Some(1), 1_000_000, 1_200_000),
    ];
    let segments = extract_speaker_segments(&words);
    assert_eq!(segments.len(), 2);
    assert_eq!((segments[0].speaker_id, segments[0].text.as_str()), (0, "Hello world."));
    assert_eq!((segments[0].start_time, segments[0].end_time), (0, 900_000));
    assert_eq!((segments[1].speaker_id, segments[1].text.as_str()), (1, "Hi!"));
    assert_eq!((segments[1].start_time, segments[1].end_time), (1_000_000, 1_200_000));
}

#[test]
fn merge_of_no_words_is_empty() {
    assert!(extract_speaker_segments(&[]).is_empty());
}

#[test]
fn merge_defaults_to_speaker_zero_and_raw_word() {
    let words = vec![
        word("one", None, None, 0, 1),
        word("two", None, Some(0), 1, 2),
        word("three", None, Some(2), 2, 3),
        word("four", None, None, 3, 4),
    ];
    let segments = extract_speaker_segments(&words);
    let got: Vec<(i32, &str)> = segments.iter().map(|s| (s.speaker_id, s.text.as_str())).collect();
    assert_eq!(got, vec![(0, "one two"), (2, "three"), (0, "four")]);
}

#[test]
fn merge_keeps_returning_speakers_apart() {
    let words = vec![
        word("a", None, Some(1), 0, 1),
        word("b", None, Some(2), 1, 2),
        word("c", None, Some(1), 2, 3),
    ];
    let ids: Vec<i32> = extract_speaker_segments(&words).iter().map(|s| s.speaker_id).collect();
    assert_eq!(ids, vec![1, 2, 1]);
}

#[test]
fn merge_drops_every_empty_run() {
    let words = vec![word("", None, Some(0), 0, 100_000), word("Hi", None, Some(1), 200_000, 400_000)];
    let segments = extract_speaker_segments(&words);
    assert_eq!(segments.len(), 1);
    assert_eq!(segments[0].speaker_id, 1);
    assert_eq!(segments[0].text, "Hi");
    assert_eq!((segments[0].start_time, segments[0].end_time), (200_000, 400_000));

    let words = vec![word("x", None, Some(0), 0, 1), word("", None, Some(1), 1, 2)];
    let segments = extract_speaker_segments(&words);
    assert_eq!(segments.len(), 1);
    assert_eq!(segments[0].text, "x");

    let words = vec![
        word("a", None, Some(0), 0, 1),
        word("", None, Some(1), 1, 2),
        word("", None, Some(1), 2, 3),
        word("b", None, Some(0), 3, 4),
    ];
    let got: Vec<(i32, String)> = extract_speaker_segments(&words)
        .into_iter()
        .map(|s| (s.speaker_id, s.text))
        .collect();
    assert_eq!(got, vec![(0, "a".to_string()), (0, "b".to_string())]);

    let words = vec![word("", None, Some(0), 0, 1), word("", None, Some(1), 1, 2)];
    assert!(extract_speaker_segments(&words).is_empty());
}

#[test]
fn parse_leaves_out_empty_runs() {
    let words = vec![word("", None, Some(0), 0, 1), word("Hi", Some("Hi."), Some(1), 1, 2)];
    let segment = parse_deepgram_response(&results("Hi.", Some(words))).unwrap();
    assert_eq!(segment.speakers.len(), 1);
    assert_eq!(segment.speakers[0].speaker_id, 1);
    assert_eq!(segment.speakers[0].text, "Hi.");
}

#[test]
fn merge_puts_no_space_before_the_first_text() {
    let words = vec![
        word("", None, Some(0), 0, 1),
        word("late", None, Some(0), 1, 2),
        word("", None, Some(0), 2, 3),
    ];
    let segments = extract_speaker_segments(&words);
    assert_eq!(segments.len(), 1);
    assert_eq!(segments[0].text, "late");
    assert_eq!(segments[0].end_time, 3);
}

#[test]
fn parse_builds_the_segment() {
    let words = vec![
        word("hello", Some("Hello"), Some(0), 2_000_000, 2_400_000),
        word("there", Some("there."), Some(1), 2_500_000, 3_000_000),
    ];
    let segment = parse_deepgram_response(&results("Hello there.", Some(words))).unwrap();
    assert_eq!(segment.text, "Hello there.");
    assert_eq!(segment.confidence, Some(987_000));
    assert!(segment.is_final);
    assert_eq!(segment.start_time, Some(2_000_000));
    assert_eq!(segment.end_time, Some(3_500_000));
    assert_eq!(segment.speakers.len(), 2);
}

#[test]
fn parse_end_time_defaults_and_saturates() {
    let mut response = results("x", None);
    response.duration = None;
    assert_eq!(parse_deepgram_response(&response).unwrap().end_time, Some(2_000_000));
    response.start = Some(u64::MAX - 1);
    response.duration = Some(5);
    assert_eq!(parse_deepgram_response(&response).unwrap().end_time, Some(u64::MAX));
    response.start = None;
    let segment = parse_deepgram_response(&response).unwrap();
    assert_eq!((segment.start_time, segment.end_time), (None, None));
}

#[test]
fn parse_discards_what_is_not_a_result() {
    let mut response = results("text", None);
    response.response_type = Some("Metadata".to_string());
    assert!(parse_deepgram_response(&response).is_none());
    response.response_type = Some("results".to_string());
    assert!(parse_deepgram_response(&response).is_none());
    response.response_type = None;
    assert!(parse_deepgram_response(&response).is_none());
}

#[test]
fn parse_discards_blank_and_missing_transcripts() {
    assert!(parse_deepgram_response(&results("   \n", None)).is_none());
    assert!(parse_deepgram_response(&results("", None)).is_none());
    let mut response = results("text", None);
    response.channel = Some(DeepgramChannel { alternatives: vec![] });
    assert!(parse_deepgram_response(&response).is_none());
    response.channel = None;
    assert!(parse_deepgram_response(&response).is_none());
}

#[test]
fn parse_is_final_defaults_to_false() {
    let mut response = results("text", None);
    response.is_final = None;
    let segment = parse_deepgram_response(&response).unwrap();
    assert!(!segment.is_final);
    assert!(segment.speakers.is_empty());
    assert_eq!(segment.text, "text");
}

#[test]
fn test_format_timestamp() {
    assert_eq!(format_timestamp(0), "00:00");
    assert_eq!(format_timestamp(30), "00:30");
    assert_eq!(format_timestamp(90), "01:30");
    assert_eq!(format_timestamp(3661), "01:01:01");
}

#[test]
fn timestamp_edges() {
    assert_eq!(format_timestamp(59), "00:59");
    assert_eq!(format_timestamp(3599), "59:59");
    assert_eq!(format_timestamp(3600), "01:00:00");
    assert_eq!(format_timestamp(360_000), "100:00:00");
}

#[test]
fn segment_display() {
    assert_eq!(format_segment_with_speakers(&segment("plain", true, vec![], None)), "plain");
    assert_eq!(
        format_segment_with_speakers(&segment("ignored", true, vec![(0, "Hi."), (-3, "Yo.")], None)),
        "[Speaker 0]: Hi.\n[Speaker -3]: Yo."
    );
    assert_eq!(
        format_segment_with_speakers(&segment("x", false, vec![(i32::MIN, ""), (i32::MAX, "z")], None)),
        "[Speaker -2147483648]: \n[Speaker 2147483647]: z"
    );
}

#[test]
fn accumulator_gathers_final_segments_only() {
    let mut accumulator = TranscriptAccumulator::new();
    accumulator.absorb(&segment("interim", false, vec![], Some(1)));
    accumulator.absorb(&segment("one", true, vec![], Some(900_000)));
    accumulator.absorb(&segment("two", true, vec![], None));
    let result = accumulator.finish(false).unwrap();
    assert_eq!(result.text, "one two");
    assert_eq!(result.confidence, None);
    assert!(!result.is_partial);
}

#[test]
fn accumulator_labels_speakers() {
    let mut accumulator = TranscriptAccumulator::new();
    accumulator.absorb(&segment("a b", true, vec![(0, "a"), (1, "b")], Some(5)));
    accumulator.absorb(&segment("c", true, vec![], Some(6)));
    accumulator.absorb(&segment("d", true, vec![(1, "d")], Some(7)));
    let result = accumulator.finish(false).unwrap();
    assert_eq!(result.text, "[Speaker 0]: a\n[Speaker 1]: b c\n[Speaker 1]: d");
    assert_eq!(result.confidence, Some(7));
}

#[test]
fn timeout_with_text_gives_a_partial_result() {
    let segments = vec![segment(" Hello there. ", true, vec![], Some(950_000))];
    let result = single_shot_outcome(&segments, true).unwrap();
    assert_eq!(result.text, "Hello there.");
    assert_eq!(result.confidence, Some(950_000));
    assert!(result.is_partial);
}

#[test]
fn nothing_received_is_a_failure() {
    for timed_out in [false, true] {
        match single_shot_outcome(&vec![], timed_out) {
            Err(TranscriptionError::EngineFailed(detail)) => {
                assert_eq!(detail, "No transcription results received");
            }
            _ => panic!("expected a failure"),
        }
    }
    let interim_only = vec![segment("interim", false, vec![], None)];
    assert!(single_shot_outcome(&interim_only, true).is_err());
}

#[test]
fn closed_channel_with_text_gives_a_complete_result() {
    let segments = vec![
        segment("Hello", true, vec![], Some(1)),
        segment("world", true, vec![], Some(2)),
    ];
    let result = single_shot_outcome(&segments, false).unwrap();
    assert_eq!(result.text, "Hello world");
    assert_eq!(result.confidence, Some(2));
    assert!(!result.is_partial);
}
