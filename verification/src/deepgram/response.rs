//! Messages of the transcription service and their conversion into
//! speaker-attributed transcript segments.
//!
//! Times are whole microseconds and confidences are millionths, so that every
//! value in a message is an integer.

use vstd::prelude::*;
use vstd::string::*;
use crate::text::{is_blank, trim, trim_string};
use crate::text::search::str_equals;

verus! {

/// One message of the service.
#[derive(Debug, Clone)]
pub struct DeepgramResponse {
    pub response_type: Option<String>,
    pub channel_index: Option<Vec<i32>>,
    pub duration: Option<u64>,
    pub start: Option<u64>,
    pub is_final: Option<bool>,
    pub speech_final: Option<bool>,
    pub channel: Option<DeepgramChannel>,
    pub metadata: Option<DeepgramMetadata>,
}

#[derive(Debug, Clone)]
pub struct DeepgramChannel {
    pub alternatives: Vec<DeepgramAlternative>,
}

#[derive(Debug, Clone)]
pub struct DeepgramAlternative {
    pub transcript: String,
    pub confidence: Option<u32>,
    pub words: Option<Vec<DeepgramWord>>,
}

/// One recognised word with its timing and, when diarization is on, its
/// speaker.
#[derive(Debug, Clone)]
pub struct DeepgramWord {
    pub word: String,
    pub start: u64,
    pub end: u64,
    pub confidence: u32,
    pub speaker: Option<i32>,
    pub punctuated_word: Option<String>,
}

#[derive(Debug, Clone)]
pub struct DeepgramMetadata {
    pub request_id: Option<String>,
    pub model_info: Option<DeepgramModelInfo>,
    pub model_uuid: Option<String>,
}

#[derive(Debug, Clone)]
pub struct DeepgramModelInfo {
    pub name: Option<String>,
    pub version: Option<String>,
    pub arch: Option<String>,
}

/// A maximal run of consecutive words of one speaker.
#[derive(Debug, Clone)]
pub struct SpeakerSegment {
    pub speaker_id: i32,
    pub text: String,
    pub start_time: u64,
    pub end_time: u64,
}

/// One transcript segment handed to the consumer.
#[derive(Debug, Clone)]
pub struct TranscriptionSegment {
    pub text: String,
    pub confidence: Option<u32>,
    pub is_final: bool,
    pub start_time: Option<u64>,
    pub end_time: Option<u64>,
    pub speakers: Vec<SpeakerSegment>,
}

/// What a [`SpeakerSegment`] holds.
pub struct SpeakerRun {
    pub speaker_id: i32,
    pub text: Seq<char>,
    pub start_time: u64,
    pub end_time: u64,
}

/// What a [`TranscriptionSegment`] holds.
pub struct SegmentContent {
    pub text: Seq<char>,
    pub confidence: Option<u32>,
    pub is_final: bool,
    pub start_time: Option<u64>,
    pub end_time: Option<u64>,
    pub speakers: Seq<SpeakerRun>,
}

impl View for SpeakerSegment {
    type V = SpeakerRun;

    open spec fn view(&self) -> SpeakerRun {
        SpeakerRun {
            speaker_id: self.speaker_id,
            text: self.text@,
            start_time: self.start_time,
            end_time: self.end_time,
        }
    }
}

/// The runs that a sequence of speaker segments holds.
pub open spec fn speaker_runs(segments: Seq<SpeakerSegment>) -> Seq<SpeakerRun> {
    segments.map_values(|s: SpeakerSegment| s@)
}

impl View for TranscriptionSegment {
    type V = SegmentContent;

    open spec fn view(&self) -> SegmentContent {
        SegmentContent {
            text: self.text@,
            confidence: self.confidence,
            is_final: self.is_final,
            start_time: self.start_time,
            end_time: self.end_time,
            speakers: speaker_runs(self.speakers@),
        }
    }
}

/// The speaker of a word; a word without one belongs to speaker 0.
pub open spec fn word_speaker(w: DeepgramWord) -> i32 {
    match w.speaker {
        Some(id) => id,
        None => 0,
    }
}

/// The text of a word: its punctuated form where the service gave one.
pub open spec fn word_text(w: DeepgramWord) -> Seq<char> {
    match w.punctuated_word {
        Some(p) => p@,
        None => w.word@,
    }
}

/// Number of words from index `i` on that continue the run started at
/// `from`.
pub open spec fn run_tail_len(words: Seq<DeepgramWord>, from: int, i: int) -> nat
    decreases words.len() - i,
{
    if 0 <= from < words.len() && from < i < words.len() && word_speaker(words[i]) == word_speaker(
        words[from],
    ) {
        1 + run_tail_len(words, from, i + 1)
    } else {
        0
    }
}

/// One past the last word of the run that starts at `from`.
pub open spec fn run_end(words: Seq<DeepgramWord>, from: int) -> int {
    from + 1 + run_tail_len(words, from, from + 1)
}

/// The text accumulated over `words[from..to]`: the word texts joined by
/// single spaces, where nothing is put before a word while the text is still
/// empty.
pub open spec fn run_text(words: Seq<DeepgramWord>, from: int, to: int) -> Seq<char>
    decreases to - from,
{
    if to <= from || to > words.len() || from < 0 {
        Seq::empty()
    } else {
        let before = run_text(words, from, to - 1);
        if before.len() > 0 {
            before + seq![' '] + word_text(words[to - 1])
        } else {
            word_text(words[to - 1])
        }
    }
}

/// The segment for the run `words[from..to]`.
pub open spec fn run_segment(words: Seq<DeepgramWord>, from: int, to: int) -> SpeakerRun {
    SpeakerRun {
        speaker_id: word_speaker(words[from]),
        text: trim(run_text(words, from, to)),
        start_time: words[from].start,
        end_time: words[to - 1].end,
    }
}

/// The segments for the maximal runs of `words[from..]`, in order. A run
/// for which nothing was accumulated gives no segment, wherever it lies.
pub open spec fn runs_from(words: Seq<DeepgramWord>, from: int) -> Seq<SpeakerRun>
    decreases words.len() - from,
{
    if from < 0 || from >= words.len() {
        Seq::empty()
    } else {
        let to = run_end(words, from);
        let rest = if to < words.len() {
            runs_from(words, to)
        } else {
            Seq::empty()
        };
        if run_text(words, from, to).len() > 0 {
            seq![run_segment(words, from, to)] + rest
        } else {
            rest
        }
    }
}

/// Every maximal run of `words[from..]` has some accumulated text.
pub open spec fn every_run_has_text(words: Seq<DeepgramWord>, from: int) -> bool
    decreases words.len() - from,
{
    if from < 0 || from >= words.len() {
        true
    } else {
        let to = run_end(words, from);
        run_text(words, from, to).len() > 0 && (to < words.len() ==> every_run_has_text(words, to))
    }
}

/// The speaker segments of a word sequence: one per maximal run of
/// consecutive words of the same speaker that has some accumulated text, in
/// the order of the words.
pub open spec fn merged_runs(words: Seq<DeepgramWord>) -> Seq<SpeakerRun> {
    runs_from(words, 0)
}

/// A run never extends past the last word.
pub proof fn lemma_run_tail_bound(words: Seq<DeepgramWord>, from: int, i: int)
    requires
        0 <= from < i <= words.len(),
    ensures
        i + run_tail_len(words, from, i) <= words.len(),
    decreases words.len() - i,
{
    if i < words.len() && word_speaker(words[i]) == word_speaker(words[from]) {
        lemma_run_tail_bound(words, from, i + 1);
    }
}

/// A run ends at the last word or in front of a word of another speaker,
/// and every word of it has the speaker of its first word.
pub proof fn lemma_run_is_maximal(words: Seq<DeepgramWord>, from: int, i: int)
    requires
        0 <= from < i <= words.len(),
    ensures
        i + run_tail_len(words, from, i) < words.len() ==> word_speaker(
            words[i + run_tail_len(words, from, i)],
        ) != word_speaker(words[from]),
        forall|k: int|
            i <= k < i + run_tail_len(words, from, i) ==> word_speaker(#[trigger] words[k])
                == word_speaker(words[from]),
    decreases words.len() - i,
{
    if i < words.len() && word_speaker(words[i]) == word_speaker(words[from]) {
        lemma_run_is_maximal(words, from, i + 1);
    }
}

/// There are no more segments than words, and each segment stands for a
/// run of words for which some text was accumulated: no run without text
/// gives a segment.
pub proof fn lemma_runs_have_text(words: Seq<DeepgramWord>, from: int)
    requires
        0 <= from <= words.len(),
    ensures
        runs_from(words, from).len() <= words.len() - from,
        forall|k: int|
            0 <= k < runs_from(words, from).len() ==> exists|a: int, b: int|
                from <= a < b <= words.len() && run_text(words, a, b).len() > 0 && #[trigger] runs_from(
                    words,
                    from,
                )[k] == #[trigger] run_segment(words, a, b),
    decreases words.len() - from,
{
    if from < words.len() {
        let to = run_end(words, from);
        lemma_run_tail_bound(words, from, from + 1);
        lemma_runs_have_text(words, to);
        let rest = runs_from(words, to);
        let all = runs_from(words, from);
        assert forall|k: int| 0 <= k < all.len() implies exists|a: int, b: int|
            from <= a < b <= words.len() && run_text(words, a, b).len() > 0 && #[trigger] all[k]
                == #[trigger] run_segment(words, a, b) by {
            if run_text(words, from, to).len() > 0 {
                assert(all =~= seq![run_segment(words, from, to)] + rest);
                if k == 0 {
                    assert(all[0] == run_segment(words, from, to));
                } else {
                    assert(all[k] == rest[k - 1]);
                    let (a, b) = choose|a: int, b: int|
                        to <= a < b <= words.len() && run_text(words, a, b).len() > 0
                            && #[trigger] rest[k - 1] == #[trigger] run_segment(words, a, b);
                    assert(all[k] == run_segment(words, a, b));
                }
            } else {
                let (a, b) = choose|a: int, b: int|
                    to <= a < b <= words.len() && run_text(words, a, b).len() > 0
                        && #[trigger] rest[k] == #[trigger] run_segment(words, a, b);
                assert(all[k] == run_segment(words, a, b));
            }
        }
    }
}

/// Where every run has some text, the segments follow the runs: the first
/// segment has the speaker of the first word, and two neighbouring segments
/// never have the same speaker.
pub proof fn lemma_runs_alternate(words: Seq<DeepgramWord>, from: int)
    requires
        0 <= from <= words.len(),
        every_run_has_text(words, from),
    ensures
        runs_from(words, from).len() > 0 <==> from < words.len(),
        from < words.len() ==> runs_from(words, from)[0].speaker_id == word_speaker(words[from]),
        forall|k: int|
            0 <= k < runs_from(words, from).len() - 1 ==> (#[trigger] runs_from(
                words,
                from,
            )[k]).speaker_id != runs_from(words, from)[k + 1].speaker_id,
    decreases words.len() - from,
{
    if from < words.len() {
        let to = run_end(words, from);
        lemma_run_tail_bound(words, from, from + 1);
        lemma_run_is_maximal(words, from, from + 1);
        lemma_runs_alternate(words, to);
        let rest = runs_from(words, to);
        let all = runs_from(words, from);
        assert(all =~= seq![run_segment(words, from, to)] + rest);
        assert forall|k: int| 0 <= k < all.len() - 1 implies (#[trigger] all[k]).speaker_id
            != all[k + 1].speaker_id by {
            if k == 0 {
                assert(all[1] == rest[0]);
            } else {
                assert(all[k] == rest[k - 1]);
                assert(all[k + 1] == rest[k]);
            }
        }
    }
}

/// Words of one speaker with some text make exactly one segment: it spans
/// from the start of the first word to the end of the last, and holds the
/// accumulated text, trimmed.
pub proof fn lemma_single_speaker_single_run(words: Seq<DeepgramWord>)
    requires
        words.len() > 0,
        forall|k: int| 0 <= k < words.len() ==> word_speaker(#[trigger] words[k]) == word_speaker(
            words[0],
        ),
        run_text(words, 0, words.len() as int).len() > 0,
    ensures
        merged_runs(words) == seq![run_segment(words, 0, words.len() as int)],
{
    lemma_run_tail_bound(words, 0, 1);
    lemma_run_is_maximal(words, 0, 1);
    let to = run_end(words, 0);
    if to < words.len() {
        assert(word_speaker(words[to]) == word_speaker(words[0]));
    }
    assert(merged_runs(words) =~= seq![run_segment(words, 0, words.len() as int)]);
}

fn speaker_of(w: &DeepgramWord) -> (id: i32)
    ensures
        id == word_speaker(*w),
{
    match w.speaker {
        Some(id) => id,
        None => 0,
    }
}

fn text_of(w: &DeepgramWord) -> (t: &str)
    ensures
        t@ == word_text(*w),
{
    match &w.punctuated_word {
        Some(p) => p.as_str(),
        None => w.word.as_str(),
    }
}

fn close_run(words: &[DeepgramWord], from: usize, to: usize, text: &String) -> (segment:
    SpeakerSegment)
    requires
        from < to <= words.len(),
        text@ == run_text(words@, from as int, to as int),
    ensures
        segment@ == run_segment(words@, from as int, to as int),
{
    SpeakerSegment {
        speaker_id: speaker_of(&words[from]),
        text: trim_string(text.as_str()),
        start_time: words[from].start,
        end_time: words[to - 1].end,
    }
}

/// Merges word-level output into speaker segments in a single pass.
pub fn extract_speaker_segments(words: &[DeepgramWord]) -> (segments: Vec<SpeakerSegment>)
    ensures
        speaker_runs(segments@) == merged_runs(words@),
{
    let mut segments: Vec<SpeakerSegment> = Vec::new();
    let n = words.len();
    if n == 0 {
        proof {
            assert(speaker_runs(segments@) =~= merged_runs(words@));
        }
        return segments;
    }
    let mut from: usize = 0;
    let mut current_text: String = text_of(&words[0]).to_owned();
    let mut i: usize = 1;
    proof {
        assert(run_text(words@, 0, 0) =~= Seq::<char>::empty());
        assert(speaker_runs(segments@) + runs_from(words@, 0) =~= merged_runs(words@));
    }
    while i < n
        invariant
            n == words.len(),
            from < i <= n,
            current_text@ == run_text(words@, from as int, i as int),
            i + run_tail_len(words@, from as int, i as int) == run_end(words@, from as int),
            speaker_runs(segments@) + runs_from(words@, from as int) == merged_runs(words@),
        decreases n - i,
    {
        let w = &words[i];
        if speaker_of(w) == speaker_of(&words[from]) {
            if !current_text.as_str().is_empty() {
                current_text.push(' ');
            }
            current_text.append(text_of(w));
            proof {
                assert(current_text@ =~= run_text(words@, from as int, i + 1));
            }
        } else {
            proof {
                assert(run_end(words@, from as int) == i);
                assert(run_text(words@, i as int, i as int) =~= Seq::<char>::empty());
            }
            if !current_text.as_str().is_empty() {
                let segment = close_run(words, from, i, &current_text);
                let ghost closed = speaker_runs(segments@);
                segments.push(segment);
                proof {
                    assert(speaker_runs(segments@) =~= closed + seq![segment@]);
                    assert(speaker_runs(segments@) + runs_from(words@, i as int) =~= closed
                        + runs_from(words@, from as int));
                }
            }
            from = i;
            current_text = text_of(w).to_owned();
        }
        i += 1;
    }
    proof {
        assert(run_end(words@, from as int) == n);
    }
    if !current_text.as_str().is_empty() {
        let segment = close_run(words, from, n, &current_text);
        let ghost closed = speaker_runs(segments@);
        segments.push(segment);
        proof {
            assert(speaker_runs(segments@) =~= closed + seq![segment@]);
        }
    } else {
        proof {
            assert(speaker_runs(segments@) + Seq::<SpeakerRun>::empty() =~= speaker_runs(
                segments@,
            ));
        }
    }
    segments
}

/// The words of an alternative; none when the service sent no word list.
pub open spec fn alternative_words(alternative: DeepgramAlternative) -> Seq<DeepgramWord> {
    match alternative.words {
        Some(words) => words@,
        None => Seq::empty(),
    }
}

/// The end of a span that starts at `start` and lasts `duration` (nothing
/// when absent), held at the largest representable time.
pub open spec fn span_end(start: Option<u64>, duration: Option<u64>) -> Option<u64> {
    match start {
        Some(s) => {
            let d = match duration {
                Some(d) => d,
                None => 0,
            };
            if s + d > u64::MAX {
                Some(u64::MAX)
            } else {
                Some((s + d) as u64)
            }
        },
        None => None,
    }
}

/// The message carries transcription results.
pub open spec fn is_results_message(response: DeepgramResponse) -> bool {
    response.response_type is Some && response.response_type->0@ == "Results"@
}

/// The message yields a segment: it carries results, and its first
/// alternative has a transcript that is not blank.
pub open spec fn yields_segment(response: DeepgramResponse) -> bool {
    &&& is_results_message(response)
    &&& response.channel is Some
    &&& response.channel->0.alternatives@.len() > 0
    &&& trim(response.channel->0.alternatives@[0].transcript@).len() > 0
}

/// The segment that a message yields, if any.
pub open spec fn parsed_segment(response: DeepgramResponse) -> Option<SegmentContent> {
    if yields_segment(response) {
        let alternative = response.channel->0.alternatives@[0];
        Some(
            SegmentContent {
                text: alternative.transcript@,
                confidence: alternative.confidence,
                is_final: response.is_final == Some(true),
                start_time: response.start,
                end_time: span_end(response.start, response.duration),
                speakers: merged_runs(alternative_words(alternative)),
            },
        )
    } else {
        None
    }
}

fn end_of_span(start: Option<u64>, duration: Option<u64>) -> (end: Option<u64>)
    ensures
        end == span_end(start, duration),
{
    match start {
        Some(s) => {
            let d: u64 = match duration {
                Some(d) => d,
                None => 0,
            };
            if d > u64::MAX - s {
                Some(u64::MAX)
            } else {
                Some(s + d)
            }
        },
        None => None,
    }
}

/// Converts one message into at most one transcript segment.
pub fn parse_deepgram_response(response: &DeepgramResponse) -> (segment: Option<
    TranscriptionSegment,
>)
    ensures
        match segment {
            Some(s) => parsed_segment(*response) == Some(s@),
            None => parsed_segment(*response) is None,
        },
{
    let is_results = match &response.response_type {
        Some(tag) => str_equals(tag.as_str(), "Results"),
        None => false,
    };
    if !is_results {
        return None;
    }
    let channel = match &response.channel {
        Some(channel) => channel,
        None => {
            return None;
        },
    };
    if channel.alternatives.len() == 0 {
        return None;
    }
    let alternative = &channel.alternatives[0];
    if is_blank(alternative.transcript.as_str()) {
        return None;
    }
    let is_final = match response.is_final {
        Some(flag) => flag,
        None => false,
    };
    let speakers = match &alternative.words {
        Some(words) => extract_speaker_segments(words.as_slice()),
        None => {
            let empty: Vec<DeepgramWord> = Vec::new();
            extract_speaker_segments(empty.as_slice())
        },
    };
    Some(
        TranscriptionSegment {
            text: alternative.transcript.clone(),
            confidence: alternative.confidence,
            is_final,
            start_time: response.start,
            end_time: end_of_span(response.start, response.duration),
            speakers,
        },
    )
}

} // verus!
