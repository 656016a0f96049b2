//! The aggregate result of a bounded transcription and the text that is
//! accumulated for it from final segments.

use vstd::prelude::*;
use vstd::string::*;
use crate::decimal::{
    push_signed_decimal,
    push_two_digit_decimal,
    signed_decimal,
    two_digit_decimal,
};
use crate::deepgram::response::{
    speaker_runs,
    SegmentContent,
    SpeakerRun,
    SpeakerSegment,
    TranscriptionSegment,
};
use crate::text::{trim, trim_string};

verus! {

/// The result of a bounded transcription.
#[derive(Debug, Clone)]
pub struct TranscriptResult {
    pub text: String,
    /// Confidence of the last final segment, in millionths.
    pub confidence: Option<u32>,
    /// The wait ended before the service had finished.
    pub is_partial: bool,
}

/// What a [`TranscriptResult`] holds.
pub struct TranscriptContent {
    pub text: Seq<char>,
    pub confidence: Option<u32>,
    pub is_partial: bool,
}

impl View for TranscriptResult {
    type V = TranscriptContent;

    open spec fn view(&self) -> TranscriptContent {
        TranscriptContent {
            text: self.text@,
            confidence: self.confidence,
            is_partial: self.is_partial,
        }
    }
}

/// Why a bounded transcription failed.
#[derive(Debug, Clone)]
pub enum TranscriptionError {
    /// The audio is shorter than the service can work with.
    AudioTooShort { samples: usize, minimum: usize },
    /// Anything that went wrong on the way to a result.
    EngineFailed(String),
}

/// What a [`TranscriptionError`] holds.
pub enum TranscriptionFailure {
    AudioTooShort { samples: usize, minimum: usize },
    EngineFailed(Seq<char>),
}

impl View for TranscriptionError {
    type V = TranscriptionFailure;

    open spec fn view(&self) -> TranscriptionFailure {
        match self {
            TranscriptionError::AudioTooShort { samples, minimum } =>
                TranscriptionFailure::AudioTooShort { samples: *samples, minimum: *minimum },
            TranscriptionError::EngineFailed(detail) => TranscriptionFailure::EngineFailed(detail@),
        }
    }
}

/// The line that shows one speaker segment.
pub open spec fn speaker_line(run: SpeakerRun) -> Seq<char> {
    "[Speaker "@ + signed_decimal(run.speaker_id as int) + "]: "@ + run.text
}

/// `text` followed by one line per speaker segment, with a line break before
/// each line that does not start the text.
pub open spec fn with_speaker_lines(text: Seq<char>, runs: Seq<SpeakerRun>) -> Seq<char>
    decreases runs.len(),
{
    if runs.len() == 0 {
        text
    } else {
        let before = with_speaker_lines(text, runs.drop_last());
        if before.len() > 0 {
            before + seq!['\n'] + speaker_line(runs.last())
        } else {
            speaker_line(runs.last())
        }
    }
}

/// `text` followed by `more`, with a space between them where `text` is not
/// empty.
pub open spec fn with_plain_text(text: Seq<char>, more: Seq<char>) -> Seq<char> {
    if text.len() > 0 {
        text + seq![' '] + more
    } else {
        more
    }
}

/// What has been gathered from the segments seen so far.
pub struct Gathered {
    pub text: Seq<char>,
    pub confidence: Option<u32>,
    pub saw_final: bool,
}

impl Gathered {
    /// Nothing gathered yet.
    pub open spec fn nothing() -> Gathered {
        Gathered { text: Seq::empty(), confidence: None, saw_final: false }
    }

    /// After one more segment. An interim segment changes nothing. A final
    /// one adds its speaker lines, or its plain text where it has no
    /// speakers, and its confidence becomes the latest.
    pub open spec fn absorb(self, segment: SegmentContent) -> Gathered {
        if !segment.is_final {
            self
        } else {
            Gathered {
                text: if segment.speakers.len() > 0 {
                    with_speaker_lines(self.text, segment.speakers)
                } else {
                    with_plain_text(self.text, segment.text)
                },
                confidence: segment.confidence,
                saw_final: true,
            }
        }
    }

    /// After a sequence of segments, in order.
    pub open spec fn absorb_all(self, segments: Seq<SegmentContent>) -> Gathered
        decreases segments.len(),
    {
        if segments.len() == 0 {
            self
        } else {
            self.absorb_all(segments.drop_last()).absorb(segments.last())
        }
    }

    /// The outcome once waiting has ended, by timeout or because the service
    /// closed the session. Without any text the transcription has failed.
    /// Otherwise the trimmed text is the result, partial when the wait timed
    /// out or no final segment was seen.
    pub open spec fn outcome(self, timed_out: bool) -> Result<
        TranscriptContent,
        TranscriptionFailure,
    > {
        if self.text.len() == 0 {
            Err(TranscriptionFailure::EngineFailed("No transcription results received"@))
        } else {
            Ok(
                TranscriptContent {
                    text: trim(self.text),
                    confidence: self.confidence,
                    is_partial: timed_out || !self.saw_final,
                },
            )
        }
    }
}

/// Text is gathered from final segments only: while none was seen there is
/// no text, so a result that was not cut short by the timeout is never
/// partial.
pub proof fn lemma_text_needs_final(g: Gathered, segment: SegmentContent)
    requires
        g.text.len() > 0 ==> g.saw_final,
    ensures
        g.absorb(segment).text.len() > 0 ==> g.absorb(segment).saw_final,
        Gathered::nothing().text.len() > 0 ==> Gathered::nothing().saw_final,
{
}

/// With nothing gathered the transcription has failed, however the wait
/// ended. After one final segment without speakers, a wait that timed out
/// gives that segment's text, trimmed, and its confidence, as a partial
/// result; where the segment's text is empty, the transcription has failed
/// as well.
pub proof fn lemma_timeout_outcomes(segment: SegmentContent, timed_out: bool)
    requires
        segment.is_final,
        segment.speakers.len() == 0,
    ensures
        Gathered::nothing().outcome(timed_out) == Err::<TranscriptContent, TranscriptionFailure>(
            TranscriptionFailure::EngineFailed("No transcription results received"@),
        ),
        segment.text.len() > 0 ==> Gathered::nothing().absorb(segment).outcome(true) == Ok::<
            TranscriptContent,
            TranscriptionFailure,
        >(
            TranscriptContent {
                text: trim(segment.text),
                confidence: segment.confidence,
                is_partial: true,
            },
        ),
        segment.text.len() == 0 ==> Gathered::nothing().absorb(segment).outcome(timed_out) == Err::<
            TranscriptContent,
            TranscriptionFailure,
        >(TranscriptionFailure::EngineFailed("No transcription results received"@)),
{
}

fn push_speaker_line(out: &mut String, segment: &SpeakerSegment)
    ensures
        final(out)@ == old(out)@ + speaker_line(segment@),
{
    out.append("[Speaker ");
    push_signed_decimal(out, segment.speaker_id);
    out.append("]: ");
    out.append(segment.text.as_str());
    proof {
        assert(out@ =~= old(out)@ + speaker_line(segment@));
    }
}

fn push_speaker_lines(out: &mut String, speakers: &Vec<SpeakerSegment>)
    ensures
        final(out)@ == with_speaker_lines(old(out)@, speaker_runs(speakers@)),
{
    let ghost runs = speaker_runs(speakers@);
    let mut i: usize = 0;
    proof {
        assert(runs.take(0) =~= Seq::<SpeakerRun>::empty());
    }
    while i < speakers.len()
        invariant
            i <= speakers.len(),
            runs == speaker_runs(speakers@),
            out@ == with_speaker_lines(old(out)@, runs.take(i as int)),
        decreases speakers.len() - i,
    {
        if !out.as_str().is_empty() {
            out.push('\n');
        }
        push_speaker_line(out, &speakers[i]);
        proof {
            let next = runs.take(i + 1);
            assert(next.drop_last() =~= runs.take(i as int));
            assert(next.last() == speakers@[i as int]@);
            assert(out@ =~= with_speaker_lines(old(out)@, next));
        }
        i += 1;
    }
    proof {
        assert(runs.take(speakers@.len() as int) =~= runs);
    }
}

/// The text gathered during a bounded transcription.
pub struct TranscriptAccumulator {
    text: String,
    confidence: Option<u32>,
    saw_final: bool,
}

impl View for TranscriptAccumulator {
    type V = Gathered;

    closed spec fn view(&self) -> Gathered {
        Gathered { text: self.text@, confidence: self.confidence, saw_final: self.saw_final }
    }
}

impl TranscriptAccumulator {
    #[verifier::type_invariant]
    spec fn text_needs_final(self) -> bool {
        self.text@.len() > 0 ==> self.saw_final
    }

    /// An accumulator that has seen nothing.
    pub fn new() -> (accumulator: Self)
        ensures
            accumulator@ == Gathered::nothing(),
    {
        TranscriptAccumulator { text: String::new(), confidence: None, saw_final: false }
    }

    /// Takes in one segment.
    pub fn absorb(&mut self, segment: &TranscriptionSegment)
        ensures
            final(self)@ == old(self)@.absorb(segment@),
    {
        proof {
            use_type_invariant(&*self);
        }
        if segment.is_final {
            let mut text = self.text.clone();
            if segment.speakers.len() > 0 {
                push_speaker_lines(&mut text, &segment.speakers);
                proof {
                    lemma_speaker_lines_nonempty(self.text@, speaker_runs(segment.speakers@));
                }
            } else {
                if !text.as_str().is_empty() {
                    text.push(' ');
                }
                text.append(segment.text.as_str());
                proof {
                    assert(text@ =~= with_plain_text(self.text@, segment.text@));
                }
            }
            *self = TranscriptAccumulator {
                text,
                confidence: segment.confidence,
                saw_final: true,
            };
        }
    }

    /// The outcome once waiting has ended.
    pub fn finish(&self, timed_out: bool) -> (result: Result<
        TranscriptResult,
        TranscriptionError,
    >)
        ensures
            match result {
                Ok(r) => self@.outcome(timed_out) == Ok::<TranscriptContent, TranscriptionFailure>(
                    r@,
                ) && r.is_partial == timed_out,
                Err(e) => self@.outcome(timed_out) == Err::<
                    TranscriptContent,
                    TranscriptionFailure,
                >(e@),
            },
    {
        proof {
            use_type_invariant(self);
        }
        if self.text.as_str().is_empty() {
            Err(TranscriptionError::EngineFailed("No transcription results received".to_owned()))
        } else {
            Ok(
                TranscriptResult {
                    text: trim_string(self.text.as_str()),
                    confidence: self.confidence,
                    is_partial: timed_out || !self.saw_final,
                },
            )
        }
    }
}

/// Speaker lines are never empty, so text with at least one line is not
/// empty.
pub proof fn lemma_speaker_lines_nonempty(text: Seq<char>, runs: Seq<SpeakerRun>)
    requires
        runs.len() > 0,
    ensures
        with_speaker_lines(text, runs).len() > 0,
{
    reveal_strlit("[Speaker ");
    assert(speaker_line(runs.last()).len() > 0);
}

/// The outcome of a bounded transcription in which `segments` arrived, in
/// this order, before the wait ended.
pub fn single_shot_outcome(segments: &Vec<TranscriptionSegment>, timed_out: bool) -> (result:
    Result<TranscriptResult, TranscriptionError>)
    ensures
        match result {
            Ok(r) => Gathered::nothing().absorb_all(segment_contents(segments@)).outcome(timed_out)
                == Ok::<TranscriptContent, TranscriptionFailure>(r@),
            Err(e) => Gathered::nothing().absorb_all(segment_contents(segments@)).outcome(
                timed_out,
            ) == Err::<TranscriptContent, TranscriptionFailure>(e@),
        },
{
    let ghost contents = segment_contents(segments@);
    let mut accumulator = TranscriptAccumulator::new();
    let mut i: usize = 0;
    proof {
        assert(contents.take(0) =~= Seq::<SegmentContent>::empty());
    }
    while i < segments.len()
        invariant
            i <= segments.len(),
            contents == segment_contents(segments@),
            accumulator@ == Gathered::nothing().absorb_all(contents.take(i as int)),
        decreases segments.len() - i,
    {
        accumulator.absorb(&segments[i]);
        proof {
            let next = contents.take(i + 1);
            assert(next.drop_last() =~= contents.take(i as int));
            assert(next.last() == segments@[i as int]@);
        }
        i += 1;
    }
    proof {
        assert(contents.take(segments@.len() as int) =~= contents);
    }
    accumulator.finish(timed_out)
}

/// What a sequence of segments holds.
pub open spec fn segment_contents(segments: Seq<TranscriptionSegment>) -> Seq<SegmentContent> {
    segments.map_values(|s: TranscriptionSegment| s@)
}

/// The text that shows a segment: one line per speaker segment, or the plain
/// text where there are no speakers.
pub open spec fn segment_display(segment: SegmentContent) -> Seq<char> {
    if segment.speakers.len() == 0 {
        segment.text
    } else {
        with_speaker_lines(Seq::empty(), segment.speakers)
    }
}

/// Formats a segment with speaker labels for display.
pub fn format_segment_with_speakers(segment: &TranscriptionSegment) -> (out: String)
    ensures
        out@ == segment_display(segment@),
{
    if segment.speakers.len() == 0 {
        segment.text.clone()
    } else {
        let mut out = String::new();
        push_speaker_lines(&mut out, &segment.speakers);
        out
    }
}

/// A time of day from a count of seconds: `HH:MM:SS` from one hour on,
/// `MM:SS` below, each part with at least two digits.
pub open spec fn timestamp(total_secs: nat) -> Seq<char> {
    let hours = total_secs / 3600;
    let minutes = (total_secs % 3600) / 60;
    let secs = total_secs % 60;
    if hours > 0 {
        two_digit_decimal(hours) + seq![':'] + two_digit_decimal(minutes) + seq![':']
            + two_digit_decimal(secs)
    } else {
        two_digit_decimal(minutes) + seq![':'] + two_digit_decimal(secs)
    }
}

/// Formats a count of whole seconds as a timestamp.
pub fn format_timestamp(total_secs: u64) -> (out: String)
    ensures
        out@ == timestamp(total_secs as nat),
{
    let hours = total_secs / 3600;
    let minutes = (total_secs % 3600) / 60;
    let secs = total_secs % 60;
    let mut out = String::new();
    if hours > 0 {
        push_two_digit_decimal(&mut out, hours);
        out.push(':');
    }
    push_two_digit_decimal(&mut out, minutes);
    out.push(':');
    push_two_digit_decimal(&mut out, secs);
    proof {
        assert(out@ =~= timestamp(total_secs as nat));
    }
    out
}

} // verus!
