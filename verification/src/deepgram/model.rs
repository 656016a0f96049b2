//! Choice of the model for a language.
//!
//! The specialised models understand English only. For any other language
//! the general model takes their place.

use vstd::prelude::*;
use vstd::string::*;
use crate::text::{chars_of};
use crate::text::case::{lowercase, to_lowercase};
use crate::text::search::{range_starts_with, str_equals};

verus! {

/// A lowercase language value denotes English or the multilingual mode.
pub open spec fn lowered_denotes_english(lowered: Seq<char>) -> bool {
    "en"@.is_prefix_of(lowered) || lowered == "multi"@
}

/// A language hint denotes English: it is absent, or its lowercase form
/// starts with `en` or is `multi`.
pub open spec fn denotes_english(language: Option<Seq<char>>) -> bool {
    match language {
        None => true,
        Some(lang) => lowered_denotes_english(lowercase(lang)),
    }
}

/// The model understands English only.
pub open spec fn is_english_only_model(model: Seq<char>) -> bool {
    ||| model == "nova-2-meeting"@
    ||| model == "nova-2-phonecall"@
    ||| model == "nova-2-conversationalai"@
    ||| model == "nova-2-voicemail"@
    ||| model == "nova-2-video"@
    ||| model == "nova-2-medical"@
    ||| model == "nova-2-finance"@
    ||| model == "nova-3"@
    ||| model == "nova-3-medical"@
}

/// The model to use: the configured one, unless the language is not English
/// and the configured model understands English only; then the general
/// model.
pub open spec fn effective_model(model: Seq<char>, english: bool) -> Seq<char> {
    if english || !is_english_only_model(model) {
        model
    } else {
        "nova-2"@
    }
}

/// Executable test for [`lowered_denotes_english`], on a value that is
/// already in lowercase.
pub fn is_english_lowered(lowered: &str) -> (b: bool)
    ensures
        b == lowered_denotes_english(lowered@),
{
    let v = chars_of(lowered);
    proof {
        assert(v@.subrange(0, v@.len() as int) =~= v@);
    }
    range_starts_with(&v, 0, v.len(), "en") || str_equals(lowered, "multi")
}

/// Executable test for [`is_english_only_model`].
pub fn english_only(model: &str) -> (b: bool)
    ensures
        b == is_english_only_model(model@),
{
    str_equals(model, "nova-2-meeting") || str_equals(model, "nova-2-phonecall") || str_equals(
        model,
        "nova-2-conversationalai",
    ) || str_equals(model, "nova-2-voicemail") || str_equals(model, "nova-2-video") || str_equals(
        model,
        "nova-2-medical",
    ) || str_equals(model, "nova-2-finance") || str_equals(model, "nova-3") || str_equals(
        model,
        "nova-3-medical",
    )
}

/// The model to use for a language that is known to denote English or not.
pub fn select_model(model: &str, english: bool) -> (chosen: String)
    ensures
        chosen@ == effective_model(model@, english),
{
    if english || !english_only(model) {
        model.to_owned()
    } else {
        "nova-2".to_owned()
    }
}

/// Tests whether a language hint denotes English.
pub fn language_is_english(language: Option<&str>) -> (b: bool)
    ensures
        b == denotes_english(
            match language {
                Some(lang) => Some(lang@),
                None => None,
            },
        ),
{
    match language {
        None => true,
        Some(lang) => {
            let lowered = to_lowercase(lang);
            is_english_lowered(lowered.as_str())
        },
    }
}

} // verus!
