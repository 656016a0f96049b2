//! Session configuration and the connection target built from it.

use vstd::prelude::*;
use vstd::string::*;
use vstd::utf8::encode_utf8;
use crate::decimal::{decimal, push_decimal};
use crate::text::search::{contains, str_contains};

verus! {

/// Configuration of one session with the transcription service.
#[derive(Debug, Clone)]
pub struct DeepgramConfig {
    pub api_key: String,
    pub model: String,
    pub language: Option<String>,
    pub sample_rate: u32,
    pub channels: u8,
    pub encoding: String,
    pub diarize: bool,
    pub punctuate: bool,
    pub interim_results: bool,
    pub smart_format: bool,
}

/// A language value is sent to the service only when it looks like a language
/// code: between 2 and 10 bytes long and free of the words that mark special
/// values.
pub open spec fn language_code_is_valid(lang: Seq<char>) -> bool {
    &&& 2 <= encode_utf8(lang).len() <= 10
    &&& !contains(lang, "auto"@)
    &&& !contains(lang, "translate"@)
    &&& !contains(lang, "detect"@)
}

/// The `language` query parameter, or nothing when the value is absent or is
/// not a valid language code.
pub open spec fn language_param(language: Option<String>) -> Seq<char> {
    match language {
        Some(lang) => if language_code_is_valid(lang@) {
            "&language="@ + lang@
        } else {
            Seq::empty()
        },
        None => Seq::empty(),
    }
}

/// A query parameter that is present only when its flag is set.
pub open spec fn flag_param(on: bool, param: Seq<char>) -> Seq<char> {
    if on {
        param
    } else {
        Seq::empty()
    }
}

/// Executable test for [`language_code_is_valid`].
pub fn is_valid_language_code(lang: &str) -> (b: bool)
    ensures
        b == language_code_is_valid(lang@),
{
    let n = lang.as_bytes().len();
    n >= 2 && n <= 10 && !str_contains(lang, "auto") && !str_contains(lang, "translate")
        && !str_contains(lang, "detect")
}

impl DeepgramConfig {
    /// The connection target: the fixed endpoint, the four parameters that
    /// are always present, the language when it is a valid code, and each
    /// option that is switched on.
    pub open spec fn url(&self) -> Seq<char> {
        "wss://api.deepgram.com/v1/listen?model="@ + self.model@ + "&encoding="@ + self.encoding@
            + "&sample_rate="@ + decimal(self.sample_rate as nat) + "&channels="@ + decimal(
            self.channels as nat,
        ) + language_param(self.language) + flag_param(self.diarize, "&diarize=true"@)
            + flag_param(self.punctuate, "&punctuate=true"@) + flag_param(
            self.interim_results,
            "&interim_results=true"@,
        ) + flag_param(self.smart_format, "&smart_format=true"@)
    }

    /// Builds the connection target with its query parameters.
    pub fn build_url(&self) -> (url: String)
        ensures
            url@ == self.url(),
    {
        let mut url = "wss://api.deepgram.com/v1/listen?model=".to_owned();
        url.append(self.model.as_str());
        url.append("&encoding=");
        url.append(self.encoding.as_str());
        url.append("&sample_rate=");
        push_decimal(&mut url, self.sample_rate as u64);
        url.append("&channels=");
        push_decimal(&mut url, self.channels as u64);
        match &self.language {
            Some(lang) => {
                if is_valid_language_code(lang.as_str()) {
                    url.append("&language=");
                    url.append(lang.as_str());
                }
            },
            None => {},
        }
        if self.diarize {
            url.append("&diarize=true");
        }
        if self.punctuate {
            url.append("&punctuate=true");
        }
        if self.interim_results {
            url.append("&interim_results=true");
        }
        if self.smart_format {
            url.append("&smart_format=true");
        }
        proof {
            assert(url@ =~= self.url());
        }
        url
    }
}

impl Default for DeepgramConfig {
    /// The general model on English, 16 kHz mono 16-bit audio, with every
    /// option switched on and no credential.
    fn default() -> (config: Self)
        ensures
            config.api_key@ == Seq::<char>::empty(),
            config.model@ == "nova-2"@,
            config.language is Some,
            config.language->0@ == "en"@,
            config.sample_rate == 16000,
            config.channels == 1,
            config.encoding@ == "linear16"@,
            config.diarize,
            config.punctuate,
            config.interim_results,
            config.smart_format,
    {
        DeepgramConfig {
            api_key: String::new(),
            model: "nova-2".to_owned(),
            language: Some("en".to_owned()),
            sample_rate: 16000,
            channels: 1,
            encoding: "linear16".to_owned(),
            diarize: true,
            punctuate: true,
            interim_results: true,
            smart_format: true,
        }
    }
}

} // verus!
