//! What the text-to-speech providers are asked: the SSML document, the voice, the
//! endpoints, and how the returned audio is cut into voice frames.
use vstd::prelude::*;
use vstd::string::StringSliceAdditionalSpecFns;

use crate::services::is_prefix;

verus! {

/// The settings of a synthesis by AWS Polly.
#[derive(Clone, Debug)]
pub struct AwsConfig {
    pub voice: Option<String>,
    pub key: String,
    pub secret: String,
    /// The name of the AWS region.
    pub region: String,
}

/// The settings of a synthesis by Azure.
#[derive(Clone, Debug)]
pub struct AzureConfig {
    pub voice: Option<String>,
    pub key: String,
    pub region: String,
}

/// The settings of a synthesis by a Coqui server.
#[derive(Clone, Debug)]
pub struct CoquiConfig {
    pub addr: Option<String>,
    pub voice: Option<String>,
}

/// The settings of a synthesis by Google Cloud.
#[derive(Clone, Debug)]
pub struct GCloudConfig {
    pub voice: Option<String>,
    pub key: String,
}

/// The settings of a synthesis by Parler.
#[derive(Clone, Debug)]
pub struct ParlerConfig {
    pub speaker: String,
}

/// The settings of a synthesis by Windows.
#[derive(Clone, Debug)]
pub struct WinConfig {
    pub voice: Option<String>,
}

/// The settings of one synthesis: the provider, its voice and its credentials.
#[derive(Clone, Debug)]
pub enum TtsConfig {
    Aws(AwsConfig),
    Azure(AzureConfig),
    Coqui(CoquiConfig),
    GCloud(GCloudConfig),
    Win(WinConfig),
}

/// The SSML document that AWS Polly, Google Cloud and Windows are given: the text, in
/// English unless Windows found a voice of another English variant.
pub open spec fn speak_document(lang: Seq<char>, text: Seq<char>) -> Seq<char> {
    "<speak version=\"1.0\" xml:lang=\""@ + lang + "\">"@ + text + "</speak>"@
}

/// The SSML document for `text` in the language `lang`.
pub fn speak_ssml(lang: &str, text: &str) -> (r: String)
    ensures
        r@ == speak_document(lang@, text@),
{
    let mut s = String::from_str("<speak version=\"1.0\" xml:lang=\"");
    s.append(lang);
    s.append("\">");
    s.append(text);
    s.append("</speak>");
    s
}

/// The voice asked for, else `default`.
pub open spec fn voice_or(voice: Option<String>, default: Seq<char>) -> Seq<char> {
    match voice {
        Some(v) => v@,
        None => default,
    }
}

fn voice_or_default(voice: &Option<String>, default: &str) -> (r: String)
    ensures
        r@ == voice_or(*voice, default@),
{
    match voice {
        Some(v) => v.clone(),
        None => String::from_str(default),
    }
}

/// The AWS Polly voice: the one asked for, else `Brian`.
pub fn aws_voice(voice: &Option<String>) -> (r: String)
    ensures
        r@ == voice_or(*voice, "Brian"@),
{
    voice_or_default(voice, "Brian")
}

/// The Azure voice: the one asked for, else `en-US-AriaNeural`.
pub fn azure_voice(voice: &Option<String>) -> (r: String)
    ensures
        r@ == voice_or(*voice, "en-US-AriaNeural"@),
{
    voice_or_default(voice, "en-US-AriaNeural")
}

/// The Google Cloud voice: the one asked for, else `en-GB-Neural2-A`.
pub fn gcloud_voice(voice: &Option<String>) -> (r: String)
    ensures
        r@ == voice_or(*voice, "en-GB-Neural2-A"@),
{
    voice_or_default(voice, "en-GB-Neural2-A")
}

/// The language of a voice: the first five bytes of its name (such as `en-US`).
pub fn voice_language(voice: &str) -> (r: &str)
    requires
        vstd::utf8::is_char_boundary(voice.spec_bytes(), 5),
    ensures
        r.spec_bytes() == voice.spec_bytes().subrange(0, 5),
{
    let (lang, _) = voice.split_at(5);
    lang
}

/// The SSML document of Azure: the text spoken by the voice, in the voice's language.
pub open spec fn azure_document(lang: Seq<char>, voice: Seq<char>, text: Seq<char>) -> Seq<char> {
    "<speak version=\"1.0\" xml:lang=\""@ + lang + "\"><voice xml:lang=\""@ + lang
        + "\" name=\""@ + voice + "\">"@ + text + "</voice></speak>"@
}

/// The SSML document of Azure for `text` spoken by `voice`.
pub fn azure_ssml(voice: &str, text: &str) -> (r: String)
    requires
        vstd::utf8::is_char_boundary(voice.spec_bytes(), 5),
    ensures
        exists|lang: &str|
            lang.spec_bytes() == voice.spec_bytes().subrange(0, 5) && r@ == azure_document(
                lang@,
                voice@,
                text@,
            ),
{
    let lang = voice_language(voice);
    let mut s = String::from_str("<speak version=\"1.0\" xml:lang=\"");
    s.append(lang);
    s.append("\"><voice xml:lang=\"");
    s.append(lang);
    s.append("\" name=\"");
    s.append(voice);
    s.append("\">");
    s.append(text);
    s.append("</voice></speak>");
    assert(s@ =~= azure_document(lang@, voice@, text@));
    s
}

/// The URL that issues Azure access tokens for `region`.
pub fn azure_token_url(region: &str) -> (r: String)
    ensures
        r@ == "https://"@ + region@ + ".api.cognitive.microsoft.com/sts/v1.0/issueToken"@,
{
    let mut s = String::from_str("https://");
    s.append(region);
    s.append(".api.cognitive.microsoft.com/sts/v1.0/issueToken");
    s
}

/// The URL of the Azure speech synthesis for `region`.
pub fn azure_api_url(region: &str) -> (r: String)
    ensures
        r@ == "https://"@ + region@ + ".tts.speech.microsoft.com/cognitiveservices/v1"@,
{
    let mut s = String::from_str("https://");
    s.append(region);
    s.append(".tts.speech.microsoft.com/cognitiveservices/v1");
    s
}

/// The URL of the Google Cloud speech synthesis with the API key `key`.
pub fn gcloud_url(key: &str) -> (r: String)
    ensures
        r@ == "https://texttospeech.googleapis.com/v1/text:synthesize?key="@ + key@,
{
    let mut s = String::from_str("https://texttospeech.googleapis.com/v1/text:synthesize?key=");
    s.append(key);
    s
}

/// The address of the Coqui server: the configured one, else `http://localhost:4000`.
pub fn coqui_address(addr: &Option<String>) -> (r: String)
    ensures
        r@ == voice_or(*addr, "http://localhost:4000"@),
{
    voice_or_default(addr, "http://localhost:4000")
}

/// The Coqui speaker: the one asked for, else `p250`.
pub fn coqui_speaker(voice: &Option<String>) -> (r: String)
    ensures
        r@ == voice_or(*voice, "p250"@),
{
    voice_or_default(voice, "p250")
}

/// Whether `s` ends with `suffix`.
pub open spec fn is_suffix(suffix: Seq<char>, s: Seq<char>) -> bool {
    suffix.len() <= s.len() && s.subrange(s.len() - suffix.len(), s.len() as int) == suffix
}

/// Whether a Windows voice, by its language and display name, is the one to use: an
/// English voice whose name ends with the requested name, or any English voice when none
/// is requested.
pub open spec fn voice_fits(lang: Seq<char>, name: Seq<char>, requested: Option<Seq<char>>) -> bool {
    is_prefix("en-"@, lang) && match requested {
        Some(v) => is_suffix(v, name),
        None => true,
    }
}

/// The first voice, from the `i`-th on, that fits.
pub open spec fn first_fitting_voice(
    voices: Seq<(String, String)>,
    requested: Option<Seq<char>>,
    i: int,
) -> Option<int>
    decreases voices.len() - i,
{
    if i < 0 || i >= voices.len() {
        None
    } else if voice_fits(voices[i].0@, voices[i].1@, requested) {
        Some(i)
    } else {
        first_fitting_voice(voices, requested, i + 1)
    }
}

fn str_starts_with(s: &str, p: &str) -> (r: bool)
    ensures
        r == is_prefix(p@, s@),
{
    let n = s.unicode_len();
    let m = p.unicode_len();
    if m > n {
        return false;
    }
    let mut i: usize = 0;
    while i < m
        invariant
            m == p@.len(),
            n == s@.len(),
            m <= n,
            i <= m,
            forall|j: int| 0 <= j < i ==> s@[j] == p@[j],
        decreases m - i,
    {
        if s.get_char(i) != p.get_char(i) {
            assert(s@.subrange(0, m as int)[i as int] != p@[i as int]);
            return false;
        }
        i = i + 1;
    }
    assert(s@.subrange(0, m as int) =~= p@);
    true
}

fn str_ends_with(s: &str, p: &str) -> (r: bool)
    ensures
        r == is_suffix(p@, s@),
{
    let n = s.unicode_len();
    let m = p.unicode_len();
    if m > n {
        return false;
    }
    let mut i: usize = 0;
    while i < m
        invariant
            m == p@.len(),
            n == s@.len(),
            m <= n,
            i <= m,
            forall|j: int| 0 <= j < i ==> s@[n - m + j] == p@[j],
        decreases m - i,
    {
        if s.get_char(n - m + i) != p.get_char(i) {
            assert(s@.subrange(n - m, n as int)[i as int] != p@[i as int]);
            return false;
        }
        i = i + 1;
    }
    assert(s@.subrange(n - m, n as int) =~= p@);
    true
}

/// Picks the Windows voice to speak with, among the installed voices given by language and
/// display name: the first English voice whose name ends with the requested one, else,
/// when no voice is requested, the first English voice.
pub fn select_windows_voice(voices: &Vec<(String, String)>, requested: &Option<String>) -> (r:
    Option<usize>)
    ensures
        match r {
            Some(i) => first_fitting_voice(voices@, crate::status::opt_view(*requested), 0) == Some(
                i as int,
            ),
            None => first_fitting_voice(voices@, crate::status::opt_view(*requested), 0) is None,
        },
{
    let n = voices.len();
    let mut i: usize = 0;
    while i < n
        invariant
            n == voices@.len(),
            i <= n,
            first_fitting_voice(voices@, crate::status::opt_view(*requested), 0)
                == first_fitting_voice(voices@, crate::status::opt_view(*requested), i as int),
        decreases n - i,
    {
        let english = str_starts_with(voices[i].0.as_str(), "en-");
        let fits = english && match requested {
            Some(v) => str_ends_with(voices[i].1.as_str(), v.as_str()),
            None => true,
        };
        if fits {
            return Some(i);
        }
        i = i + 1;
    }
    None
}

/// The samples of one voice frame: 20 ms of 16 kHz mono audio.
pub open spec fn frame_samples() -> nat {
    320
}

/// The number of voice frames cut from `samples` samples: only frames followed by at least
/// one more sample are taken.
pub open spec fn opus_frame_count(samples: nat) -> nat {
    if samples > frame_samples() {
        ((samples - 1) / (frame_samples() as int)) as nat
    } else {
        0
    }
}

/// The sample ranges of the voice frames that `samples` samples are cut into, each
/// `[start, end)`.
pub fn opus_frame_ranges(samples: usize) -> (r: Vec<(usize, usize)>)
    ensures
        r@.len() == opus_frame_count(samples as nat),
        forall|i: int|
            0 <= i < r@.len() ==> (#[trigger] r@[i]).0 == i * 320 && r@[i].1 == i * 320 + 320,
{
    let mut out: Vec<(usize, usize)> = Vec::new();
    let mut pos: usize = 0;
    while samples >= 320 && pos < samples - 320
        invariant
            pos == out@.len() * 320,
            samples > 320 ==> pos <= samples - 1,
            samples > 320 ==> out@.len() <= opus_frame_count(samples as nat),
            samples <= 320 ==> out@.len() == 0,
            samples > 320 && pos >= samples - 320 ==> out@.len() == opus_frame_count(samples as nat),
            forall|i: int|
                0 <= i < out@.len() ==> (#[trigger] out@[i]).0 == i * 320 && out@[i].1 == i * 320
                    + 320,
        decreases samples - pos,
    {
        out.push((pos, pos + 320));
        pos = pos + 320;
    }
    out
}

/// The 16-bit little-endian samples of PCM audio.
pub open spec fn pcm_samples(bytes: Seq<u8>) -> Seq<i16> {
    Seq::new(
        bytes.len() / 2,
        |i: int|
            {
                let v = bytes[2 * i] as int + 256 * bytes[2 * i + 1] as int;
                (if v >= 32768 {
                    v - 65536
                } else {
                    v
                }) as i16
            },
    )
}

/// The samples of 16-bit little-endian PCM audio, which must have an even number of bytes.
pub fn decode_pcm(bytes: &[u8]) -> (r: Vec<i16>)
    requires
        bytes@.len() % 2 == 0,
    ensures
        r@ == pcm_samples(bytes@),
{
    let len = bytes.len();
    let n = len / 2;
    let mut out: Vec<i16> = Vec::new();
    let mut i: usize = 0;
    while i < n
        invariant
            len == bytes@.len(),
            n == len / 2,
            i <= n,
            out@.len() == i,
            forall|j: int| 0 <= j < i ==> out@[j] == #[trigger] pcm_samples(bytes@)[j],
        decreases n - i,
    {
        let j: usize = i + i;
        let v: i32 = bytes[j] as i32 + 256 * (bytes[j + 1] as i32);
        let s: i16 = if v >= 32768 {
            (v - 65536) as i16
        } else {
            v as i16
        };
        out.push(s);
        i = i + 1;
    }
    assert(out@ =~= pcm_samples(bytes@));
    out
}

} // verus!
