//! The voice's wire protocol: the sidecar's speech endpoint, the request
//! body it takes, the raw PCM it answers with, and the patient retry that
//! waits for a warm engine instead of failing a take.

use crate::text::{decimal, decimal_string};
use vstd::prelude::*;

verus! {

/// Where the sidecar listens; the sidecar is started with this port.
pub const SIDECAR_PORT: u16 = 8880;

/// The sidecar's native output rate, in samples per second.
pub const SAMPLE_RATE: u32 = 24_000;

/// The one voice.
pub const VOICE: &'static str = "af_heart";

/// How long to wait before retrying a synthesis that failed while the
/// engine was still warming.
pub const RETRY_SLEEP_MS: u64 = 400;

/// Where a synthesis request goes.
pub open spec fn spec_speech_url() -> Seq<char> {
    "http://127.0.0.1:"@ + decimal(SIDECAR_PORT as nat) + "/v1/audio/speech"@
}

/// The speech endpoint's URL on the local sidecar.
pub fn speech_url() -> (url: String)
    ensures
        url@ == spec_speech_url(),
{
    let mut url = String::from_str("http://127.0.0.1:");
    let port = decimal_string(SIDECAR_PORT as u64);
    url.append(port.as_str());
    url.append("/v1/audio/speech");
    url
}

/// A lowercase hexadecimal digit.
pub open spec fn hex_digit(d: nat) -> char {
    if d < 10 {
        (48 + d) as char
    } else {
        (87 + d) as char
    }
}

/// How one character appears inside a JSON string: quote and backslash
/// escaped, backspace, tab, line feed, form feed and carriage return by
/// their short escapes, any other control character below 0x20 as
/// `\u00xx` in lowercase hex, everything else as itself.
pub open spec fn json_escape(c: char) -> Seq<char> {
    let u = c as u32;
    if c == '"' {
        seq!['\\', '"']
    } else if c == '\\' {
        seq!['\\', '\\']
    } else if u == 0x08 {
        seq!['\\', 'b']
    } else if u == 0x09 {
        seq!['\\', 't']
    } else if u == 0x0A {
        seq!['\\', 'n']
    } else if u == 0x0C {
        seq!['\\', 'f']
    } else if u == 0x0D {
        seq!['\\', 'r']
    } else if u < 0x20 {
        seq!['\\', 'u', '0', '0', hex_digit(u as nat / 16), hex_digit(u as nat % 16)]
    } else {
        seq![c]
    }
}

/// Every character of `s` escaped for a JSON string.
pub open spec fn json_escaped(s: Seq<char>) -> Seq<char>
    decreases s.len(),
{
    if s.len() == 0 {
        Seq::empty()
    } else {
        json_escaped(s.drop_last()) + json_escape(s.last())
    }
}

/// What `serde_json::to_string` renders for a string: a JSON string
/// literal, the escaped text between double quotes.
pub open spec fn json_quoted(s: Seq<char>) -> Seq<char> {
    seq!['"'] + json_escaped(s) + seq!['"']
}

/// Calls `serde_json::to_string` on a string slice, which writes the text
/// between double quotes with the escapes `json_escape` lists. Serialising
/// a `str` into a `String` writer cannot fail, so the `Err` arm is
/// unreachable.
#[verifier::external_body]
fn json_string(s: &str) -> (r: String)
    ensures
        r@ == json_quoted(s@),
{
    serde_json::to_string(s).unwrap_or_default()
}

/// The JSON body of one synthesis request around an already-quoted
/// sentence (`quoted_text`, a JSON string literal): the sentence, the
/// model, raw PCM as the response format, the speed (`speed_json`, a JSON
/// number) and the voice, keys in sorted order as serde_json writes an
/// object.
pub open spec fn spec_request_body(quoted_text: Seq<char>, speed_json: Seq<char>) -> Seq<char> {
    "{\"input\":"@ + quoted_text + ",\"model\":\"kokoro\",\"response_format\":\"pcm\",\"speed\":"@
        + speed_json + ",\"voice\":\""@ + VOICE@ + "\"}"@
}

/// Assembles a request body around a sentence already rendered as a JSON
/// string literal.
pub fn assemble_request_body(quoted_text: &str, speed_json: &str) -> (body: String)
    ensures
        body@ == spec_request_body(quoted_text@, speed_json@),
{
    let mut body = String::from_str("{\"input\":");
    body.append(quoted_text);
    body.append(",\"model\":\"kokoro\",\"response_format\":\"pcm\",\"speed\":");
    body.append(speed_json);
    body.append(",\"voice\":\"");
    body.append(VOICE);
    body.append("\"}");
    body
}

/// Builds the body of one synthesis request for `text`.
pub fn request_body(text: &str, speed_json: &str) -> (body: String)
    ensures
        body@ == spec_request_body(json_quoted(text@), speed_json@),
{
    let quoted = json_string(text);
    assemble_request_body(quoted.as_str(), speed_json)
}

/// The signed 16-bit sample stored little-endian in `lo`, `hi`.
pub open spec fn pcm16_le(lo: u8, hi: u8) -> int {
    let u = lo + 256 * hi;
    if u >= 32768 {
        u - 65536
    } else {
        u
    }
}

/// The samples of a raw s16le byte stream; a trailing odd byte is ignored.
pub open spec fn pcm16_samples(bytes: Seq<u8>) -> Seq<i16> {
    Seq::new(bytes.len() / 2, |i: int| pcm16_le(bytes[2 * i], bytes[2 * i + 1]) as i16)
}

/// Every whole byte pair becomes one sample, in order: sample `i` is the
/// two's-complement value of byte `2i` (low) and byte `2i + 1` (high), and
/// a trailing odd byte is the only thing left out.
pub proof fn pcm16_decodes_every_pair(bytes: Seq<u8>)
    ensures
        pcm16_samples(bytes).len() == bytes.len() / 2,
        forall|i: int|
            0 <= i < bytes.len() / 2 ==> (#[trigger] pcm16_samples(bytes)[i]) as int == bytes[2 * i] + 256
                * bytes[2 * i + 1] - (if bytes[2 * i + 1] >= 128 {
                65536int
            } else {
                0int
            }),
{
}

/// The error for a response that holds no whole sample.
pub open spec fn no_audio_message() -> Seq<char> {
    "sidecar returned no audio"@
}

/// Decodes the sidecar's raw PCM answer (16-bit little-endian mono) into
/// samples. An answer without a single whole sample is an error.
pub fn decode_pcm(bytes: &[u8]) -> (r: Result<Vec<i16>, String>)
    ensures
        bytes@.len() < 2 <==> r is Err,
        r matches Ok(samples) ==> samples@ == pcm16_samples(bytes@),
        r matches Ok(samples) ==> samples@.len() == bytes@.len() / 2,
        r matches Ok(samples) ==> forall|i: int|
            0 <= i < bytes@.len() / 2 ==> (#[trigger] samples@[i]) as int == bytes@[2 * i] + 256 * bytes@[2
                * i + 1] - (if bytes@[2 * i + 1] >= 128 {
                65536int
            } else {
                0int
            }),
        r matches Err(e) ==> e@ == no_audio_message(),
{
    let len = bytes.len();
    let n = len / 2;
    let mut samples: Vec<i16> = Vec::with_capacity(n);
    let mut i: usize = 0;
    assert(2 * n <= bytes@.len());
    while i < n
        invariant
            n == bytes@.len() / 2,
            2 * n <= bytes@.len(),
            len == bytes@.len(),
            i <= n,
            samples@.len() == i,
            forall|j: int| 0 <= j < i ==> samples@[j] == pcm16_samples(bytes@)[j],
        decreases n - i,
    {
        let lo = bytes[2 * i];
        let hi = bytes[2 * i + 1];
        let u: u32 = lo as u32 + 256 * (hi as u32);
        let s: i16 = if u >= 32768 {
            (u as i32 - 65536) as i16
        } else {
            u as i16
        };
        samples.push(s);
        i = i + 1;
    }
    if samples.len() == 0 {
        return Err(String::from_str("sidecar returned no audio"));
    }
    assert(samples@ =~= pcm16_samples(bytes@));
    Ok(samples)
}

/// One synthesised sentence's costs, in milliseconds.
#[derive(Clone, Copy, Debug, PartialEq, Eq, Structural)]
pub struct SynthTiming {
    /// Time spent waiting for a warm engine, excluded from `http_ms`.
    pub engine_wait_ms: u64,
    pub attempts: u32,
    /// The successful request: synthesis and the localhost round-trip.
    pub http_ms: u64,
    /// Bytes to samples.
    pub decode_ms: u64,
}

/// The patient synthesis loop's memory: how many requests it has made.
#[derive(Clone, Copy, Debug, PartialEq, Eq, Structural)]
pub struct SynthWait {
    pub attempts: u32,
}

impl SynthWait {
    /// Nothing tried yet.
    pub fn new() -> (w: SynthWait)
        ensures
            w.attempts == 0,
    {
        SynthWait { attempts: 0 }
    }

    /// Counts one more request.
    pub fn begin_attempt(&mut self)
        requires
            old(self).attempts < u32::MAX,
        ensures
            final(self).attempts == old(self).attempts + 1,
    {
        self.attempts = self.attempts + 1;
    }

    /// A failed request is retried (after `RETRY_SLEEP_MS`) while the time
    /// since the first attempt is still under the patience; otherwise the
    /// failure stands.
    pub fn retry_after_failure(&self, elapsed_ms: u128, patience_ms: u128) -> (retry: bool)
        ensures
            retry == (elapsed_ms < patience_ms),
    {
        elapsed_ms < patience_ms
    }

    /// The timing of the successful request: the engine wait is the total
    /// elapsed time (truncated to 64 bits) less the request and decode
    /// times, floored at zero.
    pub fn on_success(&self, elapsed_ms: u128, http_ms: u64, decode_ms: u64) -> (t: SynthTiming)
        requires
            http_ms + decode_ms <= u64::MAX,
        ensures
            t.attempts == self.attempts,
            t.http_ms == http_ms,
            t.decode_ms == decode_ms,
            t.engine_wait_ms == (if (elapsed_ms as u64) >= http_ms + decode_ms {
                (elapsed_ms as u64) - (http_ms + decode_ms)
            } else {
                0
            }),
    {
        let total = elapsed_ms as u64;
        SynthTiming {
            engine_wait_ms: total.saturating_sub(http_ms + decode_ms),
            attempts: self.attempts,
            http_ms,
            decode_ms,
        }
    }
}

} // verus!
