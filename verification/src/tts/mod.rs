//! Text-to-speech: the request sent to the synthesis service and the
//! processing of the audio that comes back.

pub mod model;
pub mod pcm;

use crate::tts::model::{
    AudioConfig, AudioEncoding, SsmlVoiceGender, SynthesisInput, TTSRequest, VoiceSelectionParams,
};
use crate::tts::pcm::{encodes_samples, pcm_samples, upsample_pcm, upsampled};
use crate::text::contains_u64;
use base64::DecodeError;
use vstd::prelude::*;

verus! {

#[verifier::external_type_specification]
#[verifier::external_body]
pub struct ExDecodeError(DecodeError);

/// The bytes that the base64 text `input` decodes to (standard alphabet,
/// with padding); `None` for text that is not valid base64.
pub uninterp spec fn base64_decoded(input: Seq<char>) -> Option<Seq<u8>>;

/// `base64::decode` of the base64 crate (standard alphabet): the decoded
/// bytes, or the crate's error for invalid input.
#[verifier::external_body]
fn decode_base64(input: &str) -> (r: Result<Vec<u8>, DecodeError>)
    ensures
        match r {
            Ok(v) => base64_decoded(input@) == Some(v@),
            Err(_) => base64_decoded(input@) is None,
        },
{
    base64::decode(input)
}

/// The key under which the time of the last spoken message is kept.
pub struct LastTTS;

/// The voice channel joined when the bot is not in a call yet.
pub const VOICE_CHANNEL: u64 = 807103921549082624;

/// Seconds of silence after which the bot leaves the call.
pub const IDLE_SECONDS: u64 = 120;

impl LastTTS {
    /// Whether the bot leaves the call: a message was spoken, and more than
    /// two minutes ago (`elapsed` holds the seconds since, when there was one).
    pub fn disconnect_due(elapsed: Option<u64>) -> (r: bool)
        ensures
            r == (elapsed matches Some(s) && s > IDLE_SECONDS),
    {
        match elapsed {
            Some(s) => s > IDLE_SECONDS,
            None => false,
        }
    }

    /// One second of the disconnect loop: `last` holds the time of the last
    /// spoken message, `elapsed` the seconds since then. The bot leaves the
    /// call (the result) only when a time is stored and more than two
    /// minutes have passed since; the stored time is then cleared, and
    /// otherwise it stays.
    pub fn tick<T>(last: &mut Option<T>, elapsed: Option<u64>) -> (leave: bool)
        ensures
            leave == leaves(*old(last), elapsed),
            leave == ((*old(last)) is Some && (elapsed matches Some(s) && s > IDLE_SECONDS)),
            leave ==> (*old(last)) is Some,
            *final(last) == after_tick(*old(last), elapsed),
    {
        let leave = last.is_some() && Self::disconnect_due(elapsed);
        if leave {
            *last = None;
        }
        leave
    }
}

/// Whether one second of the disconnect loop leaves the call: a time is
/// stored and more than two minutes have passed since.
pub open spec fn leaves<T>(last: Option<T>, elapsed: Option<u64>) -> bool {
    last is Some && (elapsed matches Some(s) && s > IDLE_SECONDS)
}

/// The stored time after one second of the disconnect loop.
pub open spec fn after_tick<T>(last: Option<T>, elapsed: Option<u64>) -> Option<T> {
    if leaves(last, elapsed) {
        None
    } else {
        last
    }
}

/// The disconnect loop never sets a time: the stored time either stays as
/// it was or is cleared, it is cleared exactly when the bot leaves, once
/// cleared it stays cleared, and the bot never leaves without a stored time.
pub proof fn lemma_tick_only_clears<T>(last: Option<T>, elapsed: Option<u64>)
    ensures
        after_tick(last, elapsed) is None || after_tick(last, elapsed) == last,
        last is None ==> after_tick(last, elapsed) is None && !leaves(last, elapsed),
        leaves(last, elapsed) <==> (last is Some && after_tick(last, elapsed) is None),
{
}

/// The bot leaves once more than two minutes have passed, and at every
/// later second too: with a stored time it stays up to 120 seconds, leaves
/// at 121 (`IDLE_SECONDS + 1`), and whenever it leaves at some elapsed time it leaves at every
/// longer one.
pub proof fn lemma_tick_leaves_after_two_minutes<T>(t: T, s: u64, later: u64)
    ensures
        s <= IDLE_SECONDS ==> !leaves(Some(t), Some(s)),
        leaves(Some(t), Some(121u64)),
        leaves(Some(t), Some(s)) && s <= later ==> leaves(Some(t), Some(later)),
        s > IDLE_SECONDS ==> leaves(Some(t), Some(s)),
{
}

/// A channel of the guild as the search for the author's voice channel
/// sees it: its id, whether it is a voice channel, and who is in it.
pub struct ChannelInfo {
    pub id: u64,
    pub voice: bool,
    pub members: Vec<u64>,
}

/// `c` is a voice channel that `user` is in.
pub open spec fn voice_with(c: ChannelInfo, user: u64) -> bool {
    c.voice && c.members@.contains(user)
}

/// The voice channel the author of a message is in: the first voice
/// channel, in the order given, whose members include `author`.
pub fn voice_channel_of(channels: &Vec<ChannelInfo>, author: u64) -> (r: Option<u64>)
    ensures
        match r {
            Some(id) => exists|i: int|
                0 <= i < channels@.len() && #[trigger] voice_with(channels@[i], author)
                    && channels@[i].id == id && forall|j: int|
                    0 <= j < i ==> !voice_with(#[trigger] channels@[j], author),
            None => forall|i: int|
                0 <= i < channels@.len() ==> !voice_with(#[trigger] channels@[i], author),
        },
{
    let mut i: usize = 0;
    while i < channels.len()
        invariant
            i <= channels@.len(),
            forall|j: int| 0 <= j < i ==> !voice_with(#[trigger] channels@[j], author),
        decreases channels@.len() - i,
    {
        let c = &channels[i];
        if c.voice && contains_u64(&c.members, author) {
            proof {
                assert(voice_with(channels@[i as int], author));
            }
            return Some(c.id);
        }
        i = i + 1;
    }
    None
}

/// The synthesis request for a message: 16-bit linear audio, spoken in
/// US English by the male WaveNet voice D.
pub fn tts_request(content: String) -> (r: TTSRequest)
    ensures
        r.audio_config.audio_encoding == AudioEncoding::Linear16,
        r.audio_config.sample_rate_hertz is None,
        r.audio_config.effects_profile_id is None,
        r.input matches SynthesisInput::Text(t) && t == content,
        r.voice.language_code@ == "en-US"@,
        r.voice.name matches Some(n) && n@ == "en-US-Wavenet-D"@,
        r.voice.ssml_gender == Some(SsmlVoiceGender::Male),
{
    TTSRequest {
        audio_config: AudioConfig {
            audio_encoding: AudioEncoding::Linear16,
            sample_rate_hertz: None,
            effects_profile_id: None,
        },
        input: SynthesisInput::Text(content),
        voice: VoiceSelectionParams {
            language_code: String::from_str("en-US"),
            name: Some(String::from_str("en-US-Wavenet-D")),
            ssml_gender: Some(SsmlVoiceGender::Male),
        },
    }
}

/// The synthesis endpoint called with `api_key`.
pub fn synthesize_url(api_key: &str) -> (r: String)
    ensures
        r@ == "https://texttospeech.googleapis.com/v1/text:synthesize?key="@ + api_key@,
{
    let mut r = String::from_str("https://texttospeech.googleapis.com/v1/text:synthesize?key=");
    r.append(api_key);
    r
}

/// The authorization header value for `access_token`.
pub fn bearer(access_token: &str) -> (r: String)
    ensures
        r@ == "Bearer "@ + access_token@,
{
    let mut r = String::from_str("Bearer ");
    r.append(access_token);
    r
}

/// The audio to play for the service's answer: the base64 content decoded,
/// then doubled in sample rate; the decoding error for invalid base64.
pub fn decode_audio(audio_content: &str) -> (r: Result<Vec<u8>, DecodeError>)
    ensures
        match r {
            Ok(out) => base64_decoded(audio_content@) matches Some(raw) && encodes_samples(
                out@,
                upsampled(pcm_samples(raw)),
            ),
            Err(_) => base64_decoded(audio_content@) is None,
        },
{
    match decode_base64(audio_content) {
        Ok(raw) => Ok(upsample_pcm(raw.as_slice())),
        Err(e) => Err(e),
    }
}

} // verus!
