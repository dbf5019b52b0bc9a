//! The messages exchanged with the speech synthesis service.

use vstd::prelude::*;

verus! {

/// The service's answer: the audio, base64-encoded.
pub struct TTSResponse {
    pub audio_content: String,
}

/// A synthesis request.
pub struct TTSRequest {
    pub audio_config: AudioConfig,
    pub input: SynthesisInput,
    pub voice: VoiceSelectionParams,
}

/// The voice to speak with.
pub struct VoiceSelectionParams {
    pub language_code: String,
    pub name: Option<String>,
    pub ssml_gender: Option<SsmlVoiceGender>,
}

/// The gender of a voice.
#[derive(PartialEq, Eq)]
pub enum SsmlVoiceGender {
    Female,
    Male,
    Neutral,
    SsmlVoiceGenderUnspecified,
}

/// The text to speak.
pub enum SynthesisInput {
    Text(String),
    Ssml(String),
}

/// The audio to produce. The rate, pitch and gain settings are left out:
/// the bot never sets them.
pub struct AudioConfig {
    pub audio_encoding: AudioEncoding,
    pub sample_rate_hertz: Option<u32>,
    pub effects_profile_id: Option<Vec<AudioProfile>>,
}

/// The encoding of the produced audio.
#[derive(PartialEq, Eq)]
pub enum AudioEncoding {
    AudioEncodingUnspecified,
    Linear16,
    MP3,
    OggOpus,
}

/// A device profile the audio is tuned for.
pub enum AudioProfile {
    HandsetClassDevice,
    HeadphoneClassDevice,
    LargeAutomotiveClassDevice,
    LargeHomeEntertainmentClassDevice,
    MediumBluetoothSpeakerClassDevice,
    SmallBluetoothSpeakerClassDevice,
    TelephonyClassApplication,
    WearableClassDevice,
}

} // verus!
