use vstd::prelude::*;

verus! {

/// Audio session category identifiers.
///
/// Each variant stands for one of the system's category constants
/// (`AVAudioSessionCategoryAmbient`, ...).
#[derive(Clone, Copy, Debug, PartialEq, Eq, Structural)]
pub enum Category {
    Ambient,
    SoloAmbient,
    Playback,
    Record,
    PlayAndRecord,
    AudioProcessing,
    MultiRoute,
}

impl Category {
    /// Use this category for background sounds such as rain, car engine noise, etc.
    /// Mixes with other music.
    pub fn ambient() -> (c: Category)
        ensures
            c == Category::Ambient,
    {
        Category::Ambient
    }

    /// Use this category for background sounds. Other music will stop playing.
    pub fn solo_ambient() -> (c: Category)
        ensures
            c == Category::SoloAmbient,
    {
        Category::SoloAmbient
    }

    /// Use this category for music tracks.
    pub fn playback() -> (c: Category)
        ensures
            c == Category::Playback,
    {
        Category::Playback
    }

    /// Use this category when recording audio.
    pub fn record() -> (c: Category)
        ensures
            c == Category::Record,
    {
        Category::Record
    }

    /// Use this category when recording and playing back audio.
    pub fn play_and_record() -> (c: Category)
        ensures
            c == Category::PlayAndRecord,
    {
        Category::PlayAndRecord
    }

    /// Use this category when using a hardware codec or signal processor while
    /// not playing or recording audio.
    pub fn audio_processing() -> (c: Category)
        ensures
            c == Category::AudioProcessing,
    {
        Category::AudioProcessing
    }

    /// Use this category to customize the usage of available audio accessories and
    /// built-in audio hardware, for example a USB output and headphone output used
    /// at the same time for separate streams. May be used for input, output, or both.
    pub fn multi_route() -> (c: Category)
        ensures
            c == Category::MultiRoute,
    {
        Category::MultiRoute
    }
}


/// Constants that specify optional audio behaviors. A set of options is the
/// bitwise or of the constants it holds.
pub struct CategoryOptions {}

impl CategoryOptions {
    /// Audio from this session mixes with audio from active sessions in other audio apps.
    pub const MIX_WITH_OTHERS: u64 = 1;

    /// Reduces the volume of other audio sessions while audio from this session plays.
    pub const DUCK_OTHERS: u64 = 2;

    /// Bluetooth hands-free devices appear as available input routes.
    pub const ALLOW_BLUETOOTH: u64 = 4;

    /// Bluetooth Hands-Free Profile (HFP) devices are available for audio input.
    /// The same bit as `ALLOW_BLUETOOTH`.
    pub const ALLOW_BLUETOOTH_HFP: u64 = 4;

    /// Audio from the session defaults to the built-in speaker instead of the receiver.
    pub const DEFAULT_TO_SPEAKER: u64 = 8;

    /// Spoken audio content from other sessions pauses while this session plays
    /// its audio; implies mixing with others.
    pub const INTERRUPT_SPOKEN_AUDIO_AND_MIX_WITH_OTHERS: u64 = 17;

    /// Audio from this session may stream to Bluetooth devices that support the
    /// Advanced Audio Distribution Profile (A2DP).
    pub const ALLOW_BLUETOOTH_A2DP: u64 = 32;

    /// Audio from this session may stream to AirPlay devices.
    pub const ALLOW_AIRPLAY: u64 = 64;

    /// The system does not interrupt the audio session when it mutes the
    /// built-in microphone.
    pub const OVERRIDE_MUTED_MICROPHONE_INTERRUPTION: u64 = 128;

    /// High-quality audio is enabled for input and output routes.
    pub const BLUETOOTH_HIGH_QUALITY_RECORDING: u64 = 524288;
}

/// A call on the system audio session: what each operation of a session hands
/// to the system.
#[derive(Clone, Copy, Debug, PartialEq, Eq, Structural)]
pub enum SessionCall {
    /// Set the category, with no options.
    SetCategory { category: Category },
    /// Set the category together with a set of option bits.
    SetCategoryWithOptions { category: Category, options: u64 },
    /// Switch the session on (`true`) or off (`false`).
    SetActive { active: bool },
}

impl SessionCall {
    /// The call that sets the session's category.
    pub fn set_category(category: Category) -> (r: SessionCall)
        ensures
            r == (SessionCall::SetCategory { category }),
    {
        SessionCall::SetCategory { category }
    }

    /// The call that sets the session's category and options; the option bits
    /// are handed on unchanged.
    pub fn set_category_with_options(category: Category, options: u64) -> (r: SessionCall)
        ensures
            r == (SessionCall::SetCategoryWithOptions { category, options }),
    {
        SessionCall::SetCategoryWithOptions { category, options }
    }

    /// The call that activates the session.
    pub fn activate() -> (r: SessionCall)
        ensures
            r == (SessionCall::SetActive { active: true }),
    {
        SessionCall::SetActive { active: true }
    }

    /// The call that deactivates the session.
    pub fn deactivate() -> (r: SessionCall)
        ensures
            r == (SessionCall::SetActive { active: false }),
    {
        SessionCall::SetActive { active: false }
    }
}

} // verus!
