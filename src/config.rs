use vstd::prelude::*;

verus! {

/// One whole, in parts per million.
pub const PPM_ONE: u32 = 1_000_000;

/// The longest configurable pause, in milliseconds (about eleven days); it
/// keeps every intermediate delay well inside a `u64`.
pub const MAX_PAUSE_MS: u64 = 1_000_000_000;

/// Behaviour settings of one typing run. Fractions and probabilities are
/// held in parts per million (`PPM_ONE` is 1.0); durations in milliseconds.
#[derive(Clone, Copy, Debug, PartialEq, Eq)]
pub struct Config {
    pub base_wpm: u32,
    /// Relative spread of the final delay (the standard deviation is half of it).
    pub wpm_variance: u32,
    /// Probability that a character is mistyped.
    pub mistake_rate: u32,
    /// Probability that a mistake is noticed and corrected.
    pub correction_rate: u32,
    pub punctuation_pause: u64,
    pub paragraph_pause: u64,
    /// Probability of a thinking pause before an ordinary character.
    pub thinking_pause_chance: u32,
    pub thinking_pause_duration: u64,
    pub burst_typing: bool,
    pub countdown_seconds: u32,
}

impl Config {
    /// A positive speed, every fraction within `[0, 1]` and every pause
    /// within `MAX_PAUSE_MS`.
    pub open spec fn wf(&self) -> bool {
        &&& self.base_wpm > 0
        &&& self.wpm_variance <= PPM_ONE
        &&& self.mistake_rate <= PPM_ONE
        &&& self.correction_rate <= PPM_ONE
        &&& self.thinking_pause_chance <= PPM_ONE
        &&& self.punctuation_pause <= MAX_PAUSE_MS
        &&& self.paragraph_pause <= MAX_PAUSE_MS
        &&& self.thinking_pause_duration <= MAX_PAUSE_MS
    }

    /// Checks `wf` at run time.
    pub fn is_valid(&self) -> (r: bool)
        ensures
            r == self.wf(),
    {
        self.base_wpm > 0 && self.wpm_variance <= PPM_ONE && self.mistake_rate <= PPM_ONE
            && self.correction_rate <= PPM_ONE && self.thinking_pause_chance <= PPM_ONE
            && self.punctuation_pause <= MAX_PAUSE_MS && self.paragraph_pause <= MAX_PAUSE_MS
            && self.thinking_pause_duration <= MAX_PAUSE_MS
    }
}

impl Default for Config {
    fn default() -> (r: Self)
        ensures
            r.base_wpm == 60,
            r.wpm_variance == 300_000,
            r.mistake_rate == 30_000,
            r.correction_rate == 700_000,
            r.punctuation_pause == 300,
            r.paragraph_pause == 800,
            r.thinking_pause_chance == 20_000,
            r.thinking_pause_duration == 1500,
            r.burst_typing,
            r.countdown_seconds == 3,
            r.wf(),
    {
        Config {
            base_wpm: 60,
            wpm_variance: 300_000,
            mistake_rate: 30_000,
            correction_rate: 700_000,
            punctuation_pause: 300,
            paragraph_pause: 800,
            thinking_pause_chance: 20_000,
            thinking_pause_duration: 1500,
            burst_typing: true,
            countdown_seconds: 3,
        }
    }
}

/// Lifecycle of a typing session.
#[derive(Clone, Copy, Debug, PartialEq, Eq, Structural)]
pub enum TypingStatus {
    Idle,
    Ready,
    Countdown,
    Typing,
    Paused,
    Done,
    Error,
}

impl Default for TypingStatus {
    fn default() -> (r: Self)
        ensures
            r == TypingStatus::Idle,
    {
        TypingStatus::Idle
    }
}

/// Where a session stands: characters typed, characters in all, and the
/// share typed in hundredths of a percent (10000 is all of it).
#[derive(Clone, Copy, Debug, PartialEq, Eq, Structural)]
pub struct TypingProgress {
    pub current: u32,
    pub total: u32,
    pub percent_hundredths: u32,
}

/// Event payload: the status after a change.
#[derive(Clone, Copy, Debug, PartialEq, Eq, Structural)]
pub struct StatePayload {
    pub status: TypingStatus,
}

/// Event payload: seconds left before typing begins.
#[derive(Clone, Copy, Debug, PartialEq, Eq, Structural)]
pub struct CountdownPayload {
    pub remaining: u32,
}

/// Event payload: a failure, in words.
#[derive(Clone, Debug)]
pub struct ErrorPayload {
    pub message: String,
}

/// A loaded text and its label.
#[derive(Clone, Debug)]
pub struct FileInfo {
    pub name: String,
    pub content: String,
    pub char_count: u32,
}

} // verus!
