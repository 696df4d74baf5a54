//! Plain configuration values exchanged with the native engine: engine
//! initialization parameters and their defaults, sampling strategies, grammar
//! element kinds and the engine's log levels.
use vstd::prelude::*;

use crate::text::{decode_text, decoded, trim_text, trimmed};

verus! {

/// Alignment-heads preset for token-level timestamps.
#[derive(Clone, Copy, Debug, PartialEq, Eq, Structural)]
pub enum WhisperAlignmentHeadsPreset {
    /// No alignment heads.
    NoPreset,
    NTopMost,
    Custom,
    TinyEn,
    Tiny,
    BaseEn,
    Base,
    SmallEn,
    Small,
    MediumEn,
    Medium,
    LargeV1,
    LargeV2,
    LargeV3,
}

/// The engine's numeric code of a preset.
pub open spec fn preset_code(p: WhisperAlignmentHeadsPreset) -> u32 {
    match p {
        WhisperAlignmentHeadsPreset::NoPreset => 0,
        WhisperAlignmentHeadsPreset::NTopMost => 1,
        WhisperAlignmentHeadsPreset::Custom => 2,
        WhisperAlignmentHeadsPreset::TinyEn => 3,
        WhisperAlignmentHeadsPreset::Tiny => 4,
        WhisperAlignmentHeadsPreset::BaseEn => 5,
        WhisperAlignmentHeadsPreset::Base => 6,
        WhisperAlignmentHeadsPreset::SmallEn => 7,
        WhisperAlignmentHeadsPreset::Small => 8,
        WhisperAlignmentHeadsPreset::MediumEn => 9,
        WhisperAlignmentHeadsPreset::Medium => 10,
        WhisperAlignmentHeadsPreset::LargeV1 => 11,
        WhisperAlignmentHeadsPreset::LargeV2 => 12,
        WhisperAlignmentHeadsPreset::LargeV3 => 13,
    }
}

impl WhisperAlignmentHeadsPreset {
    /// The engine's numeric code of this preset.
    pub fn code(&self) -> (r: u32)
        ensures
            r == preset_code(*self),
    {
        match self {
            WhisperAlignmentHeadsPreset::NoPreset => 0,
            WhisperAlignmentHeadsPreset::NTopMost => 1,
            WhisperAlignmentHeadsPreset::Custom => 2,
            WhisperAlignmentHeadsPreset::TinyEn => 3,
            WhisperAlignmentHeadsPreset::Tiny => 4,
            WhisperAlignmentHeadsPreset::BaseEn => 5,
            WhisperAlignmentHeadsPreset::Base => 6,
            WhisperAlignmentHeadsPreset::SmallEn => 7,
            WhisperAlignmentHeadsPreset::Small => 8,
            WhisperAlignmentHeadsPreset::MediumEn => 9,
            WhisperAlignmentHeadsPreset::Medium => 10,
            WhisperAlignmentHeadsPreset::LargeV1 => 11,
            WhisperAlignmentHeadsPreset::LargeV2 => 12,
            WhisperAlignmentHeadsPreset::LargeV3 => 13,
        }
    }
}

/// Size of the scratch memory reserved for token-level timestamps.
pub const DTW_MEM_SIZE: usize = 134217728;

/// Engine initialization options as the host gives them; each may be left out.
pub struct WhisperContextParams {
    pub use_gpu: Option<bool>,
    pub flash_attn: Option<bool>,
    pub gpu_device: Option<u32>,
    pub dtw_token_timestamps: Option<bool>,
    pub dtw_aheads_preset: Option<WhisperAlignmentHeadsPreset>,
    pub dtw_n_top: Option<i32>,
}

/// Engine initialization options as the native engine takes them, every one
/// set (no custom alignment heads are passed).
#[derive(Clone, Copy, Debug, PartialEq, Eq, Structural)]
pub struct NativeContextParams {
    pub use_gpu: bool,
    pub flash_attn: bool,
    pub gpu_device: i32,
    pub dtw_token_timestamps: bool,
    pub dtw_aheads_preset: u32,
    pub dtw_n_top: i32,
    pub dtw_mem_size: usize,
}

impl WhisperContextParams {
    /// Fills in the defaults of the options left out: the GPU on, flash
    /// attention off, device 0, no token timestamps, no preset, `n_top` -1.
    pub fn to_native(&self) -> (r: NativeContextParams)
        ensures
            r.use_gpu == match self.use_gpu {
                Some(b) => b,
                None => true,
            },
            r.flash_attn == match self.flash_attn {
                Some(b) => b,
                None => false,
            },
            r.gpu_device == match self.gpu_device {
                Some(d) => d as i32,
                None => 0i32,
            },
            r.dtw_token_timestamps == match self.dtw_token_timestamps {
                Some(b) => b,
                None => false,
            },
            r.dtw_aheads_preset == match self.dtw_aheads_preset {
                Some(p) => preset_code(p),
                None => preset_code(WhisperAlignmentHeadsPreset::NoPreset),
            },
            r.dtw_n_top == match self.dtw_n_top {
                Some(n) => n,
                None => -1i32,
            },
            r.dtw_mem_size == DTW_MEM_SIZE,
    {
        let use_gpu = match self.use_gpu {
            Some(b) => b,
            None => true,
        };
        let flash_attn = match self.flash_attn {
            Some(b) => b,
            None => false,
        };
        let gpu_device: i32 = match self.gpu_device {
            Some(d) => d as i32,
            None => 0,
        };
        let dtw_token_timestamps = match self.dtw_token_timestamps {
            Some(b) => b,
            None => false,
        };
        let dtw_aheads_preset = match self.dtw_aheads_preset {
            Some(p) => p.code(),
            None => WhisperAlignmentHeadsPreset::NoPreset.code(),
        };
        let dtw_n_top: i32 = match self.dtw_n_top {
            Some(n) => n,
            None => -1,
        };
        NativeContextParams {
            use_gpu,
            flash_attn,
            gpu_device,
            dtw_token_timestamps,
            dtw_aheads_preset,
            dtw_n_top,
            dtw_mem_size: DTW_MEM_SIZE,
        }
    }
}

/// Decoding strategy of an inference call.
#[derive(Clone, Copy, Debug, PartialEq, Eq, Structural)]
pub enum WhisperSamplingStrategy {
    Greedy,
    BeamSearch,
}

/// The engine's numeric code of a strategy.
pub open spec fn strategy_code(s: WhisperSamplingStrategy) -> u32 {
    match s {
        WhisperSamplingStrategy::Greedy => 0,
        WhisperSamplingStrategy::BeamSearch => 1,
    }
}

impl WhisperSamplingStrategy {
    /// The engine's numeric code of this strategy.
    pub fn to_native(&self) -> (r: u32)
        ensures
            r == strategy_code(*self),
    {
        match self {
            WhisperSamplingStrategy::Greedy => 0,
            WhisperSamplingStrategy::BeamSearch => 1,
        }
    }

    /// The strategy with this numeric code; `None` for a code the engine
    /// does not define.
    pub fn from_native(code: u32) -> (r: Option<WhisperSamplingStrategy>)
        ensures
            r.is_some() <==> code <= 1,
            r.is_some() ==> strategy_code(r.unwrap()) == code,
    {
        if code == 0 {
            Some(WhisperSamplingStrategy::Greedy)
        } else if code == 1 {
            Some(WhisperSamplingStrategy::BeamSearch)
        } else {
            None
        }
    }
}

/// Options of greedy sampling.
#[derive(Clone, Copy, Debug, PartialEq, Eq, Structural)]
pub struct WhisperGreedyParams {
    pub best_of: i32,
}

/// Kind of an element of a grammar rule.
#[derive(Clone, Copy, Debug, PartialEq, Eq, Structural)]
pub enum WhisperGrammarElementType {
    /// End of a rule definition.
    End,
    /// Start of an alternate definition of a rule.
    Alt,
    /// A reference to another rule.
    RuleRef,
    /// A terminal character.
    Char,
    /// An inverted character set.
    CharNot,
    /// Makes the preceding character the lower end of an inclusive range.
    CharRngUpper,
    /// Adds an alternate character to the preceding one.
    CharAlt,
}

/// The engine's numeric code of a grammar element kind.
pub open spec fn grammar_code(t: WhisperGrammarElementType) -> u32 {
    match t {
        WhisperGrammarElementType::End => 0,
        WhisperGrammarElementType::Alt => 1,
        WhisperGrammarElementType::RuleRef => 2,
        WhisperGrammarElementType::Char => 3,
        WhisperGrammarElementType::CharNot => 4,
        WhisperGrammarElementType::CharRngUpper => 5,
        WhisperGrammarElementType::CharAlt => 6,
    }
}

impl WhisperGrammarElementType {
    /// The engine's numeric code of this kind.
    pub fn code(&self) -> (r: u32)
        ensures
            r == grammar_code(*self),
    {
        match self {
            WhisperGrammarElementType::End => 0,
            WhisperGrammarElementType::Alt => 1,
            WhisperGrammarElementType::RuleRef => 2,
            WhisperGrammarElementType::Char => 3,
            WhisperGrammarElementType::CharNot => 4,
            WhisperGrammarElementType::CharRngUpper => 5,
            WhisperGrammarElementType::CharAlt => 6,
        }
    }
}

/// Severity of a message of the native engine.
#[derive(Clone, Copy, Debug, PartialEq, Eq, Structural)]
pub enum WhisperLogLevel {
    /// A message without a level.
    NoLevel,
    Info,
    Warn,
    Error,
    Debug,
    /// Continues the previous message.
    Cont,
}

/// The log level for the engine's numeric level; unknown levels read as `NoLevel`.
pub open spec fn log_level_of(level: i32) -> WhisperLogLevel {
    if level == 1 {
        WhisperLogLevel::Info
    } else if level == 2 {
        WhisperLogLevel::Warn
    } else if level == 3 {
        WhisperLogLevel::Error
    } else if level == 4 {
        WhisperLogLevel::Debug
    } else if level == 5 {
        WhisperLogLevel::Cont
    } else {
        WhisperLogLevel::NoLevel
    }
}

impl WhisperLogLevel {
    /// The log level for the engine's numeric level.
    pub fn from_native(level: i32) -> (r: WhisperLogLevel)
        ensures
            r == log_level_of(level),
    {
        if level == 1 {
            WhisperLogLevel::Info
        } else if level == 2 {
            WhisperLogLevel::Warn
        } else if level == 3 {
            WhisperLogLevel::Error
        } else if level == 4 {
            WhisperLogLevel::Debug
        } else if level == 5 {
            WhisperLogLevel::Cont
        } else {
            WhisperLogLevel::NoLevel
        }
    }
}

/// What the log sink receives for one message of the engine: its level and
/// its trimmed text; nothing when the text is not valid UTF-8.
pub fn log_entry(level: i32, message: Vec<u8>) -> (r: Option<(WhisperLogLevel, String)>)
    ensures
        r.is_some() == decoded(message@).is_some(),
        r.is_some() ==> r.unwrap().0 == log_level_of(level) && r.unwrap().1@ == trimmed(
            decoded(message@).unwrap(),
        ),
{
    match decode_text(message) {
        None => None,
        Some(text) => Some((WhisperLogLevel::from_native(level), trim_text(text.as_str()))),
    }
}

} // verus!
