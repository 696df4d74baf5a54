//! Verified core of a speech-recognition binding: the callback bridge between a
//! blocking native inference call and host-side event handlers, the facade that
//! gates each call, and the decision logic of the audio extraction pipeline
//! that feeds it.
use vstd::prelude::*;

pub mod extract;
pub mod facade;
pub mod params;
pub mod session;
pub mod slot;
pub mod text;

pub use extract::{log_level_code, AVLogLevel, Action, Event, ExtractError, Extraction, Phase};
pub use facade::{assemble_transcript, Whisper, WhisperError};
pub use params::{
    log_entry, NativeContextParams, WhisperAlignmentHeadsPreset, WhisperContextParams,
    WhisperGrammarElementType, WhisperGreedyParams, WhisperLogLevel, WhisperSamplingStrategy,
};
pub use session::{
    new_segment_range, segment_from_raw, segments_from_raw, AbortReply, EncoderBeginReply,
    RawSegment, Segment, SessionContext, WhisperState,
};
pub use slot::Slot;
pub use text::{c_text, decode_text, trim_text};

verus! {

/// The sample rate, in hertz, of the mono audio the engine takes.
pub const WHISPER_SAMPLE_RATE: u32 = 16000;

} // verus!
