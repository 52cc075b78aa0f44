//! Real-time MIDI front end for a polyphonic synthesizer: a wire-format
//! decoder, a fixed-capacity voice allocator with oldest-voice stealing,
//! a controller-to-parameter mapping table, per-voice synthesis state, and
//! a fixed-point parameter smoother.
//!
//! Everything here is allocation-free after construction and total: the
//! real-time paths (decoding, allocation, smoothing) never fail and never
//! panic.

pub mod cc_mapping;
pub mod midi_input;
pub mod smoother;
pub mod voice_allocator;
pub mod voice_state;

pub use cc_mapping::CCMap;
pub use cc_mapping::ParamTarget;
pub use midi_input::MidiEvent;
pub use smoother::ParamSmoother;
pub use voice_allocator::MAX_VOICES;
pub use voice_allocator::VoiceAllocator;
pub use voice_allocator::VoiceId;
pub use voice_allocator::VoiceSlot;
pub use voice_state::EnvStage;
pub use voice_state::VoicePool;
pub use voice_state::VoiceState;
