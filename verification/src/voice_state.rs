//! Per-voice synthesis state for the polyphonic voice pool.
//!
//! This core only makes the discrete decisions: it moves a voice from
//! `Idle` to `Attack` when triggered and to `Release` when released; the
//! rendering engine advances the remaining envelope stages and owns the
//! continuous per-voice DSP memory (oscillator phase, filter memory,
//! envelope level).

use vstd::prelude::*;

verus! {

broadcast use vstd::array::group_array_axioms;

/// Envelope stage of one voice, shared with the synthesis engine as a
/// hint, not advanced per-sample by this core.
#[derive(Debug, Clone, Copy, PartialEq, Eq, Structural)]
pub enum EnvStage {
    Idle,
    Attack,
    Decay,
    Sustain,
    Release,
}

/// Discrete state of one voice: the note and velocity it was triggered
/// with, its envelope stage, and whether it is sounding.
#[derive(Debug, Clone, Copy, PartialEq, Eq, Structural)]
pub struct VoiceState {
    pub env_stage: EnvStage,
    pub note: u8,
    pub velocity: u8,
    pub active: bool,
}

/// The state of a voice that has never been triggered.
pub open spec fn idle_voice() -> VoiceState {
    VoiceState { env_stage: EnvStage::Idle, note: 0, velocity: 0, active: false }
}

impl VoiceState {
    /// A silent, never-triggered voice.
    pub fn new() -> (r: Self)
        ensures
            r == idle_voice(),
    {
        VoiceState { env_stage: EnvStage::Idle, note: 0, velocity: 0, active: false }
    }

    /// Silence the voice and return its envelope to `Idle`; the last
    /// note and velocity are kept.
    pub fn reset(&mut self)
        ensures
            *final(self) == (VoiceState {
                env_stage: EnvStage::Idle,
                note: old(self).note,
                velocity: old(self).velocity,
                active: false,
            }),
    {
        self.env_stage = EnvStage::Idle;
        self.active = false;
    }

    /// Start the voice on `note` at `velocity`: envelope enters
    /// `Attack` and the voice becomes active.
    pub fn trigger(&mut self, note: u8, velocity: u8)
        ensures
            *final(self) == (VoiceState {
                env_stage: EnvStage::Attack,
                note,
                velocity,
                active: true,
            }),
    {
        self.note = note;
        self.velocity = velocity;
        self.env_stage = EnvStage::Attack;
        self.active = true;
    }

    /// Move a sounding voice into its `Release` stage; the voice stays
    /// active until the engine finishes the envelope. A voice that is
    /// not sounding is left untouched.
    pub fn release(&mut self)
        ensures
            old(self).active ==> *final(self) == (VoiceState {
                env_stage: EnvStage::Release,
                note: old(self).note,
                velocity: old(self).velocity,
                active: true,
            }),
            !old(self).active ==> *final(self) == *old(self),
    {
        if self.active {
            self.env_stage = EnvStage::Release;
        }
    }
}

impl Default for VoiceState {
    /// Same as [`VoiceState::new`].
    fn default() -> (r: Self)
        ensures
            r == idle_voice(),
    {
        VoiceState::new()
    }
}

/// How many voices in `s` are sounding.
pub open spec fn count_active(s: Seq<VoiceState>) -> int
    decreases s.len(),
{
    if s.len() == 0 {
        0
    } else {
        count_active(s.drop_last()) + if s.last().active {
            1int
        } else {
            0int
        }
    }
}

/// The fixed pool of eight voices the synthesis engine renders from.
pub struct VoicePool {
    voices: [VoiceState; 8],
}

impl VoicePool {
    /// The per-voice states, for specifications.
    pub closed spec fn states(&self) -> Seq<VoiceState> {
        self.voices@
    }

    /// A pool of eight idle voices.
    pub fn new() -> (r: Self)
        ensures
            r.states().len() == 8,
            forall|i: int| 0 <= i < 8 ==> r.states()[i] == idle_voice(),
    {
        VoicePool { voices: [VoiceState::new(); 8] }
    }

    /// Read one voice.
    pub fn get_voice(&self, voice_id: usize) -> (r: &VoiceState)
        requires
            voice_id < 8,
        ensures
            *r == self.states()[voice_id as int],
    {
        &self.voices[voice_id]
    }

    /// Borrow one voice for mutation; only that voice changes.
    pub fn get_voice_mut(&mut self, voice_id: usize) -> (r: &mut VoiceState)
        requires
            voice_id < 8,
        ensures
            *r == old(self).states()[voice_id as int],
            final(self).states() == old(self).states().update(voice_id as int, *final(r)),
    {
        &mut self.voices[voice_id]
    }

    /// All eight voices, in index order.
    pub fn voices(&self) -> (r: &[VoiceState; 8])
        ensures
            r@ == self.states(),
    {
        &self.voices
    }

    /// All eight voices for mutation.
    pub fn voices_mut(&mut self) -> (r: &mut [VoiceState; 8])
        ensures
            r@ == old(self).states(),
            final(self).states() == final(r)@,
    {
        &mut self.voices
    }

    /// The number of sounding voices in the pool.
    pub fn active_voice_count(&self) -> (r: usize)
        ensures
            r == count_active(self.states()),
    {
        let ghost s = self.states();
        let mut count: usize = 0;
        let mut i: usize = 0;
        while i < 8
            invariant
                i <= 8,
                count <= i,
                count == count_active(s.take(i as int)),
                s == self.states(),
            decreases 8 - i,
        {
            proof {
                assert(s.take(i + 1).drop_last() =~= s.take(i as int));
                assert(s.take(i + 1).last() == s[i as int]);
            }
            if self.voices[i].active {
                count = count + 1;
            }
            i = i + 1;
        }
        proof {
            assert(s.take(8) =~= s);
        }
        count
    }
}

impl Default for VoicePool {
    /// Same as [`VoicePool::new`].
    fn default() -> (r: Self)
        ensures
            r.states().len() == 8,
            forall|i: int| 0 <= i < 8 ==> r.states()[i] == idle_voice(),
    {
        VoicePool::new()
    }
}

} // verus!
