//! Tests for per-voice state and the voice pool.

use auxide_midi::{EnvStage, VoicePool, VoiceState};

#[test]
fn size_of_voice_state_le_64() {
    // VoiceState should fit in a cache line (64 bytes)
    assert!(std::mem::size_of::<VoiceState>() <= 64);
}

#[test]
fn voice_pool_has_8_voices() {
    let pool = VoicePool::new();
    assert_eq!(pool.voices().len(), 8);
}

#[test]
fn voice_trigger_sets_active() {
    let mut voice = VoiceState::new();
    voice.trigger(60, 100);

    assert!(voice.active);
    assert_eq!(voice.note, 60);
    assert_eq!(voice.velocity, 100);
    assert_eq!(voice.env_stage, EnvStage::Attack);
}

#[test]
fn voice_release_sets_release_stage() {
    let mut voice = VoiceState::new();
    voice.trigger(60, 100);
    voice.release();

    assert_eq!(voice.env_stage, EnvStage::Release);
    assert!(voice.active); // Still active until envelope finishes
}

#[test]
fn voice_reset_clears_state() {
    let mut voice = VoiceState::new();
    voice.trigger(60, 100);
    voice.reset();

    assert!(!voice.active);
    assert_eq!(voice.env_stage, EnvStage::Idle);
}

#[test]
fn release_of_idle_voice_is_noop() {
    let mut voice = VoiceState::new();
    voice.release();

    assert!(!voice.active);
    assert_eq!(voice.env_stage, EnvStage::Idle);
}

#[test]
fn pool_mutation_through_voice_id() {
    let mut pool = VoicePool::new();
    assert_eq!(pool.active_voice_count(), 0);

    pool.get_voice_mut(3).trigger(72, 90);
    assert_eq!(pool.active_voice_count(), 1);
    assert!(pool.get_voice(3).active);
    assert_eq!(pool.get_voice(3).note, 72);
    assert!(!pool.get_voice(2).active);

    pool.get_voice_mut(3).release();
    assert_eq!(pool.get_voice(3).env_stage, EnvStage::Release);
    assert_eq!(pool.active_voice_count(), 1);

    pool.get_voice_mut(3).reset();
    assert_eq!(pool.active_voice_count(), 0);
}

#[test]
fn voices_mut_exposes_all_slots() {
    let mut pool = VoicePool::new();
    for voice in pool.voices_mut().iter_mut() {
        voice.trigger(60, 64);
    }
    assert_eq!(pool.active_voice_count(), 8);
}
