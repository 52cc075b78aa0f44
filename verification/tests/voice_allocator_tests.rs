//! Tests for the voice allocator.

use auxide_midi::{VoiceAllocator, MAX_VOICES};

#[test]
fn allocate_single_voice() {
    let mut allocator = VoiceAllocator::new();
    let voice_id = allocator.allocate_voice(60).unwrap();
    assert_eq!(voice_id.0, 0);
    assert_eq!(allocator.active_voice_count(), 1);
}

#[test]
fn allocate_multiple_voices() {
    let mut allocator = VoiceAllocator::new();

    for i in 0..8 {
        let voice_id = allocator.allocate_voice(60 + i as u8).unwrap();
        assert_eq!(voice_id.0, i);
    }

    assert_eq!(allocator.active_voice_count(), 8);
}

#[test]
fn release_voice() {
    let mut allocator = VoiceAllocator::new();
    let _voice_id = allocator.allocate_voice(60).unwrap();
    assert_eq!(allocator.active_voice_count(), 1);

    allocator.release_voice(60);
    assert_eq!(allocator.active_voice_count(), 0);
}

#[test]
fn voice_stealing_works() {
    let mut allocator = VoiceAllocator::new();

    // Fill all voices
    for i in 0..8 {
        allocator.allocate_voice(60 + i as u8).unwrap();
    }

    // Try to allocate one more - should steal oldest (voice 0)
    let stolen_voice = allocator.allocate_voice(100).unwrap();
    assert_eq!(stolen_voice.0, 0);
    assert_eq!(allocator.active_voice_count(), 8);
}

#[test]
fn retrigger_same_note() {
    let mut allocator = VoiceAllocator::new();

    let voice1 = allocator.allocate_voice(60).unwrap();
    let voice2 = allocator.allocate_voice(60).unwrap();

    // Should get different voices
    assert_ne!(voice1.0, voice2.0);
    assert_eq!(allocator.active_voice_count(), 2);
}

#[test]
fn oldest_voice_stolen() {
    let mut allocator = VoiceAllocator::new();

    // Allocate voices in order
    for i in 0..8 {
        allocator.allocate_voice(60 + i as u8).unwrap();
    }

    // Allocate one more - should steal voice 0 (oldest)
    let stolen = allocator.allocate_voice(100).unwrap();
    assert_eq!(stolen.0, 0);
}

#[test]
fn voice_allocator_tests_active_voices_iteration() {
    let mut allocator = VoiceAllocator::new();

    allocator.allocate_voice(60).unwrap();
    allocator.allocate_voice(64).unwrap();

    let active: Vec<u8> = allocator.active_voices().iter().map(|&(_, note)| note).collect();
    assert_eq!(active.len(), 2);
    assert!(active.contains(&60));
    assert!(active.contains(&64));
}

#[test]
fn release_nonexistent_voice() {
    let mut allocator = VoiceAllocator::new();
    allocator.allocate_voice(60).unwrap();

    // Release a note that wasn't allocated - should not crash
    allocator.release_voice(70);
    assert_eq!(allocator.active_voice_count(), 1);
}

#[test]
fn voice_becomes_available() {
    let mut allocator = VoiceAllocator::new();

    // Allocate a voice
    let _voice_id = allocator.allocate_voice(60).unwrap();
    assert_eq!(allocator.active_voice_count(), 1);

    // Release it
    allocator.release_voice(60);
    assert_eq!(allocator.active_voice_count(), 0);
}

#[test]
fn all_voices_busy_steals_oldest() {
    let mut allocator = VoiceAllocator::new();

    // Fill all voices
    for i in 0..MAX_VOICES {
        let voice_id = allocator.allocate_voice(60 + i as u8).unwrap();
        assert_eq!(voice_id.0, i);
    }
    assert_eq!(allocator.active_voice_count(), MAX_VOICES);

    // Try to allocate one more - should steal oldest (voice 0)
    let stolen_voice = allocator.allocate_voice(100).unwrap();
    assert_eq!(stolen_voice.0, 0); // Should steal voice 0
    assert_eq!(allocator.active_voice_count(), MAX_VOICES);
}

#[test]
fn note_retriggering() {
    let mut allocator = VoiceAllocator::new();

    // Play same note twice
    let voice1 = allocator.allocate_voice(60).unwrap();
    let voice2 = allocator.allocate_voice(60).unwrap();

    // Should get different voices
    assert_ne!(voice1.0, voice2.0);
    assert_eq!(allocator.active_voice_count(), 2);
}

#[test]
fn voice_allocator_active_voices_iteration() {
    let mut allocator = VoiceAllocator::new();

    allocator.allocate_voice(60).unwrap();
    allocator.allocate_voice(64).unwrap();
    allocator.allocate_voice(67).unwrap();

    let active: Vec<u8> = allocator.active_voices().iter().map(|&(_, note)| note).collect();
    assert_eq!(active.len(), 3);
    assert!(active.contains(&60));
    assert!(active.contains(&64));
    assert!(active.contains(&67));
}

#[test]
fn freed_lowest_slot_reused_before_stealing() {
    let mut allocator = VoiceAllocator::new();

    allocator.allocate_voice(60).unwrap();
    allocator.allocate_voice(61).unwrap();
    allocator.allocate_voice(62).unwrap();

    // Free the middle slot; the next allocation reuses it rather than
    // touching any active voice.
    allocator.release_voice(61);
    let reused = allocator.allocate_voice(99).unwrap();
    assert_eq!(reused.0, 1);
    assert_eq!(allocator.active_voice_count(), 3);

    let active: Vec<u8> = allocator.active_voices().iter().map(|&(_, note)| note).collect();
    assert_eq!(active, vec![60, 99, 62]);
}

#[test]
fn second_steal_takes_second_voice() {
    let mut allocator = VoiceAllocator::new();

    for i in 0..8 {
        allocator.allocate_voice(60 + i as u8).unwrap();
    }

    // Two allocations under full load steal the two oldest voices in
    // order: slot 0, then slot 1.
    assert_eq!(allocator.allocate_voice(100).unwrap().0, 0);
    assert_eq!(allocator.allocate_voice(101).unwrap().0, 1);
    assert_eq!(allocator.active_voice_count(), 8);
}
