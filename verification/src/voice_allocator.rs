//! Fixed-capacity polyphonic voice allocation with oldest-voice stealing.
//!
//! The allocator owns [`MAX_VOICES`] slots. An allocation claims the
//! lowest-indexed free slot; when every slot is busy it steals the slot
//! with the smallest age stamp (the voice allocated longest ago), ties
//! broken by the lowest index. Allocation therefore never fails.

use vstd::prelude::*;

verus! {

broadcast use vstd::array::group_array_axioms;

/// Number of voices in the fixed pool.
pub const MAX_VOICES: usize = 8;

/// An index into the voice pool, always below [`MAX_VOICES`].
#[derive(Debug, Clone, Copy, PartialEq, Eq, Structural)]
pub struct VoiceId(pub usize);

/// Book-keeping for one voice: whether it is sounding, which note it
/// plays, and the age stamp of its allocation.
#[derive(Debug, Clone, Copy)]
pub struct VoiceSlot {
    pub active: bool,
    pub note: u8,
    pub age: u32,
}

impl Default for VoiceSlot {
    /// A free slot with zeroed note and age.
    fn default() -> (r: Self)
        ensures
            !r.active,
            r.note == 0,
            r.age == 0,
    {
        VoiceSlot { active: false, note: 0, age: 0 }
    }
}

/// The slot contents of a freshly created allocator: all free, all zeroed.
pub open spec fn fresh_slots() -> Seq<VoiceSlot> {
    Seq::new(MAX_VOICES as nat, |i: int| VoiceSlot { active: false, note: 0, age: 0 })
}

/// Does some slot hold no sounding voice?
pub open spec fn has_inactive(s: Seq<VoiceSlot>) -> bool {
    exists|i: int| 0 <= i < s.len() && !s[i].active
}

/// The first index at or after `i` whose slot is inactive, or `s.len()`
/// if every slot from `i` on is active.
pub open spec fn first_inactive_from(s: Seq<VoiceSlot>, i: int) -> int
    decreases s.len() - i,
{
    if i < 0 || i >= s.len() {
        s.len() as int
    } else if !s[i].active {
        i
    } else {
        first_inactive_from(s, i + 1)
    }
}

/// The lowest-indexed inactive slot, or `s.len()` if none is free.
pub open spec fn first_inactive(s: Seq<VoiceSlot>) -> int {
    first_inactive_from(s, 0)
}

/// Continuation of a left-to-right minimum-age scan that has reached
/// index `i` with `best` as the running choice: a slot displaces the
/// running choice only with a strictly smaller age.
pub open spec fn oldest_from(s: Seq<VoiceSlot>, best: int, i: int) -> int
    decreases s.len() - i,
{
    if i < 0 || i >= s.len() || best < 0 || best >= s.len() {
        best
    } else if s[i].age < s[best].age {
        oldest_from(s, i, i + 1)
    } else {
        oldest_from(s, best, i + 1)
    }
}

/// The index of the slot with the smallest age, ties broken by the
/// lowest index.
pub open spec fn oldest_index(s: Seq<VoiceSlot>) -> int {
    oldest_from(s, 0, 1)
}

/// The slot an allocation claims: the lowest free index if one exists,
/// otherwise the oldest voice.
pub open spec fn spec_alloc_index(s: Seq<VoiceSlot>) -> int {
    if has_inactive(s) {
        first_inactive(s)
    } else {
        oldest_index(s)
    }
}

/// The age counter after one allocation: unsigned wraparound increment.
pub open spec fn wrap_inc(age: u32) -> u32 {
    if age == u32::MAX {
        0u32
    } else {
        (age + 1) as u32
    }
}

/// One allocation at the specification level: the slots and the age
/// counter after allocating `note` in state `(s, age)`.
pub open spec fn spec_allocate(s: Seq<VoiceSlot>, age: u32, note: u8) -> (Seq<VoiceSlot>, u32) {
    (
        s.update(spec_alloc_index(s), VoiceSlot { active: true, note, age }),
        wrap_inc(age),
    )
}

/// The first index at or after `i` whose slot actively plays `note`, or
/// `s.len()` if none does.
pub open spec fn release_from(s: Seq<VoiceSlot>, note: u8, i: int) -> int
    decreases s.len() - i,
{
    if i < 0 || i >= s.len() {
        s.len() as int
    } else if s[i].active && s[i].note == note {
        i
    } else {
        release_from(s, note, i + 1)
    }
}

/// The first index whose slot actively plays `note`, or `s.len()`.
pub open spec fn release_index(s: Seq<VoiceSlot>, note: u8) -> int {
    release_from(s, note, 0)
}

/// How many slots hold a sounding voice.
pub open spec fn count_active(s: Seq<VoiceSlot>) -> int
    decreases s.len(),
{
    if s.len() == 0 {
        0
    } else {
        count_active(s.drop_last()) + if s.last().active {
            1int
        } else {
            0int
        }
    }
}

/// The `(voice id, note)` pairs of the sounding voices, in index order.
pub open spec fn active_pairs(s: Seq<VoiceSlot>) -> Seq<(VoiceId, u8)>
    decreases s.len(),
{
    if s.len() == 0 {
        Seq::empty()
    } else {
        active_pairs(s.drop_last()) + if s.last().active {
            seq![(VoiceId((s.len() - 1) as usize), s.last().note)]
        } else {
            Seq::empty()
        }
    }
}

/// The fixed-capacity voice allocator.
pub struct VoiceAllocator {
    voices: [VoiceSlot; MAX_VOICES],
    next_age: u32,
}

impl VoiceAllocator {
    /// The voice slots, for specifications.
    pub closed spec fn slots(&self) -> Seq<VoiceSlot> {
        self.voices@
    }

    /// The age stamp the next allocation will receive.
    pub closed spec fn age_counter(&self) -> u32 {
        self.next_age
    }

    /// A fresh allocator: every slot free, ages starting at 0.
    pub fn new() -> (r: Self)
        ensures
            r.slots() == fresh_slots(),
            r.age_counter() == 0,
    {
        let r = VoiceAllocator {
            voices: [VoiceSlot { active: false, note: 0, age: 0 }; MAX_VOICES],
            next_age: 0,
        };
        proof {
            assert(r.slots() =~= fresh_slots());
        }
        r
    }

    /// The index of the voice allocated longest ago (smallest age stamp,
    /// ties to the lowest index).
    fn find_oldest_voice(&self) -> (r: usize)
        ensures
            r < MAX_VOICES,
            r == oldest_index(self.slots()),
    {
        let ghost s = self.slots();
        let mut oldest_idx: usize = 0;
        let mut oldest_age: u32 = self.voices[0].age;
        let mut i: usize = 0;
        while i < MAX_VOICES
            invariant
                i <= MAX_VOICES,
                oldest_idx < MAX_VOICES,
                oldest_age == s[oldest_idx as int].age,
                oldest_from(s, oldest_idx as int, i as int) == oldest_index(s),
                s == self.slots(),
            decreases MAX_VOICES - i,
        {
            if self.voices[i].age < oldest_age {
                oldest_age = self.voices[i].age;
                oldest_idx = i;
            }
            i = i + 1;
        }
        oldest_idx
    }

    /// Allocate a voice for `note`.
    ///
    /// Always succeeds: the claimed slot is the one [`spec_alloc_index`]
    /// picks (lowest free index, else the oldest voice), it is marked
    /// active with `note` and the current age stamp, every other slot is
    /// untouched, and the age counter advances by one with wraparound.
    pub fn allocate_voice(&mut self, note: u8) -> (r: Option<VoiceId>)
        ensures
            ({
                let s = old(self).slots();
                let idx = spec_alloc_index(s);
                &&& r == Some(VoiceId(idx as usize))
                &&& 0 <= idx < MAX_VOICES
                &&& final(self).slots() == spec_allocate(s, old(self).age_counter(), note).0
                &&& final(self).age_counter() == wrap_inc(old(self).age_counter())
            }),
    {
        let ghost s = self.slots();
        let mut i: usize = 0;
        while i < MAX_VOICES
            invariant
                i <= MAX_VOICES,
                forall|j: int| 0 <= j < i ==> s[j].active,
                first_inactive_from(s, i as int) == first_inactive(s),
                s == self.slots(),
                self.age_counter() == old(self).age_counter(),
                s == old(self).slots(),
            decreases MAX_VOICES - i,
        {
            if !self.voices[i].active {
                proof {
                    assert(has_inactive(s));
                    assert(first_inactive(s) == i as int);
                }
                let age = self.next_age;
                self.voices[i] = VoiceSlot { active: true, note, age };
                self.next_age = if self.next_age == u32::MAX {
                    0
                } else {
                    self.next_age + 1
                };
                return Some(VoiceId(i));
            }
            i = i + 1;
        }
        proof {
            assert(!has_inactive(s));
        }
        let oldest_idx = self.find_oldest_voice();
        let age = self.next_age;
        self.voices[oldest_idx] = VoiceSlot { active: true, note, age };
        self.next_age = if self.next_age == u32::MAX {
            0
        } else {
            self.next_age + 1
        };
        Some(VoiceId(oldest_idx))
    }

    /// Release the voice playing `note`.
    ///
    /// The first active slot (in index order) holding `note` is marked
    /// inactive, keeping its note and age; if no active slot holds
    /// `note`, nothing changes.
    pub fn release_voice(&mut self, note: u8)
        ensures
            ({
                let s = old(self).slots();
                let idx = release_index(s, note);
                &&& final(self).age_counter() == old(self).age_counter()
                &&& if idx < s.len() {
                    final(self).slots() == s.update(
                        idx,
                        (VoiceSlot { active: false, note: s[idx].note, age: s[idx].age }),
                    )
                } else {
                    final(self).slots() == s
                }
            }),
    {
        let ghost s = self.slots();
        let mut i: usize = 0;
        while i < MAX_VOICES
            invariant
                i <= MAX_VOICES,
                release_from(s, note, i as int) == release_index(s, note),
                forall|j: int| 0 <= j < i ==> !(s[j].active && s[j].note == note),
                s == self.slots(),
                self.age_counter() == old(self).age_counter(),
                s == old(self).slots(),
            decreases MAX_VOICES - i,
        {
            if self.voices[i].active && self.voices[i].note == note {
                let kept_note = self.voices[i].note;
                let kept_age = self.voices[i].age;
                self.voices[i] = VoiceSlot { active: false, note: kept_note, age: kept_age };
                return ;
            }
            i = i + 1;
        }
    }

    /// The number of voices currently sounding.
    pub fn active_voice_count(&self) -> (r: usize)
        ensures
            r == count_active(self.slots()),
    {
        let ghost s = self.slots();
        let mut count: usize = 0;
        let mut i: usize = 0;
        while i < MAX_VOICES
            invariant
                i <= MAX_VOICES,
                count == count_active(s.take(i as int)),
                count <= i,
                s == self.slots(),
            decreases MAX_VOICES - i,
        {
            proof {
                assert(s.take(i + 1).drop_last() =~= s.take(i as int));
                assert(s.take(i + 1).last() == s[i as int]);
            }
            if self.voices[i].active {
                count = count + 1;
            }
            i = i + 1;
        }
        proof {
            assert(s.take(MAX_VOICES as int) =~= s);
        }
        count
    }

    /// The `(voice id, note)` pairs of all sounding voices, in index
    /// order.
    pub fn active_voices(&self) -> (r: Vec<(VoiceId, u8)>)
        ensures
            r@ == active_pairs(self.slots()),
    {
        let ghost s = self.slots();
        let mut r: Vec<(VoiceId, u8)> = Vec::new();
        let mut i: usize = 0;
        while i < MAX_VOICES
            invariant
                i <= MAX_VOICES,
                r@ == active_pairs(s.take(i as int)),
                s == self.slots(),
            decreases MAX_VOICES - i,
        {
            proof {
                assert(s.take(i + 1).drop_last() =~= s.take(i as int));
                assert(s.take(i + 1).last() == s[i as int]);
            }
            if self.voices[i].active {
                let note = self.voices[i].note;
                r.push((VoiceId(i), note));
                proof {
                    assert(r@ =~= active_pairs(s.take(i + 1)));
                }
            } else {
                proof {
                    assert(r@ =~= active_pairs(s.take(i + 1)));
                }
            }
            i = i + 1;
        }
        proof {
            assert(s.take(MAX_VOICES as int) =~= s);
        }
        r
    }
}

/// Properties of the scan behind [`first_inactive_from`]: the result is
/// the first inactive index at or after `i`, and everything before it
/// (from `i` on) is active.
pub proof fn lemma_first_inactive_from_props(s: Seq<VoiceSlot>, i: int)
    requires
        0 <= i <= s.len(),
    ensures
        ({
            let r = first_inactive_from(s, i);
            &&& i <= r <= s.len()
            &&& (r < s.len() ==> !s[r].active)
            &&& forall|j: int| i <= j < r ==> s[j].active
        }),
    decreases s.len() - i,
{
    if i < s.len() && s[i].active {
        lemma_first_inactive_from_props(s, i + 1);
    }
}

/// If every slot below `k` is active and slot `k` is not, then `k` is the
/// first inactive index.
pub proof fn lemma_first_inactive_is(s: Seq<VoiceSlot>, k: int)
    requires
        0 <= k < s.len(),
        !s[k].active,
        forall|j: int| 0 <= j < k ==> s[j].active,
    ensures
        first_inactive(s) == k,
{
    lemma_first_inactive_from_props(s, 0);
}

/// Properties of the minimum-age scan behind [`oldest_from`], given that
/// `best` is the first minimum of the prefix already scanned: the result
/// has the smallest age of all slots, and every earlier slot is strictly
/// younger-stamped (larger age).
pub proof fn lemma_oldest_from_props(s: Seq<VoiceSlot>, best: int, i: int)
    requires
        0 <= best < i <= s.len(),
        forall|j: int| 0 <= j < i ==> s[best].age <= s[j].age,
        forall|j: int| 0 <= j < best ==> s[j].age > s[best].age,
    ensures
        ({
            let r = oldest_from(s, best, i);
            &&& 0 <= r < s.len()
            &&& forall|j: int| 0 <= j < s.len() ==> s[r].age <= s[j].age
            &&& forall|j: int| 0 <= j < r ==> s[j].age > s[r].age
        }),
    decreases s.len() - i,
{
    if i < s.len() {
        if s[i].age < s[best].age {
            lemma_oldest_from_props(s, i, i + 1);
        } else {
            lemma_oldest_from_props(s, best, i + 1);
        }
    }
}

/// The oldest index has the smallest age, ties broken by lowest index.
pub proof fn lemma_oldest_index_props(s: Seq<VoiceSlot>)
    requires
        s.len() > 0,
    ensures
        ({
            let r = oldest_index(s);
            &&& 0 <= r < s.len()
            &&& forall|j: int| 0 <= j < s.len() ==> s[r].age <= s[j].age
            &&& forall|j: int| 0 <= j < r ==> s[j].age > s[r].age
        }),
{
    lemma_oldest_from_props(s, 0, 1);
}

/// An index with the smallest age, all earlier ages strictly larger, is
/// exactly the one the scan picks.
pub proof fn lemma_oldest_is(s: Seq<VoiceSlot>, k: int)
    requires
        0 <= k < s.len(),
        forall|j: int| 0 <= j < s.len() ==> s[k].age <= s[j].age,
        forall|j: int| 0 <= j < k ==> s[j].age > s[k].age,
    ensures
        oldest_index(s) == k,
{
    lemma_oldest_index_props(s);
    let r = oldest_index(s);
    if r < k {
        assert(s[r].age > s[k].age);
        assert(s[r].age <= s[k].age);
    } else if r > k {
        assert(s[k].age > s[r].age);
        assert(s[k].age <= s[r].age);
    }
}

/// After releasing a voice, allocation reuses a freed slot before any
/// active slot is stolen: whenever some slot is free, the claimed slot is
/// the lowest-indexed free one, and every sounding voice keeps playing.
pub proof fn lemma_free_slot_reused_not_stolen(s: Seq<VoiceSlot>, age: u32, note: u8)
    requires
        has_inactive(s),
    ensures
        ({
            let idx = spec_alloc_index(s);
            &&& 0 <= idx < s.len()
            &&& !s[idx].active
            &&& forall|j: int| 0 <= j < idx ==> s[j].active
            &&& forall|j: int|
                0 <= j < s.len() && s[j].active ==> spec_allocate(s, age, note).0[j] == s[j]
        }),
{
    lemma_first_inactive_from_props(s, 0);
    let w = choose|i: int| 0 <= i < s.len() && !s[i].active;
    assert(first_inactive(s) < s.len());
}

/// The allocator state (slots and age counter) after playing `notes` one
/// by one from a fresh allocator, never releasing.
pub open spec fn run_allocations(notes: Seq<u8>) -> (Seq<VoiceSlot>, u32)
    decreases notes.len(),
{
    if notes.len() == 0 {
        (fresh_slots(), 0u32)
    } else {
        let prev = run_allocations(notes.drop_last());
        spec_allocate(prev.0, prev.1, notes.last())
    }
}

/// After `k <= 8` fresh allocations, slots `0..k` play the first `k`
/// notes with age stamps `0..k`, and slots `k..8` are still free.
proof fn lemma_run_shape(notes: Seq<u8>, k: int)
    requires
        0 <= k <= 8,
        k <= notes.len(),
    ensures
        run_allocations(notes.take(k)).1 == k as u32,
        run_allocations(notes.take(k)).0.len() == 8,
        forall|j: int|
            0 <= j < k ==> run_allocations(notes.take(k)).0[j] == (VoiceSlot {
                active: true,
                note: notes[j],
                age: j as u32,
            }),
        forall|j: int|
            k <= j < 8 ==> run_allocations(notes.take(k)).0[j] == (VoiceSlot {
                active: false,
                note: 0,
                age: 0,
            }),
    decreases k,
{
    if k == 0 {
        assert(notes.take(0).len() == 0);
    } else {
        lemma_run_shape(notes, k - 1);
        let t = notes.take(k);
        assert(t.drop_last() =~= notes.take(k - 1));
        assert(t.last() == notes[k - 1]);
        let prev = run_allocations(notes.take(k - 1));
        assert(run_allocations(t) == spec_allocate(prev.0, prev.1, notes[k - 1]));
        assert(has_inactive(prev.0)) by {
            assert(!prev.0[k - 1].active);
        }
        lemma_first_inactive_is(prev.0, k - 1);
    }
}

/// From a fresh allocator, eight allocations claim voices `0, 1, ..., 7`
/// in that order, and a ninth allocation steals voice `0`, whatever notes
/// are played.
pub proof fn lemma_fills_in_order_then_steals_zero(notes: Seq<u8>)
    requires
        notes.len() >= 8,
    ensures
        forall|k: int|
            0 <= k < 8 ==> #[trigger] spec_alloc_index(run_allocations(notes.take(k)).0) == k,
        spec_alloc_index(run_allocations(notes.take(8)).0) == 0,
{
    assert forall|k: int|
        0 <= k < 8 implies #[trigger] spec_alloc_index(run_allocations(notes.take(k)).0)
        == k by {
        lemma_run_shape(notes, k);
        let s = run_allocations(notes.take(k)).0;
        assert(has_inactive(s)) by {
            assert(!s[k].active);
        }
        lemma_first_inactive_is(s, k);
    }
    lemma_run_shape(notes, 8);
    let s = run_allocations(notes.take(8)).0;
    assert(!has_inactive(s)) by {
        assert(forall|j: int| 0 <= j < 8 ==> s[j].active);
    }
    assert(forall|j: int| 0 <= j < s.len() ==> s[0].age <= #[trigger] s[j].age);
    lemma_oldest_is(s, 0);
}

impl Default for VoiceAllocator {
    /// Same as [`VoiceAllocator::new`].
    fn default() -> (r: Self)
        ensures
            r.slots() == fresh_slots(),
            r.age_counter() == 0,
    {
        VoiceAllocator::new()
    }
}

} // verus!
