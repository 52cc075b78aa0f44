//! Mapping of MIDI controller numbers to synthesis parameter targets.
//!
//! A fixed 16-slot table, scanned linearly. The default table binds the
//! mod wheel (controller 1) to the filter cutoff and controller 74 to the
//! filter resonance; the remaining slots are unused.

use vstd::prelude::*;

verus! {

broadcast use vstd::array::group_array_axioms;

/// A modulatable synthesis parameter that a controller can drive.
#[derive(Debug, Clone, Copy, PartialEq, Eq, Structural)]
pub enum ParamTarget {
    FilterCutoff,
    FilterResonance,
    AttackTime,
    ReleaseTime,
    Unused,
}

/// The table contents of a freshly created map: controller 1 to the
/// filter cutoff, controller 74 to the filter resonance, 14 unused slots.
pub open spec fn default_mappings() -> Seq<(u8, ParamTarget)> {
    Seq::new(
        16,
        |i: int|
            if i == 0 {
                (1u8, ParamTarget::FilterCutoff)
            } else if i == 1 {
                (74u8, ParamTarget::FilterResonance)
            } else {
                (0u8, ParamTarget::Unused)
            },
    )
}

/// The first index at or after `i` whose slot binds `cc` to a target
/// that is not `Unused`, or `s.len()` if none does.
pub open spec fn mapping_from(s: Seq<(u8, ParamTarget)>, cc: u8, i: int) -> int
    decreases s.len() - i,
{
    if i < 0 || i >= s.len() {
        s.len() as int
    } else if s[i].0 == cc && s[i].1 != ParamTarget::Unused {
        i
    } else {
        mapping_from(s, cc, i + 1)
    }
}

/// The first slot binding `cc` to a live target, or `s.len()`.
pub open spec fn mapping_index(s: Seq<(u8, ParamTarget)>, cc: u8) -> int {
    mapping_from(s, cc, 0)
}

/// The first index at or after `i` whose slot is either unused or
/// already bound to `cc` — the slot `set_mapping` overwrites — or
/// `s.len()` if the table is full of other bindings.
pub open spec fn set_slot_from(s: Seq<(u8, ParamTarget)>, cc: u8, i: int) -> int
    decreases s.len() - i,
{
    if i < 0 || i >= s.len() {
        s.len() as int
    } else if s[i].1 == ParamTarget::Unused || s[i].0 == cc {
        i
    } else {
        set_slot_from(s, cc, i + 1)
    }
}

/// The first unused-or-same-controller slot, or `s.len()`.
pub open spec fn set_slot_index(s: Seq<(u8, ParamTarget)>, cc: u8) -> int {
    set_slot_from(s, cc, 0)
}

/// Fixed-size table from controller numbers to parameter targets.
#[derive(Debug)]
pub struct CCMap {
    mappings: [(u8, ParamTarget); 16],
}

impl CCMap {
    /// The table contents, for specifications.
    pub closed spec fn table(&self) -> Seq<(u8, ParamTarget)> {
        self.mappings@
    }

    /// A map holding the default bindings.
    pub fn new() -> (r: Self)
        ensures
            r.table() == default_mappings(),
    {
        let mut mappings = [(0u8, ParamTarget::Unused); 16];
        mappings[0] = (1, ParamTarget::FilterCutoff);
        mappings[1] = (74, ParamTarget::FilterResonance);
        let r = CCMap { mappings };
        proof {
            assert(r.table() =~= default_mappings());
        }
        r
    }

    /// Look up a controller value.
    ///
    /// Returns the target of the first live slot bound to `cc_num`,
    /// paired with the raw 7-bit controller value (callers normalize it
    /// to `value / 127`), or `None` when no live slot binds `cc_num`.
    pub fn map_cc(&self, cc_num: u8, value: u8) -> (r: Option<(ParamTarget, u8)>)
        ensures
            ({
                let idx = mapping_index(self.table(), cc_num);
                if idx < self.table().len() {
                    r == Some((self.table()[idx].1, value))
                } else {
                    r is None
                }
            }),
    {
        let ghost s = self.table();
        let mut i: usize = 0;
        while i < 16
            invariant
                i <= 16,
                mapping_from(s, cc_num, i as int) == mapping_index(s, cc_num),
                s == self.table(),
            decreases 16 - i,
        {
            let (mapped_cc, target) = self.mappings[i];
            if mapped_cc == cc_num && !matches!(target, ParamTarget::Unused) {
                return Some((target, value));
            }
            i = i + 1;
        }
        None
    }

    /// Bind `cc_num` to `target`.
    ///
    /// Overwrites the first slot that is unused or already bound to
    /// `cc_num`; when all 16 slots are bound to other controllers the
    /// request is silently dropped and the table is unchanged.
    pub fn set_mapping(&mut self, cc_num: u8, target: ParamTarget)
        ensures
            ({
                let s = old(self).table();
                let idx = set_slot_index(s, cc_num);
                if idx < s.len() {
                    final(self).table() == s.update(idx, (cc_num, target))
                } else {
                    final(self).table() == s
                }
            }),
    {
        let ghost s = self.table();
        let mut i: usize = 0;
        while i < 16
            invariant
                i <= 16,
                set_slot_from(s, cc_num, i as int) == set_slot_index(s, cc_num),
                s == self.table(),
                s == old(self).table(),
            decreases 16 - i,
        {
            let (mapped_cc, mapped_target) = self.mappings[i];
            if matches!(mapped_target, ParamTarget::Unused) || mapped_cc == cc_num {
                self.mappings[i] = (cc_num, target);
                return ;
            }
            i = i + 1;
        }
    }

    /// The whole table, in slot order.
    pub fn get_mappings(&self) -> (r: &[(u8, ParamTarget); 16])
        ensures
            r@ == self.table(),
    {
        &self.mappings
    }
}

impl Default for CCMap {
    /// Same as [`CCMap::new`].
    fn default() -> (r: Self)
        ensures
            r.table() == default_mappings(),
    {
        CCMap::new()
    }
}

} // verus!
