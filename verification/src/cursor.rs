use vstd::prelude::*;

verus! {

/// How the cursor is held by a window.
#[derive(Clone, Copy, Debug, PartialEq, Eq, Structural)]
pub enum CursorGrabMode {
    /// The cursor moves freely.
    Ungrabbed,
    /// The cursor is kept inside the window.
    Confined,
    /// The cursor is locked in place.
    Locked,
}

/// The grab mode that follows `mode` when cycling: ungrabbed, confined,
/// locked, and back to ungrabbed.
pub open spec fn spec_next_grab_mode(mode: CursorGrabMode) -> CursorGrabMode {
    match mode {
        CursorGrabMode::Ungrabbed => CursorGrabMode::Confined,
        CursorGrabMode::Confined => CursorGrabMode::Locked,
        CursorGrabMode::Locked => CursorGrabMode::Ungrabbed,
    }
}

/// The grab mode that follows `mode` in the cycle.
pub fn next_grab_mode(mode: CursorGrabMode) -> (next: CursorGrabMode)
    ensures
        next == spec_next_grab_mode(mode),
{
    match mode {
        CursorGrabMode::Ungrabbed => CursorGrabMode::Confined,
        CursorGrabMode::Confined => CursorGrabMode::Locked,
        CursorGrabMode::Locked => CursorGrabMode::Ungrabbed,
    }
}

/// Cycling the grab mode always changes it, and three steps bring it back.
pub proof fn lemma_grab_mode_cycle(mode: CursorGrabMode)
    ensures
        spec_next_grab_mode(mode) != mode,
        spec_next_grab_mode(spec_next_grab_mode(mode)) != mode,
        spec_next_grab_mode(spec_next_grab_mode(spec_next_grab_mode(mode))) == mode,
{
}

/// The grab modes are visited in the order ungrabbed, confined, locked, and
/// then ungrabbed again.
pub proof fn lemma_grab_mode_order(mode: CursorGrabMode)
    ensures
        mode == CursorGrabMode::Ungrabbed ==> spec_next_grab_mode(mode) == CursorGrabMode::Confined,
        mode == CursorGrabMode::Confined ==> spec_next_grab_mode(mode) == CursorGrabMode::Locked,
        mode == CursorGrabMode::Locked ==> spec_next_grab_mode(mode) == CursorGrabMode::Ungrabbed,
{
}

/// The index that follows `index` in a list of `count` entries, wrapping
/// around at the end.
pub open spec fn spec_next_index(index: int, count: int) -> int {
    (index + 1) % count
}

/// The index reached from `index` after `steps` advances in a list of
/// `count` entries.
pub open spec fn spec_advance(index: int, count: int, steps: nat) -> int
    decreases steps,
{
    if steps == 0 {
        index
    } else {
        spec_next_index(spec_advance(index, count, (steps - 1) as nat), count)
    }
}

/// Advances a cursor index over a list of `count` cursors, wrapping around.
pub fn next_index(index: usize, count: usize) -> (next: usize)
    requires
        count > 0,
    ensures
        next == spec_next_index(index as int, count as int),
        next < count,
{
    let r = index % count;
    proof {
        lemma_next_index_of_remainder(index as int, count as int);
    }
    if r + 1 == count {
        0
    } else {
        r + 1
    }
}

proof fn lemma_next_index_of_remainder(index: int, count: int)
    requires
        index >= 0,
        count > 0,
    ensures
        index % count + 1 == count ==> (index + 1) % count == 0,
        index % count + 1 < count ==> (index + 1) % count == index % count + 1,
{
    vstd::arithmetic::div_mod::lemma_mod_bound(index, count);
    vstd::arithmetic::div_mod::lemma_add_mod_noop_right(1, index, count);
    vstd::arithmetic::div_mod::lemma_mod_self_0(count);
    if index % count + 1 < count {
        vstd::arithmetic::div_mod::lemma_small_mod((index % count + 1) as nat, count as nat);
    }
}

/// After `steps` advances from `index`, the index is `(index + steps) % count`.
pub proof fn lemma_advance_is_offset(index: int, count: int, steps: nat)
    requires
        0 <= index < count,
    ensures
        spec_advance(index, count, steps) == (index + steps) % count,
    decreases steps,
{
    if steps == 0 {
        vstd::arithmetic::div_mod::lemma_small_mod(index as nat, count as nat);
    } else {
        lemma_advance_is_offset(index, count, (steps - 1) as nat);
        vstd::arithmetic::div_mod::lemma_add_mod_noop_right(1, index + steps - 1, count);
    }
}

/// Cycling through a list of `count` cursors stays inside the list, comes
/// back to the starting cursor after `count` steps, and reaches every cursor
/// of the list within `count` steps.
pub proof fn lemma_cursor_cycle(index: int, count: int, target: int)
    requires
        0 <= index < count,
        0 <= target < count,
    ensures
        forall|steps: nat| 0 <= #[trigger] spec_advance(index, count, steps) < count,
        spec_advance(index, count, count as nat) == index,
        exists|steps: nat| steps < count && spec_advance(index, count, steps) == target,
{
    assert forall|steps: nat| 0 <= #[trigger] spec_advance(index, count, steps) < count by {
        lemma_advance_is_offset(index, count, steps);
        vstd::arithmetic::div_mod::lemma_mod_bound(index + steps, count);
    }
    lemma_advance_is_offset(index, count, count as nat);
    vstd::arithmetic::div_mod::lemma_mod_multiples_vanish(1, index, count);
    vstd::arithmetic::div_mod::lemma_small_mod(index as nat, count as nat);
    vstd::arithmetic::div_mod::lemma_small_mod(target as nat, count as nat);
    let steps: nat = if target >= index {
        (target - index) as nat
    } else {
        (target - index + count) as nat
    };
    lemma_advance_is_offset(index, count, steps);
    if target < index {
        vstd::arithmetic::div_mod::lemma_mod_multiples_vanish(1, target, count);
    }
    assert(steps < count && spec_advance(index, count, steps) == target);
}

} // verus!
