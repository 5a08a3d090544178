use crate::report::{error_report, empty_report, KbModel, KeyboardReport};
use vstd::prelude::*;

verus! {

/// The no-op keycode: a slot holding it is empty.
pub const KC_NO: u8 = 0;
/// The roll-over error keycode, reported when more keys are held than fit.
pub const KC_ERROR_ROLLOVER: u8 = 1;
/// The POST-fail error keycode.
pub const KC_POST_FAIL: u8 = 2;
/// The undefined-error keycode.
pub const KC_ERROR_UNDEFINED: u8 = 3;
/// The lowest modifier keycode (left control).
pub const KC_FIRST_MODIFIER: u8 = 0xE0;
/// The highest modifier keycode (right GUI).
pub const KC_LAST_MODIFIER: u8 = 0xE7;

/// Whether `kc` is one of the three error keycodes that force an error report.
pub open spec fn is_error_code(kc: u8) -> bool {
    kc == KC_ERROR_ROLLOVER || kc == KC_POST_FAIL || kc == KC_ERROR_UNDEFINED
}

/// Whether `kc` is a modifier keycode, accumulated into the modifier bitmask.
pub open spec fn is_modifier_code(kc: u8) -> bool {
    KC_FIRST_MODIFIER <= kc && kc <= KC_LAST_MODIFIER
}

/// Whether `kc` occupies a report slot: neither a no-op, an error code nor a
/// modifier.
pub open spec fn is_normal_code(kc: u8) -> bool {
    kc != KC_NO && !is_error_code(kc) && !is_modifier_code(kc)
}

/// The modifier bitmask bit that the modifier keycode `kc` contributes.
pub open spec fn spec_modifier_bit(kc: u8) -> u8
    recommends
        is_modifier_code(kc),
{
    1u8 << ((kc - KC_FIRST_MODIFIER) as u8)
}

/// The index of the first empty slot at or after `i`, or the length when none
/// is empty.
pub open spec fn first_empty_from(slots: Seq<u8>, i: int) -> int
    decreases slots.len() - i,
{
    if i < 0 || i >= slots.len() {
        slots.len() as int
    } else if slots[i] == KC_NO {
        i
    } else {
        first_empty_from(slots, i + 1)
    }
}

/// The index of the first empty slot, or the length when none is empty.
pub open spec fn first_empty(slots: Seq<u8>) -> int {
    first_empty_from(slots, 0)
}

/// How one keycode changes the report under assembly: a no-op is skipped, an
/// error code forces the error report, a modifier accumulates into the
/// bitmask, and any other code takes the first empty slot, or forces the
/// roll-over error report when none is left.
pub open spec fn assemble_step(m: KbModel, kc: u8) -> KbModel {
    if kc == KC_NO {
        m
    } else if is_error_code(kc) {
        error_report(kc)
    } else if is_modifier_code(kc) {
        KbModel { modifier: m.modifier | spec_modifier_bit(kc), ..m }
    } else if first_empty(m.slots) < m.slots.len() {
        KbModel { slots: m.slots.update(first_empty(m.slots), kc), ..m }
    } else {
        error_report(KC_ERROR_ROLLOVER)
    }
}

/// The report assembled from the active keycodes `s`, in iteration order,
/// starting from the empty report.
pub open spec fn spec_assemble(s: Seq<u8>) -> KbModel
    decreases s.len(),
{
    if s.len() == 0 {
        empty_report()
    } else {
        assemble_step(spec_assemble(s.drop_last()), s.last())
    }
}

/// Set a report to the error state for keycode `kc`: modifier cleared, every
/// slot holding `kc`.
pub fn keyboard_report_set_error(report: &mut KeyboardReport, kc: u8)
    ensures
        final(report)@ == error_report(kc),
{
    report.modifier = 0;
    report.keycodes = [kc; 6];
    proof {
        assert(report@.slots =~= error_report(kc).slots);
        assert(report@ =~= error_report(kc));
    }
}

/// Put `kc` into the first empty slot of `report`, or set the roll-over error
/// state when no slot is left.
#[verifier::loop_isolation(false)]
fn fill_first_slot(report: &mut KeyboardReport, kc: u8)
    requires
        is_normal_code(kc),
    ensures
        final(report)@ == assemble_step(old(report)@, kc),
{
    assert(report.keycodes@.len() == 6);
    let ghost m0 = report@;
    let mut i: usize = 0;
    while i < 6
        invariant
            i <= 6,
            m0.slots.len() == 6,
            report@ == m0,
            first_empty(m0.slots) == first_empty_from(m0.slots, i as int),
            forall|k: int| 0 <= k < i ==> m0.slots[k] != KC_NO,
        decreases 6 - i,
    {
        if report.keycodes[i] == 0 {
            assert(first_empty(m0.slots) == i);
            report.keycodes[i] = kc;
            assert(report@.slots =~= m0.slots.update(i as int, kc));
            assert(report@ =~= assemble_step(m0, kc));
            return;
        }
        i += 1;
    }
    assert(first_empty(m0.slots) == 6);
    keyboard_report_set_error(report, KC_ERROR_ROLLOVER);
}

/// Assemble the keyboard HID report from the active keycodes, in their
/// iteration order: modifiers accumulate into the bitmask, up to six other
/// keycodes take slots, and any overflow or explicit error keycode yields the
/// well-defined error report instead of silently dropping a key.
pub fn generate_hid_kb_report(keycodes: &Vec<u8>) -> (r: KeyboardReport)
    ensures
        r@ == spec_assemble(keycodes@),
{
    let mut report = KeyboardReport::empty();
    let mut i: usize = 0;
    while i < keycodes.len()
        invariant
            i <= keycodes@.len(),
            report@ == spec_assemble(keycodes@.take(i as int)),
        decreases keycodes@.len() - i,
    {
        let kc = keycodes[i];
        proof {
            assert(keycodes@.take(i + 1).drop_last() =~= keycodes@.take(i as int));
            assert(keycodes@.take(i + 1).last() == keycodes@[i as int]);
        }
        if kc == KC_NO {
            // an inactive slot of the layout: skipped
        } else if kc == KC_ERROR_ROLLOVER || kc == KC_POST_FAIL || kc == KC_ERROR_UNDEFINED {
            keyboard_report_set_error(&mut report, kc);
        } else if KC_FIRST_MODIFIER <= kc && kc <= KC_LAST_MODIFIER {
            report.modifier = report.modifier | (1u8 << (kc - KC_FIRST_MODIFIER));
        } else {
            fill_first_slot(&mut report, kc);
        }
        i += 1;
    }
    proof {
        assert(keycodes@.take(keycodes@.len() as int) =~= keycodes@);
    }
    report
}

/// How many keycodes of `s` occupy a report slot.
pub open spec fn normal_count(s: Seq<u8>) -> nat
    decreases s.len(),
{
    if s.len() == 0 {
        0
    } else {
        normal_count(s.drop_last()) + if is_normal_code(s.last()) {
            1nat
        } else {
            0nat
        }
    }
}

/// Whether `s` holds neither modifier nor explicit error keycodes.
pub open spec fn plain_codes(s: Seq<u8>) -> bool {
    forall|i: int|
        0 <= i < s.len() ==> !is_modifier_code(#[trigger] s[i]) && !is_error_code(s[i])
}

proof fn lemma_first_empty_bounds(slots: Seq<u8>, i: int)
    requires
        0 <= i <= slots.len(),
    ensures
        i <= first_empty_from(slots, i) <= slots.len(),
    decreases slots.len() - i,
{
    if i < slots.len() && slots[i] != KC_NO {
        lemma_first_empty_bounds(slots, i + 1);
    }
}

proof fn lemma_first_empty_at(slots: Seq<u8>, i: int, j: int)
    requires
        0 <= i <= j <= slots.len(),
        forall|k: int| i <= k < j ==> slots[k] != KC_NO,
        j == slots.len() || slots[j] == KC_NO,
    ensures
        first_empty_from(slots, i) == j,
    decreases j - i,
{
    if i < j {
        lemma_first_empty_at(slots, i + 1, j);
    }
}

/// While assembling plain keycodes, the report stays in lockstep with the
/// count of slot-occupying keycodes seen so far: the first `normal_count`
/// slots are filled, the rest empty, until the seventh such keycode forces
/// the roll-over error report, which then persists.
proof fn lemma_assemble_plain(s: Seq<u8>)
    requires
        plain_codes(s),
    ensures
        spec_assemble(s).modifier == 0,
        spec_assemble(s).slots.len() == 6,
        normal_count(s) <= 6 ==> forall|i: int|
            0 <= i < 6 ==> ((#[trigger] spec_assemble(s).slots[i]) != KC_NO <==> i < normal_count(
                s,
            )),
        normal_count(s) > 6 ==> spec_assemble(s) == error_report(KC_ERROR_ROLLOVER),
    decreases s.len(),
{
    if s.len() == 0 {
        assert(spec_assemble(s) == empty_report());
    } else {
        let s0 = s.drop_last();
        let kc = s.last();
        assert(plain_codes(s0)) by {
            assert(forall|i: int| 0 <= i < s0.len() ==> s0[i] == s[i]);
        }
        lemma_assemble_plain(s0);
        let m0 = spec_assemble(s0);
        let nc0 = normal_count(s0);
        if kc == KC_NO {
            assert(spec_assemble(s) == m0);
        } else {
            assert(is_normal_code(kc));
            if nc0 < 6 {
                lemma_first_empty_at(m0.slots, 0, nc0 as int);
                assert(spec_assemble(s).slots =~= m0.slots.update(nc0 as int, kc));
            } else if nc0 == 6 {
                lemma_first_empty_at(m0.slots, 0, 6);
                assert(spec_assemble(s) == error_report(KC_ERROR_ROLLOVER));
            } else {
                assert(m0 == error_report(KC_ERROR_ROLLOVER));
                assert(forall|k: int| 0 <= k < 6 ==> m0.slots[k] == KC_ERROR_ROLLOVER);
                lemma_first_empty_at(m0.slots, 0, 6);
                assert(spec_assemble(s) == error_report(KC_ERROR_ROLLOVER));
            }
        }
    }
}

/// An assembled report never represents more than six slot-occupying
/// keycodes: it always has exactly six slots.
pub proof fn lemma_report_capacity(s: Seq<u8>)
    ensures
        spec_assemble(s).slots.len() == 6,
    decreases s.len(),
{
    if s.len() == 0 {
        assert(spec_assemble(s) == empty_report());
        assert(empty_report().slots.len() == 6);
    } else {
        lemma_report_capacity(s.drop_last());
        let m0 = spec_assemble(s.drop_last());
        let kc = s.last();
        assert(spec_assemble(s) == assemble_step(m0, kc));
        assert(error_report(kc).slots.len() == 6);
        assert(error_report(KC_ERROR_ROLLOVER).slots.len() == 6);
        if kc == KC_NO {
        } else if is_error_code(kc) {
            assert(assemble_step(m0, kc).slots.len() == 6);
        } else if is_modifier_code(kc) {
            assert(assemble_step(m0, kc).slots == m0.slots);
        } else if first_empty(m0.slots) < m0.slots.len() {
            lemma_first_empty_bounds(m0.slots, 0);
            assert(assemble_step(m0, kc).slots.len() == m0.slots.len());
        } else {
            assert(assemble_step(m0, kc).slots.len() == 6);
        }
    }
}

/// When more slot-occupying keycodes are active than the six slots can hold,
/// the assembled report is the canonical roll-over error report, not a
/// truncated one; stated for inputs without modifier or explicit error
/// keycodes, whose later occurrence would alter the error report again.
pub proof fn lemma_rollover_overflow(s: Seq<u8>)
    requires
        plain_codes(s),
        normal_count(s) > 6,
    ensures
        spec_assemble(s) == error_report(KC_ERROR_ROLLOVER),
{
    lemma_assemble_plain(s);
}

/// The assembler is a pure function of the active keycode sequence: feeding
/// it the same sequence twice yields bit-identical reports.
pub proof fn lemma_assemble_deterministic(s1: Seq<u8>, s2: Seq<u8>)
    requires
        s1 == s2,
    ensures
        spec_assemble(s1) == spec_assemble(s2),
{
}

} // verus!
