use vstd::prelude::*;

verus! {

/// Abstract value of a keyboard HID report: the modifier bitmask and the six
/// keycode slots as a sequence.  Contracts and lemmas speak of this model.
#[verifier::ext_equal]
pub struct KbModel {
    /// Modifier bitmask, one bit per modifier key.
    pub modifier: u8,
    /// The six keycode slots; a slot holds 0 when empty.
    pub slots: Seq<u8>,
}

/// The model of a report with no modifier and all six slots empty.
pub open spec fn empty_report() -> KbModel {
    KbModel { modifier: 0, slots: Seq::new(6, |i: int| 0u8) }
}

/// The model of an error report: modifier cleared, every slot holding the
/// error keycode `kc`.
pub open spec fn error_report(kc: u8) -> KbModel {
    KbModel { modifier: 0, slots: Seq::new(6, |i: int| kc) }
}

/// USB keyboard HID report: one modifier bitmask byte and six keycode slots,
/// a slot holding 0 when empty.
#[derive(Clone, Copy, PartialEq, Eq, Debug)]
pub struct KeyboardReport {
    /// Modifier bitmask, one bit per modifier key.
    pub modifier: u8,
    /// The six keycode slots.
    pub keycodes: [u8; 6],
}

impl View for KeyboardReport {
    type V = KbModel;

    open spec fn view(&self) -> KbModel {
        KbModel { modifier: self.modifier, slots: self.keycodes@ }
    }
}

impl KeyboardReport {
    /// The all-empty report, the state a fresh pipeline has already "sent".
    pub fn empty() -> (r: KeyboardReport)
        ensures
            r@ == empty_report(),
    {
        let r = KeyboardReport { modifier: 0, keycodes: [0u8; 6] };
        proof {
            assert(r@.slots =~= empty_report().slots);
            assert(r@ =~= empty_report());
        }
        r
    }

    /// Whether two reports carry the same bytes; emission is gated on this.
    pub fn same_as(&self, other: &KeyboardReport) -> (r: bool)
        ensures
            r <==> self@ == other@,
    {
        if self.modifier != other.modifier {
            return false;
        }
        let mut i: usize = 0;
        while i < 6
            invariant
                i <= 6,
                self.modifier == other.modifier,
                forall|k: int| 0 <= k < i ==> self.keycodes@[k] == other.keycodes@[k],
            decreases 6 - i,
        {
            if self.keycodes[i] != other.keycodes[i] {
                assert(self@.slots[i as int] != other@.slots[i as int]);
                return false;
            }
            i += 1;
        }
        proof {
            assert(self@.slots =~= other@.slots);
            assert(self@ =~= other@);
        }
        true
    }
}

impl Default for KeyboardReport {
    /// The default report is the all-empty one.
    fn default() -> (r: KeyboardReport)
        ensures
            r@ == empty_report(),
    {
        KeyboardReport::empty()
    }
}

/// USB mouse HID report: x/y motion deltas, button bitmask, one scroll-wheel
/// step and a pan value that this device never uses.
#[derive(Clone, Copy, PartialEq, Eq, Structural, Debug)]
pub struct MouseReport {
    /// Horizontal motion delta.
    pub x: i16,
    /// Vertical motion delta.
    pub y: i16,
    /// Button bitmask: bit 0 left, bit 1 right, bit 2 middle.
    pub buttons: u8,
    /// Scroll-wheel step: -1, 0 or 1.
    pub wheel: i8,
    /// Horizontal pan; always 0 on this device.
    pub pan: i8,
}

/// The idle mouse report: no motion, no buttons, no wheel step.
pub open spec fn empty_mouse_report() -> MouseReport {
    MouseReport { x: 0, y: 0, buttons: 0, wheel: 0, pan: 0 }
}

} // verus!
