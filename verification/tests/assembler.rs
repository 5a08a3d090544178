use keycore::keyboard::{generate_hid_kb_report, keyboard_report_set_error};
use keycore::report::KeyboardReport;

#[test]
fn empty_keycode_set_gives_empty_report() {
    let r = generate_hid_kb_report(&vec![]);
    assert_eq!(r.modifier, 0);
    assert_eq!(r.keycodes, [0, 0, 0, 0, 0, 0]);
}

#[test]
fn plain_keys_fill_slots_in_order() {
    let r = generate_hid_kb_report(&vec![4, 5, 6]);
    assert_eq!(r.modifier, 0);
    assert_eq!(r.keycodes, [4, 5, 6, 0, 0, 0]);
}

#[test]
fn noop_keycodes_are_skipped() {
    let r = generate_hid_kb_report(&vec![0, 4, 0, 5]);
    assert_eq!(r.modifier, 0);
    assert_eq!(r.keycodes, [4, 5, 0, 0, 0, 0]);
}

#[test]
fn modifiers_accumulate_into_bitmask() {
    let r = generate_hid_kb_report(&vec![0xE0, 4, 0xE1, 0xE7]);
    assert_eq!(r.modifier, 0b1000_0011);
    assert_eq!(r.keycodes, [4, 0, 0, 0, 0, 0]);
}

#[test]
fn six_keys_fit_exactly() {
    let r = generate_hid_kb_report(&vec![4, 5, 6, 7, 8, 9]);
    assert_eq!(r.modifier, 0);
    assert_eq!(r.keycodes, [4, 5, 6, 7, 8, 9]);
}

#[test]
fn seven_keys_give_rollover_error_report() {
    let r = generate_hid_kb_report(&vec![4, 5, 6, 7, 8, 9, 10]);
    assert_eq!(r.modifier, 0);
    assert_eq!(r.keycodes, [1, 1, 1, 1, 1, 1]);
}

#[test]
fn explicit_error_keycode_forces_error_report() {
    let r = generate_hid_kb_report(&vec![0xE0, 4, 2]);
    assert_eq!(r.modifier, 0);
    assert_eq!(r.keycodes, [2, 2, 2, 2, 2, 2]);
}

#[test]
fn assembling_same_set_twice_is_identical() {
    let keys = vec![4, 0xE1, 5, 30, 31];
    let r1 = generate_hid_kb_report(&keys);
    let r2 = generate_hid_kb_report(&keys);
    assert_eq!(r1, r2);
}

#[test]
fn set_error_overwrites_whole_report() {
    let mut r = generate_hid_kb_report(&vec![0xE0, 4, 5]);
    keyboard_report_set_error(&mut r, 1);
    assert_eq!(r.modifier, 0);
    assert_eq!(r.keycodes, [1, 1, 1, 1, 1, 1]);
}

#[test]
fn same_as_compares_by_value() {
    let a = generate_hid_kb_report(&vec![4, 5]);
    let b = generate_hid_kb_report(&vec![4, 5]);
    let c = generate_hid_kb_report(&vec![4, 6]);
    let d = generate_hid_kb_report(&vec![4, 5, 0xE0]);
    assert!(a.same_as(&b));
    assert!(!a.same_as(&c));
    assert!(!a.same_as(&d));
}

#[test]
fn default_report_is_empty() {
    let r = KeyboardReport::default();
    assert_eq!(r.modifier, 0);
    assert_eq!(r.keycodes, [0, 0, 0, 0, 0, 0]);
}
