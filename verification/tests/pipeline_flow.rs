use keycore::layout::{
    AnimCommand, CustomEvent, DispatchedCommand, ResolvedEvent, SensorCommand,
    process_custom_event,
};
use keycore::mouse::{MouseCommand, MouseMove};
use keycore::pipeline::{
    AUTO_MOUSE_TIMEOUT, Core, KeyEvent, NB_LAYERS, event_is_left_click, event_is_right_click,
};

#[test]
fn click_coordinates_are_recognized() {
    assert!(event_is_left_click(3, 5));
    assert!(!event_is_left_click(3, 6));
    assert!(event_is_right_click(3, 6));
    assert!(!event_is_right_click(2, 6));
}

#[test]
fn new_core_is_idle() {
    let c = Core::new();
    assert_eq!(c.auto_mouse_timeout, 0);
    assert_eq!(c.current_layer, 0);
    assert_eq!(c.current_color_layer, 0);
    assert!(!c.filter_left_button_release);
    assert!(!c.filter_right_button_release);
    assert_eq!(c.kb_report.keycodes, [0, 0, 0, 0, 0, 0]);
}

#[test]
fn idle_press_at_left_click_coordinate_is_forwarded() {
    // The window is closed, so the left-click coordinate is an ordinary key.
    let mut c = Core::new();
    let forwarded = c.on_key_event(KeyEvent::Press(3, 5));
    assert_eq!(forwarded, Some(KeyEvent::Press(3, 5)));
    assert!(!c.mouse.left_click);
    assert!(!c.filter_left_button_release);
}

#[test]
fn active_press_at_left_click_coordinate_is_redirected() {
    let mut c = Core::new();
    c.on_mouse_activity();
    assert_eq!(c.auto_mouse_timeout, AUTO_MOUSE_TIMEOUT);
    let forwarded = c.on_key_event(KeyEvent::Press(3, 5));
    assert_eq!(forwarded, None);
    assert!(c.mouse.left_click);
    assert!(c.filter_left_button_release);
    assert_eq!(c.auto_mouse_timeout, AUTO_MOUSE_TIMEOUT);
}

#[test]
fn matching_release_is_consumed_after_window_closes() {
    let mut c = Core::new();
    c.on_mouse_activity();
    assert_eq!(c.on_key_event(KeyEvent::Press(3, 5)), None);
    // The window runs out before the finger lifts.
    c.auto_mouse_timeout = 0;
    let forwarded = c.on_key_event(KeyEvent::Release(3, 5));
    assert_eq!(forwarded, None);
    assert!(!c.filter_left_button_release);
    // The next release at the same coordinate is ordinary keyboard input.
    assert_eq!(c.on_key_event(KeyEvent::Release(3, 5)), Some(KeyEvent::Release(3, 5)));
}

#[test]
fn matching_release_within_window_releases_the_button() {
    let mut c = Core::new();
    c.on_mouse_activity();
    assert_eq!(c.on_key_event(KeyEvent::Press(3, 6)), None);
    assert!(c.mouse.right_click);
    let forwarded = c.on_key_event(KeyEvent::Release(3, 6));
    assert_eq!(forwarded, None);
    assert!(!c.mouse.right_click);
    assert!(!c.filter_right_button_release);
}

#[test]
fn other_key_cancels_mouse_mode() {
    let mut c = Core::new();
    c.on_mouse_activity();
    let forwarded = c.on_key_event(KeyEvent::Press(1, 2));
    assert_eq!(forwarded, Some(KeyEvent::Press(1, 2)));
    assert_eq!(c.auto_mouse_timeout, 0);
}

#[test]
fn motion_then_click_sets_button_without_reaching_layout() {
    let mut c = Core::new();
    c.mouse.handle_move_event(MouseMove { dx: 5, dy: 3 });
    c.on_mouse_activity();
    let forwarded = c.on_key_event(KeyEvent::Press(3, 5));
    assert_eq!(forwarded, None);
    let r = c.mouse.generate_hid_report();
    assert_eq!((r.x, r.y), (5, 3));
    assert_eq!(r.buttons, 1);
}

#[test]
fn timer_counts_down_by_one_per_tick_to_zero() {
    let mut c = Core::new();
    c.on_mouse_activity();
    let mut expected = AUTO_MOUSE_TIMEOUT;
    while expected > 0 {
        let before = c.auto_mouse_timeout;
        c.tick_timer();
        expected -= 1;
        assert_eq!(c.auto_mouse_timeout, before - 1);
    }
    assert_eq!(c.auto_mouse_timeout, 0);
    c.tick_timer();
    assert_eq!(c.auto_mouse_timeout, 0);
}

#[test]
fn lighting_shows_sentinel_while_active_and_layer_after() {
    let mut c = Core::new();
    c.on_mouse_activity();
    // First tick forces the mouse-mode sentinel.
    assert_eq!(c.tick_timer(), Some(NB_LAYERS as u8));
    assert_eq!(c.current_color_layer, NB_LAYERS as u8);
    // While the color already shows the sentinel nothing more is sent.
    assert_eq!(c.tick_timer(), None);
    // The instant the window closes, the signal reverts to the layer.
    c.auto_mouse_timeout = 1;
    assert_eq!(c.tick_timer(), Some(0));
    assert_eq!(c.current_color_layer, 0);
}

#[test]
fn custom_events_map_to_their_commands() {
    assert_eq!(process_custom_event(ResolvedEvent::NoEvent), None);
    assert_eq!(
        process_custom_event(ResolvedEvent::Press(CustomEvent::MouseLeftClick)),
        Some(DispatchedCommand::Mouse(MouseCommand::PressLeftClick))
    );
    assert_eq!(
        process_custom_event(ResolvedEvent::Release(CustomEvent::MouseLeftClick)),
        Some(DispatchedCommand::Mouse(MouseCommand::ReleaseLeftClick))
    );
    assert_eq!(
        process_custom_event(ResolvedEvent::Press(CustomEvent::MouseRightClick)),
        Some(DispatchedCommand::Mouse(MouseCommand::PressRightClick))
    );
    assert_eq!(
        process_custom_event(ResolvedEvent::Release(CustomEvent::MouseWheelClick)),
        Some(DispatchedCommand::Mouse(MouseCommand::ReleaseWheelClick))
    );
    assert_eq!(
        process_custom_event(ResolvedEvent::Press(CustomEvent::BallIsWheel)),
        Some(DispatchedCommand::Mouse(MouseCommand::PressBallIsWheel))
    );
    assert_eq!(
        process_custom_event(ResolvedEvent::Press(CustomEvent::IncreaseCpi)),
        Some(DispatchedCommand::Sensor(SensorCommand::IncreaseCpi))
    );
    assert_eq!(
        process_custom_event(ResolvedEvent::Press(CustomEvent::DecreaseCpi)),
        Some(DispatchedCommand::Sensor(SensorCommand::DecreaseCpi))
    );
    assert_eq!(
        process_custom_event(ResolvedEvent::Press(CustomEvent::NextLedAnimation)),
        Some(DispatchedCommand::Anim(AnimCommand::Next))
    );
    assert_eq!(
        process_custom_event(ResolvedEvent::Press(CustomEvent::ResetToUsbMassStorage)),
        Some(DispatchedCommand::ResetToUsbMassStorage)
    );
    // Releases of the one-shot actions dispatch nothing.
    assert_eq!(process_custom_event(ResolvedEvent::Release(CustomEvent::IncreaseCpi)), None);
    assert_eq!(process_custom_event(ResolvedEvent::Release(CustomEvent::DecreaseCpi)), None);
    assert_eq!(process_custom_event(ResolvedEvent::Release(CustomEvent::NextLedAnimation)), None);
    assert_eq!(
        process_custom_event(ResolvedEvent::Release(CustomEvent::ResetToUsbMassStorage)),
        None
    );
}

#[test]
fn core_applies_mouse_commands_and_returns_the_rest() {
    let mut c = Core::new();
    let action = c.process_custom_event(ResolvedEvent::Press(CustomEvent::MouseWheelClick));
    assert_eq!(action, None);
    assert!(c.mouse.wheel_click);
    let action = c.process_custom_event(ResolvedEvent::Press(CustomEvent::IncreaseCpi));
    assert_eq!(action, Some(DispatchedCommand::Sensor(SensorCommand::IncreaseCpi)));
    let action = c.process_custom_event(ResolvedEvent::Press(CustomEvent::NextLedAnimation));
    assert_eq!(action, Some(DispatchedCommand::Anim(AnimCommand::Next)));
}

#[test]
fn ball_is_wheel_event_then_large_motion_scrolls() {
    let mut c = Core::new();
    c.process_custom_event(ResolvedEvent::Press(CustomEvent::BallIsWheel));
    assert!(c.mouse.ball_is_wheel);
    c.mouse.handle_move_event(MouseMove { dx: 0, dy: 20 });
    let r = c.mouse.generate_hid_report();
    assert_eq!((r.x, r.y, r.wheel), (0, 0, -1));
}

#[test]
fn unchanged_report_is_not_emitted_twice() {
    let mut c = Core::new();
    let keys = vec![4, 5];
    let first = c.update_kb_report(&keys);
    assert!(first.is_some());
    let second = c.update_kb_report(&keys);
    assert_eq!(second, None);
    // A changed set is emitted again.
    let third = c.update_kb_report(&vec![4, 5, 6]);
    assert!(third.is_some());
}

#[test]
fn empty_set_on_fresh_core_emits_nothing() {
    let mut c = Core::new();
    assert_eq!(c.update_kb_report(&vec![]), None);
}

#[test]
fn seven_pressed_keys_emit_the_rollover_report() {
    let mut c = Core::new();
    let emitted = c.update_kb_report(&vec![4, 5, 6, 7, 8, 9, 10]);
    let r = emitted.expect("the error report differs from the empty one");
    assert_eq!(r.modifier, 0);
    assert_eq!(r.keycodes, [1, 1, 1, 1, 1, 1]);
}

#[test]
fn layer_change_signals_lighting_once() {
    let mut c = Core::new();
    assert_eq!(c.update_layer(0), None);
    assert_eq!(c.update_layer(2), Some(2));
    assert_eq!(c.current_layer, 2);
    assert_eq!(c.current_color_layer, 2);
    assert_eq!(c.update_layer(2), None);
}

#[test]
fn tick_combines_dispatch_report_and_layer() {
    let mut c = Core::new();
    let out = c.tick(ResolvedEvent::Press(CustomEvent::DecreaseCpi), &vec![4], 1);
    assert_eq!(out.action, Some(DispatchedCommand::Sensor(SensorCommand::DecreaseCpi)));
    let r = out.report.expect("first report differs from the empty one");
    assert_eq!(r.keycodes, [4, 0, 0, 0, 0, 0]);
    assert_eq!(out.layer_signal, Some(1));
    // A second identical tick has nothing new to say but the sensor command.
    let out = c.tick(ResolvedEvent::Press(CustomEvent::DecreaseCpi), &vec![4], 1);
    assert!(out.report.is_none());
    assert_eq!(out.layer_signal, None);
}
