use crate::report::{empty_mouse_report, MouseReport};
use vstd::prelude::*;

verus! {

/// A command for the mouse state machine, resolved from a custom layout
/// event.
#[derive(Clone, Copy, PartialEq, Eq, Debug)]
pub enum MouseCommand {
    /// Press the right button.
    PressRightClick,
    /// Release the right button.
    ReleaseRightClick,
    /// Press the left button.
    PressLeftClick,
    /// Release the left button.
    ReleaseLeftClick,
    /// Press the middle (wheel) button.
    PressWheelClick,
    /// Release the middle (wheel) button.
    ReleaseWheelClick,
    /// Start treating ball motion as wheel motion.
    PressBallIsWheel,
    /// Stop treating ball motion as wheel motion.
    ReleaseBallIsWheel,
}

/// A motion sample from the pointer sensor.
#[derive(Clone, Copy, PartialEq, Eq, Structural, Debug)]
pub struct MouseMove {
    /// Delta X
    pub dx: i16,
    /// Delta Y
    pub dy: i16,
}

/// Vertical motion magnitude above which a sample counts as one wheel step
/// while ball-is-wheel mode is active.
pub const WHEEL_THRESHOLD: i16 = 16;

/// The mouse state machine: button and mode flags plus the last motion
/// sample.  Flags change only by explicit commands; the motion sample is
/// overwritten, not accumulated, by each new sample.
#[derive(Clone, Copy, PartialEq, Eq, Structural, Debug)]
pub struct MouseHandler {
    /// Left click is pressed
    pub left_click: bool,
    /// Right click is pressed
    pub right_click: bool,
    /// Middle click is pressed
    pub wheel_click: bool,
    /// Moving the ball is actually moving the wheel
    pub ball_is_wheel: bool,
    /// Last delta X
    pub dx: i16,
    /// Last delta Y
    pub dy: i16,
}

/// The state after applying one command: exactly one flag is set or cleared.
pub open spec fn spec_apply_command(m: MouseHandler, event: MouseCommand) -> MouseHandler {
    match event {
        MouseCommand::PressRightClick => MouseHandler { right_click: true, ..m },
        MouseCommand::ReleaseRightClick => MouseHandler { right_click: false, ..m },
        MouseCommand::PressLeftClick => MouseHandler { left_click: true, ..m },
        MouseCommand::ReleaseLeftClick => MouseHandler { left_click: false, ..m },
        MouseCommand::PressWheelClick => MouseHandler { wheel_click: true, ..m },
        MouseCommand::ReleaseWheelClick => MouseHandler { wheel_click: false, ..m },
        MouseCommand::PressBallIsWheel => MouseHandler { ball_is_wheel: true, ..m },
        MouseCommand::ReleaseBallIsWheel => MouseHandler { ball_is_wheel: false, ..m },
    }
}

/// The button bitmask assembled from the three button flags.
pub open spec fn spec_buttons(m: MouseHandler) -> u8 {
    (if m.left_click {
        1u8
    } else {
        0u8
    }) | (if m.right_click {
        2u8
    } else {
        0u8
    }) | (if m.wheel_click {
        4u8
    } else {
        0u8
    })
}

/// The report generated from the state: while ball-is-wheel is active, x/y
/// and buttons are suppressed and a large vertical motion becomes one wheel
/// step; otherwise the last motion sample and the button bitmask pass
/// through.
pub open spec fn spec_mouse_report(m: MouseHandler) -> MouseReport {
    if m.ball_is_wheel {
        MouseReport {
            wheel: if m.dy > WHEEL_THRESHOLD {
                -1i8
            } else if m.dy < -WHEEL_THRESHOLD {
                1i8
            } else {
                0i8
            },
            ..empty_mouse_report()
        }
    } else {
        MouseReport { x: m.dx, y: m.dy, buttons: spec_buttons(m), ..empty_mouse_report() }
    }
}

impl MouseHandler {
    /// A fresh state: nothing pressed, no mode active, no motion seen.
    pub fn new() -> (r: MouseHandler)
        ensures
            r == (MouseHandler {
                left_click: false,
                right_click: false,
                wheel_click: false,
                ball_is_wheel: false,
                dx: 0i16,
                dy: 0i16,
            }),
    {
        MouseHandler {
            left_click: false,
            right_click: false,
            wheel_click: false,
            ball_is_wheel: false,
            dx: 0,
            dy: 0,
        }
    }

    /// Apply a command: set or clear the one flag it names.
    pub fn handle_command_event(&mut self, event: MouseCommand)
        ensures
            *final(self) == spec_apply_command(*old(self), event),
    {
        match event {
            MouseCommand::PressRightClick => self.right_click = true,
            MouseCommand::ReleaseRightClick => self.right_click = false,
            MouseCommand::PressLeftClick => self.left_click = true,
            MouseCommand::ReleaseLeftClick => self.left_click = false,
            MouseCommand::PressWheelClick => self.wheel_click = true,
            MouseCommand::ReleaseWheelClick => self.wheel_click = false,
            MouseCommand::PressBallIsWheel => self.ball_is_wheel = true,
            MouseCommand::ReleaseBallIsWheel => self.ball_is_wheel = false,
        }
    }

    /// Record a motion sample, overwriting the previous one.
    pub fn handle_move_event(&mut self, movement: MouseMove)
        ensures
            *final(self) == (MouseHandler { dx: movement.dx, dy: movement.dy, ..*old(self) }),
    {
        self.dx = movement.dx;
        self.dy = movement.dy;
    }

    /// Set or clear the left button, as a redirected matrix event asks.
    pub fn on_left_click(&mut self, is_press: bool)
        ensures
            *final(self) == (MouseHandler { left_click: is_press, ..*old(self) }),
    {
        self.left_click = is_press;
    }

    /// Set or clear the right button, as a redirected matrix event asks.
    pub fn on_right_click(&mut self, is_press: bool)
        ensures
            *final(self) == (MouseHandler { right_click: is_press, ..*old(self) }),
    {
        self.right_click = is_press;
    }

    /// Set or clear the middle button.
    pub fn on_middle_click(&mut self, is_press: bool)
        ensures
            *final(self) == (MouseHandler { wheel_click: is_press, ..*old(self) }),
    {
        self.wheel_click = is_press;
    }

    /// Enter or leave ball-is-wheel mode.
    pub fn on_ball_is_wheel(&mut self, is_press: bool)
        ensures
            *final(self) == (MouseHandler { ball_is_wheel: is_press, ..*old(self) }),
    {
        self.ball_is_wheel = is_press;
    }

    /// Generate the mouse HID report from the current state; the state is not
    /// changed.
    pub fn generate_hid_report(&mut self) -> (r: MouseReport)
        ensures
            *final(self) == *old(self),
            r == spec_mouse_report(*old(self)),
    {
        if self.ball_is_wheel {
            let wheel: i8 = if self.dy > WHEEL_THRESHOLD {
                -1
            } else if self.dy < -WHEEL_THRESHOLD {
                1
            } else {
                0
            };
            MouseReport { x: 0, y: 0, buttons: 0, wheel, pan: 0 }
        } else {
            let buttons: u8 = (if self.left_click {
                1u8
            } else {
                0u8
            }) | (if self.right_click {
                2u8
            } else {
                0u8
            }) | (if self.wheel_click {
                4u8
            } else {
                0u8
            });
            MouseReport { x: self.dx, y: self.dy, buttons, wheel: 0, pan: 0 }
        }
    }
}

/// Ball-is-wheel threshold law: while the mode is active, a sample with dy
/// above the threshold yields wheel -1 with x and y suppressed, one below its
/// negation yields wheel 1, and anything else yields no wheel step; while the
/// mode is inactive, x and y pass through from the sample and the wheel stays
/// 0.
pub proof fn lemma_ball_is_wheel_threshold(m: MouseHandler)
    ensures
        m.ball_is_wheel && m.dy > WHEEL_THRESHOLD ==> spec_mouse_report(m) == (MouseReport {
            x: 0i16,
            y: 0i16,
            buttons: 0u8,
            wheel: -1i8,
            pan: 0i8,
        }),
        m.ball_is_wheel && m.dy < -WHEEL_THRESHOLD ==> spec_mouse_report(m) == (MouseReport {
            x: 0i16,
            y: 0i16,
            buttons: 0u8,
            wheel: 1i8,
            pan: 0i8,
        }),
        m.ball_is_wheel && -WHEEL_THRESHOLD <= m.dy <= WHEEL_THRESHOLD ==> spec_mouse_report(
            m,
        ).wheel == 0,
        !m.ball_is_wheel ==> spec_mouse_report(m).x == m.dx && spec_mouse_report(m).y == m.dy
            && spec_mouse_report(m).wheel == 0,
{
}

} // verus!
