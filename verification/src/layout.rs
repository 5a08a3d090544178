use crate::mouse::MouseCommand;
use vstd::prelude::*;

verus! {

/// A custom event resolved by the layout engine: a non-standard-keycode
/// action bound to a key position, mostly mouse related.
#[derive(Clone, Copy, PartialEq, Eq, Debug)]
pub enum CustomEvent {
    /// Mouse left click
    MouseLeftClick,
    /// Mouse right click
    MouseRightClick,
    /// Mouse Wheel click
    MouseWheelClick,
    /// Ball is wheel
    BallIsWheel,
    /// Increase sensor CPI
    IncreaseCpi,
    /// Decrease sensor CPI
    DecreaseCpi,
    /// Next Animation of the RGB LEDs
    NextLedAnimation,
    /// Reset to usb mass storage
    ResetToUsbMassStorage,
}

/// At most one custom event comes out of the layout engine per tick, tagged
/// press or release.
#[derive(Clone, Copy, PartialEq, Eq, Debug)]
pub enum ResolvedEvent {
    /// No custom event this tick.
    NoEvent,
    /// A custom event was pressed.
    Press(CustomEvent),
    /// A custom event was released.
    Release(CustomEvent),
}

/// A command for the pointer sensor driver.
#[derive(Clone, Copy, PartialEq, Eq, Debug)]
pub enum SensorCommand {
    /// Raise the sensor sensitivity.
    IncreaseCpi,
    /// Lower the sensor sensitivity.
    DecreaseCpi,
}

/// A command for the lighting subsystem.
#[derive(Clone, Copy, PartialEq, Eq, Debug)]
pub enum AnimCommand {
    /// Advance to the next animation.
    Next,
    /// Show the color of the given layer, or of the mouse-mode sentinel.
    ChangeLayer(u8),
}

/// The one command a resolved custom event maps to, addressed to the
/// subsystem that carries it out.
#[derive(Clone, Copy, PartialEq, Eq, Debug)]
pub enum DispatchedCommand {
    /// For the mouse state machine.
    Mouse(MouseCommand),
    /// For the pointer sensor driver.
    Sensor(SensorCommand),
    /// For the lighting subsystem.
    Anim(AnimCommand),
    /// Reset the device into firmware-update (USB mass storage) mode.
    ResetToUsbMassStorage,
}

/// The command that a resolved custom event dispatches to: presses and
/// releases of the mouse-related events map to the matching mouse command;
/// sensitivity, lighting and reset events act on the press alone.
pub open spec fn spec_dispatch(event: ResolvedEvent) -> Option<DispatchedCommand> {
    match event {
        ResolvedEvent::NoEvent => None,
        ResolvedEvent::Press(e) => match e {
            CustomEvent::MouseLeftClick => Some(
                DispatchedCommand::Mouse(MouseCommand::PressLeftClick),
            ),
            CustomEvent::MouseRightClick => Some(
                DispatchedCommand::Mouse(MouseCommand::PressRightClick),
            ),
            CustomEvent::MouseWheelClick => Some(
                DispatchedCommand::Mouse(MouseCommand::PressWheelClick),
            ),
            CustomEvent::BallIsWheel => Some(
                DispatchedCommand::Mouse(MouseCommand::PressBallIsWheel),
            ),
            CustomEvent::IncreaseCpi => Some(
                DispatchedCommand::Sensor(SensorCommand::IncreaseCpi),
            ),
            CustomEvent::DecreaseCpi => Some(
                DispatchedCommand::Sensor(SensorCommand::DecreaseCpi),
            ),
            CustomEvent::NextLedAnimation => Some(DispatchedCommand::Anim(AnimCommand::Next)),
            CustomEvent::ResetToUsbMassStorage => Some(DispatchedCommand::ResetToUsbMassStorage),
        },
        ResolvedEvent::Release(e) => match e {
            CustomEvent::MouseLeftClick => Some(
                DispatchedCommand::Mouse(MouseCommand::ReleaseLeftClick),
            ),
            CustomEvent::MouseRightClick => Some(
                DispatchedCommand::Mouse(MouseCommand::ReleaseRightClick),
            ),
            CustomEvent::MouseWheelClick => Some(
                DispatchedCommand::Mouse(MouseCommand::ReleaseWheelClick),
            ),
            CustomEvent::BallIsWheel => Some(
                DispatchedCommand::Mouse(MouseCommand::ReleaseBallIsWheel),
            ),
            CustomEvent::IncreaseCpi => None,
            CustomEvent::DecreaseCpi => None,
            CustomEvent::NextLedAnimation => None,
            CustomEvent::ResetToUsbMassStorage => None,
        },
    }
}

/// Map a resolved custom event to the command it dispatches, if any.  The
/// caller sends the command on the matching peripheral queue.
pub fn process_custom_event(event: ResolvedEvent) -> (r: Option<DispatchedCommand>)
    ensures
        r == spec_dispatch(event),
{
    match event {
        ResolvedEvent::NoEvent => None,
        ResolvedEvent::Press(e) => match e {
            CustomEvent::MouseLeftClick => Some(
                DispatchedCommand::Mouse(MouseCommand::PressLeftClick),
            ),
            CustomEvent::MouseRightClick => Some(
                DispatchedCommand::Mouse(MouseCommand::PressRightClick),
            ),
            CustomEvent::MouseWheelClick => Some(
                DispatchedCommand::Mouse(MouseCommand::PressWheelClick),
            ),
            CustomEvent::BallIsWheel => Some(
                DispatchedCommand::Mouse(MouseCommand::PressBallIsWheel),
            ),
            CustomEvent::IncreaseCpi => Some(
                DispatchedCommand::Sensor(SensorCommand::IncreaseCpi),
            ),
            CustomEvent::DecreaseCpi => Some(
                DispatchedCommand::Sensor(SensorCommand::DecreaseCpi),
            ),
            CustomEvent::NextLedAnimation => Some(DispatchedCommand::Anim(AnimCommand::Next)),
            CustomEvent::ResetToUsbMassStorage => Some(DispatchedCommand::ResetToUsbMassStorage),
        },
        ResolvedEvent::Release(e) => match e {
            CustomEvent::MouseLeftClick => Some(
                DispatchedCommand::Mouse(MouseCommand::ReleaseLeftClick),
            ),
            CustomEvent::MouseRightClick => Some(
                DispatchedCommand::Mouse(MouseCommand::ReleaseRightClick),
            ),
            CustomEvent::MouseWheelClick => Some(
                DispatchedCommand::Mouse(MouseCommand::ReleaseWheelClick),
            ),
            CustomEvent::BallIsWheel => Some(
                DispatchedCommand::Mouse(MouseCommand::ReleaseBallIsWheel),
            ),
            CustomEvent::IncreaseCpi => None,
            CustomEvent::DecreaseCpi => None,
            CustomEvent::NextLedAnimation => None,
            CustomEvent::ResetToUsbMassStorage => None,
        },
    }
}

} // verus!
