use crate::keyboard::spec_assemble;
use crate::keyboard::generate_hid_kb_report;
use crate::layout::{DispatchedCommand, ResolvedEvent};
use crate::layout::spec_dispatch;
use crate::mouse::{spec_apply_command, MouseHandler};
use crate::report::{KbModel, KeyboardReport};
use vstd::prelude::*;

verus! {

/// One key-matrix transition: a press or release at a (row, column)
/// coordinate.
#[derive(Clone, Copy, PartialEq, Eq, Debug)]
pub enum KeyEvent {
    /// Press event with coordinates (i, j).
    Press(u8, u8),
    /// Release event with coordinates (i, j).
    Release(u8, u8),
}

impl KeyEvent {
    /// The coordinates (i, j) of the event.
    pub open spec fn spec_coord(self) -> (u8, u8) {
        match self {
            KeyEvent::Press(i, j) => (i, j),
            KeyEvent::Release(i, j) => (i, j),
        }
    }

    /// Whether the event is a press.
    pub open spec fn spec_is_press(self) -> bool {
        match self {
            KeyEvent::Press(_, _) => true,
            KeyEvent::Release(_, _) => false,
        }
    }

    /// The coordinates (i, j) of the event.
    pub fn coord(self) -> (c: (u8, u8))
        ensures
            c == self.spec_coord(),
    {
        match self {
            KeyEvent::Press(i, j) => (i, j),
            KeyEvent::Release(i, j) => (i, j),
        }
    }

    /// Whether the event is a press.
    pub fn is_press(self) -> (r: bool)
        ensures
            r == self.spec_is_press(),
    {
        match self {
            KeyEvent::Press(_, _) => true,
            KeyEvent::Release(_, _) => false,
        }
    }
}

/// Ticks the auto-mouse window stays open after pointer activity; at one tick
/// per millisecond, one second.
pub const AUTO_MOUSE_TIMEOUT: usize = 1000;

/// Number of layers of the keymap; the layer value one past the last index is
/// the lighting sentinel meaning "mouse mode active".
pub const NB_LAYERS: usize = 4;

/// Whether the key event sits at the matrix coordinate reserved for the left
/// mouse click.
pub open spec fn spec_is_left_click(e: KeyEvent) -> bool {
    e.spec_coord().0 == 3 && e.spec_coord().1 == 5
}

/// Whether the key event sits at the matrix coordinate reserved for the right
/// mouse click.
pub open spec fn spec_is_right_click(e: KeyEvent) -> bool {
    e.spec_coord().0 == 3 && e.spec_coord().1 == 6
}

/// Check if the key event coordinate is the left-click coordinate.
pub fn event_is_left_click(i: u8, j: u8) -> (r: bool)
    ensures
        r == (i == 3 && j == 5),
{
    i == 3 && j == 5
}

/// Check if the key event coordinate is the right-click coordinate.
pub fn event_is_right_click(i: u8, j: u8) -> (r: bool)
    ensures
        r == (i == 3 && j == 6),
{
    i == 3 && j == 6
}

/// Core keyboard/mouse pipeline state: the auto-mouse gate, the mouse state
/// machine, the last keyboard report sent, and the lighting bookkeeping.  The
/// layout engine and the peripheral queues stay outside: each tick the caller
/// hands in what the engine resolved and carries out the returned commands.
#[derive(Clone, Copy, Debug)]
pub struct Core {
    /// Current layer, as the layout engine last resolved it.
    pub current_layer: usize,
    /// Keyboard HID report last handed out for sending.
    pub kb_report: KeyboardReport,
    /// Mouse state machine.
    pub mouse: MouseHandler,
    /// Ticks left of the auto-mouse activity window.  While this is non-zero,
    /// the mouse is considered active.  Goes down to 0 every tick.
    pub auto_mouse_timeout: usize,
    /// Need to filter next left click release
    pub filter_left_button_release: bool,
    /// Need to filter next right click release
    pub filter_right_button_release: bool,
    /// Layer value last signalled to the lighting subsystem.
    pub current_color_layer: u8,
}

/// The state after one key event.  While the window is open, a click
/// coordinate acts on the mouse, arms the release filter and re-opens the
/// window, and any other key closes the window; while it is closed, an armed
/// filter swallows the matching release, clearing itself.
pub open spec fn spec_gate_next(c: Core, e: KeyEvent) -> Core {
    let press = e.spec_is_press();
    if c.auto_mouse_timeout > 0 {
        if spec_is_left_click(e) {
            Core {
                mouse: MouseHandler { left_click: press, ..c.mouse },
                filter_left_button_release: press,
                auto_mouse_timeout: AUTO_MOUSE_TIMEOUT,
                ..c
            }
        } else if spec_is_right_click(e) {
            Core {
                mouse: MouseHandler { right_click: press, ..c.mouse },
                filter_right_button_release: press,
                auto_mouse_timeout: AUTO_MOUSE_TIMEOUT,
                ..c
            }
        } else {
            Core { auto_mouse_timeout: 0, ..c }
        }
    } else if c.filter_left_button_release && !press && spec_is_left_click(e) {
        Core { filter_left_button_release: false, ..c }
    } else if c.filter_right_button_release && !press && spec_is_right_click(e) {
        Core { filter_right_button_release: false, ..c }
    } else {
        c
    }
}

/// The event forwarded to the layout engine, if any: a click coordinate
/// while the window is open and a filtered release are consumed; everything
/// else passes through unchanged.
pub open spec fn spec_gate_forwarded(c: Core, e: KeyEvent) -> Option<KeyEvent> {
    if c.auto_mouse_timeout > 0 {
        if spec_is_left_click(e) || spec_is_right_click(e) {
            None
        } else {
            Some(e)
        }
    } else if c.filter_left_button_release && !e.spec_is_press() && spec_is_left_click(e) {
        None
    } else if c.filter_right_button_release && !e.spec_is_press() && spec_is_right_click(e) {
        None
    } else {
        Some(e)
    }
}

/// The state after the timer bookkeeping of one tick, per the lighting rule:
/// while the window is open the signalled color is forced to the mouse-mode
/// sentinel, and the instant the countdown reaches zero it reverts to the
/// current layer's value.
pub open spec fn spec_timer_next(c: Core) -> Core {
    if c.auto_mouse_timeout == 0 {
        c
    } else {
        let t = (c.auto_mouse_timeout - 1) as usize;
        if t == 0 {
            Core { auto_mouse_timeout: t, current_color_layer: c.current_layer as u8, ..c }
        } else if c.current_color_layer != NB_LAYERS as u8 {
            Core { auto_mouse_timeout: t, current_color_layer: NB_LAYERS as u8, ..c }
        } else {
            Core { auto_mouse_timeout: t, ..c }
        }
    }
}

/// The lighting signal the timer bookkeeping of one tick sends, if any.
pub open spec fn spec_timer_signal(c: Core) -> Option<u8> {
    if c.auto_mouse_timeout == 0 {
        None
    } else if c.auto_mouse_timeout == 1 {
        Some(c.current_layer as u8)
    } else if c.current_color_layer != NB_LAYERS as u8 {
        Some(NB_LAYERS as u8)
    } else {
        None
    }
}

/// The mouse state after dispatching a resolved custom event: only the
/// mouse-addressed commands touch it.
pub open spec fn spec_dispatch_mouse(m: MouseHandler, event: ResolvedEvent) -> MouseHandler {
    match spec_dispatch(event) {
        Some(DispatchedCommand::Mouse(cmd)) => spec_apply_command(m, cmd),
        _ => m,
    }
}

/// The command a resolved custom event leaves for the caller to carry out:
/// the mouse-addressed ones are applied internally and yield none.
pub open spec fn spec_dispatch_action(event: ResolvedEvent) -> Option<DispatchedCommand> {
    match spec_dispatch(event) {
        Some(DispatchedCommand::Mouse(_)) => None,
        _ => spec_dispatch(event),
    }
}

/// The report emitted for the active keycodes given the report last sent:
/// the freshly assembled report, unless it is byte-identical to the last one.
pub open spec fn spec_kb_emit(stored: KbModel, s: Seq<u8>) -> Option<KbModel> {
    if spec_assemble(s) != stored {
        Some(spec_assemble(s))
    } else {
        None
    }
}

/// What a tick hands back to the caller to carry out: at most one peripheral
/// command, at most one keyboard report to send, and at most one lighting
/// signal for a layer change.
pub struct TickOutput {
    /// Command for the sensor or lighting queue, or the update-mode reset.
    pub action: Option<DispatchedCommand>,
    /// Keyboard report to send, when it differs from the last one sent.
    pub report: Option<KeyboardReport>,
    /// Lighting signal for a layer change.
    pub layer_signal: Option<u8>,
}

impl Core {
    /// The layer index is always in range, so its lighting signal never
    /// collides with the mouse-mode sentinel.
    pub open spec fn wf(&self) -> bool {
        self.current_layer < NB_LAYERS
    }

    /// Create a new pipeline: window closed, filters cleared, nothing
    /// pressed, the all-empty report counted as already sent.
    pub fn new() -> (c: Core)
        ensures
            c == (Core {
                current_layer: 0usize,
                kb_report: c.kb_report,
                mouse: MouseHandler {
                    left_click: false,
                    right_click: false,
                    wheel_click: false,
                    ball_is_wheel: false,
                    dx: 0i16,
                    dy: 0i16,
                },
                auto_mouse_timeout: 0usize,
                filter_left_button_release: false,
                filter_right_button_release: false,
                current_color_layer: 0u8,
            }),
            c.kb_report@ == crate::report::empty_report(),
            c.wf(),
    {
        Core {
            current_layer: 0,
            kb_report: KeyboardReport::default(),
            mouse: MouseHandler::new(),
            auto_mouse_timeout: 0,
            filter_left_button_release: false,
            filter_right_button_release: false,
            current_color_layer: 0,
        }
    }

    /// Record the layer value signalled to the lighting subsystem; the caller
    /// sends the matching change-layer commands on its queues.
    pub fn set_color_layer(&mut self, layer: u8)
        ensures
            *final(self) == (Core { current_color_layer: layer, ..*old(self) }),
    {
        self.current_color_layer = layer;
    }

    /// Re-open the auto-mouse activity window; called for every mouse report
    /// that pointer activity produced.
    pub fn on_mouse_activity(&mut self)
        ensures
            *final(self) == (Core { auto_mouse_timeout: AUTO_MOUSE_TIMEOUT, ..*old(self) }),
    {
        self.auto_mouse_timeout = AUTO_MOUSE_TIMEOUT;
    }

    /// The auto-mouse gate: decide whether a key event is keyboard input,
    /// returned for forwarding to the layout engine, or a disguised mouse
    /// click, applied to the mouse state, with the release filters keeping a
    /// half press/release pair from leaking into the engine's held-key state.
    pub fn on_key_event(&mut self, event: KeyEvent) -> (forward: Option<KeyEvent>)
        ensures
            *final(self) == spec_gate_next(*old(self), event),
            forward == spec_gate_forwarded(*old(self), event),
    {
        let (i, j) = event.coord();
        let is_press = event.is_press();
        if self.auto_mouse_timeout > 0 {
            self.auto_mouse_timeout -= 1;
            if event_is_left_click(i, j) {
                self.mouse.on_left_click(is_press);
                self.filter_left_button_release = is_press;
                self.auto_mouse_timeout = AUTO_MOUSE_TIMEOUT;
                None
            } else if event_is_right_click(i, j) {
                self.mouse.on_right_click(is_press);
                self.filter_right_button_release = is_press;
                self.auto_mouse_timeout = AUTO_MOUSE_TIMEOUT;
                None
            } else {
                // Not a mouse event: the window closes and the event is
                // ordinary keyboard input.
                self.auto_mouse_timeout = 0;
                Some(event)
            }
        } else if self.filter_left_button_release && !is_press && event_is_left_click(i, j) {
            self.filter_left_button_release = false;
            None
        } else if self.filter_right_button_release && !is_press && event_is_right_click(i, j) {
            self.filter_right_button_release = false;
            None
        } else {
            Some(event)
        }
    }

    /// The per-tick timer bookkeeping: count the activity window down by one
    /// and return the lighting signal owed, the mouse-mode sentinel while the
    /// window stays open, the current layer's value the moment it closes.
    pub fn tick_timer(&mut self) -> (signal: Option<u8>)
        ensures
            *final(self) == spec_timer_next(*old(self)),
            signal == spec_timer_signal(*old(self)),
    {
        if self.auto_mouse_timeout > 0 {
            self.auto_mouse_timeout -= 1;
            if self.auto_mouse_timeout == 0 {
                let layer = self.current_layer as u8;
                self.set_color_layer(layer);
                Some(layer)
            } else if self.current_color_layer != NB_LAYERS as u8 {
                self.set_color_layer(NB_LAYERS as u8);
                Some(NB_LAYERS as u8)
            } else {
                None
            }
        } else {
            None
        }
    }

    /// Dispatch the custom event the layout engine resolved this tick: apply
    /// mouse commands to the mouse state, and hand any sensor, lighting or
    /// reset command back for the caller to carry out.
    pub fn process_custom_event(&mut self, event: ResolvedEvent) -> (action: Option<
        DispatchedCommand,
    >)
        ensures
            *final(self) == (Core {
                mouse: spec_dispatch_mouse(old(self).mouse, event),
                ..*old(self)
            }),
            action == spec_dispatch_action(event),
    {
        match crate::layout::process_custom_event(event) {
            Some(DispatchedCommand::Mouse(cmd)) => {
                self.mouse.handle_command_event(cmd);
                None
            },
            other => other,
        }
    }

    /// Assemble the keyboard report for the active keycodes and return it for
    /// sending only when it differs from the last one sent, so an unchanged
    /// keycode/modifier set never floods the host.
    pub fn update_kb_report(&mut self, keycodes: &Vec<u8>) -> (emitted: Option<KeyboardReport>)
        ensures
            *final(self) == (Core { kb_report: final(self).kb_report, ..*old(self) }),
            final(self).kb_report@ == spec_assemble(keycodes@),
            match emitted {
                Some(r) => spec_kb_emit(old(self).kb_report@, keycodes@) == Some(r@),
                None => spec_kb_emit(old(self).kb_report@, keycodes@) is None,
            },
    {
        let new_report = generate_hid_kb_report(keycodes);
        if !new_report.same_as(&self.kb_report) {
            self.kb_report = new_report;
            Some(new_report)
        } else {
            None
        }
    }

    /// Take the layer the layout engine resolved; on a change, return the
    /// lighting signal owed for it.
    pub fn update_layer(&mut self, new_layer: usize) -> (signal: Option<u8>)
        requires
            new_layer < NB_LAYERS,
        ensures
            *final(self) == (Core {
                current_layer: new_layer,
                current_color_layer: final(self).current_color_layer,
                ..*old(self)
            }),
            final(self).wf(),
            new_layer != old(self).current_layer ==> signal == Some(new_layer as u8)
                && final(self).current_color_layer == new_layer as u8,
            new_layer == old(self).current_layer ==> signal is None
                && final(self).current_color_layer == old(self).current_color_layer,
    {
        if new_layer != self.current_layer {
            self.current_layer = new_layer;
            let layer = new_layer as u8;
            self.set_color_layer(layer);
            Some(layer)
        } else {
            None
        }
    }

    /// One tick of the pipeline, after the caller drained the queued key
    /// events through `on_key_event` and advanced the layout engine: dispatch
    /// the resolved custom event, assemble and de-duplicate the keyboard
    /// report, and take up a layer change.  The caller carries out what comes
    /// back.
    pub fn tick(&mut self, custom_event: ResolvedEvent, keycodes: &Vec<u8>, new_layer: usize) -> (out:
        TickOutput)
        requires
            new_layer < NB_LAYERS,
        ensures
            final(self).wf(),
            final(self).mouse == spec_dispatch_mouse(old(self).mouse, custom_event),
            out.action == spec_dispatch_action(custom_event),
            final(self).kb_report@ == spec_assemble(keycodes@),
            match out.report {
                Some(r) => spec_kb_emit(old(self).kb_report@, keycodes@) == Some(r@),
                None => spec_kb_emit(old(self).kb_report@, keycodes@) is None,
            },
            final(self).current_layer == new_layer,
            out.layer_signal == (if new_layer != old(self).current_layer {
                Some(new_layer as u8)
            } else {
                None::<u8>
            }),
            final(self).current_color_layer == (if new_layer != old(self).current_layer {
                new_layer as u8
            } else {
                old(self).current_color_layer
            }),
            final(self).auto_mouse_timeout == old(self).auto_mouse_timeout,
            final(self).filter_left_button_release == old(self).filter_left_button_release,
            final(self).filter_right_button_release == old(self).filter_right_button_release,
    {
        let action = self.process_custom_event(custom_event);
        let report = self.update_kb_report(keycodes);
        let layer_signal = self.update_layer(new_layer);
        TickOutput { action, report, layer_signal }
    }
}

/// De-duplication law: whatever the input sequences, two keyboard reports
/// emitted one after the other are never byte-identical, because the first
/// becomes the stored report the second is compared against.
pub proof fn lemma_no_duplicate_consecutive(
    stored: KbModel,
    s1: Seq<u8>,
    s2: Seq<u8>,
    r1: KbModel,
    r2: KbModel,
)
    requires
        spec_kb_emit(stored, s1) == Some(r1),
        spec_kb_emit(r1, s2) == Some(r2),
    ensures
        r1 != r2,
{
}

/// Timer decay law: absent activity, each tick lowers an open activity
/// window's countdown by exactly one, and a closed window stays at zero, so
/// the countdown never goes negative.
pub proof fn lemma_timer_decay(c: Core)
    ensures
        c.auto_mouse_timeout > 0 ==> spec_timer_next(c).auto_mouse_timeout == c.auto_mouse_timeout
            - 1,
        c.auto_mouse_timeout == 0 ==> spec_timer_next(c).auto_mouse_timeout == 0,
{
}

/// Timer reset law: a click at a reserved coordinate while the window is
/// open re-opens it to the configured maximum.
pub proof fn lemma_timer_reset_on_click(c: Core, e: KeyEvent)
    requires
        c.auto_mouse_timeout > 0,
        spec_is_left_click(e) || spec_is_right_click(e),
    ensures
        spec_gate_next(c, e).auto_mouse_timeout == AUTO_MOUSE_TIMEOUT,
{
}

/// Redirection law: while the activity window is open, an event at a
/// reserved click coordinate never reaches the layout engine; it acts on the
/// mouse button instead and arms the release filter to its press flag.
pub proof fn lemma_click_redirected(c: Core, e: KeyEvent)
    requires
        c.auto_mouse_timeout > 0,
        spec_is_left_click(e) || spec_is_right_click(e),
    ensures
        spec_gate_forwarded(c, e) is None,
        spec_is_left_click(e) ==> spec_gate_next(c, e).mouse.left_click == e.spec_is_press()
            && spec_gate_next(c, e).filter_left_button_release == e.spec_is_press(),
        spec_is_right_click(e) ==> spec_gate_next(c, e).mouse.right_click == e.spec_is_press()
            && spec_gate_next(c, e).filter_right_button_release == e.spec_is_press(),
{
}

/// Filter law: while a release filter is armed, the matching release at its
/// click coordinate never reaches the layout engine, whether the window is
/// still open (it acts on the mouse button) or already closed (it is
/// swallowed, clearing the filter).
pub proof fn lemma_filtered_release_consumed(c: Core, e: KeyEvent)
    requires
        !e.spec_is_press(),
        spec_is_left_click(e) && c.filter_left_button_release || spec_is_right_click(e)
            && c.filter_right_button_release,
    ensures
        spec_gate_forwarded(c, e) is None,
{
}

/// Idle law: while the window is closed and no filter is armed, every key
/// event passes through to the layout engine unchanged as ordinary keyboard
/// input, and the state does not change.
pub proof fn lemma_idle_gate_forwards(c: Core, e: KeyEvent)
    requires
        c.auto_mouse_timeout == 0,
        !c.filter_left_button_release,
        !c.filter_right_button_release,
    ensures
        spec_gate_forwarded(c, e) == Some(e),
        spec_gate_next(c, e) == c,
{
}

} // verus!
