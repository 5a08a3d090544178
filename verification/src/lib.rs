//! Input-processing core of a programmable keyboard that carries a trackball.
//!
//! Raw key-matrix transitions and raw motion samples are turned into USB HID
//! keyboard and mouse reports.  The crate holds the stateful pieces worth
//! proving: the auto-mouse gate that lets two matrix coordinates act as mouse
//! buttons while the pointer was recently active, the 6-key-rollover keyboard
//! report assembler with its overflow policy, the mouse state machine with its
//! ball-is-wheel reinterpretation, and the dispatcher for custom layout
//! events.  The layout-resolution engine, the USB transports and the
//! peripheral queues are external collaborators: callers hand their outputs in
//! as plain values and carry the returned commands out.

pub mod keyboard;
pub mod layout;
pub mod mouse;
pub mod pipeline;
pub mod report;
