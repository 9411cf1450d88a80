//! Control-transfer engine and class dispatch for a USB device stack.
//!
//! The crate has no I/O of its own. A transport feeds SETUP, OUT-data and
//! status events into a [`ControlPipe`]; the pipe is then offered to the
//! registered [`UsbClass`] implementations, which answer through the one-shot
//! handles [`ControlIn`] and [`ControlOut`]. Every state of the pipe has a
//! mathematical model, [`PipeState`], and every operation is specified as a
//! transition of that model.

pub mod class;
pub mod control;
pub mod control_pipe;
pub mod descriptor;
pub mod dispatch;
pub mod error;
pub mod identifiers;

pub use class::{ControlIn, ControlOut, UsbClass};
pub use control::{Direction, Recipient, Request, RequestType};
pub use control_pipe::{ControlPipe, ControlState, PipeState};
pub use descriptor::{BosWriter, DescriptorWriter};
pub use error::UsbError;
pub use identifiers::{EndpointAddress, InterfaceNumber, StringIndex};
