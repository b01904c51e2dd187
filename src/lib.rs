//! Panel protocol driver for an RM67162 AMOLED controller on a quad-wide
//! serial bus, a line-streaming render bridge on top of it, and a translator
//! from touch-controller samples to pointer events.
//!
//! Every operation is a pure function from the driver's state and its
//! arguments to a plan: the exact sequence of bus transactions (and settle
//! delays) that the caller performs, in order, on the hardware.
pub mod bridge;
pub mod driver;
pub mod protocol;
pub mod touch;

pub use bridge::DisplayWrapper;
pub use driver::{Orientation, Pixel, Rect, Size, Step, RM67162};
pub use protocol::{DataPhase, Transaction, TransferMode};
pub use touch::{PointerEvent, TouchKind, TouchPoint, TouchTranslator};
