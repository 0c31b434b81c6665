//! A fixed-size grid of time-leased cells.
//!
//! Each cell of the grid can be claimed (repainted) while it is free; a
//! successful claim sets the cell's content and holds the cell until a
//! computed expiry instant, with the hold extendable by attaching payment
//! above a minimum threshold. The host environment supplies the current
//! logical time and the attached payment explicitly, which keeps every
//! operation a pure function of its arguments.

pub mod addressing;
pub mod canvas;
pub mod errors;
pub mod laws;

pub use addressing::coords_to_index;
pub use canvas::Canvas;
pub use canvas::CanvasPixel;
pub use canvas::ClaimEvent;
pub use canvas::LeaseState;
pub use canvas::PixelStatus;
pub use canvas::EXTRA_FACTOR;
pub use canvas::MIN_BOOKING_TIME;
pub use canvas::MIN_DEPOSIT;
pub use errors::CanvasError;
