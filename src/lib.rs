//! Time keeping on top of a free-running 64-bit microsecond counter that the
//! hardware exposes as two 32-bit halves.
//!
//! The library holds the arithmetic and the decisions: how two halves make one
//! counter value, when a sample of the halves is consistent, and when a
//! busy-wait has reached its deadline. Reading the registers themselves is left
//! to the caller, who hands the sampled values in.
pub mod clock;
pub mod sleep;
