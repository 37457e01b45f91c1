//! A clock-driven animation engine: timers that can pause and reverse,
//! a frame limiter, repeat policies, and sequential composition.
//!
//! All clock readings are milliseconds from a fixed origin chosen by the
//! host; the host supplies the reading to each operation that needs it.

pub mod timer;
pub mod fps;
pub mod repeat;
pub mod animate;
pub mod animator;
pub mod then;
pub mod and_then;
