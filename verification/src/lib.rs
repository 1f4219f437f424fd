//! Frame scheduler for a double-buffered compute simulation on a 2D grid.
//!
//! Every frame the host advances a fixed-period clock, lets the phase state
//! machine look at the readiness of the two compute programs, asks the
//! dispatcher which program to run against which pair of surfaces, and asks
//! the presenter which surface to show. The decisions are made here; the
//! host carries them out on the device.

pub mod clock;
pub mod grid;
pub mod pipeline;
pub mod surface;
pub mod presenter;
pub mod machine;
pub mod dispatch;
pub mod run;
