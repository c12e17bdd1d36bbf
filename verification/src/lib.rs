//! A minimal real-time rendering harness: a fixed-rate frame clock, the
//! decisions of the frame loop that it paces, and the bookkeeping of mesh
//! buffers that live on a graphics device.
//!
//! The library never talks to a window or a device itself. It takes plain
//! values (elapsed nanoseconds, window events, buffer handles) and gives plain
//! values back (timesteps, naps, buffer descriptions, draw calls); the program
//! around it performs them.

pub mod clock;
pub mod gfx;
pub mod pacing;
pub mod runner;
pub mod surface;
