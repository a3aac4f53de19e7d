//! Core of a real-time audio playback engine.
//!
//! The engine decodes compressed media into interleaved PCM samples, buffers
//! them in a ring buffer owned by the audio callback, and hands the hardware
//! exactly the number of samples it asks for on every invocation.  A control
//! thread requests seeks through a single shared atomic timestamp register;
//! the callback detects a pending seek with a compare-and-swap at each packet
//! boundary.  The graphical shell, file picking and device enumeration are
//! external collaborators and live outside this library.

pub mod errors;
pub mod negotiate;
pub mod timebase;
pub mod ring;
pub mod position;
pub mod engine;
pub mod session;
