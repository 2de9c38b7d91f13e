//! Synchronisation bridge between an asynchronous decode engine and two
//! real-time consumers: a fixed-rate frame renderer and a queue-fed audio
//! output, kept consistent under pause, resume, seek and flush.
pub mod audio;
pub mod clock;
pub mod control;
pub mod frame;
