//! Audio devices, sample conversion and the per-packet work of the audio threads.
pub mod capture;
pub mod device;
pub mod loopback;
pub mod pcm;
pub mod render;
pub mod session_monitor;
