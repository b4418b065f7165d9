//! What the window's events do.
pub mod audio_control_events;
