//! The logic of a small popup that shows and controls the default audio
//! output and input: reading `wpctl` and `pactl` output, deciding which
//! commands to run, and deciding what each part of the popup shows.
pub mod audio;
pub mod command;
pub mod devices;
pub mod error;
pub mod laws;
pub mod text;
pub mod view;
