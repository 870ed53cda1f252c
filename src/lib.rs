//! Polling decoder for a mechanical rotary encoder with an optional push-button.

pub mod encoder;
pub mod laws;
pub mod pin;
pub mod rotary;

pub use pin::{InfallibleInputPin, InputPin};
pub use rotary::{Direction, Rotary, RotaryError, RotaryInfallible};
pub use encoder::{Action, Encoder, EncoderError, EncoderInfallible, EncoderState};
