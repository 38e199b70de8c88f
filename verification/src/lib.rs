//! A binding layer for 3D positional audio: listener state, reverb effect
//! lifecycle, and buffered sound data.
//!
//! The externally owned audio subsystem (the context, its object model and
//! its error flag) is represented by an explicit capability object,
//! [`context::AudioContext`], that every operation takes. Its contracts give
//! the observable meaning of each call: what the listener state becomes,
//! which handles are allocated or released, and when the error flag is set.

pub mod context;
pub mod listener;
pub mod reverb_effect;
pub mod sound_data;
