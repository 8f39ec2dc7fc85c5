//! Encoding of civil time into the WWVB amplitude-shift-keyed time code.
//!
//! The library covers the binary-coded-decimal encoder, the one-minute frame
//! encoder, the symbol queue between producer and modulator, and the decisions
//! of the amplitude-shift-keying modulator. Audio output, threads and clocks
//! live with the program that drives it.

pub mod bcd_encoder;
pub mod calendar;
pub mod symbol;
pub mod wwvb_encoder;
pub mod symbol_queue;
pub mod dst;
pub mod wwvb_amplitude_shift_keying_modulator;
