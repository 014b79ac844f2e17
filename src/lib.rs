//! Control layer of a 4-bit educational CPU simulator: bit-level editing of
//! ports and program memory, a run/idle clock, and the on/off indicators that
//! show every bit of state.
pub mod bitbutton;
pub mod bits;
pub mod circle;
pub mod clock;
pub mod style;
pub mod td4_gui;
