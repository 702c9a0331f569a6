//! Verified core of a micro:bit board support library: the wire formats
//! spoken over the radio, the receive cycle of the radio, the multiplexing
//! of the 5x5 LED matrix and the scheduled-transition state machine that
//! drives the animations.

pub mod datagram;
pub mod package;
pub mod radio;
pub mod scan;
pub mod display;
pub mod leds;
pub mod state;
