//! Colour values, protocol framing and channel state for addressable LED
//! strips.
//!
//! Hue, saturation and value are real numbers in the unit interval. This
//! library never computes with them: it carries each channel as the bit
//! pattern of its IEEE-754 binary32 encoding, orders and clamps it on that
//! pattern, and lays it out in bytes. The arithmetic on the numbers themselves
//! belongs to the caller.

pub mod bits;
pub mod colors;
pub mod leds;
pub mod patterns;
pub mod sprites;
pub mod state;
