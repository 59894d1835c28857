//! Control of the RGB backlight of a Logitech G213 keyboard.
//!
//! The crate resolves colour arguments (hex values, named X11 colours,
//! random picks, per-region lists) into 24-bit colour values, encodes
//! each lighting mode into the fixed-length command the keyboard
//! expects, and drives the USB handshake that delivers it.

pub mod commands;
pub mod g213_keyboard;
pub mod text;
pub mod x11_colours;
pub mod x11_data;
