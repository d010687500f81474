//! Control of two DC motor channels from single command bytes.
//!
//! A command byte carries two four-bit selectors, one per motor. Each selector
//! names a direction (`direction`); a motor channel turns the direction it is
//! given into levels on its output lines, after correcting for its wiring
//! (`motor`, `line`); and each byte that was carried out is acknowledged
//! (`command`).
//!
//! The library itself touches no hardware. Whoever owns the pins and the
//! serial link hands it the bytes that arrive, and writes out the levels and
//! the acknowledgments that come back.

pub mod command;
pub mod direction;
pub mod line;
pub mod motor;
