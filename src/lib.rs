//! A packed, fixed-layout state for a cube puzzle: twelve edge slots and
//! eight corner slots, each one byte, laid out over two 128-bit lanes.
//! Typed views (slots, lanes, raw words) are projections over the same
//! bytes, and every accessor states exactly which bytes it reads or writes.

pub mod cube;
pub mod lane;
pub mod laws;
pub mod parity;
pub mod slot;
pub mod types;
pub mod word;
