//! Control MMIO and CPU registers at the level of their bits.
//!
//! The library is built from a small algebra:
//!
//! - `get_bits` and `set_bits` read and write an inclusive range of bits of
//!   a fixed-width unsigned integer (`Int`);
//! - a `Value` is a partial write of a register: a mask and the bits to put
//!   under it, applied with `Value::modify` without touching other bits;
//! - a `Field` is the mask of some bits together with a permission
//!   (`perm`), and combining fields combines their permissions;
//! - `register` describes the fields of a register (single bits, enumerated
//!   ranges and flag groups) and reads and writes them through a register
//!   access, which is a CPU register (`cpu`) or an MMIO address (`mmio`).
mod sealed;

pub mod bits;
pub mod cpu;
pub mod field;
pub mod mmio;
pub mod num;
pub mod perm;
pub mod register;
pub mod value;

pub use bits::{get_bits, set_bits};
pub use field::Field;
pub use num::Int;
pub use value::Value;
