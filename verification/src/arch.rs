//! Per-architecture relocation-type catalogs.
//!
//! Each module maps the architecture's relocation numbers to a named variant,
//! with an `Unknown` catch-all that preserves unrecognized codes.

pub mod aarch64;
pub mod arm;
pub mod riscv;
pub mod x86;
pub mod x86_64;
