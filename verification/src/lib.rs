//! Coprocessor cores of a Nintendo 64 emulator: the MIPS64 scalar
//! floating-point unit (COP1) and the RSP vector unit (COP2).
//!
//! COP1 operates on raw IEEE-754 bit patterns held in a 32-entry file of
//! 64-bit registers; the arithmetic itself is delegated to software
//! floating-point crates behind trusted wrappers. COP2 is an 8-lane signed
//! 16-bit SIMD engine with a 48-bit-per-lane accumulator, carry/not-equal
//! flag vectors, element-routing permutations and byte-granular vector
//! loads/stores against a 4 KiB data memory.

pub mod bytesio;
pub mod cop1;
pub mod cop2;
pub mod fpmath;
pub mod vmem;
