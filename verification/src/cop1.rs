//! COP1, the MIPS64 scalar floating-point unit.
//!
//! Thirty-two 64-bit registers hold raw IEEE-754 bit patterns; an opcode's
//! format field selects single (low 32 bits) or double precision. Arithmetic
//! goes through the software floating-point wrappers of `fpmath`; absolute
//! value and negation are pure sign-bit operations and are computed here.

use vstd::prelude::*;
use crate::fpmath::{
    f32_add_of, f32_sub_of, f32_mul_of, f32_div_of, f32_sqrt_of, f32_to_int_of, f64_add_of,
    f64_sub_of, f64_mul_of, f64_div_of, f64_sqrt_of, f64_to_int_of, f32_add_bits, f32_sub_bits,
    f32_mul_bits, f32_div_bits, f32_sqrt_bits, f32_to_int_bits, f64_add_bits, f64_sub_bits,
    f64_mul_bits, f64_div_bits, f64_sqrt_bits, f64_to_int_bits,
};

verus! {

/// Why a COP1 instruction was refused. The hardware model treats every such
/// case as fatal to emulation; the payload is the offending opcode.
#[derive(Clone, Copy, PartialEq, Eq, Structural, Debug)]
pub enum Cop1Error {
    /// The function field selects an operation this core does not implement.
    UnimplementedFunc(u32),
    /// The format field is neither single nor double precision.
    UnimplementedFmt(u32),
    /// A float-to-integer conversion whose value has no representation in
    /// the destination width (or is NaN); hardware would raise an FPU
    /// exception this core does not model.
    ConvertRange(u32),
}

/// Operand precision, decoded from the opcode's format field.
#[derive(Clone, Copy, PartialEq, Eq, Structural)]
pub enum FpFmt {
    Single,
    Double,
}

/// The scalar floating-point register file: 32 slots of 64 raw bits.
pub struct Cop1 {
    regs: Vec<u64>,
}

/// The register index fields of a COP1 opcode.
pub open spec fn fop_func(op: u32) -> u32 {
    op & 0x3f
}

pub open spec fn fop_rs(op: u32) -> int {
    ((op >> 11u32) & 0x1f) as int
}

pub open spec fn fop_rt(op: u32) -> int {
    ((op >> 16u32) & 0x1f) as int
}

pub open spec fn fop_rd(op: u32) -> int {
    ((op >> 6u32) & 0x1f) as int
}

/// Field extraction on 32-bit opcodes stays inside the register file's
/// bounds.
proof fn lemma_opcode_fields()
    by (bit_vector)
    ensures
        forall|op: u32| 0 <= #[trigger] ((op >> 11u32) & 0x1f) < 32,
        forall|op: u32| 0 <= #[trigger] ((op >> 16u32) & 0x1f) < 32,
        forall|op: u32| 0 <= #[trigger] ((op >> 6u32) & 0x1f) < 32,
        forall|op: u32| #[trigger] (op & 0x3f) < 64,
{
}

/// What one arithmetic or conversion step writes into the destination
/// register, given the register file before the step; `None` marks an
/// out-of-range conversion.
pub open spec fn fop_value(fmt: FpFmt, regs: Seq<u64>, op: u32) -> Option<u64> {
    let f = fop_func(op);
    let a = regs[fop_rs(op)];
    let b = regs[fop_rt(op)];
    match fmt {
        FpFmt::Single => {
            let x = a as u32;
            let y = b as u32;
            if f == 0x00 {
                Some(f32_add_of(x, y) as u64)
            } else if f == 0x01 {
                Some(f32_sub_of(x, y) as u64)
            } else if f == 0x02 {
                Some(f32_mul_of(x, y) as u64)
            } else if f == 0x03 {
                Some(f32_div_of(x, y) as u64)
            } else if f == 0x04 {
                Some(f32_sqrt_of(x) as u64)
            } else if f == 0x05 {
                Some((x & 0x7fff_ffff) as u64)
            } else if f == 0x07 {
                Some((x ^ 0x8000_0000) as u64)
            } else {
                match f32_to_int_of(x, f < 0x0c, (f & 3) as u8) {
                    Some(v) => Some(v as u64),
                    None => None,
                }
            }
        },
        FpFmt::Double => {
            if f == 0x00 {
                Some(f64_add_of(a, b))
            } else if f == 0x01 {
                Some(f64_sub_of(a, b))
            } else if f == 0x02 {
                Some(f64_mul_of(a, b))
            } else if f == 0x03 {
                Some(f64_div_of(a, b))
            } else if f == 0x04 {
                Some(f64_sqrt_of(a))
            } else if f == 0x05 {
                Some(a & 0x7fff_ffff_ffff_ffff)
            } else if f == 0x07 {
                Some(a ^ 0x8000_0000_0000_0000)
            } else {
                match f64_to_int_of(a, f < 0x0c, (f & 3) as u8) {
                    Some(v) => Some(v as u64),
                    None => None,
                }
            }
        },
    }
}

/// The function codes this core implements: arithmetic 0x00..0x05 and 0x07,
/// conversions 0x08..0x0f.
pub open spec fn fop_known(op: u32) -> bool {
    fop_func(op) <= 0x0f && fop_func(op) != 0x06
}

/// One decoded COP1 instruction: the opcode and its operand precision.
pub struct Fop {
    pub opcode: u32,
    pub fmt: FpFmt,
}

impl Fop {
    /// The function field, bits 5..0.
    pub fn func(&self) -> (r: u32)
        ensures
            r == fop_func(self.opcode),
            r < 64,
    {
        proof {
            lemma_opcode_fields();
        }
        self.opcode & 0x3f
    }

    /// The fs register index, bits 15..11.
    pub fn rs(&self) -> (r: usize)
        ensures
            r == fop_rs(self.opcode),
            r < 32,
    {
        proof {
            lemma_opcode_fields();
        }
        ((self.opcode >> 11u32) & 0x1f) as usize
    }

    /// The ft register index, bits 20..16.
    pub fn rt(&self) -> (r: usize)
        ensures
            r == fop_rt(self.opcode),
            r < 32,
    {
        proof {
            lemma_opcode_fields();
        }
        ((self.opcode >> 16u32) & 0x1f) as usize
    }

    /// The fd register index, bits 10..6.
    pub fn rd(&self) -> (r: usize)
        ensures
            r == fop_rd(self.opcode),
            r < 32,
    {
        proof {
            lemma_opcode_fields();
        }
        ((self.opcode >> 6u32) & 0x1f) as usize
    }

    /// The raw bits of the fs operand register.
    pub fn fs(&self, cop: &Cop1) -> (r: u64)
        requires
            cop.wf(),
        ensures
            r == cop.regs()[fop_rs(self.opcode)],
    {
        let i = self.rs();
        cop.regs[i]
    }

    /// The raw bits of the ft operand register.
    pub fn ft(&self, cop: &Cop1) -> (r: u64)
        requires
            cop.wf(),
        ensures
            r == cop.regs()[fop_rt(self.opcode)],
    {
        let i = self.rt();
        cop.regs[i]
    }

    /// Writes an arithmetic result into the fd register. Single-precision
    /// callers pass the 32-bit pattern zero-extended: the upper half of the
    /// slot is zero after an f32 write.
    pub fn set_fd(&self, cop: &mut Cop1, v: u64)
        requires
            old(cop).wf(),
        ensures
            final(cop).wf(),
            final(cop).regs() == old(cop).regs().update(fop_rd(self.opcode), v),
    {
        let i = self.rd();
        cop.regs[i] = v;
    }

    /// Writes a 64-bit integer conversion result, raw, into the fd register.
    pub fn mfd64(&self, cop: &mut Cop1, v: u64)
        requires
            old(cop).wf(),
        ensures
            final(cop).wf(),
            final(cop).regs() == old(cop).regs().update(fop_rd(self.opcode), v),
    {
        let i = self.rd();
        cop.regs[i] = v;
    }
}

impl Cop1 {
    /// The register file as a sequence of 32 raw 64-bit values.
    pub closed spec fn regs(self) -> Seq<u64> {
        self.regs@
    }

    pub open spec fn wf(self) -> bool {
        self.regs().len() == 32
    }

    /// A fresh unit: every register zero.
    pub fn new() -> (r: Cop1)
        ensures
            r.wf(),
            forall|i: int| 0 <= i < 32 ==> r.regs()[i] == 0,
    {
        let mut regs: Vec<u64> = Vec::new();
        let mut i: usize = 0;
        while i < 32
            invariant
                i <= 32,
                regs@.len() == i,
                forall|j: int| 0 <= j < i ==> regs@[j] == 0,
            decreases 32 - i,
        {
            regs.push(0);
            i = i + 1;
        }
        Cop1 { regs }
    }

    /// Reads one register's raw bits.
    pub fn fpr(&self, idx: usize) -> (r: u64)
        requires
            self.wf(),
            idx < 32,
        ensures
            r == self.regs()[idx as int],
    {
        self.regs[idx]
    }

    /// Overwrites one register's raw bits.
    pub fn set_fpr(&mut self, idx: usize, v: u64)
        requires
            old(self).wf(),
            idx < 32,
        ensures
            final(self).wf(),
            final(self).regs() == old(self).regs().update(idx as int, v),
    {
        self.regs[idx] = v;
    }

    /// Executes one instruction of the given precision: arithmetic writes
    /// `fop_value` into fd; a conversion out of range, or an unimplemented
    /// function code, is refused with the register file untouched.
    pub fn fop(&mut self, fmt: FpFmt, opcode: u32) -> (r: Result<(), Cop1Error>)
        requires
            old(self).wf(),
        ensures
            final(self).wf(),
            match r {
                Ok(()) => fop_known(opcode) && fop_value(fmt, old(self).regs(), opcode) is Some
                    && final(self).regs() == old(self).regs().update(
                    fop_rd(opcode),
                    fop_value(fmt, old(self).regs(), opcode)->Some_0,
                ),
                Err(Cop1Error::UnimplementedFunc(o)) => o == opcode && !fop_known(opcode)
                    && *final(self) == *old(self),
                Err(Cop1Error::ConvertRange(o)) => o == opcode && fop_known(opcode) && fop_value(
                    fmt,
                    old(self).regs(),
                    opcode,
                ) is None && *final(self) == *old(self),
                Err(_) => false,
            },
    {
        let f = Fop { opcode, fmt };
        let func = f.func();
        if func <= 0x05 || func == 0x07 {
            let a = f.fs(self);
            let b = f.ft(self);
            let v: u64 = match fmt {
                FpFmt::Single => {
                    let x = a as u32;
                    let y = b as u32;
                    let w: u32 = if func == 0x00 {
                        f32_add_bits(x, y)
                    } else if func == 0x01 {
                        f32_sub_bits(x, y)
                    } else if func == 0x02 {
                        f32_mul_bits(x, y)
                    } else if func == 0x03 {
                        f32_div_bits(x, y)
                    } else if func == 0x04 {
                        f32_sqrt_bits(x)
                    } else if func == 0x05 {
                        x & 0x7fff_ffff
                    } else {
                        x ^ 0x8000_0000
                    };
                    w as u64
                },
                FpFmt::Double => {
                    if func == 0x00 {
                        f64_add_bits(a, b)
                    } else if func == 0x01 {
                        f64_sub_bits(a, b)
                    } else if func == 0x02 {
                        f64_mul_bits(a, b)
                    } else if func == 0x03 {
                        f64_div_bits(a, b)
                    } else if func == 0x04 {
                        f64_sqrt_bits(a)
                    } else if func == 0x05 {
                        a & 0x7fff_ffff_ffff_ffff
                    } else {
                        a ^ 0x8000_0000_0000_0000
                    }
                },
            };
            f.set_fd(self, v);
            Ok(())
        } else if 0x08 <= func && func <= 0x0f {
            let a = f.fs(self);
            let wide = func < 0x0c;
            let mode = (func & 3) as u8;
            proof {
                lemma_conv_mode(opcode);
            }
            let conv: Option<i64> = match fmt {
                FpFmt::Single => f32_to_int_bits(a as u32, wide, mode),
                FpFmt::Double => f64_to_int_bits(a, wide, mode),
            };
            match conv {
                Some(v) => {
                    f.mfd64(self, v as u64);
                    Ok(())
                },
                None => Err(Cop1Error::ConvertRange(opcode)),
            }
        } else {
            Err(Cop1Error::UnimplementedFunc(opcode))
        }
    }

    /// Decodes the format field (bits 25..21): 16 selects single, 17 double;
    /// anything else is refused with the register file untouched.
    pub fn op(&mut self, opcode: u32) -> (r: Result<(), Cop1Error>)
        requires
            old(self).wf(),
        ensures
            final(self).wf(),
            match r {
                Ok(()) => cop1_fmt_of(opcode) is Some && fop_known(opcode) && fop_value(
                    cop1_fmt_of(opcode)->Some_0,
                    old(self).regs(),
                    opcode,
                ) is Some && final(self).regs() == old(self).regs().update(
                    fop_rd(opcode),
                    fop_value(cop1_fmt_of(opcode)->Some_0, old(self).regs(), opcode)->Some_0,
                ),
                Err(Cop1Error::UnimplementedFmt(o)) => o == opcode && cop1_fmt_of(opcode) is None
                    && *final(self) == *old(self),
                Err(Cop1Error::UnimplementedFunc(o)) => o == opcode && cop1_fmt_of(opcode) is Some
                    && !fop_known(opcode) && *final(self) == *old(self),
                Err(Cop1Error::ConvertRange(o)) => o == opcode && cop1_fmt_of(opcode) is Some
                    && fop_known(opcode) && fop_value(
                    cop1_fmt_of(opcode)->Some_0,
                    old(self).regs(),
                    opcode,
                ) is None && *final(self) == *old(self),
            },
    {
        let fmt_field = (opcode >> 21u32) & 0x1f;
        if fmt_field == 16 {
            self.fop(FpFmt::Single, opcode)
        } else if fmt_field == 17 {
            self.fop(FpFmt::Double, opcode)
        } else {
            Err(Cop1Error::UnimplementedFmt(opcode))
        }
    }
}

/// The precision an opcode's format field (bits 25..21) selects, if any.
pub open spec fn cop1_fmt_of(op: u32) -> Option<FpFmt> {
    let fmt_field = (op >> 21u32) & 0x1f;
    if fmt_field == 16 {
        Some(FpFmt::Single)
    } else if fmt_field == 17 {
        Some(FpFmt::Double)
    } else {
        None
    }
}

/// On conversion function codes, the two decoded conversion parameters fall
/// in their expected ranges.
proof fn lemma_conv_mode(op: u32)
    by (bit_vector)
    ensures
        ((op & 0x3f) & 3) < 4,
{
}

} // verus!
