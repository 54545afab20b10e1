//! COP2, the RSP vector unit.
//!
//! Thirty-two 128-bit vector registers, each eight signed 16-bit lanes;
//! architectural lane 0 is the most significant pair of bytes. The unit
//! carries a three-slice accumulator (LO/MID/HI, 48 bits per lane), a VCO
//! carry/not-equal flag pair, and the reserved VCC/VCE flag registers.
//!
//! Registers and the accumulator are held as byte buffers in architectural
//! (big-endian) order; the flag vectors are held as one byte per lane, each
//! 0 or 1, as the hardware's bit-vectors.

use vstd::prelude::*;
use crate::bytesio::{
    be16, be128_at, be128_byte, be_read_u16, be_write_u16, be_read_u128, be_write_u128,
    lemma_be16_roundtrip, lemma_be128_assemble,
};

verus! {

/// Why a vector-unit instruction was refused. The hardware model treats
/// every such case as fatal to emulation; the payload is the offending
/// opcode.
#[derive(Clone, Copy, PartialEq, Eq, Structural, Debug)]
pub enum VuError {
    /// A VU compute function code this core does not implement.
    UnimplementedFunc(u32),
    /// A VSAR accumulator selector outside 0..2 and 8..10.
    UnimplementedElement(u32),
    /// A CFC2/CTC2 flag selector outside VCO/VCC/VCE, or a non-VU sub-op
    /// other than CFC2/CTC2.
    UnimplementedTransfer(u32),
    /// A vector load sub-opcode this core does not implement.
    UnimplementedLoad(u32),
    /// A vector store sub-opcode this core does not implement.
    UnimplementedStore(u32),
    /// LDC2/SDC2: intentionally fatal, unreachable on well-formed code.
    UnimplementedQuad(u32),
}

/// One of the twelve externally supplied multiply-accumulate kernels.
#[derive(Clone, Copy, PartialEq, Eq, Structural, Debug)]
pub enum VmulKernel {
    Vmulf,
    Vmulu,
    Vmudl,
    Vmudm,
    Vmudn,
    Vmudh,
    Vmacf,
    Vmacu,
    Vmadl,
    Vmadm,
    Vmadn,
    Vmadh,
}

/// A multiply instruction decoded and its operands fetched: the caller runs
/// the named kernel on `(vs, vte, acc_lo, acc_md, acc_hi)` and hands the
/// returned quadruple back through [`SpCop2::vmul_commit`].
#[derive(Clone, Copy, PartialEq, Eq, Structural, Debug)]
pub struct MulRequest {
    pub kernel: VmulKernel,
    pub vd: usize,
    pub vs: u128,
    pub vte: u128,
    pub acc_lo: u128,
    pub acc_md: u128,
    pub acc_hi: u128,
}

/// What one vector-unit compute step asks of its caller: nothing more, or a
/// multiply kernel to run.
#[derive(Clone, Copy, PartialEq, Eq, Structural, Debug)]
pub enum VuStep {
    Done,
    Mul(MulRequest),
}

/// The vector unit's register state.
pub struct SpCop2 {
    /// 32 vector registers, 16 bytes each, architectural big-endian order.
    pub(crate) vregs: Vec<u8>,
    /// Accumulator slices LO, MID, HI: 3 x 16 bytes.
    pub(crate) acc: Vec<u8>,
    /// VCO carry, one byte per lane (0 or 1), lane 0 first.
    pub(crate) vco_carry: Vec<u8>,
    /// VCO not-equal, one byte per lane (0 or 1).
    pub(crate) vco_ne: Vec<u8>,
    /// VCC flag register: reserved, stored only so that it round-trips.
    pub(crate) vcc: u16,
    /// VCE flag register: reserved, stored only so that it round-trips.
    pub(crate) vce: u16,
}

/// Bit `i` of a packed 16-bit flag value, as a 0/1 byte.
pub open spec fn vco_bit(v: u16, i: int) -> u8 {
    (((v >> (i as u16)) & 1) as u8)
}

/// The packed 16-bit view of the VCO flag pair: carry lanes in bits 0..8,
/// not-equal lanes in bits 8..16, lane `i` at bit `i`.
pub open spec fn flags_packed(c: Seq<u8>, n: Seq<u8>) -> u16 {
    ((c[0] + 2 * c[1] + 4 * c[2] + 8 * c[3] + 16 * c[4] + 32 * c[5] + 64 * c[6] + 128 * c[7]) + 256
        * (n[0] + 2 * n[1] + 4 * n[2] + 8 * n[3] + 16 * n[4] + 32 * n[5] + 64 * n[6] + 128
        * n[7])) as u16
}

impl SpCop2 {
    /// Index of the packed VCO flag pair in the uniform register interface.
    pub const REG_VCO: usize = 32;

    pub const REG_VCC: usize = 33;

    pub const REG_VCE: usize = 34;

    pub const REG_ACCUM_LO: usize = 35;

    pub const REG_ACCUM_MD: usize = 36;

    pub const REG_ACCUM_HI: usize = 37;

    pub closed spec fn wf(self) -> bool {
        &&& self.vregs@.len() == 512
        &&& self.acc@.len() == 48
        &&& self.vco_carry@.len() == 8
        &&& self.vco_ne@.len() == 8
        &&& (forall|i: int| 0 <= i < 8 ==> self.vco_carry@[i] <= 1)
        &&& (forall|i: int| 0 <= i < 8 ==> self.vco_ne@[i] <= 1)
    }

    /// Byte `j` (architectural order: 0 is lane 0's high byte) of vector
    /// register `r`.
    pub closed spec fn vreg_byte(self, r: int, j: int) -> u8 {
        self.vregs@[16 * r + j]
    }

    /// Lane `i` of vector register `r` (lane 0 is the most significant).
    pub open spec fn vreg_lane(self, r: int, i: int) -> u16 {
        be16(self.vreg_byte(r, 2 * i), self.vreg_byte(r, 2 * i + 1))
    }

    /// The 128-bit architectural value of vector register `r`.
    pub closed spec fn vreg_u128(self, r: int) -> u128 {
        be128_at(self.vregs@, 16 * r)
    }

    /// Byte `j` of accumulator slice `k` (0 LO, 1 MID, 2 HI).
    pub closed spec fn acc_byte(self, k: int, j: int) -> u8 {
        self.acc@[16 * k + j]
    }

    /// Lane `i` of accumulator slice `k`.
    pub open spec fn acc_lane(self, k: int, i: int) -> u16 {
        be16(self.acc_byte(k, 2 * i), self.acc_byte(k, 2 * i + 1))
    }

    /// The 128-bit value of accumulator slice `k`.
    pub closed spec fn acc_u128(self, k: int) -> u128 {
        be128_at(self.acc@, 16 * k)
    }

    /// The VCO carry flag of lane `i`, 0 or 1.
    pub closed spec fn carry_lane(self, i: int) -> u8 {
        self.vco_carry@[i]
    }

    /// The VCO not-equal flag of lane `i`, 0 or 1.
    pub closed spec fn ne_lane(self, i: int) -> u8 {
        self.vco_ne@[i]
    }

    /// The stored VCC flag register.
    pub closed spec fn vcc_reg(self) -> u16 {
        self.vcc
    }

    /// The stored VCE flag register.
    pub closed spec fn vce_reg(self) -> u16 {
        self.vce
    }

    /// The packed VCO value.
    pub closed spec fn vco_reg(self) -> u16 {
        flags_packed(self.vco_carry@, self.vco_ne@)
    }

    /// A fresh unit: all registers, accumulator slices and flags zero.
    pub fn new() -> (r: SpCop2)
        ensures
            r.wf(),
            forall|reg: int, j: int| 0 <= reg < 32 && 0 <= j < 16 ==> r.vreg_byte(reg, j) == 0,
            forall|k: int, j: int| 0 <= k < 3 && 0 <= j < 16 ==> r.acc_byte(k, j) == 0,
            forall|i: int| 0 <= i < 8 ==> r.carry_lane(i) == 0 && r.ne_lane(i) == 0,
            r.vcc_reg() == 0,
            r.vce_reg() == 0,
    {
        SpCop2 {
            vregs: zero_bytes(512),
            acc: zero_bytes(48),
            vco_carry: zero_bytes(8),
            vco_ne: zero_bytes(8),
            vcc: 0,
            vce: 0,
        }
    }

    /// The reserved VCE flag register.
    pub fn vce(&self) -> (r: u16)
        ensures
            r == self.vce_reg(),
    {
        self.vce
    }

    pub fn set_vce(&mut self, vec: u16)
        requires
            old(self).wf(),
        ensures
            final(self).wf(),
            final(self).vce_reg() == vec,
            final(self).flags_frame_but_vce(*old(self)),
    {
        self.vce = vec;
    }

    /// The reserved VCC flag register.
    pub fn vcc(&self) -> (r: u16)
        ensures
            r == self.vcc_reg(),
    {
        self.vcc
    }

    pub fn set_vcc(&mut self, vec: u16)
        requires
            old(self).wf(),
        ensures
            final(self).wf(),
            final(self).vcc_reg() == vec,
            final(self).flags_frame_but_vcc(*old(self)),
    {
        self.vcc = vec;
    }

    /// The packed VCO flag pair: carry lane `i` at bit `i`, not-equal lane
    /// `i` at bit `8 + i`.
    pub fn vco(&self) -> (r: u16)
        requires
            self.wf(),
        ensures
            r == self.vco_reg(),
    {
        let c = &self.vco_carry;
        let n = &self.vco_ne;
        (c[0] as u16 + 2 * (c[1] as u16) + 4 * (c[2] as u16) + 8 * (c[3] as u16) + 16 * (
        c[4] as u16) + 32 * (c[5] as u16) + 64 * (c[6] as u16) + 128 * (c[7] as u16)) + 256 * (
        n[0] as u16 + 2 * (n[1] as u16) + 4 * (n[2] as u16) + 8 * (n[3] as u16) + 16 * (
        n[4] as u16) + 32 * (n[5] as u16) + 64 * (n[6] as u16) + 128 * (n[7] as u16))
    }

    /// Unpacks a 16-bit value into the VCO lane bits.
    pub fn set_vco(&mut self, vco: u16)
        requires
            old(self).wf(),
        ensures
            final(self).wf(),
            forall|i: int| 0 <= i < 8 ==> final(self).carry_lane(i) == vco_bit(vco, i),
            forall|i: int| 0 <= i < 8 ==> final(self).ne_lane(i) == vco_bit(vco, i + 8),
            final(self).flags_frame_but_vco(*old(self)),
    {
        let mut c: Vec<u8> = Vec::new();
        let mut n: Vec<u8> = Vec::new();
        let mut i: usize = 0;
        while i < 8
            invariant
                i <= 8,
                c@.len() == i,
                n@.len() == i,
                forall|k: int| 0 <= k < i ==> c@[k] == vco_bit(vco, k),
                forall|k: int| 0 <= k < i ==> c@[k] <= 1,
                forall|k: int| 0 <= k < i ==> n@[k] == vco_bit(vco, k + 8),
                forall|k: int| 0 <= k < i ==> n@[k] <= 1,
            decreases 8 - i,
        {
            let cb16: u16 = (vco >> (i as u16)) & 1;
            let nb16: u16 = (vco >> ((i + 8) as u16)) & 1;
            proof {
                lemma_flag_bit_bound(vco);
            }
            let cb: u8 = if cb16 == 1 {
                1
            } else {
                0
            };
            let nb: u8 = if nb16 == 1 {
                1
            } else {
                0
            };
            proof {
                assert(cb == vco_bit(vco, i as int));
                assert(nb == vco_bit(vco, i as int + 8));
            }
            c.push(cb);
            n.push(nb);
            i = i + 1;
        }
        self.vco_carry = c;
        self.vco_ne = n;
    }

    /// Everything but the vector registers is unchanged.
    pub closed spec fn flags_frame(self, pre: SpCop2) -> bool {
        &&& self.acc@ == pre.acc@
        &&& self.vco_carry@ == pre.vco_carry@
        &&& self.vco_ne@ == pre.vco_ne@
        &&& self.vcc == pre.vcc
        &&& self.vce == pre.vce
    }

    /// Everything but the VCE register is unchanged.
    pub closed spec fn flags_frame_but_vce(self, pre: SpCop2) -> bool {
        &&& self.vregs@ == pre.vregs@
        &&& self.acc@ == pre.acc@
        &&& self.vco_carry@ == pre.vco_carry@
        &&& self.vco_ne@ == pre.vco_ne@
        &&& self.vcc == pre.vcc
    }

    /// Everything but the VCC register is unchanged.
    pub closed spec fn flags_frame_but_vcc(self, pre: SpCop2) -> bool {
        &&& self.vregs@ == pre.vregs@
        &&& self.acc@ == pre.acc@
        &&& self.vco_carry@ == pre.vco_carry@
        &&& self.vco_ne@ == pre.vco_ne@
        &&& self.vce == pre.vce
    }

    /// Everything but the VCO lanes is unchanged.
    pub closed spec fn flags_frame_but_vco(self, pre: SpCop2) -> bool {
        &&& self.vregs@ == pre.vregs@
        &&& self.acc@ == pre.acc@
        &&& self.vcc == pre.vcc
        &&& self.vce == pre.vce
    }
}

/// A flag bit extracted by shift-and-mask is 0 or 1.
proof fn lemma_flag_bit_bound(v: u16)
    by (bit_vector)
    ensures
        forall|s: u16| #[trigger] ((v >> s) & 1) <= 1,
{
}

/// A vector of `n` zero bytes.
pub(crate) fn zero_bytes(n: usize) -> (r: Vec<u8>)
    ensures
        r@.len() == n,
        forall|j: int| 0 <= j < n ==> r@[j] == 0,
{
    let mut v: Vec<u8> = Vec::new();
    let mut i: usize = 0;
    while i < n
        invariant
            i <= n,
            v@.len() == i,
            forall|j: int| 0 <= j < i ==> v@[j] == 0,
        decreases n - i,
    {
        v.push(0);
        i = i + 1;
    }
    v
}

/// The packed flag view of bit-decomposed lanes is the packed value again:
/// writing VCO and reading it back round-trips every 16-bit value.
pub proof fn lemma_vco_roundtrip(v: u16, c: Seq<u8>, n: Seq<u8>)
    requires
        c.len() == 8,
        n.len() == 8,
        forall|i: int| 0 <= i < 8 ==> c[i] == vco_bit(v, i),
        forall|i: int| 0 <= i < 8 ==> n[i] == vco_bit(v, i + 8),
    ensures
        flags_packed(c, n) == v,
{
    let c0 = c[0];
    let c1 = c[1];
    let c2 = c[2];
    let c3 = c[3];
    let c4 = c[4];
    let c5 = c[5];
    let c6 = c[6];
    let c7 = c[7];
    let n0 = n[0];
    let n1 = n[1];
    let n2 = n[2];
    let n3 = n[3];
    let n4 = n[4];
    let n5 = n[5];
    let n6 = n[6];
    let n7 = n[7];
    assert((((c0 + 2 * c1 + 4 * c2 + 8 * c3 + 16 * c4 + 32 * c5 + 64 * c6 + 128 * c7) + 256 * (n0
        + 2 * n1 + 4 * n2 + 8 * n3 + 16 * n4 + 32 * n5 + 64 * n6 + 128 * n7)) as u16) == v)
        by (bit_vector)
        requires
            c0 == ((v >> 0u16) & 1) as u8,
            c1 == ((v >> 1u16) & 1) as u8,
            c2 == ((v >> 2u16) & 1) as u8,
            c3 == ((v >> 3u16) & 1) as u8,
            c4 == ((v >> 4u16) & 1) as u8,
            c5 == ((v >> 5u16) & 1) as u8,
            c6 == ((v >> 6u16) & 1) as u8,
            c7 == ((v >> 7u16) & 1) as u8,
            n0 == ((v >> 8u16) & 1) as u8,
            n1 == ((v >> 9u16) & 1) as u8,
            n2 == ((v >> 10u16) & 1) as u8,
            n3 == ((v >> 11u16) & 1) as u8,
            n4 == ((v >> 12u16) & 1) as u8,
            n5 == ((v >> 13u16) & 1) as u8,
            n6 == ((v >> 14u16) & 1) as u8,
            n7 == ((v >> 15u16) & 1) as u8,
    ;
}

// ------------------------------------------------------------------
// Opcode fields of a VU compute instruction.
// ------------------------------------------------------------------

pub open spec fn vop_func(op: u32) -> u32 {
    op & 0x3f
}

pub open spec fn vop_e(op: u32) -> int {
    ((op >> 21u32) & 0xf) as int
}

pub open spec fn vop_rs(op: u32) -> int {
    ((op >> 11u32) & 0x1f) as int
}

pub open spec fn vop_rt(op: u32) -> int {
    ((op >> 16u32) & 0x1f) as int
}

pub open spec fn vop_rd(op: u32) -> int {
    ((op >> 6u32) & 0x1f) as int
}

/// Field extraction on VU opcodes stays inside the register file's bounds.
proof fn lemma_vop_fields()
    by (bit_vector)
    ensures
        forall|op: u32| 0 <= #[trigger] ((op >> 21u32) & 0xf) < 16,
        forall|op: u32| 0 <= #[trigger] ((op >> 11u32) & 0x1f) < 32,
        forall|op: u32| 0 <= #[trigger] ((op >> 16u32) & 0x1f) < 32,
        forall|op: u32| 0 <= #[trigger] ((op >> 6u32) & 0x1f) < 32,
        forall|op: u32| #[trigger] (op & 0x3f) < 64,
{
}

/// One VU compute instruction, with accessors for its bit fields.
pub struct Vectorop {
    pub op: u32,
}

impl Vectorop {
    /// The function field, bits 5..0.
    pub fn func(&self) -> (r: u32)
        ensures
            r == vop_func(self.op),
            r < 64,
    {
        proof {
            lemma_vop_fields();
        }
        self.op & 0x3f
    }

    /// The element selector, bits 24..21.
    pub fn e(&self) -> (r: usize)
        ensures
            r == vop_e(self.op),
            r < 16,
    {
        proof {
            lemma_vop_fields();
        }
        ((self.op >> 21u32) & 0xf) as usize
    }

    /// The vs register index, bits 15..11.
    pub fn rs(&self) -> (r: usize)
        ensures
            r == vop_rs(self.op),
            r < 32,
    {
        proof {
            lemma_vop_fields();
        }
        ((self.op >> 11u32) & 0x1f) as usize
    }

    /// The vt register index, bits 20..16.
    pub fn rt(&self) -> (r: usize)
        ensures
            r == vop_rt(self.op),
            r < 32,
    {
        proof {
            lemma_vop_fields();
        }
        ((self.op >> 16u32) & 0x1f) as usize
    }

    /// The vd register index, bits 10..6.
    pub fn rd(&self) -> (r: usize)
        ensures
            r == vop_rd(self.op),
            r < 32,
    {
        proof {
            lemma_vop_fields();
        }
        ((self.op >> 6u32) & 0x1f) as usize
    }
}

// ------------------------------------------------------------------
// Lane arithmetic.
// ------------------------------------------------------------------

/// A lane's 16 bits read as a signed value.
pub open spec fn to_i16(v: u16) -> int {
    if v < 0x8000 {
        v as int
    } else {
        v - 0x10000
    }
}

/// A signed value in [-0x8000, 0x7fff] written back as a lane's 16 bits.
pub open spec fn from_i16(x: int) -> u16 {
    if x >= 0 {
        x as u16
    } else {
        (x + 0x10000) as u16
    }
}

/// Signed 16-bit saturation: clamp to [-0x8000, 0x7fff].
pub open spec fn sat16(x: int) -> int {
    if x < -0x8000 {
        -0x8000
    } else if x > 0x7fff {
        0x7fff
    } else {
        x
    }
}

pub open spec fn imin(a: int, b: int) -> int {
    if a <= b {
        a
    } else {
        b
    }
}

pub open spec fn imax(a: int, b: int) -> int {
    if a <= b {
        b
    } else {
        a
    }
}

/// One VADD lane: the carry joins the smaller operand before the saturating
/// sum with the larger, so that the final result saturates correctly.
pub open spec fn vadd_lane(s: u16, t: u16, c: u8) -> u16 {
    from_i16(sat16(sat16(imin(to_i16(s), to_i16(t)) + c) + imax(to_i16(s), to_i16(t))))
}

/// One accumulator-LO lane of VADD: the plain wrapping sum.
pub open spec fn wrap_add3(s: u16, t: u16, c: u8) -> u16 {
    ((s + t + c) % 0x10000) as u16
}

/// One VADDC lane: the wrapping sum.
pub open spec fn vaddc_res(s: u16, t: u16) -> u16 {
    ((s + t) % 0x10000) as u16
}

/// One VADDC carry lane: 1 exactly when the unsigned sum wrapped.
pub open spec fn vaddc_carry(s: u16, t: u16) -> u8 {
    if s + t > 0xffff {
        1
    } else {
        0
    }
}

/// One byte of a bitwise VU operation, keyed by the function code
/// (VAND/VNAND/VOR/VNOR/VXOR/VNXOR).
pub open spec fn logical_byte(f: u32, a: u8, b: u8) -> u8 {
    if f == 0x28 {
        a & b
    } else if f == 0x29 {
        (a & b) ^ 0xff
    } else if f == 0x2a {
        a | b
    } else if f == 0x2b {
        (a | b) ^ 0xff
    } else if f == 0x2c {
        a ^ b
    } else {
        (a ^ b) ^ 0xff
    }
}

/// The source lane that element selector `e` routes to destination lane `i`:
/// identity (0..2), pair broadcast (2..4), quad broadcast (4..8), or scalar
/// broadcast of lane `e - 8`.
pub open spec fn lane_src(e: int, i: int) -> int {
    if e < 2 {
        i
    } else if e < 4 {
        2 * (i / 2) + (e - 2)
    } else if e < 8 {
        4 * (i / 4) + (e - 4)
    } else {
        e - 8
    }
}

/// The twelve multiply-accumulate function codes.
pub open spec fn is_mul_func(f: u32) -> bool {
    f == 0x00 || f == 0x01 || (0x04 <= f && f <= 0x09) || (0x0c <= f && f <= 0x0f)
}

pub open spec fn kernel_of(f: u32) -> VmulKernel {
    if f == 0x00 {
        VmulKernel::Vmulf
    } else if f == 0x01 {
        VmulKernel::Vmulu
    } else if f == 0x04 {
        VmulKernel::Vmudl
    } else if f == 0x05 {
        VmulKernel::Vmudm
    } else if f == 0x06 {
        VmulKernel::Vmudn
    } else if f == 0x07 {
        VmulKernel::Vmudh
    } else if f == 0x08 {
        VmulKernel::Vmacf
    } else if f == 0x09 {
        VmulKernel::Vmacu
    } else if f == 0x0c {
        VmulKernel::Vmadl
    } else if f == 0x0d {
        VmulKernel::Vmadm
    } else if f == 0x0e {
        VmulKernel::Vmadn
    } else {
        VmulKernel::Vmadh
    }
}

// ------------------------------------------------------------------
// The selected vt operand and frame predicates.
// ------------------------------------------------------------------

impl SpCop2 {
    /// Lane `i` of the vt operand after element routing.
    pub open spec fn vte_lane(self, rt: int, e: int, i: int) -> u16 {
        self.vreg_lane(rt, lane_src(e, i))
    }

    /// Byte `j` of the vt operand after element routing.
    pub open spec fn vte_byte_sel(self, rt: int, e: int, j: int) -> u8 {
        self.vreg_byte(rt, 2 * lane_src(e, j / 2) + j % 2)
    }

    /// The routed vt operand as a 128-bit value.
    pub open spec fn vte_u128(self, rt: int, e: int) -> u128 {
        be128_at(Seq::new(16, |j: int| self.vte_byte_sel(rt, e, j)), 0)
    }

    /// Everything but the accumulator is unchanged.
    pub closed spec fn frame_but_acc(self, pre: SpCop2) -> bool {
        &&& self.vregs@ == pre.vregs@
        &&& self.vco_carry@ == pre.vco_carry@
        &&& self.vco_ne@ == pre.vco_ne@
        &&& self.vcc == pre.vcc
        &&& self.vce == pre.vce
    }
}

/// Every vector register but `vd` keeps each of its bytes.
pub open spec fn vregs_frame(pre: SpCop2, post: SpCop2, vd: int) -> bool {
    forall|q: int, j: int|
        0 <= q < 32 && q != vd && 0 <= j < 16 ==> post.vreg_byte(q, j) == pre.vreg_byte(q, j)
}

/// Accumulator slice `k` keeps each of its bytes.
pub open spec fn acc_slice_frame(pre: SpCop2, post: SpCop2, k: int) -> bool {
    forall|j: int| 0 <= j < 16 ==> post.acc_byte(k, j) == pre.acc_byte(k, j)
}

/// Both VCO flag vectors are unchanged.
pub open spec fn vco_frame(pre: SpCop2, post: SpCop2) -> bool {
    &&& (forall|i: int| 0 <= i < 8 ==> post.carry_lane(i) == pre.carry_lane(i))
    &&& (forall|i: int| 0 <= i < 8 ==> post.ne_lane(i) == pre.ne_lane(i))
}

/// The reserved VCC/VCE registers are unchanged.
pub open spec fn ctrl_frame(pre: SpCop2, post: SpCop2) -> bool {
    post.vcc_reg() == pre.vcc_reg() && post.vce_reg() == pre.vce_reg()
}

// ------------------------------------------------------------------
// Per-instruction postconditions.
// ------------------------------------------------------------------

/// VADD: saturated per-lane sum with carry into vd, wrapping sum into
/// accumulator LO, both VCO vectors cleared.
pub open spec fn vadd_post(pre: SpCop2, post: SpCop2, op: u32) -> bool {
    let vs = vop_rs(op);
    let rt = vop_rt(op);
    let e = vop_e(op);
    let vd = vop_rd(op);
    &&& (forall|i: int|
        0 <= i < 8 ==> post.vreg_lane(vd, i) == vadd_lane(
            pre.vreg_lane(vs, i),
            pre.vte_lane(rt, e, i),
            pre.carry_lane(i),
        ))
    &&& (forall|i: int|
        0 <= i < 8 ==> post.acc_lane(0, i) == wrap_add3(
            pre.vreg_lane(vs, i),
            pre.vte_lane(rt, e, i),
            pre.carry_lane(i),
        ))
    &&& (forall|i: int| 0 <= i < 8 ==> post.carry_lane(i) == 0)
    &&& (forall|i: int| 0 <= i < 8 ==> post.ne_lane(i) == 0)
    &&& vregs_frame(pre, post, vd)
    &&& acc_slice_frame(pre, post, 1)
    &&& acc_slice_frame(pre, post, 2)
    &&& ctrl_frame(pre, post)
}

/// VADDC: wrapping per-lane sum into vd and accumulator LO, carry set on
/// unsigned wrap, not-equal cleared.
pub open spec fn vaddc_post(pre: SpCop2, post: SpCop2, op: u32) -> bool {
    let vs = vop_rs(op);
    let rt = vop_rt(op);
    let e = vop_e(op);
    let vd = vop_rd(op);
    &&& (forall|i: int|
        0 <= i < 8 ==> post.vreg_lane(vd, i) == vaddc_res(
            pre.vreg_lane(vs, i),
            pre.vte_lane(rt, e, i),
        ))
    &&& (forall|i: int|
        0 <= i < 8 ==> post.acc_lane(0, i) == vaddc_res(
            pre.vreg_lane(vs, i),
            pre.vte_lane(rt, e, i),
        ))
    &&& (forall|i: int|
        0 <= i < 8 ==> post.carry_lane(i) == vaddc_carry(
            pre.vreg_lane(vs, i),
            pre.vte_lane(rt, e, i),
        ))
    &&& (forall|i: int| 0 <= i < 8 ==> post.ne_lane(i) == 0)
    &&& vregs_frame(pre, post, vd)
    &&& acc_slice_frame(pre, post, 1)
    &&& acc_slice_frame(pre, post, 2)
    &&& ctrl_frame(pre, post)
}

/// The bitwise operations: result into vd and accumulator LO, flags
/// untouched.
pub open spec fn logical_post(pre: SpCop2, post: SpCop2, op: u32) -> bool {
    let f = vop_func(op);
    let vs = vop_rs(op);
    let rt = vop_rt(op);
    let e = vop_e(op);
    let vd = vop_rd(op);
    &&& (forall|j: int|
        0 <= j < 16 ==> post.vreg_byte(vd, j) == logical_byte(
            f,
            pre.vreg_byte(vs, j),
            pre.vte_byte_sel(rt, e, j),
        ))
    &&& (forall|j: int|
        0 <= j < 16 ==> post.acc_byte(0, j) == logical_byte(
            f,
            pre.vreg_byte(vs, j),
            pre.vte_byte_sel(rt, e, j),
        ))
    &&& vregs_frame(pre, post, vd)
    &&& acc_slice_frame(pre, post, 1)
    &&& acc_slice_frame(pre, post, 2)
    &&& vco_frame(pre, post)
    &&& ctrl_frame(pre, post)
}

/// VSAR: one accumulator slice read into vd (e = 8 HI, 9 MID, 10 LO), or
/// zero for e in 0..2; the accumulator itself is not written.
pub open spec fn vsar_post(pre: SpCop2, post: SpCop2, op: u32) -> bool {
    let e = vop_e(op);
    let vd = vop_rd(op);
    &&& (forall|j: int|
        0 <= j < 16 ==> post.vreg_byte(vd, j) == (if e >= 8 {
            pre.acc_byte(2 - (e - 8), j)
        } else {
            0
        }))
    &&& vregs_frame(pre, post, vd)
    &&& acc_slice_frame(pre, post, 0)
    &&& acc_slice_frame(pre, post, 1)
    &&& acc_slice_frame(pre, post, 2)
    &&& vco_frame(pre, post)
    &&& ctrl_frame(pre, post)
}

/// The flag register CFC2 reads: VCO, VCC or VCE.
pub open spec fn cfc_val(pre: SpCop2, rs: int) -> u16 {
    if rs == 0 {
        pre.vco_reg()
    } else if rs == 1 {
        pre.vcc_reg()
    } else {
        pre.vce_reg()
    }
}

/// What CTC2 writes: the 16-bit value unpacked into VCO lanes, or stored in
/// VCC/VCE.
pub open spec fn ctc_post(pre: SpCop2, post: SpCop2, rs: int, x: u16) -> bool {
    if rs == 0 {
        &&& (forall|i: int| 0 <= i < 8 ==> post.carry_lane(i) == vco_bit(x, i))
        &&& (forall|i: int| 0 <= i < 8 ==> post.ne_lane(i) == vco_bit(x, i + 8))
        &&& post.flags_frame_but_vco(pre)
    } else if rs == 1 {
        post.vcc_reg() == x && post.flags_frame_but_vcc(pre)
    } else {
        post.vce_reg() == x && post.flags_frame_but_vce(pre)
    }
}

/// The operands a multiply instruction hands to its kernel.
pub open spec fn mul_req_of(pre: SpCop2, op: u32) -> MulRequest {
    MulRequest {
        kernel: kernel_of(vop_func(op)),
        vd: vop_rd(op) as usize,
        vs: pre.vreg_u128(vop_rs(op)),
        vte: pre.vte_u128(vop_rt(op), vop_e(op)),
        acc_lo: pre.acc_u128(0),
        acc_md: pre.acc_u128(1),
        acc_hi: pre.acc_u128(2),
    }
}

/// The full contract of one vector-unit compute step: what each function
/// code does to the unit, to the CPU registers, and which codes are refused.
pub open spec fn uop_post(
    pre: SpCop2,
    post: SpCop2,
    gpr_pre: Seq<u64>,
    gpr_post: Seq<u64>,
    op: u32,
    r: Result<VuStep, VuError>,
) -> bool {
    if op & 0x02000000 != 0 {
        let f = vop_func(op);
        if is_mul_func(f) {
            r == Ok::<VuStep, VuError>(VuStep::Mul(mul_req_of(pre, op))) && post == pre && gpr_post
                == gpr_pre
        } else if f == 0x10 {
            r == Ok::<VuStep, VuError>(VuStep::Done) && vadd_post(pre, post, op) && gpr_post
                == gpr_pre
        } else if f == 0x14 {
            r == Ok::<VuStep, VuError>(VuStep::Done) && vaddc_post(pre, post, op) && gpr_post
                == gpr_pre
        } else if f == 0x1d {
            let e = vop_e(op);
            if e <= 2 || (8 <= e && e <= 10) {
                r == Ok::<VuStep, VuError>(VuStep::Done) && vsar_post(pre, post, op) && gpr_post
                    == gpr_pre
            } else {
                r == Err::<VuStep, VuError>(VuError::UnimplementedElement(op)) && post == pre
                    && gpr_post == gpr_pre
            }
        } else if 0x28 <= f && f <= 0x2d {
            r == Ok::<VuStep, VuError>(VuStep::Done) && logical_post(pre, post, op) && gpr_post
                == gpr_pre
        } else {
            r == Err::<VuStep, VuError>(VuError::UnimplementedFunc(op)) && post == pre && gpr_post
                == gpr_pre
        }
    } else {
        let e = vop_e(op);
        let rs = vop_rs(op);
        let rt = vop_rt(op);
        if e == 2 && rs <= 2 {
            r == Ok::<VuStep, VuError>(VuStep::Done) && post == pre && gpr_post == gpr_pre.update(
                rt,
                cfc_val(pre, rs) as u64,
            )
        } else if e == 6 && rs <= 2 {
            r == Ok::<VuStep, VuError>(VuStep::Done) && ctc_post(pre, post, rs, gpr_pre[rt] as u16)
                && gpr_post == gpr_pre
        } else {
            r == Err::<VuStep, VuError>(VuError::UnimplementedTransfer(op)) && post == pre
                && gpr_post == gpr_pre
        }
    }
}

// ------------------------------------------------------------------
// Executable lane helpers.
// ------------------------------------------------------------------

/// The element-routing source lane, executable form.
fn lane_src_exec(e: usize, i: usize) -> (r: usize)
    requires
        e < 16,
        i < 8,
    ensures
        r == lane_src(e as int, i as int),
        r < 8,
{
    if e < 2 {
        i
    } else if e < 4 {
        2 * (i / 2) + (e - 2)
    } else if e < 8 {
        4 * (i / 4) + (e - 4)
    } else {
        e - 8
    }
}

/// One VADD lane, executable form.
fn vadd_lane_exec(s: u16, t: u16, c: u8) -> (r: u16)
    requires
        c <= 1,
    ensures
        r == vadd_lane(s, t, c),
{
    let si: i32 = if s < 0x8000 {
        s as i32
    } else {
        (s as i32) - 0x10000
    };
    let ti: i32 = if t < 0x8000 {
        t as i32
    } else {
        (t as i32) - 0x10000
    };
    let mn: i32 = if si <= ti {
        si
    } else {
        ti
    };
    let mx: i32 = if si <= ti {
        ti
    } else {
        si
    };
    let s1: i32 = clamp16(mn + (c as i32));
    let s2: i32 = clamp16(s1 + mx);
    if s2 >= 0 {
        s2 as u16
    } else {
        (s2 + 0x10000) as u16
    }
}

/// Signed 16-bit saturation, executable form.
fn clamp16(x: i32) -> (r: i32)
    requires
        -0x20000 <= x <= 0x20000,
    ensures
        r == sat16(x as int),
{
    if x < -0x8000 {
        -0x8000
    } else if x > 0x7fff {
        0x7fff
    } else {
        x
    }
}

/// The wrapping three-way lane sum, executable form.
fn wrap_add3_exec(s: u16, t: u16, c: u8) -> (r: u16)
    ensures
        r == wrap_add3(s, t, c),
{
    (((s as u32) + (t as u32) + (c as u32)) % 0x10000) as u16
}

/// One bitwise-operation byte, executable form.
fn logical_byte_exec(f: u32, a: u8, b: u8) -> (r: u8)
    ensures
        r == logical_byte(f, a, b),
{
    if f == 0x28 {
        a & b
    } else if f == 0x29 {
        (a & b) ^ 0xff
    } else if f == 0x2a {
        a | b
    } else if f == 0x2b {
        (a | b) ^ 0xff
    } else if f == 0x2c {
        a ^ b
    } else {
        (a ^ b) ^ 0xff
    }
}

fn is_mul_func_exec(f: u32) -> (r: bool)
    ensures
        r == is_mul_func(f),
{
    f == 0x00 || f == 0x01 || (0x04 <= f && f <= 0x09) || (0x0c <= f && f <= 0x0f)
}

fn kernel_of_exec(f: u32) -> (r: VmulKernel)
    ensures
        r == kernel_of(f),
{
    if f == 0x00 {
        VmulKernel::Vmulf
    } else if f == 0x01 {
        VmulKernel::Vmulu
    } else if f == 0x04 {
        VmulKernel::Vmudl
    } else if f == 0x05 {
        VmulKernel::Vmudm
    } else if f == 0x06 {
        VmulKernel::Vmudn
    } else if f == 0x07 {
        VmulKernel::Vmudh
    } else if f == 0x08 {
        VmulKernel::Vmacf
    } else if f == 0x09 {
        VmulKernel::Vmacu
    } else if f == 0x0c {
        VmulKernel::Vmadl
    } else if f == 0x0d {
        VmulKernel::Vmadm
    } else if f == 0x0e {
        VmulKernel::Vmadn
    } else {
        VmulKernel::Vmadh
    }
}

// ------------------------------------------------------------------
// State read/write helpers.
// ------------------------------------------------------------------

impl SpCop2 {
    /// The eight lanes of vector register `r`.
    fn vs_lanes(&self, r: usize) -> (out: Vec<u16>)
        requires
            self.wf(),
            r < 32,
        ensures
            out@.len() == 8,
            forall|i: int| 0 <= i < 8 ==> out@[i] == self.vreg_lane(r as int, i),
    {
        let mut out: Vec<u16> = Vec::new();
        let mut i: usize = 0;
        while i < 8
            invariant
                self.wf(),
                r < 32,
                i <= 8,
                out@.len() == i,
                forall|k: int| 0 <= k < i ==> out@[k] == self.vreg_lane(r as int, k),
            decreases 8 - i,
        {
            let v = be_read_u16(&self.vregs, 16 * r + 2 * i);
            out.push(v);
            i = i + 1;
        }
        out
    }

    /// The eight lanes of the routed vt operand.
    fn vte_lanes(&self, rt: usize, e: usize) -> (out: Vec<u16>)
        requires
            self.wf(),
            rt < 32,
            e < 16,
        ensures
            out@.len() == 8,
            forall|i: int| 0 <= i < 8 ==> out@[i] == self.vte_lane(rt as int, e as int, i),
    {
        let mut out: Vec<u16> = Vec::new();
        let mut i: usize = 0;
        while i < 8
            invariant
                self.wf(),
                rt < 32,
                e < 16,
                i <= 8,
                out@.len() == i,
                forall|k: int| 0 <= k < i ==> out@[k] == self.vte_lane(rt as int, e as int, k),
            decreases 8 - i,
        {
            let src = lane_src_exec(e, i);
            let v = be_read_u16(&self.vregs, 16 * rt + 2 * src);
            out.push(v);
            i = i + 1;
        }
        out
    }

    /// The 16 bytes of vector register `r`.
    fn vs_bytes(&self, r: usize) -> (out: Vec<u8>)
        requires
            self.wf(),
            r < 32,
        ensures
            out@.len() == 16,
            forall|j: int| 0 <= j < 16 ==> out@[j] == self.vreg_byte(r as int, j),
    {
        let mut out: Vec<u8> = Vec::new();
        let mut j: usize = 0;
        while j < 16
            invariant
                self.wf(),
                r < 32,
                j <= 16,
                out@.len() == j,
                forall|k: int| 0 <= k < j ==> out@[k] == self.vreg_byte(r as int, k),
            decreases 16 - j,
        {
            out.push(self.vregs[16 * r + j]);
            j = j + 1;
        }
        out
    }

    /// The 16 bytes of the routed vt operand.
    fn vte_bytes(&self, rt: usize, e: usize) -> (out: Vec<u8>)
        requires
            self.wf(),
            rt < 32,
            e < 16,
        ensures
            out@.len() == 16,
            forall|j: int| 0 <= j < 16 ==> out@[j] == self.vte_byte_sel(rt as int, e as int, j),
    {
        let mut out: Vec<u8> = Vec::new();
        let mut i: usize = 0;
        while i < 8
            invariant
                self.wf(),
                rt < 32,
                e < 16,
                i <= 8,
                out@.len() == 2 * i,
                forall|k: int| 0 <= k < 2 * i ==> out@[k] == self.vte_byte_sel(
                    rt as int,
                    e as int,
                    k,
                ),
            decreases 8 - i,
        {
            let src = lane_src_exec(e, i);
            out.push(self.vregs[16 * rt + 2 * src]);
            out.push(self.vregs[16 * rt + 2 * src + 1]);
            i = i + 1;
        }
        out
    }

    /// The 16 bytes of accumulator slice `k`.
    fn acc_bytes(&self, k: usize) -> (out: Vec<u8>)
        requires
            self.wf(),
            k < 3,
        ensures
            out@.len() == 16,
            forall|j: int| 0 <= j < 16 ==> out@[j] == self.acc_byte(k as int, j),
    {
        let mut out: Vec<u8> = Vec::new();
        let mut j: usize = 0;
        while j < 16
            invariant
                self.wf(),
                k < 3,
                j <= 16,
                out@.len() == j,
                forall|q: int| 0 <= q < j ==> out@[q] == self.acc_byte(k as int, q),
            decreases 16 - j,
        {
            out.push(self.acc[16 * k + j]);
            j = j + 1;
        }
        out
    }

    /// The eight VCO carry lanes.
    fn carry_lanes(&self) -> (out: Vec<u8>)
        requires
            self.wf(),
        ensures
            out@.len() == 8,
            forall|i: int| 0 <= i < 8 ==> out@[i] == self.carry_lane(i),
            forall|i: int| 0 <= i < 8 ==> out@[i] <= 1,
    {
        let mut out: Vec<u8> = Vec::new();
        let mut i: usize = 0;
        while i < 8
            invariant
                self.wf(),
                i <= 8,
                out@.len() == i,
                forall|k: int| 0 <= k < i ==> out@[k] == self.carry_lane(k),
                forall|k: int| 0 <= k < i ==> out@[k] <= 1,
            decreases 8 - i,
        {
            out.push(self.vco_carry[i]);
            i = i + 1;
        }
        out
    }

    /// Writes eight lane values into vector register `vd`.
    fn write_lanes(&mut self, vd: usize, lanes: &Vec<u16>)
        requires
            old(self).wf(),
            vd < 32,
            lanes@.len() == 8,
        ensures
            final(self).wf(),
            forall|i: int| 0 <= i < 8 ==> final(self).vreg_lane(vd as int, i) == lanes@[i],
            vregs_frame(*old(self), *final(self), vd as int),
            final(self).acc@ == old(self).acc@,
            final(self).vco_carry@ == old(self).vco_carry@,
            final(self).vco_ne@ == old(self).vco_ne@,
            final(self).vcc == old(self).vcc,
            final(self).vce == old(self).vce,
    {
        let mut i: usize = 0;
        while i < 8
            invariant
                old(self).wf(),
                vd < 32,
                lanes@.len() == 8,
                i <= 8,
                self.vregs@.len() == 512,
                self.acc@ == old(self).acc@,
                self.vco_carry@ == old(self).vco_carry@,
                self.vco_ne@ == old(self).vco_ne@,
                self.vcc == old(self).vcc,
                self.vce == old(self).vce,
                forall|k: int| 0 <= k < i ==> self.vreg_lane(vd as int, k) == lanes@[k],
                forall|b: int|
                    0 <= b < 512 && !(16 * vd <= b < 16 * vd + 2 * i) ==> self.vregs@[b] == old(
                        self,
                    ).vregs@[b],
            decreases 8 - i,
        {
            be_write_u16(&mut self.vregs, 16 * vd + 2 * i, lanes[i]);
            proof {
                lemma_be16_roundtrip();
            }
            i = i + 1;
        }
    }

    /// Writes eight lane values into accumulator slice `k`.
    fn write_acc_lanes(&mut self, k: usize, lanes: &Vec<u16>)
        requires
            old(self).wf(),
            k < 3,
            lanes@.len() == 8,
        ensures
            final(self).wf(),
            forall|i: int| 0 <= i < 8 ==> final(self).acc_lane(k as int, i) == lanes@[i],
            forall|b: int|
                0 <= b < 48 && !(16 * k <= b < 16 * k + 16) ==> final(self).acc@[b] == old(
                    self,
                ).acc@[b],
            final(self).vregs@ == old(self).vregs@,
            final(self).vco_carry@ == old(self).vco_carry@,
            final(self).vco_ne@ == old(self).vco_ne@,
            final(self).vcc == old(self).vcc,
            final(self).vce == old(self).vce,
    {
        let mut i: usize = 0;
        while i < 8
            invariant
                old(self).wf(),
                k < 3,
                lanes@.len() == 8,
                i <= 8,
                self.acc@.len() == 48,
                self.vregs@ == old(self).vregs@,
                self.vco_carry@ == old(self).vco_carry@,
                self.vco_ne@ == old(self).vco_ne@,
                self.vcc == old(self).vcc,
                self.vce == old(self).vce,
                forall|q: int| 0 <= q < i ==> self.acc_lane(k as int, q) == lanes@[q],
                forall|b: int|
                    0 <= b < 48 && !(16 * k <= b < 16 * k + 2 * i) ==> self.acc@[b] == old(
                        self,
                    ).acc@[b],
            decreases 8 - i,
        {
            be_write_u16(&mut self.acc, 16 * k + 2 * i, lanes[i]);
            proof {
                lemma_be16_roundtrip();
            }
            i = i + 1;
        }
    }

    /// Writes 16 bytes into vector register `vd`.
    fn write_reg_bytes(&mut self, vd: usize, bytes: &Vec<u8>)
        requires
            old(self).wf(),
            vd < 32,
            bytes@.len() == 16,
        ensures
            final(self).wf(),
            forall|j: int| 0 <= j < 16 ==> final(self).vreg_byte(vd as int, j) == bytes@[j],
            vregs_frame(*old(self), *final(self), vd as int),
            final(self).acc@ == old(self).acc@,
            final(self).vco_carry@ == old(self).vco_carry@,
            final(self).vco_ne@ == old(self).vco_ne@,
            final(self).vcc == old(self).vcc,
            final(self).vce == old(self).vce,
    {
        let mut j: usize = 0;
        while j < 16
            invariant
                old(self).wf(),
                vd < 32,
                bytes@.len() == 16,
                j <= 16,
                self.vregs@.len() == 512,
                self.acc@ == old(self).acc@,
                self.vco_carry@ == old(self).vco_carry@,
                self.vco_ne@ == old(self).vco_ne@,
                self.vcc == old(self).vcc,
                self.vce == old(self).vce,
                forall|k: int| 0 <= k < j ==> self.vreg_byte(vd as int, k) == bytes@[k],
                forall|b: int|
                    0 <= b < 512 && !(16 * vd <= b < 16 * vd + j) ==> self.vregs@[b] == old(
                        self,
                    ).vregs@[b],
            decreases 16 - j,
        {
            self.vregs[16 * vd + j] = bytes[j];
            j = j + 1;
        }
    }

    /// Writes 16 bytes into accumulator slice `k`.
    fn write_acc_bytes(&mut self, k: usize, bytes: &Vec<u8>)
        requires
            old(self).wf(),
            k < 3,
            bytes@.len() == 16,
        ensures
            final(self).wf(),
            forall|j: int| 0 <= j < 16 ==> final(self).acc_byte(k as int, j) == bytes@[j],
            forall|b: int|
                0 <= b < 48 && !(16 * k <= b < 16 * k + 16) ==> final(self).acc@[b] == old(
                    self,
                ).acc@[b],
            final(self).vregs@ == old(self).vregs@,
            final(self).vco_carry@ == old(self).vco_carry@,
            final(self).vco_ne@ == old(self).vco_ne@,
            final(self).vcc == old(self).vcc,
            final(self).vce == old(self).vce,
    {
        let mut j: usize = 0;
        while j < 16
            invariant
                old(self).wf(),
                k < 3,
                bytes@.len() == 16,
                j <= 16,
                self.acc@.len() == 48,
                self.vregs@ == old(self).vregs@,
                self.vco_carry@ == old(self).vco_carry@,
                self.vco_ne@ == old(self).vco_ne@,
                self.vcc == old(self).vcc,
                self.vce == old(self).vce,
                forall|q: int| 0 <= q < j ==> self.acc_byte(k as int, q) == bytes@[q],
                forall|b: int|
                    0 <= b < 48 && !(16 * k <= b < 16 * k + j) ==> self.acc@[b] == old(
                        self,
                    ).acc@[b],
            decreases 16 - j,
        {
            self.acc[16 * k + j] = bytes[j];
            j = j + 1;
        }
    }

    /// Replaces the VCO carry lanes.
    fn set_carry_lanes(&mut self, lanes: Vec<u8>)
        requires
            old(self).wf(),
            lanes@.len() == 8,
            forall|i: int| 0 <= i < 8 ==> lanes@[i] <= 1,
        ensures
            final(self).wf(),
            forall|i: int| 0 <= i < 8 ==> final(self).carry_lane(i) == lanes@[i],
            final(self).vregs@ == old(self).vregs@,
            final(self).acc@ == old(self).acc@,
            final(self).vco_ne@ == old(self).vco_ne@,
            final(self).vcc == old(self).vcc,
            final(self).vce == old(self).vce,
    {
        self.vco_carry = lanes;
    }

    /// Replaces the VCO not-equal lanes.
    fn set_ne_lanes(&mut self, lanes: Vec<u8>)
        requires
            old(self).wf(),
            lanes@.len() == 8,
            forall|i: int| 0 <= i < 8 ==> lanes@[i] <= 1,
        ensures
            final(self).wf(),
            forall|i: int| 0 <= i < 8 ==> final(self).ne_lane(i) == lanes@[i],
            final(self).vregs@ == old(self).vregs@,
            final(self).acc@ == old(self).acc@,
            final(self).vco_carry@ == old(self).vco_carry@,
            final(self).vcc == old(self).vcc,
            final(self).vce == old(self).vce,
    {
        self.vco_ne = lanes;
    }
}


/// Equal register buffers present equal byte, lane and 128-bit views.
proof fn lemma_vregs_eq_views(a: SpCop2, b: SpCop2)
    requires
        a.vregs@ == b.vregs@,
    ensures
        forall|r: int, j: int| #[trigger] b.vreg_byte(r, j) == a.vreg_byte(r, j),
        forall|r: int, i: int| #[trigger] b.vreg_lane(r, i) == a.vreg_lane(r, i),
{
}

/// Equal accumulator buffers present equal byte and lane views.
proof fn lemma_acc_eq_views(a: SpCop2, b: SpCop2)
    requires
        a.acc@ == b.acc@,
    ensures
        forall|k: int, j: int| #[trigger] b.acc_byte(k, j) == a.acc_byte(k, j),
        forall|k: int, i: int| #[trigger] b.acc_lane(k, i) == a.acc_lane(k, i),
{
}

/// An equal carry vector presents equal carry lanes.
proof fn lemma_carry_eq_views(a: SpCop2, b: SpCop2)
    requires
        a.vco_carry@ == b.vco_carry@,
    ensures
        forall|i: int| #[trigger] b.carry_lane(i) == a.carry_lane(i),
{
}

// ------------------------------------------------------------------
// The VU compute instructions.
// ------------------------------------------------------------------

impl SpCop2 {
    /// VADD: saturated add with carry (the carry joins the smaller operand).
    fn vadd_op(&mut self, op: u32)
        requires
            old(self).wf(),
        ensures
            final(self).wf(),
            vadd_post(*old(self), *final(self), op),
    {
        let vop = Vectorop { op };
        let rs = vop.rs();
        let rt = vop.rt();
        let e = vop.e();
        let vd = vop.rd();
        let s = self.vs_lanes(rs);
        let t = self.vte_lanes(rt, e);
        let c = self.carry_lanes();
        let mut res: Vec<u16> = Vec::new();
        let mut acc: Vec<u16> = Vec::new();
        let mut i: usize = 0;
        while i < 8
            invariant
                i <= 8,
                s@.len() == 8,
                t@.len() == 8,
                c@.len() == 8,
                forall|k: int| 0 <= k < 8 ==> c@[k] <= 1,
                res@.len() == i,
                acc@.len() == i,
                forall|k: int| 0 <= k < i ==> res@[k] == vadd_lane(s@[k], t@[k], c@[k]),
                forall|k: int| 0 <= k < i ==> acc@[k] == wrap_add3(s@[k], t@[k], c@[k]),
            decreases 8 - i,
        {
            res.push(vadd_lane_exec(s[i], t[i], c[i]));
            acc.push(wrap_add3_exec(s[i], t[i], c[i]));
            i = i + 1;
        }
        self.write_lanes(vd, &res);
        let ghost s1 = *self;
        self.write_acc_lanes(0, &acc);
        let ghost s2 = *self;
        self.set_carry_lanes(zero_bytes(8));
        let ghost s3 = *self;
        self.set_ne_lanes(zero_bytes(8));
        proof {
            lemma_vregs_eq_views(s1, *self);
            lemma_acc_eq_views(s2, *self);
            lemma_carry_eq_views(s3, *self);
            assert forall|i: int| 0 <= i < 8 implies self.vreg_lane(vop_rd(op), i) == vadd_lane(
                old(self).vreg_lane(vop_rs(op), i),
                old(self).vte_lane(vop_rt(op), vop_e(op), i),
                old(self).carry_lane(i),
            ) by {
                assert(self.vreg_lane(vop_rd(op), i) == s1.vreg_lane(vop_rd(op), i));
                assert(s1.vreg_lane(vd as int, i) == res@[i]);
                assert(res@[i] == vadd_lane(s@[i], t@[i], c@[i]));
                assert(s@[i] == old(self).vreg_lane(rs as int, i));
                assert(t@[i] == old(self).vte_lane(rt as int, e as int, i));
                assert(c@[i] == old(self).carry_lane(i));
            }
            assert forall|i: int| 0 <= i < 8 implies self.acc_lane(0, i) == wrap_add3(
                old(self).vreg_lane(vop_rs(op), i),
                old(self).vte_lane(vop_rt(op), vop_e(op), i),
                old(self).carry_lane(i),
            ) by {
                assert(self.acc_lane(0, i) == s2.acc_lane(0, i));
                assert(s2.acc_lane(0, i) == acc@[i]);
                assert(acc@[i] == wrap_add3(s@[i], t@[i], c@[i]));
            }
        }
    }

    /// VADDC: wrapping add; the carry lanes record unsigned wrap.
    fn vaddc_op(&mut self, op: u32)
        requires
            old(self).wf(),
        ensures
            final(self).wf(),
            vaddc_post(*old(self), *final(self), op),
    {
        let vop = Vectorop { op };
        let rs = vop.rs();
        let rt = vop.rt();
        let e = vop.e();
        let vd = vop.rd();
        let s = self.vs_lanes(rs);
        let t = self.vte_lanes(rt, e);
        let mut res: Vec<u16> = Vec::new();
        let mut carry: Vec<u8> = Vec::new();
        let mut i: usize = 0;
        while i < 8
            invariant
                i <= 8,
                s@.len() == 8,
                t@.len() == 8,
                res@.len() == i,
                carry@.len() == i,
                forall|k: int| 0 <= k < i ==> res@[k] == vaddc_res(s@[k], t@[k]),
                forall|k: int| 0 <= k < i ==> carry@[k] == vaddc_carry(s@[k], t@[k]),
                forall|k: int| 0 <= k < i ==> carry@[k] <= 1,
            decreases 8 - i,
        {
            let sum: u32 = (s[i] as u32) + (t[i] as u32);
            res.push((sum % 0x10000) as u16);
            carry.push(
                if sum > 0xffff {
                    1
                } else {
                    0
                },
            );
            i = i + 1;
        }
        let ghost cg = carry@;
        self.write_lanes(vd, &res);
        let ghost s1 = *self;
        self.write_acc_lanes(0, &res);
        let ghost s2 = *self;
        self.set_ne_lanes(zero_bytes(8));
        let ghost s3 = *self;
        self.set_carry_lanes(carry);
        proof {
            lemma_vregs_eq_views(s1, *self);
            lemma_acc_eq_views(s2, *self);
            assert forall|i: int| 0 <= i < 8 implies self.ne_lane(i) == 0 by {
                assert(s3.ne_lane(i) == 0);
                assert(self.vco_ne@ == s3.vco_ne@);
            }
            assert forall|i: int| 0 <= i < 8 implies self.vreg_lane(vop_rd(op), i) == vaddc_res(
                old(self).vreg_lane(vop_rs(op), i),
                old(self).vte_lane(vop_rt(op), vop_e(op), i),
            ) by {
                assert(self.vreg_lane(vop_rd(op), i) == s1.vreg_lane(vop_rd(op), i));
                assert(s1.vreg_lane(vd as int, i) == res@[i]);
                assert(res@[i] == vaddc_res(s@[i], t@[i]));
                assert(s@[i] == old(self).vreg_lane(rs as int, i));
                assert(t@[i] == old(self).vte_lane(rt as int, e as int, i));
            }
            assert forall|i: int| 0 <= i < 8 implies self.acc_lane(0, i) == vaddc_res(
                old(self).vreg_lane(vop_rs(op), i),
                old(self).vte_lane(vop_rt(op), vop_e(op), i),
            ) by {
                assert(self.acc_lane(0, i) == s2.acc_lane(0, i));
                assert(s2.acc_lane(0, i) == res@[i]);
            }
            assert forall|i: int| 0 <= i < 8 implies self.carry_lane(i) == vaddc_carry(
                old(self).vreg_lane(vop_rs(op), i),
                old(self).vte_lane(vop_rt(op), vop_e(op), i),
            ) by {
                assert(self.carry_lane(i) == cg[i]);
                assert(cg[i] == vaddc_carry(s@[i], t@[i]));
            }
        }
    }

    /// VAND/VNAND/VOR/VNOR/VXOR/VNXOR: bitwise on the routed operands.
    fn logical_op(&mut self, op: u32)
        requires
            old(self).wf(),
        ensures
            final(self).wf(),
            logical_post(*old(self), *final(self), op),
    {
        let vop = Vectorop { op };
        let f = vop.func();
        let rs = vop.rs();
        let rt = vop.rt();
        let e = vop.e();
        let vd = vop.rd();
        let a = self.vs_bytes(rs);
        let b = self.vte_bytes(rt, e);
        let mut out: Vec<u8> = Vec::new();
        let mut j: usize = 0;
        while j < 16
            invariant
                j <= 16,
                a@.len() == 16,
                b@.len() == 16,
                out@.len() == j,
                forall|k: int| 0 <= k < j ==> out@[k] == logical_byte(f, a@[k], b@[k]),
            decreases 16 - j,
        {
            out.push(logical_byte_exec(f, a[j], b[j]));
            j = j + 1;
        }
        self.write_reg_bytes(vd, &out);
        let ghost s1 = *self;
        self.write_acc_bytes(0, &out);
        proof {
            lemma_vregs_eq_views(s1, *self);
            assert forall|j: int| 0 <= j < 16 implies self.vreg_byte(vop_rd(op), j)
                == logical_byte(
                vop_func(op),
                old(self).vreg_byte(vop_rs(op), j),
                old(self).vte_byte_sel(vop_rt(op), vop_e(op), j),
            ) by {
                assert(self.vreg_byte(vop_rd(op), j) == s1.vreg_byte(vop_rd(op), j));
                assert(s1.vreg_byte(vd as int, j) == out@[j]);
                assert(out@[j] == logical_byte(f, a@[j], b@[j]));
                assert(a@[j] == old(self).vreg_byte(rs as int, j));
                assert(b@[j] == old(self).vte_byte_sel(rt as int, e as int, j));
            }
            assert forall|j: int| 0 <= j < 16 implies self.acc_byte(0, j) == logical_byte(
                vop_func(op),
                old(self).vreg_byte(vop_rs(op), j),
                old(self).vte_byte_sel(vop_rt(op), vop_e(op), j),
            ) by {
                assert(self.acc_byte(0, j) == out@[j]);
            }
        }
    }

    /// VSAR: reads an accumulator slice into vd without writing the
    /// accumulator; selectors 0..2 read as zero.
    fn vsar_op(&mut self, op: u32)
        requires
            old(self).wf(),
            vop_e(op) <= 2 || (8 <= vop_e(op) && vop_e(op) <= 10),
        ensures
            final(self).wf(),
            vsar_post(*old(self), *final(self), op),
    {
        let vop = Vectorop { op };
        let e = vop.e();
        let vd = vop.rd();
        if e >= 8 {
            let bytes = self.acc_bytes(2 - (e - 8));
            self.write_reg_bytes(vd, &bytes);
            proof {
                assert forall|j: int| 0 <= j < 16 implies self.vreg_byte(vop_rd(op), j) == old(
                    self,
                ).acc_byte(2 - (vop_e(op) - 8), j) by {
                    assert(self.vreg_byte(vd as int, j) == bytes@[j]);
                    assert(bytes@[j] == old(self).acc_byte((2 - (e - 8)) as int, j));
                }
            }
        } else {
            let zeros = zero_bytes(16);
            self.write_reg_bytes(vd, &zeros);
            proof {
                assert forall|j: int| 0 <= j < 16 implies self.vreg_byte(vop_rd(op), j) == 0 by {
                    assert(self.vreg_byte(vd as int, j) == zeros@[j]);
                    assert(zeros@[j] == 0);
                }
            }
        }
    }

    /// One vector-unit compute step. With bit 25 set the function field
    /// selects the operation; a multiply is decoded into a [`MulRequest`]
    /// for the caller's kernel. With bit 25 clear, CFC2/CTC2 move the flag
    /// registers to and from the CPU register file `regs`.
    pub fn uop(&mut self, regs: &mut Vec<u64>, op: u32) -> (r: Result<VuStep, VuError>)
        requires
            old(self).wf(),
            old(regs)@.len() == 32,
        ensures
            final(self).wf(),
            final(regs)@.len() == 32,
            uop_post(*old(self), *final(self), old(regs)@, final(regs)@, op, r),
    {
        let vop = Vectorop { op };
        if op & 0x02000000 != 0 {
            let func = vop.func();
            if is_mul_func_exec(func) {
                let rs = vop.rs();
                let rt = vop.rt();
                let e = vop.e();
                let vd = vop.rd();
                let vsu = be_read_u128(&self.vregs, 16 * rs);
                let vteb = self.vte_bytes(rt, e);
                let vteu = be_read_u128(&vteb, 0);
                let lo = be_read_u128(&self.acc, 0);
                let md = be_read_u128(&self.acc, 16);
                let hi = be_read_u128(&self.acc, 32);
                proof {
                    assert(vteb@ =~= Seq::new(
                        16,
                        |j: int| self.vte_byte_sel(rt as int, e as int, j),
                    ));
                }
                Ok(
                    VuStep::Mul(
                        MulRequest {
                            kernel: kernel_of_exec(func),
                            vd,
                            vs: vsu,
                            vte: vteu,
                            acc_lo: lo,
                            acc_md: md,
                            acc_hi: hi,
                        },
                    ),
                )
            } else if func == 0x10 {
                self.vadd_op(op);
                Ok(VuStep::Done)
            } else if func == 0x14 {
                self.vaddc_op(op);
                Ok(VuStep::Done)
            } else if func == 0x1d {
                let e = vop.e();
                if e <= 2 || (8 <= e && e <= 10) {
                    self.vsar_op(op);
                    Ok(VuStep::Done)
                } else {
                    Err(VuError::UnimplementedElement(op))
                }
            } else if 0x28 <= func && func <= 0x2d {
                self.logical_op(op);
                Ok(VuStep::Done)
            } else {
                Err(VuError::UnimplementedFunc(op))
            }
        } else {
            let e = vop.e();
            let rs = vop.rs();
            let rt = vop.rt();
            if e == 2 && rs <= 2 {
                let v: u16 = if rs == 0 {
                    self.vco()
                } else if rs == 1 {
                    self.vcc()
                } else {
                    self.vce()
                };
                regs[rt] = v as u64;
                Ok(VuStep::Done)
            } else if e == 6 && rs <= 2 {
                let x = regs[rt] as u16;
                if rs == 0 {
                    self.set_vco(x);
                } else if rs == 1 {
                    self.set_vcc(x);
                } else {
                    self.set_vce(x);
                }
                Ok(VuStep::Done)
            } else {
                Err(VuError::UnimplementedTransfer(op))
            }
        }
    }

    /// One COP2 instruction: the checked entry point around [`Self::uop`].
    pub fn op(&mut self, regs: &mut Vec<u64>, op: u32) -> (r: Result<VuStep, VuError>)
        requires
            old(self).wf(),
            old(regs)@.len() == 32,
        ensures
            final(self).wf(),
            final(regs)@.len() == 32,
            uop_post(*old(self), *final(self), old(regs)@, final(regs)@, op, r),
    {
        self.uop(regs, op)
    }

    /// Writes a multiply kernel's return quadruple: the result into vd and
    /// the three new accumulator slices.
    pub fn vmul_commit(&mut self, vd: usize, res: u128, acc_lo: u128, acc_md: u128, acc_hi: u128)
        requires
            old(self).wf(),
            vd < 32,
        ensures
            final(self).wf(),
            forall|j: int|
                0 <= j < 16 ==> final(self).vreg_byte(vd as int, j) == be128_byte(res, j),
            vregs_frame(*old(self), *final(self), vd as int),
            forall|j: int| 0 <= j < 16 ==> final(self).acc_byte(0, j) == be128_byte(acc_lo, j),
            forall|j: int| 0 <= j < 16 ==> final(self).acc_byte(1, j) == be128_byte(acc_md, j),
            forall|j: int| 0 <= j < 16 ==> final(self).acc_byte(2, j) == be128_byte(acc_hi, j),
            vco_frame(*old(self), *final(self)),
            ctrl_frame(*old(self), *final(self)),
    {
        be_write_u128(&mut self.vregs, 16 * vd, res);
        be_write_u128(&mut self.acc, 0, acc_lo);
        be_write_u128(&mut self.acc, 16, acc_md);
        be_write_u128(&mut self.acc, 32, acc_hi);
    }

    /// The uniform external view: vector registers 0..32, then VCO, VCC,
    /// VCE, and the three accumulator slices.
    pub open spec fn reg_view(self, idx: int) -> u128 {
        if idx < 32 {
            self.vreg_u128(idx)
        } else if idx == 32 {
            self.vco_reg() as u128
        } else if idx == 33 {
            self.vcc_reg() as u128
        } else if idx == 34 {
            self.vce_reg() as u128
        } else {
            self.acc_u128(idx - 35)
        }
    }

    /// Reads one of the 38 logical registers.
    pub fn reg(&self, idx: usize) -> (r: u128)
        requires
            self.wf(),
            idx < 38,
        ensures
            r == self.reg_view(idx as int),
    {
        if idx < 32 {
            be_read_u128(&self.vregs, 16 * idx)
        } else if idx == 32 {
            self.vco() as u128
        } else if idx == 33 {
            self.vcc() as u128
        } else if idx == 34 {
            self.vce() as u128
        } else {
            be_read_u128(&self.acc, 16 * (idx - 35))
        }
    }

    /// Overwrites one of the 38 logical registers.
    pub fn set_reg(&mut self, idx: usize, val: u128)
        requires
            old(self).wf(),
            idx < 38,
        ensures
            final(self).wf(),
            set_reg_post(*old(self), *final(self), idx as int, val),
    {
        if idx < 32 {
            be_write_u128(&mut self.vregs, 16 * idx, val);
        } else if idx == 32 {
            self.set_vco(val as u16);
        } else if idx == 33 {
            self.set_vcc(val as u16);
        } else if idx == 34 {
            self.set_vce(val as u16);
        } else {
            be_write_u128(&mut self.acc, 16 * (idx - 35), val);
        }
    }
}

/// What [`SpCop2::set_reg`] does for each logical register index.
pub open spec fn set_reg_post(pre: SpCop2, post: SpCop2, idx: int, val: u128) -> bool {
    if idx < 32 {
        &&& (forall|j: int| 0 <= j < 16 ==> post.vreg_byte(idx, j) == be128_byte(val, j))
        &&& vregs_frame(pre, post, idx)
        &&& post.flags_frame(pre)
    } else if idx == 32 {
        &&& (forall|i: int| 0 <= i < 8 ==> post.carry_lane(i) == vco_bit(val as u16, i))
        &&& (forall|i: int| 0 <= i < 8 ==> post.ne_lane(i) == vco_bit(val as u16, i + 8))
        &&& post.flags_frame_but_vco(pre)
    } else if idx == 33 {
        post.vcc_reg() == val as u16 && post.flags_frame_but_vcc(pre)
    } else if idx == 34 {
        post.vce_reg() == val as u16 && post.flags_frame_but_vce(pre)
    } else {
        &&& (forall|j: int| 0 <= j < 16 ==> post.acc_byte(idx - 35, j) == be128_byte(val, j))
        &&& (forall|k: int, j: int|
            0 <= k < 3 && k != idx - 35 && 0 <= j < 16 ==> post.acc_byte(k, j) == pre.acc_byte(
                k,
                j,
            ))
        &&& post.frame_but_acc(pre)
    }
}

// ------------------------------------------------------------------
// Laws.
// ------------------------------------------------------------------

/// Register round-trip: after a vector register is stored through
/// `set_reg`, `reg` reads the stored 128-bit value back, for every index in
/// 0..32 and every value.
pub proof fn lemma_reg_roundtrip(pre: SpCop2, post: SpCop2, idx: int, v: u128)
    requires
        pre.wf(),
        post.wf(),
        0 <= idx < 32,
        set_reg_post(pre, post, idx, v),
    ensures
        post.reg_view(idx) == v,
{
    assert forall|k: int| 0 <= k < 16 implies post.vregs@[16 * idx + k] == be128_byte(v, k) by {
        assert(post.vreg_byte(idx, k) == be128_byte(v, k));
    }
    lemma_be128_assemble(post.vregs@, 16 * idx, v);
    assert(post.reg_view(idx) == be128_at(post.vregs@, 16 * idx));
}

/// Flag round-trip: after `set_vco(x)` (or a CTC2 of VCO, or `set_reg` of
/// the VCO alias), the packed VCO value reads back as `x`, for every 16-bit
/// value.
pub proof fn lemma_vco_set_get(post: SpCop2, x: u16)
    requires
        post.wf(),
        forall|i: int| 0 <= i < 8 ==> post.carry_lane(i) == vco_bit(x, i),
        forall|i: int| 0 <= i < 8 ==> post.ne_lane(i) == vco_bit(x, i + 8),
    ensures
        post.vco_reg() == x,
{
    assert forall|i: int| 0 <= i < 8 implies post.vco_carry@[i] == vco_bit(x, i) by {
        assert(post.carry_lane(i) == vco_bit(x, i));
    }
    assert forall|i: int| 0 <= i < 8 implies post.vco_ne@[i] == vco_bit(x, i + 8) by {
        assert(post.ne_lane(i) == vco_bit(x, i + 8));
    }
    lemma_vco_roundtrip(x, post.vco_carry@, post.vco_ne@);
}

/// VADD saturation law: with the carry lane set, the result lane is
/// sat16(sat16(min(vs, vt) + 1) + max(vs, vt)) on the signed lane values.
pub proof fn lemma_vadd_saturation(s: u16, t: u16)
    ensures
        vadd_lane(s, t, 1) == from_i16(
            sat16(sat16(imin(to_i16(s), to_i16(t)) + 1) + imax(to_i16(s), to_i16(t))),
        ),
{
}

/// The two-step saturation of VADD equals the saturation of the exact
/// three-way sum: adding the carry to the smaller operand first never
/// saturates too early.
pub proof fn lemma_vadd_exact(s: u16, t: u16, c: u8)
    requires
        c <= 1,
    ensures
        vadd_lane(s, t, c) == from_i16(sat16(to_i16(s) + to_i16(t) + c)),
{
}

// ------------------------------------------------------------------
// Crate-internal unfoldings of the closed view functions, for the memory
// instructions in the neighbouring module.
// ------------------------------------------------------------------

pub(crate) proof fn lemma_wf_parts(s: SpCop2)
    requires
        s.wf(),
    ensures
        s.vregs@.len() == 512,
        s.acc@.len() == 48,
        s.vco_carry@.len() == 8,
        s.vco_ne@.len() == 8,
        forall|i: int| 0 <= i < 8 ==> s.vco_carry@[i] <= 1,
        forall|i: int| 0 <= i < 8 ==> s.vco_ne@[i] <= 1,
{
}

pub(crate) proof fn lemma_wf_intro(s: SpCop2)
    requires
        s.vregs@.len() == 512,
        s.acc@.len() == 48,
        s.vco_carry@.len() == 8,
        s.vco_ne@.len() == 8,
        forall|i: int| 0 <= i < 8 ==> s.vco_carry@[i] <= 1,
        forall|i: int| 0 <= i < 8 ==> s.vco_ne@[i] <= 1,
    ensures
        s.wf(),
{
}

pub(crate) proof fn lemma_views(s: SpCop2)
    ensures
        forall|r: int, j: int| #[trigger] s.vreg_byte(r, j) == s.vregs@[16 * r + j],
        forall|k: int, j: int| #[trigger] s.acc_byte(k, j) == s.acc@[16 * k + j],
{
}

pub(crate) proof fn lemma_flags_frame_intro(pre: SpCop2, post: SpCop2)
    requires
        post.acc@ == pre.acc@,
        post.vco_carry@ == pre.vco_carry@,
        post.vco_ne@ == pre.vco_ne@,
        post.vcc == pre.vcc,
        post.vce == pre.vce,
    ensures
        post.flags_frame(pre),
{
}

} // verus!
