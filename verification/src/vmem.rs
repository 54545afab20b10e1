//! The vector unit's memory instructions: byte-granular partial transfers
//! between DMEM (a 4 KiB big-endian byte buffer) and the vector registers.
//!
//! Address computation is uniform: the base CPU register plus the 7-bit
//! unsigned offset scaled by the transfer size, masked to 12 bits. The
//! sub-word forms LBV/LSV/LLV/LDV move 1/2/4/8 bytes; LQV/LRV move the tail
//! and head of a 16-byte window; LTV scatters eight lanes across a register
//! group; the stores are their inverses.

use vstd::prelude::*;
use crate::cop2::{
    SpCop2, VuError, vregs_frame, lemma_wf_parts, lemma_wf_intro, lemma_views,
    lemma_flags_frame_intro,
};

verus! {

/// The vt register field of a load/store opcode, bits 20..16.
pub open spec fn ls_vt(op: u32) -> int {
    ((op >> 16u32) & 0x1f) as int
}

/// The sub-opcode field, bits 15..11.
pub open spec fn ls_opcode(op: u32) -> u32 {
    (op >> 11u32) & 0x1f
}

/// The element (byte offset into the register) field, bits 10..7.
pub open spec fn ls_element(op: u32) -> int {
    ((op >> 7u32) & 0xf) as int
}

/// The unsigned 7-bit offset field.
pub open spec fn ls_offset(op: u32) -> u32 {
    op & 0x7f
}

/// The base address: the selected CPU register truncated to 32 bits.
pub open spec fn ls_base(op: u32, gpr: Seq<u64>) -> u32 {
    gpr[((op >> 21u32) & 0x1f) as int] as u32
}

/// The effective DMEM address: base plus scaled offset, masked to 12 bits.
pub open spec fn ea_of(base: u32, offset: u32, scale: int) -> int {
    (base + offset * scale) % 4096
}

/// Bit extraction on load/store opcodes stays in bounds.
proof fn lemma_ls_fields()
    by (bit_vector)
    ensures
        forall|op: u32| 0 <= #[trigger] ((op >> 16u32) & 0x1f) < 32,
        forall|op: u32| 0 <= #[trigger] ((op >> 21u32) & 0x1f) < 32,
        forall|op: u32| 0 <= #[trigger] ((op >> 7u32) & 0xf) < 16,
        forall|op: u32| #[trigger] (op >> 11u32) & 0x1f < 32,
        forall|op: u32| #[trigger] (op & 0x7f) < 128,
{
}

/// The transfer size in bytes of a sub-word form, or 0 for the other forms.
pub open spec fn subword_size(oc: u32) -> int {
    if oc == 0 {
        1
    } else if oc == 1 {
        2
    } else if oc == 2 {
        4
    } else if oc == 3 {
        8
    } else {
        0
    }
}

/// The effective address of the transfer that `op` encodes.
pub open spec fn ls_ea(op: u32, gpr: Seq<u64>) -> int {
    let oc = ls_opcode(op);
    ea_of(ls_base(op, gpr), ls_offset(op), if oc == 0x0b {
        1
    } else if oc <= 3 {
        subword_size(oc)
    } else {
        16
    })
}

/// A load stays inside DMEM: the sub-word forms must not run past the 4 KiB
/// end, and LTV's 16-byte window must fit. (The hardware model treats an
/// overrunning access as fatal.)
pub open spec fn lwc_ok(op: u32, gpr: Seq<u64>) -> bool {
    let oc = ls_opcode(op);
    if oc <= 3 {
        ls_ea(op, gpr) + subword_size(oc) <= 4096
    } else if oc == 0x0b {
        let ea = ls_ea(op, gpr);
        (ea - ea % 8) + 16 <= 4096
    } else {
        true
    }
}

/// A store stays inside DMEM.
pub open spec fn swc_ok(op: u32, gpr: Seq<u64>) -> bool {
    let oc = ls_opcode(op);
    if oc <= 3 {
        ls_ea(op, gpr) + subword_size(oc) <= 4096
    } else {
        true
    }
}

// ------------------------------------------------------------------
// Per-form postconditions.
// ------------------------------------------------------------------

/// A sub-word load: `size` DMEM bytes enter the register at byte offset
/// `e`, stopping at the register's end; the rest of the register keeps its
/// bytes.
pub open spec fn lxv_post(
    pre: SpCop2,
    post: SpCop2,
    vt: int,
    e: int,
    dmem: Seq<u8>,
    ea: int,
    size: int,
) -> bool {
    forall|j: int|
        0 <= j < 16 ==> post.vreg_byte(vt, j) == (if e <= j < e + size {
            dmem[ea + (j - e)]
        } else {
            pre.vreg_byte(vt, j)
        })
}

/// LQV: the tail of the 16-byte window at `ea` enters the head of the
/// register (from byte `e`), stopping at either end.
pub open spec fn lqv_post(
    pre: SpCop2,
    post: SpCop2,
    vt: int,
    e: int,
    dmem: Seq<u8>,
    ea: int,
) -> bool {
    let cnt = 16 - ea % 16;
    forall|j: int|
        0 <= j < 16 ==> post.vreg_byte(vt, j) == (if e <= j < e + cnt {
            dmem[ea + (j - e)]
        } else {
            pre.vreg_byte(vt, j)
        })
}

/// LRV: the head of the 16-byte window enters the tail of the register,
/// complementary to LQV.
pub open spec fn lrv_post(
    pre: SpCop2,
    post: SpCop2,
    vt: int,
    e: int,
    dmem: Seq<u8>,
    ea: int,
) -> bool {
    let qw = ea - ea % 16;
    let sh = 16 - ea % 16 + e;
    forall|j: int|
        0 <= j < 16 ==> post.vreg_byte(vt, j) == (if sh <= j < 16 {
            dmem[qw + (j - sh)]
        } else {
            pre.vreg_byte(vt, j)
        })
}

/// The byte rotation LTV applies to its 16-byte window.
pub open spec fn ltv_rot(e: int, ea: int) -> int {
    (e + 8 * ((ea / 8) % 2)) % 16
}

/// LTV: the rotated window is scattered over the register group of `vt`,
/// one lane per register, the lane index falling as the register index
/// rises.
pub open spec fn ltv_post(
    pre: SpCop2,
    post: SpCop2,
    vt: int,
    e: int,
    dmem: Seq<u8>,
    ea: int,
) -> bool {
    let vtbase = vt - vt % 8;
    let qw = ea - ea % 8;
    let rb = ltv_rot(e, ea);
    forall|q: int, j: int|
        0 <= q < 32 && 0 <= j < 16 ==> post.vreg_byte(q, j) == (if q == vtbase + (
        (e / 2 + 7 - j / 2) % 8) {
            dmem[qw + ((2 * (7 - j / 2) + (j % 2) + rb) % 16)]
        } else {
            pre.vreg_byte(q, j)
        })
}

/// A sub-word store: `size` register bytes starting at byte `e` (wrapping
/// around the register) leave for DMEM at `ea`.
pub open spec fn sxv_post(
    spv: SpCop2,
    vt: int,
    e: int,
    d0: Seq<u8>,
    d1: Seq<u8>,
    ea: int,
    size: int,
) -> bool {
    &&& d1.len() == d0.len()
    &&& forall|a: int|
        0 <= a < d0.len() ==> d1[a] == (if ea <= a < ea + size {
            spv.vreg_byte(vt, (e + (a - ea)) % 16)
        } else {
            d0[a]
        })
}

/// SQV: the register (rotated by `e` bytes) fills the window from `ea` to
/// the window's end.
pub open spec fn sqv_post(spv: SpCop2, vt: int, e: int, d0: Seq<u8>, d1: Seq<u8>, ea: int) -> bool {
    let qw = ea - ea % 16;
    &&& d1.len() == d0.len()
    &&& forall|a: int|
        0 <= a < d0.len() ==> d1[a] == (if ea <= a < qw + 16 {
            spv.vreg_byte(vt, (e + (a - ea)) % 16)
        } else {
            d0[a]
        })
}

/// SRV: the register's tail fills the window's head, complementary to SQV.
pub open spec fn srv_post(spv: SpCop2, vt: int, e: int, d0: Seq<u8>, d1: Seq<u8>, ea: int) -> bool {
    let qw = ea - ea % 16;
    let sh = 16 - ea % 16;
    &&& d1.len() == d0.len()
    &&& forall|a: int|
        0 <= a < d0.len() ==> d1[a] == (if qw <= a < ea {
            spv.vreg_byte(vt, (e + sh + (a - qw)) % 16)
        } else {
            d0[a]
        })
}

/// The full contract of a vector load.
pub open spec fn lwc_post(
    pre: SpCop2,
    post: SpCop2,
    op: u32,
    gpr: Seq<u64>,
    dmem: Seq<u8>,
    r: Result<(), VuError>,
) -> bool {
    let oc = ls_opcode(op);
    let vt = ls_vt(op);
    let e = ls_element(op);
    let ea = ls_ea(op, gpr);
    if oc <= 3 {
        &&& r == Ok::<(), VuError>(())
        &&& lxv_post(pre, post, vt, e, dmem, ea, subword_size(oc))
        &&& vregs_frame(pre, post, vt)
        &&& post.flags_frame(pre)
    } else if oc == 4 {
        &&& r == Ok::<(), VuError>(())
        &&& lqv_post(pre, post, vt, e, dmem, ea)
        &&& vregs_frame(pre, post, vt)
        &&& post.flags_frame(pre)
    } else if oc == 5 {
        &&& r == Ok::<(), VuError>(())
        &&& lrv_post(pre, post, vt, e, dmem, ea)
        &&& vregs_frame(pre, post, vt)
        &&& post.flags_frame(pre)
    } else if oc == 0x0b {
        &&& r == Ok::<(), VuError>(())
        &&& ltv_post(pre, post, vt, e, dmem, ea)
        &&& post.flags_frame(pre)
    } else {
        r == Err::<(), VuError>(VuError::UnimplementedLoad(op)) && post == pre
    }
}

/// The full contract of a vector store.
pub open spec fn swc_post(
    spv: SpCop2,
    op: u32,
    gpr: Seq<u64>,
    d0: Seq<u8>,
    d1: Seq<u8>,
    r: Result<(), VuError>,
) -> bool {
    let oc = ls_opcode(op);
    let vt = ls_vt(op);
    let e = ls_element(op);
    let ea = ls_ea(op, gpr);
    if oc <= 3 {
        r == Ok::<(), VuError>(()) && sxv_post(spv, vt, e, d0, d1, ea, subword_size(oc))
    } else if oc == 4 {
        r == Ok::<(), VuError>(()) && sqv_post(spv, vt, e, d0, d1, ea)
    } else if oc == 5 {
        r == Ok::<(), VuError>(()) && srv_post(spv, vt, e, d0, d1, ea)
    } else {
        r == Err::<(), VuError>(VuError::UnimplementedStore(op)) && d1 == d0
    }
}

// ------------------------------------------------------------------
// Executable forms.
// ------------------------------------------------------------------

/// The effective DMEM address of a transfer.
fn compute_ea(base: u32, offset: u32, scale: u64) -> (r: usize)
    requires
        offset < 128,
        scale <= 16,
    ensures
        r == ea_of(base, offset, scale as int),
        r < 4096,
{
    proof {
        assert((offset as u64) * scale <= 2032) by (nonlinear_arith)
            requires
                offset < 128,
                scale <= 16,
        ;
    }
    (((base as u64) + (offset as u64) * scale) % 4096) as usize
}

impl SpCop2 {
    /// A sub-word load: `size` bytes from `ea` into the register at byte
    /// offset `element`, stopping at the register's end.
    fn lxv(&mut self, vt: usize, element: usize, dmem: &Vec<u8>, ea: usize, size: usize)
        requires
            old(self).wf(),
            vt < 32,
            element < 16,
            dmem@.len() == 4096,
            ea + size <= 4096,
            size <= 8,
        ensures
            final(self).wf(),
            lxv_post(*old(self), *final(self), vt as int, element as int, dmem@, ea as int, size as int),
            vregs_frame(*old(self), *final(self), vt as int),
            final(self).flags_frame(*old(self)),
    {
        proof {
            lemma_wf_parts(*old(self));
        }
        let mut i: usize = 0;
        while i < size && element + i < 16
            invariant
                old(self).wf(),
                vt < 32,
                element < 16,
                size <= 8,
                ea + size <= 4096,
                dmem@.len() == 4096,
                i <= size,
                element + i <= 16,
                self.vregs@.len() == 512,
                self.acc@ == old(self).acc@,
                self.vco_carry@ == old(self).vco_carry@,
                self.vco_ne@ == old(self).vco_ne@,
                self.vcc == old(self).vcc,
                self.vce == old(self).vce,
                forall|b: int|
                    16 * vt + element <= b < 16 * vt + element + i ==> self.vregs@[b] == dmem@[ea
                        + (b - (16 * vt + element))],
                forall|b: int|
                    0 <= b < 512 && !(16 * vt + element <= b < 16 * vt + element + i)
                        ==> self.vregs@[b] == old(self).vregs@[b],
            decreases size - i,
        {
            self.vregs[16 * vt + element + i] = dmem[ea + i];
            i = i + 1;
        }
        proof {
            lemma_wf_intro(*self);
            lemma_flags_frame_intro(*old(self), *self);
            lemma_views(*old(self));
            lemma_views(*self);
            assert forall|q: int, j: int|
                0 <= q < 32 && q != vt && 0 <= j < 16 implies self.vreg_byte(q, j) == old(
                self,
            ).vreg_byte(q, j) by {
                assert(16 * q + j < 16 * vt || 16 * q + j >= 16 * vt + 16);
            }
        }
    }

    /// LQV: the tail of the 16-byte window into the head of the register.
    fn lqv(&mut self, vt: usize, element: usize, dmem: &Vec<u8>, ea: usize)
        requires
            old(self).wf(),
            vt < 32,
            element < 16,
            dmem@.len() == 4096,
            ea < 4096,
        ensures
            final(self).wf(),
            lqv_post(*old(self), *final(self), vt as int, element as int, dmem@, ea as int),
            vregs_frame(*old(self), *final(self), vt as int),
            final(self).flags_frame(*old(self)),
    {
        proof {
            lemma_wf_parts(*old(self));
        }
        let cnt: usize = 16 - ea % 16;
        let mut i: usize = 0;
        while i < cnt && element + i < 16
            invariant
                old(self).wf(),
                vt < 32,
                element < 16,
                cnt == 16 - ea % 16,
                ea < 4096,
                dmem@.len() == 4096,
                i <= cnt,
                element + i <= 16,
                self.vregs@.len() == 512,
                self.acc@ == old(self).acc@,
                self.vco_carry@ == old(self).vco_carry@,
                self.vco_ne@ == old(self).vco_ne@,
                self.vcc == old(self).vcc,
                self.vce == old(self).vce,
                forall|b: int|
                    16 * vt + element <= b < 16 * vt + element + i ==> self.vregs@[b] == dmem@[ea
                        + (b - (16 * vt + element))],
                forall|b: int|
                    0 <= b < 512 && !(16 * vt + element <= b < 16 * vt + element + i)
                        ==> self.vregs@[b] == old(self).vregs@[b],
            decreases cnt - i,
        {
            self.vregs[16 * vt + element + i] = dmem[ea + i];
            i = i + 1;
        }
        proof {
            lemma_wf_intro(*self);
            lemma_flags_frame_intro(*old(self), *self);
            lemma_views(*old(self));
            lemma_views(*self);
            assert forall|q: int, j: int|
                0 <= q < 32 && q != vt && 0 <= j < 16 implies self.vreg_byte(q, j) == old(
                self,
            ).vreg_byte(q, j) by {
                assert(16 * q + j < 16 * vt || 16 * q + j >= 16 * vt + 16);
            }
        }
    }

    /// LRV: the head of the 16-byte window into the tail of the register.
    fn lrv(&mut self, vt: usize, element: usize, dmem: &Vec<u8>, ea: usize)
        requires
            old(self).wf(),
            vt < 32,
            element < 16,
            dmem@.len() == 4096,
            ea < 4096,
        ensures
            final(self).wf(),
            lrv_post(*old(self), *final(self), vt as int, element as int, dmem@, ea as int),
            vregs_frame(*old(self), *final(self), vt as int),
            final(self).flags_frame(*old(self)),
    {
        proof {
            lemma_wf_parts(*old(self));
        }
        let qw: usize = ea - ea % 16;
        let sh: usize = 16 - ea % 16 + element;
        let mut j: usize = sh;
        while j < 16
            invariant
                old(self).wf(),
                vt < 32,
                element < 16,
                qw == ea - ea % 16,
                sh == 16 - ea % 16 + element,
                ea < 4096,
                dmem@.len() == 4096,
                sh <= j,
                j <= 16 || j == sh,
                self.vregs@.len() == 512,
                self.acc@ == old(self).acc@,
                self.vco_carry@ == old(self).vco_carry@,
                self.vco_ne@ == old(self).vco_ne@,
                self.vcc == old(self).vcc,
                self.vce == old(self).vce,
                forall|b: int|
                    16 * vt + sh <= b < 16 * vt + j ==> self.vregs@[b] == dmem@[qw + (b - (16 * vt
                        + sh))],
                forall|b: int|
                    0 <= b < 512 && !(16 * vt + sh <= b < 16 * vt + j) ==> self.vregs@[b] == old(
                        self,
                    ).vregs@[b],
            decreases 16 - j,
        {
            self.vregs[16 * vt + j] = dmem[qw + (j - sh)];
            j = j + 1;
        }
        proof {
            lemma_wf_intro(*self);
            lemma_flags_frame_intro(*old(self), *self);
            lemma_views(*old(self));
            lemma_views(*self);
        }
    }

    /// LTV: scatters the rotated 16-byte window across the register group,
    /// one lane per register.
    #[verifier::rlimit(100)]
    fn ltv(&mut self, vt: usize, element: usize, dmem: &Vec<u8>, ea: usize)
        requires
            old(self).wf(),
            vt < 32,
            element < 16,
            dmem@.len() == 4096,
            ea < 4096,
            (ea - ea % 8) + 16 <= 4096,
        ensures
            final(self).wf(),
            ltv_post(*old(self), *final(self), vt as int, element as int, dmem@, ea as int),
            final(self).flags_frame(*old(self)),
    {
        proof {
            lemma_wf_parts(*old(self));
        }
        let qw: usize = ea - ea % 8;
        let rb: usize = (element + (if (ea / 8) % 2 == 1 {
            8
        } else {
            0
        })) % 16;
        let eh: usize = element / 2;
        let vtbase: usize = vt - vt % 8;
        let mut t: usize = 0;
        while t < 8
            invariant
                old(self).wf(),
                vt < 32,
                element < 16,
                qw == ea - ea % 8,
                qw + 16 <= 4096,
                rb == ltv_rot(element as int, ea as int),
                rb < 16,
                eh == element / 2,
                vtbase == vt - vt % 8,
                vtbase + 8 <= 32,
                ea < 4096,
                dmem@.len() == 4096,
                t <= 8,
                self.vregs@.len() == 512,
                self.acc@ == old(self).acc@,
                self.vco_carry@ == old(self).vco_carry@,
                self.vco_ne@ == old(self).vco_ne@,
                self.vcc == old(self).vcc,
                self.vce == old(self).vce,
                forall|b: int|
                    0 <= b < 512 ==> self.vregs@[b] == (if b / 16 == vtbase + ((eh + 7 - (b % 16)
                        / 2) % 8) && 7 - (b % 16) / 2 < t {
                        dmem@[qw + ((2 * (7 - (b % 16) / 2) + ((b % 16) % 2) + rb) % 16)]
                    } else {
                        old(self).vregs@[b]
                    }),
            decreases 8 - t,
        {
            let q: usize = vtbase + (eh + t) % 8;
            let j0: usize = 2 * (7 - t);
            let b0 = dmem[qw + ((2 * t + rb) % 16)];
            let b1 = dmem[qw + ((2 * t + 1 + rb) % 16)];
            self.vregs[16 * q + j0] = b0;
            self.vregs[16 * q + j0 + 1] = b1;
            t = t + 1;
        }
        proof {
            lemma_wf_intro(*self);
            lemma_flags_frame_intro(*old(self), *self);
            lemma_views(*old(self));
            lemma_views(*self);
            assert forall|q: int, j: int| 0 <= q < 32 && 0 <= j < 16 implies self.vreg_byte(q, j)
                == (if q == (vt - vt % 8) + ((element as int / 2 + 7 - j / 2) % 8) {
                dmem@[(ea - ea % 8) + ((2 * (7 - j / 2) + (j % 2) + ltv_rot(
                    element as int,
                    ea as int,
                )) % 16)]
            } else {
                old(self).vreg_byte(q, j)
            }) by {
                let b = 16 * q + j;
                assert(b / 16 == q);
                assert(b % 16 == j);
                assert(self.vregs@[b] == (if b / 16 == vtbase + ((eh + 7 - (b % 16) / 2) % 8) && 7
                    - (b % 16) / 2 < 8 {
                    dmem@[qw + ((2 * (7 - (b % 16) / 2) + ((b % 16) % 2) + rb) % 16)]
                } else {
                    old(self).vregs@[b]
                }));
            }
        }
    }

    /// One vector load: decodes the sub-opcode and performs the transfer
    /// from DMEM into the vector register file.
    pub fn lwc(&mut self, op: u32, gpr: &Vec<u64>, dmem: &Vec<u8>) -> (r: Result<(), VuError>)
        requires
            old(self).wf(),
            gpr@.len() == 32,
            dmem@.len() == 4096,
            lwc_ok(op, gpr@),
        ensures
            final(self).wf(),
            lwc_post(*old(self), *final(self), op, gpr@, dmem@, r),
    {
        proof {
            lemma_ls_fields();
        }
        let base: u32 = gpr[((op >> 21u32) & 0x1f) as usize] as u32;
        let vt: usize = ((op >> 16u32) & 0x1f) as usize;
        let oc: u32 = (op >> 11u32) & 0x1f;
        let element: usize = ((op >> 7u32) & 0xf) as usize;
        let offset: u32 = op & 0x7f;
        if oc <= 3 {
            let size: usize = if oc == 0 {
                1
            } else if oc == 1 {
                2
            } else if oc == 2 {
                4
            } else {
                8
            };
            let ea = compute_ea(base, offset, size as u64);
            self.lxv(vt, element, dmem, ea, size);
            Ok(())
        } else if oc == 4 {
            let ea = compute_ea(base, offset, 16);
            self.lqv(vt, element, dmem, ea);
            Ok(())
        } else if oc == 5 {
            let ea = compute_ea(base, offset, 16);
            self.lrv(vt, element, dmem, ea);
            Ok(())
        } else if oc == 0x0b {
            let ea = compute_ea(base, offset, 1);
            self.ltv(vt, element, dmem, ea);
            Ok(())
        } else {
            Err(VuError::UnimplementedLoad(op))
        }
    }

    /// A sub-word store: `size` register bytes from byte offset `element`
    /// (wrapping) into DMEM at `ea`, big-endian.
    fn sxv(&self, vt: usize, element: usize, dmem: &mut Vec<u8>, ea: usize, size: usize)
        requires
            self.wf(),
            vt < 32,
            element < 16,
            old(dmem)@.len() == 4096,
            ea + size <= 4096,
            size <= 8,
        ensures
            sxv_post(*self, vt as int, element as int, old(dmem)@, final(dmem)@, ea as int, size as int),
    {
        proof {
            lemma_wf_parts(*self);
            lemma_views(*self);
        }
        let mut i: usize = 0;
        while i < size
            invariant
                self.wf(),
                vt < 32,
                element < 16,
                size <= 8,
                ea + size <= 4096,
                dmem@.len() == 4096,
                i <= size,
                forall|a: int|
                    0 <= a < 4096 ==> dmem@[a] == (if ea <= a < ea + i {
                        self.vreg_byte(vt as int, (element + (a - ea)) % 16)
                    } else {
                        old(dmem)@[a]
                    }),
            decreases size - i,
        {
            proof {
                lemma_wf_parts(*self);
                lemma_views(*self);
            }
            let b = self.vregs[16 * vt + (element + i) % 16];
            dmem[ea + i] = b;
            i = i + 1;
        }
    }

    /// SQV: the register, rotated by `element` bytes, fills the window from
    /// `ea` to the window's end.
    fn sqv(&self, vt: usize, element: usize, dmem: &mut Vec<u8>, ea: usize)
        requires
            self.wf(),
            vt < 32,
            element < 16,
            old(dmem)@.len() == 4096,
            ea < 4096,
        ensures
            sqv_post(*self, vt as int, element as int, old(dmem)@, final(dmem)@, ea as int),
    {
        proof {
            lemma_wf_parts(*self);
            lemma_views(*self);
        }
        let cnt: usize = 16 - ea % 16;
        let mut i: usize = 0;
        while i < cnt
            invariant
                self.wf(),
                vt < 32,
                element < 16,
                cnt == 16 - ea % 16,
                ea < 4096,
                dmem@.len() == 4096,
                i <= cnt,
                forall|a: int|
                    0 <= a < 4096 ==> dmem@[a] == (if ea <= a < ea + i {
                        self.vreg_byte(vt as int, (element + (a - ea)) % 16)
                    } else {
                        old(dmem)@[a]
                    }),
            decreases cnt - i,
        {
            proof {
                lemma_wf_parts(*self);
                lemma_views(*self);
            }
            let b = self.vregs[16 * vt + (element + i) % 16];
            dmem[ea + i] = b;
            i = i + 1;
        }
    }

    /// SRV: the register's tail fills the window's head.
    fn srv(&self, vt: usize, element: usize, dmem: &mut Vec<u8>, ea: usize)
        requires
            self.wf(),
            vt < 32,
            element < 16,
            old(dmem)@.len() == 4096,
            ea < 4096,
        ensures
            srv_post(*self, vt as int, element as int, old(dmem)@, final(dmem)@, ea as int),
    {
        proof {
            lemma_wf_parts(*self);
            lemma_views(*self);
        }
        let qw: usize = ea - ea % 16;
        let sh: usize = 16 - ea % 16;
        let cnt: usize = ea % 16;
        let mut i: usize = 0;
        while i < cnt
            invariant
                self.wf(),
                vt < 32,
                element < 16,
                qw == ea - ea % 16,
                sh == 16 - ea % 16,
                cnt == ea % 16,
                ea < 4096,
                dmem@.len() == 4096,
                i <= cnt,
                forall|a: int|
                    0 <= a < 4096 ==> dmem@[a] == (if qw <= a < qw + i {
                        self.vreg_byte(vt as int, (element + sh + (a - qw)) % 16)
                    } else {
                        old(dmem)@[a]
                    }),
            decreases cnt - i,
        {
            proof {
                lemma_wf_parts(*self);
                lemma_views(*self);
            }
            let b = self.vregs[16 * vt + (element + sh + i) % 16];
            dmem[qw + i] = b;
            i = i + 1;
        }
    }

    /// One vector store: decodes the sub-opcode and performs the transfer
    /// from the vector register file into DMEM.
    pub fn swc(&self, op: u32, gpr: &Vec<u64>, dmem: &mut Vec<u8>) -> (r: Result<(), VuError>)
        requires
            self.wf(),
            gpr@.len() == 32,
            old(dmem)@.len() == 4096,
            swc_ok(op, gpr@),
        ensures
            swc_post(*self, op, gpr@, old(dmem)@, final(dmem)@, r),
    {
        proof {
            lemma_ls_fields();
        }
        let base: u32 = gpr[((op >> 21u32) & 0x1f) as usize] as u32;
        let vt: usize = ((op >> 16u32) & 0x1f) as usize;
        let oc: u32 = (op >> 11u32) & 0x1f;
        let element: usize = ((op >> 7u32) & 0xf) as usize;
        let offset: u32 = op & 0x7f;
        if oc <= 3 {
            let size: usize = if oc == 0 {
                1
            } else if oc == 1 {
                2
            } else if oc == 2 {
                4
            } else {
                8
            };
            let ea = compute_ea(base, offset, size as u64);
            self.sxv(vt, element, dmem, ea, size);
            Ok(())
        } else if oc == 4 {
            let ea = compute_ea(base, offset, 16);
            self.sqv(vt, element, dmem, ea);
            Ok(())
        } else if oc == 5 {
            let ea = compute_ea(base, offset, 16);
            self.srv(vt, element, dmem, ea);
            Ok(())
        } else {
            Err(VuError::UnimplementedStore(op))
        }
    }

    /// LDC2 is intentionally fatal: unreachable on well-formed guest code.
    pub fn ldc(&self, op: u32) -> (r: Result<(), VuError>)
        ensures
            r == Err::<(), VuError>(VuError::UnimplementedQuad(op)),
    {
        Err(VuError::UnimplementedQuad(op))
    }

    /// SDC2 is intentionally fatal: unreachable on well-formed guest code.
    pub fn sdc(&self, op: u32) -> (r: Result<(), VuError>)
        ensures
            r == Err::<(), VuError>(VuError::UnimplementedQuad(op)),
    {
        Err(VuError::UnimplementedQuad(op))
    }

    /// Decodes the shared fields of a load/store opcode against the CPU
    /// register file: base address, vt register, sub-opcode, element and
    /// offset.
    pub fn oploadstore(op: u32, gpr: &Vec<u64>) -> (r: (u32, usize, u32, u32, u32))
        requires
            gpr@.len() == 32,
        ensures
            r.0 == ls_base(op, gpr@),
            r.1 == ls_vt(op),
            r.2 == ls_opcode(op),
            r.3 == ls_element(op),
            r.4 == ls_offset(op),
    {
        proof {
            lemma_ls_fields();
        }
        let base = gpr[((op >> 21u32) & 0x1f) as usize] as u32;
        let vt = ((op >> 16u32) & 0x1f) as usize;
        let opcode = (op >> 11u32) & 0x1f;
        let element = (op >> 7u32) & 0xf;
        let offset = op & 0x7f;
        (base, vt, opcode, element, offset)
    }
}

// ------------------------------------------------------------------
// Laws.
// ------------------------------------------------------------------

/// LQV/SQV inverse: at an aligned address with element 0, a store followed
/// by a load of the same address restores the register, whatever DMEM and
/// the register held.
pub proof fn lemma_sqv_lqv_roundtrip(
    spv: SpCop2,
    s1: SpCop2,
    s2: SpCop2,
    vt: int,
    ea: int,
    d0: Seq<u8>,
    d1: Seq<u8>,
)
    requires
        d0.len() == 4096,
        0 <= ea < 4096,
        ea % 16 == 0,
        sqv_post(spv, vt, 0, d0, d1, ea),
        lqv_post(s1, s2, vt, 0, d1, ea),
    ensures
        forall|j: int| 0 <= j < 16 ==> s2.vreg_byte(vt, j) == spv.vreg_byte(vt, j),
{
    assert forall|j: int| 0 <= j < 16 implies s2.vreg_byte(vt, j) == spv.vreg_byte(vt, j) by {
        assert(s2.vreg_byte(vt, j) == d1[ea + j]);
        assert(d1[ea + j] == spv.vreg_byte(vt, (0 + ((ea + j) - ea)) % 16));
        assert((j % 16) == j);
    }
}

/// LQV/LRV partition: at a non-aligned address with element 0, LQV at `ea`
/// followed by LRV at the next quadword reconstructs the contiguous 16
/// bytes of DMEM starting at `ea`.
pub proof fn lemma_lqv_lrv_partition(
    s0: SpCop2,
    s1: SpCop2,
    s2: SpCop2,
    vt: int,
    ea: int,
    dmem: Seq<u8>,
)
    requires
        dmem.len() == 4096,
        0 <= ea,
        ea % 16 != 0,
        ea + 32 - ea % 16 <= 4096,
        lqv_post(s0, s1, vt, 0, dmem, ea),
        lrv_post(s1, s2, vt, 0, dmem, ea + 16),
    ensures
        forall|j: int| 0 <= j < 16 ==> s2.vreg_byte(vt, j) == dmem[ea + j],
{
    let sh = 16 - (ea + 16) % 16;
    assert((ea + 16) % 16 == ea % 16);
    assert forall|j: int| 0 <= j < 16 implies s2.vreg_byte(vt, j) == dmem[ea + j] by {
        if j >= sh {
            assert(s2.vreg_byte(vt, j) == dmem[((ea + 16) - (ea + 16) % 16) + (j - sh)]);
            assert(((ea + 16) - (ea + 16) % 16) + (j - sh) == ea + j);
        } else {
            assert(s2.vreg_byte(vt, j) == s1.vreg_byte(vt, j));
            assert(s1.vreg_byte(vt, j) == dmem[ea + j]);
        }
    }
}

} // verus!
