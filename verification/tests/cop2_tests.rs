use n64cop::cop2::{MulRequest, SpCop2, VmulKernel, VuError, VuStep};

fn vuop(e: u32, vt: u32, vs: u32, vd: u32, func: u32) -> u32 {
    (1 << 25) | (e << 21) | (vt << 16) | (vs << 11) | (vd << 6) | func
}

fn xfer(e: u32, rt: u32, rs: u32) -> u32 {
    (e << 21) | (rt << 16) | (rs << 11)
}

fn lane(v: u128, i: usize) -> u16 {
    (v >> (112 - 16 * i)) as u16
}

fn from_lanes(l: [u16; 8]) -> u128 {
    let mut v: u128 = 0;
    for x in l {
        v = (v << 16) | (x as u128);
    }
    v
}

#[test]
fn register_roundtrip() {
    let mut s = SpCop2::new();
    for idx in [0usize, 1, 7, 31] {
        let v = 0x0123_4567_89AB_CDEF_1122_3344_5566_7788u128 ^ (idx as u128);
        s.set_reg(idx, v);
        assert_eq!(s.reg(idx), v);
    }
    // accumulator aliases round-trip too
    for idx in [35usize, 36, 37] {
        let v = 0xDEAD_BEEF_0000_FFFF_A5A5_5A5A_0102_0304u128 ^ (idx as u128);
        s.set_reg(idx, v);
        assert_eq!(s.reg(idx), v);
    }
}

#[test]
fn vco_roundtrip() {
    let mut s = SpCop2::new();
    for x in [0u16, 1, 0x8000, 0xA5C3, 0xFFFF] {
        s.set_vco(x);
        assert_eq!(s.vco(), x);
        s.set_reg(SpCop2::REG_VCO, x as u128);
        assert_eq!(s.reg(SpCop2::REG_VCO), x as u128);
    }
}

#[test]
fn vcc_vce_roundtrip() {
    let mut s = SpCop2::new();
    s.set_vcc(0xBEEF);
    assert_eq!(s.vcc(), 0xBEEF);
    s.set_vce(0x00AA);
    assert_eq!(s.vce(), 0x00AA);
    s.set_reg(SpCop2::REG_VCC, 0x1234);
    assert_eq!(s.reg(SpCop2::REG_VCC), 0x1234);
    s.set_reg(SpCop2::REG_VCE, 0x00FF);
    assert_eq!(s.reg(SpCop2::REG_VCE), 0x00FF);
}

#[test]
fn vaddc_carry_on_wrap() {
    // vs lane0 = 0xFFFF, vt lane0 = 0x0002: result lane0 = 1, carry lane0 = 1
    let mut s = SpCop2::new();
    let mut gpr = vec![0u64; 32];
    s.set_reg(1, from_lanes([0xFFFF, 0, 0, 0, 0, 0, 0, 0]));
    s.set_reg(2, from_lanes([0x0002, 0, 0, 0, 0, 0, 0, 0]));
    let r = s.op(&mut gpr, vuop(0, 2, 1, 3, 0x14)).unwrap();
    assert_eq!(r, VuStep::Done);
    let vd = s.reg(3);
    assert_eq!(lane(vd, 0), 0x0001);
    for i in 1..8 {
        assert_eq!(lane(vd, i), 0);
    }
    assert_eq!(s.vco(), 0x0001);
    assert_eq!(s.reg(SpCop2::REG_ACCUM_LO), vd);
}

#[test]
fn vadd_saturates_with_carry() {
    // carry lane0 = 1; vs lane0 = vt lane0 = 0x8000: result saturates to
    // 0x8000, the accumulator keeps the wrapped sum 0x0001, VCO clears.
    let mut s = SpCop2::new();
    let mut gpr = vec![0u64; 32];
    s.set_vco(0x0001);
    s.set_reg(1, from_lanes([0x8000, 0, 0, 0, 0, 0, 0, 0]));
    s.set_reg(2, from_lanes([0x8000, 0, 0, 0, 0, 0, 0, 0]));
    let r = s.op(&mut gpr, vuop(0, 2, 1, 3, 0x10)).unwrap();
    assert_eq!(r, VuStep::Done);
    let vd = s.reg(3);
    assert_eq!(lane(vd, 0), 0x8000);
    assert_eq!(lane(s.reg(SpCop2::REG_ACCUM_LO), 0), 0x0001);
    // lane 1: 0 + 0 + carry 0 = 0
    assert_eq!(lane(vd, 1), 0);
    assert_eq!(s.vco(), 0);
}

#[test]
fn vadd_positive_saturation() {
    let mut s = SpCop2::new();
    let mut gpr = vec![0u64; 32];
    s.set_reg(1, from_lanes([0x7FFF, 0x0001, 0, 0, 0, 0, 0, 0]));
    s.set_reg(2, from_lanes([0x0001, 0x0002, 0, 0, 0, 0, 0, 0]));
    s.op(&mut gpr, vuop(0, 2, 1, 3, 0x10)).unwrap();
    let vd = s.reg(3);
    assert_eq!(lane(vd, 0), 0x7FFF);
    assert_eq!(lane(vd, 1), 0x0003);
    assert_eq!(lane(s.reg(SpCop2::REG_ACCUM_LO), 0), 0x8000);
}

#[test]
fn vand_and_friends() {
    let mut s = SpCop2::new();
    let mut gpr = vec![0u64; 32];
    let a = from_lanes([0xAAAA; 8]);
    let b = from_lanes([0xCCCC; 8]);
    s.set_reg(1, a);
    s.set_reg(2, b);
    s.op(&mut gpr, vuop(0, 2, 1, 3, 0x28)).unwrap();
    assert_eq!(s.reg(3), from_lanes([0x8888; 8]));
    assert_eq!(s.reg(SpCop2::REG_ACCUM_LO), from_lanes([0x8888; 8]));
    s.op(&mut gpr, vuop(0, 2, 1, 4, 0x29)).unwrap();
    assert_eq!(s.reg(4), from_lanes([0x7777; 8]));
    s.op(&mut gpr, vuop(0, 2, 1, 5, 0x2A)).unwrap();
    assert_eq!(s.reg(5), from_lanes([0xEEEE; 8]));
    s.op(&mut gpr, vuop(0, 2, 1, 6, 0x2B)).unwrap();
    assert_eq!(s.reg(6), from_lanes([0x1111; 8]));
    s.op(&mut gpr, vuop(0, 2, 1, 7, 0x2C)).unwrap();
    assert_eq!(s.reg(7), from_lanes([0x6666; 8]));
    s.op(&mut gpr, vuop(0, 2, 1, 8, 0x2D)).unwrap();
    assert_eq!(s.reg(8), from_lanes([0x9999; 8]));
}

#[test]
fn element_selector_broadcast() {
    let mut s = SpCop2::new();
    let mut gpr = vec![0u64; 32];
    let vt = from_lanes([0x0101, 0x0202, 0x0303, 0x0404, 0x0505, 0x0606, 0x0707, 0x0808]);
    s.set_reg(2, vt);
    s.set_reg(1, from_lanes([0xFFFF; 8]));
    // e = 8: scalar broadcast of lane 0
    s.op(&mut gpr, vuop(8, 2, 1, 3, 0x28)).unwrap();
    assert_eq!(s.reg(3), from_lanes([0x0101; 8]));
    // e = 15: scalar broadcast of lane 7
    s.op(&mut gpr, vuop(15, 2, 1, 4, 0x28)).unwrap();
    assert_eq!(s.reg(4), from_lanes([0x0808; 8]));
    // e = 2: each even lane broadcast over its pair
    s.op(&mut gpr, vuop(2, 2, 1, 5, 0x28)).unwrap();
    assert_eq!(
        s.reg(5),
        from_lanes([0x0101, 0x0101, 0x0303, 0x0303, 0x0505, 0x0505, 0x0707, 0x0707])
    );
    // e = 5: second lane of each quad
    s.op(&mut gpr, vuop(5, 2, 1, 6, 0x28)).unwrap();
    assert_eq!(
        s.reg(6),
        from_lanes([0x0202, 0x0202, 0x0202, 0x0202, 0x0606, 0x0606, 0x0606, 0x0606])
    );
}

#[test]
fn vsar_reads_accumulator() {
    let mut s = SpCop2::new();
    let mut gpr = vec![0u64; 32];
    // fill accumulator LO via a logical op
    let a = from_lanes([0x1234; 8]);
    s.set_reg(1, a);
    s.set_reg(2, from_lanes([0xFFFF; 8]));
    s.op(&mut gpr, vuop(0, 2, 1, 3, 0x28)).unwrap();
    // e = 10 reads LO
    s.op(&mut gpr, vuop(10, 0, 0, 4, 0x1D)).unwrap();
    assert_eq!(s.reg(4), a);
    // e = 8 reads HI (still zero)
    s.op(&mut gpr, vuop(8, 0, 0, 5, 0x1D)).unwrap();
    assert_eq!(s.reg(5), 0);
    // e = 0 reads as zero
    s.set_reg(6, 0xFFFF);
    s.op(&mut gpr, vuop(0, 0, 0, 6, 0x1D)).unwrap();
    assert_eq!(s.reg(6), 0);
    // e = 3 is unimplemented
    let op = vuop(3, 0, 0, 6, 0x1D);
    assert_eq!(s.op(&mut gpr, op), Err(VuError::UnimplementedElement(op)));
}

#[test]
fn multiply_request_and_commit() {
    let mut s = SpCop2::new();
    let mut gpr = vec![0u64; 32];
    let vs = from_lanes([0x4000; 8]);
    let vt = from_lanes([0x2000; 8]);
    s.set_reg(1, vs);
    s.set_reg(2, vt);
    let r = s.op(&mut gpr, vuop(0, 2, 1, 3, 0x00)).unwrap();
    let req = match r {
        VuStep::Mul(req) => req,
        VuStep::Done => panic!("expected a multiply request"),
    };
    assert_eq!(
        req,
        MulRequest {
            kernel: VmulKernel::Vmulf,
            vd: 3,
            vs,
            vte: vt,
            acc_lo: 0,
            acc_md: 0,
            acc_hi: 0,
        }
    );
    // the unit is untouched until the kernel's quadruple is committed
    assert_eq!(s.reg(3), 0);
    s.vmul_commit(req.vd, 0x1111, 0x2222, 0x3333, 0x4444);
    assert_eq!(s.reg(3), 0x1111);
    assert_eq!(s.reg(SpCop2::REG_ACCUM_LO), 0x2222);
    assert_eq!(s.reg(SpCop2::REG_ACCUM_MD), 0x3333);
    assert_eq!(s.reg(SpCop2::REG_ACCUM_HI), 0x4444);
}

#[test]
fn multiply_request_element_routing() {
    let mut s = SpCop2::new();
    let mut gpr = vec![0u64; 32];
    let vt = from_lanes([0x0101, 0x0202, 0x0303, 0x0404, 0x0505, 0x0606, 0x0707, 0x0808]);
    s.set_reg(2, vt);
    // VMADH with e = 9: the kernel sees lane 1 broadcast
    let r = s.op(&mut gpr, vuop(9, 2, 1, 3, 0x0F)).unwrap();
    match r {
        VuStep::Mul(req) => {
            assert_eq!(req.kernel, VmulKernel::Vmadh);
            assert_eq!(req.vte, from_lanes([0x0202; 8]));
        }
        VuStep::Done => panic!("expected a multiply request"),
    }
}

#[test]
fn cfc2_reads_flags() {
    let mut s = SpCop2::new();
    let mut gpr = vec![0u64; 32];
    s.set_vco(0x8421);
    s.op(&mut gpr, xfer(2, 5, 0)).unwrap();
    assert_eq!(gpr[5], 0x8421);
    s.set_vcc(0x1357);
    s.op(&mut gpr, xfer(2, 6, 1)).unwrap();
    assert_eq!(gpr[6], 0x1357);
    s.op(&mut gpr, xfer(2, 7, 2)).unwrap();
    assert_eq!(gpr[7], 0);
}

#[test]
fn ctc2_writes_flags() {
    let mut s = SpCop2::new();
    let mut gpr = vec![0u64; 32];
    gpr[4] = 0xFFFF_0305;
    s.op(&mut gpr, xfer(6, 4, 0)).unwrap();
    assert_eq!(s.vco(), 0x0305);
    s.op(&mut gpr, xfer(6, 4, 1)).unwrap();
    assert_eq!(s.vcc(), 0x0305);
    s.op(&mut gpr, xfer(6, 4, 2)).unwrap();
    assert_eq!(s.vce(), 0x0305);
}

#[test]
fn unimplemented_codes_are_fatal() {
    let mut s = SpCop2::new();
    let mut gpr = vec![0u64; 32];
    let bad_func = vuop(0, 2, 1, 3, 0x3F);
    assert_eq!(s.op(&mut gpr, bad_func), Err(VuError::UnimplementedFunc(bad_func)));
    let bad_xfer = xfer(3, 4, 0);
    assert_eq!(s.op(&mut gpr, bad_xfer), Err(VuError::UnimplementedTransfer(bad_xfer)));
    let bad_flag = xfer(2, 4, 5);
    assert_eq!(s.op(&mut gpr, bad_flag), Err(VuError::UnimplementedTransfer(bad_flag)));
    assert_eq!(s.ldc(7), Err(VuError::UnimplementedQuad(7)));
    assert_eq!(s.sdc(9), Err(VuError::UnimplementedQuad(9)));
}

#[test]
fn new_unit_is_zero() {
    let s = SpCop2::new();
    for idx in 0..38 {
        assert_eq!(s.reg(idx), 0);
    }
}

#[test]
fn oploadstore_decodes_fields() {
    let mut gpr = vec![0u64; 32];
    gpr[9] = 0x1234;
    let op = (9u32 << 21) | (4 << 16) | (0x04 << 11) | (7 << 7) | 0x55;
    let (base, vt, oc, element, offset) = SpCop2::oploadstore(op, &gpr);
    assert_eq!(base, 0x1234);
    assert_eq!(vt, 4);
    assert_eq!(oc, 0x04);
    assert_eq!(element, 7);
    assert_eq!(offset, 0x55);
}
