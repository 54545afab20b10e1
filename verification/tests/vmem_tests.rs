use n64cop::cop2::SpCop2;
use n64cop::cop2::VuError;

fn lsop(base_reg: u32, vt: u32, oc: u32, elem: u32, off: u32) -> u32 {
    (base_reg << 21) | (vt << 16) | (oc << 11) | (elem << 7) | off
}

fn dmem_counting() -> Vec<u8> {
    let mut d = vec![0u8; 4096];
    for i in 0..4096 {
        d[i] = i as u8;
    }
    d
}

fn reg_from_bytes(bytes: [u8; 16]) -> u128 {
    let mut v: u128 = 0;
    for b in bytes {
        v = (v << 8) | (b as u128);
    }
    v
}

#[test]
fn lqv_unaligned_loads_window_tail() {
    // dmem[0x00..0x10] = 0x00..0x0F; LQV at ea = 3 loads 13 bytes into the
    // head of the register and keeps its last 3 bytes.
    let mut s = SpCop2::new();
    let mut gpr = vec![0u64; 32];
    gpr[1] = 3;
    let mut d = vec![0u8; 4096];
    for i in 0..16 {
        d[i] = i as u8;
    }
    s.set_reg(4, 0xAABBCC);
    s.lwc(lsop(1, 4, 0x04, 0, 0), &gpr, &d).unwrap();
    let expected = reg_from_bytes([3, 4, 5, 6, 7, 8, 9, 10, 11, 12, 13, 14, 15, 0xAA, 0xBB, 0xCC]);
    assert_eq!(s.reg(4), expected);
}

#[test]
fn lqv_aligned_loads_whole_quadword() {
    let mut s = SpCop2::new();
    let mut gpr = vec![0u64; 32];
    gpr[1] = 0x20;
    let d = dmem_counting();
    s.lwc(lsop(1, 4, 0x04, 0, 0), &gpr, &d).unwrap();
    assert_eq!(
        s.reg(4),
        reg_from_bytes([
            0x20, 0x21, 0x22, 0x23, 0x24, 0x25, 0x26, 0x27, 0x28, 0x29, 0x2A, 0x2B, 0x2C, 0x2D,
            0x2E, 0x2F,
        ])
    );
}

#[test]
fn lrv_loads_window_head_into_register_tail() {
    let mut s = SpCop2::new();
    let mut gpr = vec![0u64; 32];
    // ea = 0x13: window 0x10..0x20, sh = 16 - 3 = 13: last 3 register bytes
    gpr[1] = 0x13;
    let d = dmem_counting();
    s.set_reg(4, reg_from_bytes([0xEE; 16]));
    s.lwc(lsop(1, 4, 0x05, 0, 0), &gpr, &d).unwrap();
    let expected = reg_from_bytes([
        0xEE, 0xEE, 0xEE, 0xEE, 0xEE, 0xEE, 0xEE, 0xEE, 0xEE, 0xEE, 0xEE, 0xEE, 0xEE, 0x10, 0x11,
        0x12,
    ]);
    assert_eq!(s.reg(4), expected);
}

#[test]
fn lqv_lrv_reconstruct_contiguous_load() {
    // LQV at a non-aligned ea, then LRV from the next quadword, gives the
    // contiguous 16 bytes at ea.
    let mut s = SpCop2::new();
    let d = dmem_counting();
    let ea: u64 = 0x25;
    let mut gpr = vec![0u64; 32];
    gpr[1] = ea;
    gpr[2] = ea + 16;
    s.lwc(lsop(1, 4, 0x04, 0, 0), &gpr, &d).unwrap();
    s.lwc(lsop(2, 4, 0x05, 0, 0), &gpr, &d).unwrap();
    let mut expected_bytes = [0u8; 16];
    for i in 0..16 {
        expected_bytes[i] = d[ea as usize + i];
    }
    assert_eq!(s.reg(4), reg_from_bytes(expected_bytes));
}

#[test]
fn sqv_lqv_roundtrip_at_aligned_address() {
    let mut s = SpCop2::new();
    let mut d = vec![0u8; 4096];
    let mut gpr = vec![0u64; 32];
    gpr[1] = 0x40;
    let v = 0x0102_0304_0506_0708_090A_0B0C_0D0E_0F10u128;
    s.set_reg(4, v);
    s.swc(lsop(1, 4, 0x04, 0, 0), &gpr, &mut d).unwrap();
    s.set_reg(4, 0);
    s.lwc(lsop(1, 4, 0x04, 0, 0), &gpr, &d).unwrap();
    assert_eq!(s.reg(4), v);
}

#[test]
fn sqv_writes_window_tail() {
    let mut s = SpCop2::new();
    let mut d = vec![0u8; 4096];
    let mut gpr = vec![0u64; 32];
    gpr[1] = 0x45;
    s.set_reg(4, reg_from_bytes([1, 2, 3, 4, 5, 6, 7, 8, 9, 10, 11, 12, 13, 14, 15, 16]));
    s.swc(lsop(1, 4, 0x04, 0, 0), &gpr, &mut d).unwrap();
    // bytes 0x45..0x50 receive register bytes 0..11
    for i in 0..11 {
        assert_eq!(d[0x45 + i], (1 + i) as u8);
    }
    assert_eq!(d[0x44], 0);
    assert_eq!(d[0x50], 0);
}

#[test]
fn srv_writes_window_head() {
    let mut s = SpCop2::new();
    let mut d = vec![0u8; 4096];
    let mut gpr = vec![0u64; 32];
    // ea = 0x43: SRV writes dmem[0x40..0x43] from the register's last bytes
    gpr[1] = 0x43;
    s.set_reg(4, reg_from_bytes([1, 2, 3, 4, 5, 6, 7, 8, 9, 10, 11, 12, 13, 14, 15, 16]));
    s.swc(lsop(1, 4, 0x05, 0, 0), &gpr, &mut d).unwrap();
    assert_eq!(&d[0x40..0x43], &[14, 15, 16]);
    assert_eq!(d[0x43], 0);
}

#[test]
fn subword_loads() {
    let mut s = SpCop2::new();
    let d = dmem_counting();
    let mut gpr = vec![0u64; 32];
    gpr[1] = 0x10;
    // LBV at element 5: one byte lands at register byte 5
    s.lwc(lsop(1, 4, 0x00, 5, 0), &gpr, &d).unwrap();
    let mut expected = [0u8; 16];
    expected[5] = 0x10;
    assert_eq!(s.reg(4), reg_from_bytes(expected));
    // LSV: two bytes (offset scales by 2)
    s.lwc(lsop(1, 5, 0x01, 0, 1), &gpr, &d).unwrap();
    let mut expected = [0u8; 16];
    expected[0] = 0x12;
    expected[1] = 0x13;
    assert_eq!(s.reg(5), reg_from_bytes(expected));
    // LLV: four bytes (offset scales by 4)
    s.lwc(lsop(1, 6, 0x02, 2, 1), &gpr, &d).unwrap();
    let mut expected = [0u8; 16];
    for i in 0..4 {
        expected[2 + i] = 0x14 + i as u8;
    }
    assert_eq!(s.reg(6), reg_from_bytes(expected));
    // LDV: eight bytes (offset scales by 8)
    s.lwc(lsop(1, 7, 0x03, 8, 1), &gpr, &d).unwrap();
    let mut expected = [0u8; 16];
    for i in 0..8 {
        expected[8 + i] = 0x18 + i as u8;
    }
    assert_eq!(s.reg(7), reg_from_bytes(expected));
}

#[test]
fn subword_load_stops_at_register_end() {
    let mut s = SpCop2::new();
    let d = dmem_counting();
    let mut gpr = vec![0u64; 32];
    gpr[1] = 0x30;
    // LDV at element 12: only 4 of the 8 bytes fit
    s.lwc(lsop(1, 4, 0x03, 12, 0), &gpr, &d).unwrap();
    let mut expected = [0u8; 16];
    for i in 0..4 {
        expected[12 + i] = 0x30 + i as u8;
    }
    assert_eq!(s.reg(4), reg_from_bytes(expected));
}

#[test]
fn subword_stores() {
    let mut s = SpCop2::new();
    let mut d = vec![0u8; 4096];
    let mut gpr = vec![0u64; 32];
    gpr[1] = 0x80;
    s.set_reg(4, reg_from_bytes([1, 2, 3, 4, 5, 6, 7, 8, 9, 10, 11, 12, 13, 14, 15, 16]));
    // SBV of element 3
    s.swc(lsop(1, 4, 0x00, 3, 0), &gpr, &mut d).unwrap();
    assert_eq!(d[0x80], 4);
    // SSV of element 15: wraps to register byte 0
    s.swc(lsop(1, 4, 0x01, 15, 1), &gpr, &mut d).unwrap();
    assert_eq!(d[0x82], 16);
    assert_eq!(d[0x83], 1);
    // SLV and SDV
    s.swc(lsop(1, 4, 0x02, 0, 1), &gpr, &mut d).unwrap();
    assert_eq!(&d[0x84..0x88], &[1, 2, 3, 4]);
    s.swc(lsop(1, 4, 0x03, 4, 1), &gpr, &mut d).unwrap();
    assert_eq!(&d[0x88..0x90], &[5, 6, 7, 8, 9, 10, 11, 12]);
}

#[test]
fn ltv_scatters_lanes_across_group() {
    // dmem[0..16] = 0x00..0x0F, ea = 0, vt = 0, element = 0: v0 gets the
    // first u16 at lane 7, v1 the next at lane 6, and so on.
    let mut s = SpCop2::new();
    let mut d = vec![0u8; 4096];
    for i in 0..16 {
        d[i] = i as u8;
    }
    let gpr = vec![0u64; 32];
    s.lwc(lsop(1, 0, 0x0B, 0, 0), &gpr, &d).unwrap();
    for q in 0..8usize {
        let v = s.reg(q);
        let lane_idx = 7 - q;
        let expect = (((2 * q) as u16) << 8) | ((2 * q + 1) as u16);
        for i in 0..8 {
            let got = (v >> (112 - 16 * i)) as u16;
            if i == lane_idx {
                assert_eq!(got, expect, "v{} lane {}", q, i);
            } else {
                assert_eq!(got, 0, "v{} lane {}", q, i);
            }
        }
    }
}

#[test]
fn ltv_rotates_by_element_and_address() {
    // ea = 8 within the quadword rotates the window by 8 bytes
    let mut s = SpCop2::new();
    let mut d = vec![0u8; 4096];
    for i in 0..24 {
        d[i] = i as u8;
    }
    let mut gpr = vec![0u64; 32];
    gpr[1] = 8;
    s.lwc(lsop(1, 0, 0x0B, 0, 0), &gpr, &d).unwrap();
    // the window 8..24 is rotated by 8 bytes: v0 lane 7 sees dmem[16..18]
    let v0 = s.reg(0);
    assert_eq!((v0 & 0xFFFF) as u16, 0x1011);
}

#[test]
fn unknown_load_store_codes_are_fatal() {
    let mut s = SpCop2::new();
    let d = vec![0u8; 4096];
    let mut dm = vec![0u8; 4096];
    let gpr = vec![0u64; 32];
    let bad_load = lsop(1, 4, 0x0A, 0, 0);
    assert_eq!(s.lwc(bad_load, &gpr, &d), Err(VuError::UnimplementedLoad(bad_load)));
    let bad_store = lsop(1, 4, 0x0B, 0, 0);
    assert_eq!(s.swc(bad_store, &gpr, &mut dm), Err(VuError::UnimplementedStore(bad_store)));
}

#[test]
fn address_wraps_to_twelve_bits() {
    let mut s = SpCop2::new();
    let mut gpr = vec![0u64; 32];
    // base 0x11000 masks to 0x000
    gpr[1] = 0x11000;
    let mut d = vec![0u8; 4096];
    d[0] = 0x77;
    s.lwc(lsop(1, 4, 0x00, 0, 0), &gpr, &d).unwrap();
    let mut expected = [0u8; 16];
    expected[0] = 0x77;
    assert_eq!(s.reg(4), reg_from_bytes(expected));
}
