use n64cop::cop1::{Cop1, Cop1Error, Fop, FpFmt};

fn c1op(fmt: u32, ft: u32, fs: u32, fd: u32, func: u32) -> u32 {
    (fmt << 21) | (ft << 16) | (fs << 11) | (fd << 6) | func
}

fn run_s(fs_bits: u32, ft_bits: u32, func: u32) -> u64 {
    let mut c = Cop1::new();
    c.set_fpr(1, fs_bits as u64);
    c.set_fpr(2, ft_bits as u64);
    c.op(c1op(16, 2, 1, 3, func)).unwrap();
    c.fpr(3)
}

fn run_d(fs_bits: u64, ft_bits: u64, func: u32) -> u64 {
    let mut c = Cop1::new();
    c.set_fpr(1, fs_bits);
    c.set_fpr(2, ft_bits);
    c.op(c1op(17, 2, 1, 3, func)).unwrap();
    c.fpr(3)
}

#[test]
fn mul_s_two_times_three() {
    // 2.0f * 3.0f = 6.0f
    assert_eq!(run_s(0x4000_0000, 0x4040_0000, 0x02), 0x40C0_0000);
}

#[test]
fn add_sub_div_s() {
    assert_eq!(run_s(1.5f32.to_bits(), 2.25f32.to_bits(), 0x00), 3.75f32.to_bits() as u64);
    assert_eq!(run_s(1.5f32.to_bits(), 2.25f32.to_bits(), 0x01), (-0.75f32).to_bits() as u64);
    assert_eq!(run_s(1.0f32.to_bits(), 8.0f32.to_bits(), 0x03), 0.125f32.to_bits() as u64);
}

#[test]
fn sqrt_s() {
    assert_eq!(run_s(4.0f32.to_bits(), 0, 0x04), 2.0f32.to_bits() as u64);
    assert_eq!(run_s(2.0f32.to_bits(), 0, 0x04), 2.0f32.sqrt().to_bits() as u64);
    assert_eq!(run_s(0.3f32.to_bits(), 0, 0x04), 0.3f32.sqrt().to_bits() as u64);
}

#[test]
fn abs_neg_s() {
    assert_eq!(run_s((-2.0f32).to_bits(), 0, 0x05), 2.0f32.to_bits() as u64);
    assert_eq!(run_s(2.0f32.to_bits(), 0, 0x07), (-2.0f32).to_bits() as u64);
}

#[test]
fn double_arithmetic() {
    assert_eq!(run_d(2.0f64.to_bits(), 3.0f64.to_bits(), 0x02), 6.0f64.to_bits());
    assert_eq!(run_d(1.0f64.to_bits(), 3.0f64.to_bits(), 0x03), (1.0f64 / 3.0f64).to_bits());
    assert_eq!(run_d(2.0f64.to_bits(), 0, 0x04), 2.0f64.sqrt().to_bits());
    assert_eq!(run_d((-1.5f64).to_bits(), 0, 0x05), 1.5f64.to_bits());
    assert_eq!(run_d(1.5f64.to_bits(), 0, 0x07), (-1.5f64).to_bits());
}

#[test]
fn round_w_s_half_to_even() {
    // 1.5f rounds to 2 under banker's rounding
    assert_eq!(run_s(0x3FC0_0000, 0, 0x0C), 2);
}

#[test]
fn round_w_s_bankers_cases() {
    // k + 0.5 rounds to k when k is even, to k + 1 when k is odd;
    // k - 0.5 behaves symmetrically.
    for k in [-6i32, -3, -1, 0, 1, 2, 5, 100] {
        let up = (k as f32) + 0.5;
        let down = (k as f32) - 0.5;
        let expect_up = if k % 2 == 0 { k } else { k + 1 };
        let expect_down = if k % 2 == 0 { k } else { k - 1 };
        assert_eq!(run_s(up.to_bits(), 0, 0x0C), expect_up as i64 as u64, "k={}", k);
        assert_eq!(run_s(down.to_bits(), 0, 0x0C), expect_down as i64 as u64, "k={}", k);
    }
}

#[test]
fn trunc_ceil_floor_w_s() {
    let x = 2.7f32.to_bits();
    assert_eq!(run_s(x, 0, 0x0D), 2);
    assert_eq!(run_s(x, 0, 0x0E), 3);
    assert_eq!(run_s(x, 0, 0x0F), 2);
    let y = (-2.7f32).to_bits();
    assert_eq!(run_s(y, 0, 0x0D), -2i64 as u64);
    assert_eq!(run_s(y, 0, 0x0E), -2i64 as u64);
    assert_eq!(run_s(y, 0, 0x0F), -3i64 as u64);
}

#[test]
fn conversions_to_l() {
    let x = 3.5f64.to_bits();
    assert_eq!(run_d(x, 0, 0x08), 4);
    assert_eq!(run_d(x, 0, 0x09), 3);
    assert_eq!(run_d(x, 0, 0x0A), 4);
    assert_eq!(run_d(x, 0, 0x0B), 3);
    // round-half-to-even on a 64-bit target
    assert_eq!(run_d(2.5f64.to_bits(), 0, 0x08), 2);
}

#[test]
fn convert_out_of_range_is_fatal() {
    let mut c = Cop1::new();
    c.set_fpr(1, 1e30f32.to_bits() as u64);
    let r = c.op(c1op(16, 0, 1, 3, 0x0C));
    assert_eq!(r, Err(Cop1Error::ConvertRange(c1op(16, 0, 1, 3, 0x0C))));
    // the register file is untouched
    assert_eq!(c.fpr(3), 0);
}

#[test]
fn convert_nan_is_fatal() {
    let mut c = Cop1::new();
    c.set_fpr(1, f32::NAN.to_bits() as u64);
    assert!(c.op(c1op(16, 0, 1, 3, 0x0D)).is_err());
}

#[test]
fn unknown_func_is_fatal() {
    let mut c = Cop1::new();
    let op = c1op(16, 0, 1, 3, 0x06);
    assert_eq!(c.op(op), Err(Cop1Error::UnimplementedFunc(op)));
    let op2 = c1op(16, 0, 1, 3, 0x3F);
    assert_eq!(c.op(op2), Err(Cop1Error::UnimplementedFunc(op2)));
}

#[test]
fn unknown_fmt_is_fatal() {
    let mut c = Cop1::new();
    let op = c1op(0, 0, 1, 3, 0x00);
    assert_eq!(c.op(op), Err(Cop1Error::UnimplementedFmt(op)));
}

#[test]
fn single_write_zero_extends() {
    // an f32 result leaves the upper 32 bits of the slot zero
    let mut c = Cop1::new();
    c.set_fpr(1, 0xFFFF_FFFF_0000_0000u64 | (2.0f32.to_bits() as u64));
    c.set_fpr(2, 3.0f32.to_bits() as u64);
    c.op(c1op(16, 2, 1, 1, 0x02)).unwrap();
    assert_eq!(c.fpr(1), 6.0f32.to_bits() as u64);
}

#[test]
fn fop_accessors_decode_fields() {
    let opcode = c1op(16, 2, 1, 3, 0x02);
    let f = Fop { opcode, fmt: FpFmt::Single };
    assert_eq!(f.func(), 0x02);
    assert_eq!(f.rt(), 2);
    assert_eq!(f.rs(), 1);
    assert_eq!(f.rd(), 3);
    let mut c = Cop1::new();
    c.set_fpr(1, 0xAA);
    c.set_fpr(2, 0xBB);
    assert_eq!(f.fs(&c), 0xAA);
    assert_eq!(f.ft(&c), 0xBB);
    f.set_fd(&mut c, 0xCC);
    assert_eq!(c.fpr(3), 0xCC);
    f.mfd64(&mut c, 0xDD);
    assert_eq!(c.fpr(3), 0xDD);
}
