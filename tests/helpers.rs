use randomx::helpers::{f64_from_u64, float_mask, reciprocal, static_exponent};

#[test]
fn test_unitest_from_ref_implementation() {
    let input: u64 = 14955972954624606980;
    let res: u64 = f64_from_u64(input);
    let exp_hexa_output = [0x41, 0x8e, 0x4a, 0x29, 0x7e, 0xbf, 0xc3, 0x04];
    let hexa_output = res.to_be_bytes();
    assert_eq!(exp_hexa_output, hexa_output)
}

#[test]
fn float_from_seed_word_is_deterministic_and_normal() {
    for v in [0u64, 1, u64::MAX, 0x8000_0000_0000_0000, 14955972954624606980] {
        let a = f64_from_u64(v);
        let b = f64_from_u64(v);
        assert_eq!(a, b);
        let d = f64::from_bits(a);
        assert!(d.is_finite());
        assert!(d.is_normal());
        assert!(d > 0.0);
    }
}

#[test]
fn float_from_seed_word_extremes() {
    // exponent selector 0: 1.0 with an empty mantissa
    assert_eq!(f64_from_u64(0), 0x3ff0_0000_0000_0000);
    assert_eq!(f64::from_bits(f64_from_u64(0)), 1.0);
    // exponent selector 31, full mantissa; the reserved bits 52-58 are dropped
    assert_eq!(f64_from_u64(u64::MAX), 0x41ef_ffff_ffff_ffff);
}

#[test]
fn static_exponent_and_float_mask_values() {
    assert_eq!(static_exponent(0), 0x3000_0000_0000_0000);
    assert_eq!(static_exponent(u64::MAX), 0x3f00_0000_0000_0000);
    assert_eq!(float_mask(13992127780735554655).to_be_bytes(), [0x3c, 0, 0, 0, 0, 0x1e, 0x14, 0x5f]);
    assert_eq!(float_mask(11551971154970399794).to_be_bytes(), [0x3a, 0, 0, 0, 0, 0x11, 0xd4, 0x32]);
}

#[test]
fn reciprocal_values() {
    assert_eq!(reciprocal(3), 12297829382473034410);
    assert_eq!(reciprocal(5), 14757395258967641292);
    assert_eq!(reciprocal(0xffff_ffff), ((1u128 << 95) / 0xffff_ffff) as u64);
}
