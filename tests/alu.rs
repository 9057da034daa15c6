use gbcore::alu::{add_u16, add_u16_signed, add_u8, signed, sub_u8};

#[test]
fn test_add_u8() {
    assert_eq!(add_u8(0x12, 0x22, false), (0x34, false, false, false));
    assert_eq!(add_u8(0x12, 0x22, true), (0x35, false, false, false));
    assert_eq!(add_u8(0x12, 0x2f, false), (0x41, true, false, false));
    assert_eq!(add_u8(0x12, 0x2f, true), (0x42, true, false, false));
    assert_eq!(add_u8(0x12, 0xf0, false), (0x02, false, true, false));
    assert_eq!(add_u8(0x12, 0xf0, true), (0x03, false, true, false));
    assert_eq!(add_u8(0x0a, 0xfa, false), (0x04, true, true, false));
    assert_eq!(add_u8(0x0a, 0xfa, true), (0x05, true, true, false));
    assert_eq!(add_u8(0x00, 0x00, false), (0x00, false, false, true));
    assert_eq!(add_u8(0x20, 0xe0, false), (0x00, false, true, true));
    assert_eq!(add_u8(0x08, 0xf8, false), (0x00, true, true, true));
    assert_eq!(add_u8(0x07, 0xf8, true), (0x00, true, true, true));
}

#[test]
fn test_sub_u8() {
    assert_eq!(sub_u8(0x12, 0x10, false), (0x02, false, false, false));
    assert_eq!(sub_u8(0x34, 0x22, true), (0x11, false, false, false));
    assert_eq!(sub_u8(0x32, 0x2f, false), (0x03, true, false, false));
    assert_eq!(sub_u8(0x32, 0x2e, true), (0x03, true, false, false));
    assert_eq!(sub_u8(0x12, 0xf0, false), (0x22, false, true, false));
    assert_eq!(sub_u8(0x12, 0xe0, true), (0x31, false, true, false));
    assert_eq!(sub_u8(0x0a, 0xef, false), (0x1b, true, true, false));
    assert_eq!(sub_u8(0x20, 0x5a, true), (0xc5, true, true, false));
    assert_eq!(sub_u8(0x12, 0x12, false), (0x00, false, false, true));
    assert_eq!(sub_u8(0x88, 0x87, true), (0x00, false, false, true));
}

#[test]
fn test_add_u16() {
    assert_eq!(
        add_u16(0x1200, 0x1000, false),
        (0x2200, false, false, false)
    );
    assert_eq!(add_u16(0x1134, 0x1222, true), (0x2357, false, false, false));
    assert_eq!(add_u16(0xf231, 0x2a13, false), (0x1c44, false, true, false));
    assert_eq!(add_u16(0xf231, 0x2a13, true), (0x1c45, false, true, false));
    assert_eq!(add_u16(0xf631, 0x2a03, false), (0x2034, true, true, false));
    assert_eq!(add_u16(0xf631, 0x2a03, true), (0x2035, true, true, false));
}

#[test]
fn test_signed() {
    assert_eq!(signed(0x0a), 0x000a);
    assert_eq!(signed(0x8a), 0xff8a);
}

#[test]
fn add_u16_wraps_to_zero() {
    assert_eq!(add_u16(0xffff, 0x0001, false), (0x0000, true, true, true));
}

#[test]
fn add_u16_signed_takes_flags_from_low_byte() {
    // 0xFFF8 + (-8) = 0xFFF0; nibble 8 + 8 carries, byte 0xF8 + 0xF8 carries.
    assert_eq!(add_u16_signed(0xfff8, 0xf8, false), (0xfff0, true, true, false));
    assert_eq!(add_u16_signed(0x0100, 0x01, false), (0x0101, false, false, false));
}

#[test]
fn sub_u8_borrow_boundaries() {
    assert_eq!(sub_u8(0x10, 0x01, false), (0x0f, true, false, false));
    assert_eq!(sub_u8(0x00, 0x01, false), (0xff, true, true, false));
    assert_eq!(sub_u8(0x00, 0x00, true), (0xff, true, true, false));
}

#[test]
fn add_u8_exhaustive_against_arithmetic() {
    for x in 0..=255u16 {
        for y in 0..=255u16 {
            for c in 0..=1u16 {
                let (r, h, cy, z) = add_u8(x as u8, y as u8, c == 1);
                let s = x + y + c;
                assert_eq!(r as u16, s % 256);
                assert_eq!(h, (x % 16) + (y % 16) + c > 15);
                assert_eq!(cy, s > 255);
                assert_eq!(z, s % 256 == 0);
                let (r, h, cy, z) = sub_u8(x as u8, y as u8, c == 1);
                let d = (x as i32) - (y as i32) - (c as i32);
                assert_eq!(r as i32, d.rem_euclid(256));
                assert_eq!(h, (x % 16) < (y % 16) + c);
                assert_eq!(cy, x < y + c);
                assert_eq!(z, d.rem_euclid(256) == 0);
            }
        }
    }
}
