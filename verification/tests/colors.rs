use ledstrip::bits::UNIT_ONE;
use ledstrip::colors::{hsv_interp, hsv_interp_3, ColorHsv, ColorRgb, Mix};

fn hsv(h: f32, s: f32, v: f32) -> ColorHsv {
    ColorHsv::new(h.to_bits(), s.to_bits(), v.to_bits())
}

fn channels(c: &ColorHsv) -> (f32, f32, f32) {
    (f32::from_bits(c.get_h()), f32::from_bits(c.get_s()), f32::from_bits(c.get_v()))
}

fn blend(mix: &Mix) -> ColorHsv {
    let (h1, s1, v1) = channels(&mix.from);
    let (h2, s2, v2) = channels(&mix.to);
    let w = f32::from_bits(mix.weight);
    hsv(h1 - (h1 - h2) * w, s1 - (s1 - s2) * w, v1 - (v1 - v2) * w)
}

fn to_rgb(c: &ColorHsv) -> ColorRgb {
    let (h, s, v) = channels(c);
    let fraction = (h * 6.0) - (((h * 6.0) as u8) as f32);
    let sector = (h * 6.0 % 6.0) as u8;
    let top = (v * 255.0) as u8;
    let low = ((v * (1.0 - s)) * 255.0) as u8;
    let rising = ((v * (1.0 - s * (1.0 - fraction))) * 255.0) as u8;
    let falling = ((v * (1.0 - s * fraction)) * 255.0) as u8;
    ColorRgb::from_sector(sector, top, low, rising, falling)
}

#[test]
fn test_colorhsv() {
    let black = ColorHsv::new(0.0f32.to_bits(), 0.0f32.to_bits(), 0.0f32.to_bits());
    assert_eq!(channels(&black), (0.0, 0.0, 0.0));
    let col_hsv_white = hsv(0.0, 0.0, 1.0);
    let col_rgb_white = ColorRgb::new(255, 255, 255);
    let col_hsv_red = hsv(0.0, 1.0, 1.0);
    let col_rgb_red = ColorRgb::new(255, 0, 0);
    let byte_array_1 = [0, 0, 0, 0, 0, 0, 0, 0, 0, 0, 128, 63];

    assert_eq!(col_hsv_white.to_le_bytes(), byte_array_1);
    assert_eq!(ColorHsv::from_le_bytes(byte_array_1), col_hsv_white);

    assert_eq!(to_rgb(&col_hsv_white), col_rgb_white);
    assert_eq!(to_rgb(&col_hsv_red), col_rgb_red);
}

#[test]
fn test_interp_functions() {
    let col_hsv_white = hsv(0.0, 0.0, 1.0);
    let col_hsv_black = hsv(0.0, 0.0, 0.0);
    let col_hsv_h0 = hsv(0.0, 1.0, 1.0);
    let col_hsv_h25 = hsv(0.25, 1.0, 1.0);
    let col_hsv_h50 = hsv(0.5, 1.0, 1.0);
    let col_hsv_h75 = hsv(0.75, 1.0, 1.0);
    let col_hsv_h100 = hsv(1.0, 1.0, 1.0);

    let interp = |a: &ColorHsv, b: &ColorHsv, pos: f32| blend(&hsv_interp(a, b, pos.to_bits()));
    let interp_3 = |a: &ColorHsv, b: &ColorHsv, c: &ColorHsv, pos: f32| {
        blend(&hsv_interp_3(a, b, c, pos.to_bits()))
    };

    assert_eq!(interp(&col_hsv_black, &col_hsv_white, 0.0), col_hsv_black);
    assert_eq!(interp(&col_hsv_black, &col_hsv_white, 0.5), hsv(0.0, 0.0, 0.5));
    assert_eq!(interp(&col_hsv_black, &col_hsv_white, 1.0), col_hsv_white);

    assert_eq!(interp_3(&col_hsv_h50, &col_hsv_h100, &col_hsv_h0, 0.0), col_hsv_h50);
    assert_eq!(interp_3(&col_hsv_h50, &col_hsv_h100, &col_hsv_h0, 0.5), col_hsv_h75);
    assert_eq!(interp_3(&col_hsv_h50, &col_hsv_h100, &col_hsv_h0, 1.0), col_hsv_h100);
    assert_eq!(interp_3(&col_hsv_h50, &col_hsv_h100, &col_hsv_h0, -0.5), col_hsv_h25);
    assert_eq!(interp_3(&col_hsv_h50, &col_hsv_h100, &col_hsv_h0, -1.0), col_hsv_h0);
}

#[test]
fn rgb_setters_and_getters() {
    let mut c = ColorRgb::new(1, 2, 3);
    assert_eq!((c.get_r(), c.get_g(), c.get_b()), (1, 2, 3));
    c.set_r(10);
    assert_eq!(c, ColorRgb::new(10, 2, 3));
    c.set_g(20);
    assert_eq!(c, ColorRgb::new(10, 20, 3));
    c.set_b(30);
    assert_eq!(c, ColorRgb::new(10, 20, 30));
    c.set_rgb(&ColorRgb::new(7, 8, 9));
    assert_eq!(c, ColorRgb::new(7, 8, 9));
}

#[test]
fn construction_clamps_every_channel() {
    let c = hsv(-3.5, 7.0, f32::NAN);
    assert_eq!(channels(&c), (0.0, 1.0, 0.0));
    let c = hsv(f32::NEG_INFINITY, f32::INFINITY, 0.25);
    assert_eq!(channels(&c), (0.0, 1.0, 0.25));
    let c = hsv(0.1, 0.2, 0.3);
    assert_eq!(channels(&c), (0.1, 0.2, 0.3));
    for bits in [0u32, 1, 0x3F7F_FFFF, 0x3F80_0000, 0x3F80_0001, 0x7F80_0000, 0x7FC0_0000,
        0x8000_0000, 0x8000_0001, 0xBF80_0000, 0xFF80_0000, 0xFFFF_FFFF] {
        let c = ColorHsv::new(bits, bits, bits);
        for got in [c.get_h(), c.get_s(), c.get_v()] {
            let x = f32::from_bits(got);
            assert!(x >= 0.0 && x <= 1.0);
        }
    }
}

#[test]
fn setters_clamp() {
    let mut c = hsv(0.5, 0.5, 0.5);
    c.set_h(2.0f32.to_bits());
    assert_eq!(channels(&c), (1.0, 0.5, 0.5));
    c.set_s((-2.0f32).to_bits());
    assert_eq!(channels(&c), (1.0, 0.0, 0.5));
    c.set_v(0.75f32.to_bits());
    assert_eq!(channels(&c), (1.0, 0.0, 0.75));
    c.set_v(f32::NAN.to_bits());
    assert_eq!(channels(&c), (1.0, 0.0, 0.0));
    let other = hsv(0.125, 0.25, 0.375);
    c.set_hsv(&other);
    assert_eq!(c, other);
}

#[test]
fn layout_is_three_little_endian_numbers() {
    let c = hsv(0.1, 0.6, 0.9);
    let bytes = c.to_le_bytes();
    assert_eq!(bytes[0..4], 0.1f32.to_le_bytes());
    assert_eq!(bytes[4..8], 0.6f32.to_le_bytes());
    assert_eq!(bytes[8..12], 0.9f32.to_le_bytes());
    assert_eq!(hsv(0.5, 0.0, 1.0).to_le_bytes(), [0, 0, 0, 63, 0, 0, 0, 0, 0, 0, 128, 63]);
}

#[test]
fn bytes_round_trip() {
    let mut bits: u32 = 0;
    while bits <= UNIT_ONE {
        let c = ColorHsv::new(bits, UNIT_ONE - bits, bits / 2);
        assert_eq!(ColorHsv::from_le_bytes(c.to_le_bytes()), c);
        bits += 0x0001_2345;
    }
    let c = ColorHsv::new(UNIT_ONE, 0, 1);
    assert_eq!(ColorHsv::from_le_bytes(c.to_le_bytes()), c);
}

#[test]
fn reading_bytes_clamps() {
    let mut bytes = [0u8; 12];
    bytes[0..4].copy_from_slice(&2.5f32.to_le_bytes());
    bytes[4..8].copy_from_slice(&(-1.0f32).to_le_bytes());
    bytes[8..12].copy_from_slice(&0.5f32.to_le_bytes());
    assert_eq!(channels(&ColorHsv::from_le_bytes(bytes)), (1.0, 0.0, 0.5));
    assert_eq!(channels(&ColorHsv::from_le_bytes([0xFF; 12])), (0.0, 0.0, 0.0));
}

#[test]
fn sector_table() {
    assert_eq!(ColorRgb::from_sector(0, 200, 10, 120, 90), ColorRgb::new(200, 120, 10));
    assert_eq!(ColorRgb::from_sector(1, 200, 10, 120, 90), ColorRgb::new(90, 200, 10));
    assert_eq!(ColorRgb::from_sector(2, 200, 10, 120, 90), ColorRgb::new(10, 200, 120));
    assert_eq!(ColorRgb::from_sector(3, 200, 10, 120, 90), ColorRgb::new(10, 90, 200));
    assert_eq!(ColorRgb::from_sector(4, 200, 10, 120, 90), ColorRgb::new(120, 10, 200));
    assert_eq!(ColorRgb::from_sector(5, 200, 10, 120, 90), ColorRgb::new(200, 10, 90));
    assert_eq!(ColorRgb::from_sector(6, 200, 10, 120, 90), ColorRgb::new(0, 0, 0));
    assert_eq!(ColorRgb::from_sector(255, 200, 10, 120, 90), ColorRgb::new(0, 0, 0));
}

#[test]
fn primary_and_secondary_hues() {
    assert_eq!(to_rgb(&hsv(1.0 / 3.0, 1.0, 1.0)), ColorRgb::new(0, 255, 0));
    assert_eq!(to_rgb(&hsv(2.0 / 3.0, 1.0, 1.0)), ColorRgb::new(0, 0, 255));
    assert_eq!(to_rgb(&hsv(0.5, 1.0, 1.0)), ColorRgb::new(0, 255, 255));
    assert_eq!(to_rgb(&hsv(1.0, 1.0, 1.0)), ColorRgb::new(255, 0, 0));
    assert_eq!(to_rgb(&hsv(0.0, 0.0, 0.5)), ColorRgb::new(127, 127, 127));
    assert_eq!(to_rgb(&hsv(0.0, 0.0, 0.0)), ColorRgb::new(0, 0, 0));
}

#[test]
fn interp_clamps_the_position() {
    let a = hsv(0.2, 0.4, 0.6);
    let b = hsv(0.8, 0.6, 0.4);
    assert_eq!(hsv_interp(&a, &b, 3.0f32.to_bits()).weight, UNIT_ONE);
    assert_eq!(hsv_interp(&a, &b, (-3.0f32).to_bits()).weight, 0);
    assert_eq!(hsv_interp(&a, &b, f32::NAN.to_bits()).weight, 0);
    assert_eq!(hsv_interp(&a, &b, 0.25f32.to_bits()).weight, 0.25f32.to_bits());
    let mix = hsv_interp(&a, &b, 0.25f32.to_bits());
    assert_eq!(mix.from, a);
    assert_eq!(mix.to, b);
    assert_eq!(blend(&hsv_interp(&a, &b, 7.0f32.to_bits())), b);
    assert_eq!(blend(&hsv_interp(&a, &b, (-7.0f32).to_bits())), a);
}

#[test]
fn interp_3_picks_a_side() {
    let a = hsv(0.5, 0.5, 0.5);
    let b = hsv(0.9, 0.9, 0.9);
    let c = hsv(0.1, 0.1, 0.1);
    let at = |pos: f32| hsv_interp_3(&a, &b, &c, pos.to_bits());
    assert_eq!(at(0.0), Mix { from: a, to: a, weight: 0 });
    assert_eq!(at(-0.0), Mix { from: a, to: a, weight: 0 });
    assert_eq!(at(f32::NAN), Mix { from: a, to: a, weight: 0 });
    assert_eq!(at(0.25), Mix { from: a, to: b, weight: 0.25f32.to_bits() });
    assert_eq!(at(-0.25), Mix { from: a, to: c, weight: 0.25f32.to_bits() });
    assert_eq!(at(5.0), Mix { from: a, to: b, weight: UNIT_ONE });
    assert_eq!(at(-5.0), Mix { from: a, to: c, weight: UNIT_ONE });
    assert_eq!(at(f32::INFINITY), Mix { from: a, to: b, weight: UNIT_ONE });
    assert_eq!(at(f32::NEG_INFINITY), Mix { from: a, to: c, weight: UNIT_ONE });
}
