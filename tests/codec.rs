use render_gl::command::ScalarKind;
use render_gl::data::{
    f32_, f32_f32_f32, f32_f32_f32_f32, i8_, i8_float, mat3_f32, u2_u10_u10_u10_rev_float,
};

fn bits(v: f32) -> u32 {
    v.to_bits()
}

#[test]
fn f32_f32_f32_encodes_little_endian_words() {
    let v = f32_f32_f32::new(bits(1.0), bits(-2.0), bits(0.5));
    let mut out = Vec::new();
    v.write_bytes(&mut out);
    assert_eq!(
        out,
        vec![0x00, 0x00, 0x80, 0x3f, 0x00, 0x00, 0x00, 0xc0, 0x00, 0x00, 0x00, 0x3f]
    );
}

#[test]
fn f32_f32_f32_round_trip_is_exact() {
    for (x, y, z) in [(1.5f32, -2.25f32, 1e-3f32), (0.0, -0.0, f32::MAX), (f32::MIN_POSITIVE, 3.0, -7.5)] {
        let v = f32_f32_f32::new(bits(x), bits(y), bits(z));
        let mut out = vec![9u8, 9u8];
        v.write_bytes(&mut out);
        let back = f32_f32_f32::read_bytes(&out, 2);
        assert_eq!(back, v);
        assert_eq!(f32::from_bits(back.d0), x);
        assert_eq!(f32::from_bits(back.d1), y);
        assert_eq!(f32::from_bits(back.d2), z);
    }
}

#[test]
fn f32_f32_f32_f32_round_trip_is_exact() {
    let v = f32_f32_f32_f32::new(bits(0.25), bits(-1.0), bits(123.456), bits(1.0));
    let mut out = Vec::new();
    v.write_bytes(&mut out);
    assert_eq!(out.len(), 16);
    let back = f32_f32_f32_f32::read_bytes(&out, 0);
    assert_eq!(back, v);
    assert_eq!(f32::from_bits(back.d2), 123.456);
}

#[test]
fn packed_color_levels_round_trip() {
    let c = u2_u10_u10_u10_rev_float::from_levels(1023, 0, 512, 3);
    assert_eq!(c.raw, 0xE000_03FF);
    assert_eq!(c.x_level(), 1023);
    assert_eq!(c.y_level(), 0);
    assert_eq!(c.z_level(), 512);
    assert_eq!(c.w_level(), 3);
    let mut out = Vec::new();
    c.write_bytes(&mut out);
    assert_eq!(out, vec![0xff, 0x03, 0x00, 0xe0]);
    assert_eq!(u2_u10_u10_u10_rev_float::read_bytes(&out, 0), c);
}

#[test]
fn packed_color_decodes_within_quantization_bound() {
    let samples = [0.0f32, 0.001, 0.2, 0.333, 0.5, 0.6667, 0.9, 0.999, 1.0];
    for &r in &samples {
        for &a in &samples {
            let c = u2_u10_u10_u10_rev_float::from_levels(
                (r * 1023.0).round() as u32,
                (r * 1023.0).round() as u32,
                (r * 1023.0).round() as u32,
                (a * 3.0).round() as u32,
            );
            let back = u2_u10_u10_u10_rev_float::from_raw(c.raw);
            let x = back.x_level() as f32 / 1023.0;
            let w = back.w_level() as f32 / 3.0;
            assert!((x - r).abs() <= 1.0 / 1023.0);
            assert!((w - a).abs() <= 1.0 / 3.0);
        }
    }
}

#[test]
fn codec_formats() {
    let f3 = f32_f32_f32::format();
    assert_eq!((f3.components, f3.kind, f3.normalized, f3.size), (3, ScalarKind::Float, false, 12));
    let f4 = f32_f32_f32_f32::format();
    assert_eq!((f4.components, f4.kind, f4.normalized, f4.size), (4, ScalarKind::Float, false, 16));
    let c = u2_u10_u10_u10_rev_float::format();
    assert_eq!(
        (c.components, c.kind, c.normalized, c.size),
        (4, ScalarKind::UnsignedInt2101010Rev, true, 4)
    );
    let f1 = f32_::format();
    assert_eq!((f1.components, f1.kind, f1.normalized, f1.size), (1, ScalarKind::Float, false, 4));
    let b = i8_::format();
    assert_eq!((b.components, b.kind, b.normalized, b.size), (1, ScalarKind::Byte, false, 1));
    let bf = i8_float::format();
    assert_eq!((bf.components, bf.kind, bf.normalized, bf.size), (1, ScalarKind::Byte, true, 1));
    let m = mat3_f32::format();
    assert_eq!((m.components, m.kind, m.normalized, m.size), (9, ScalarKind::Float, false, 36));
}

#[test]
fn byte_codecs_encode_one_byte() {
    let mut out = Vec::new();
    i8_::new(-1).write_bytes(&mut out);
    i8_float::new(127).write_bytes(&mut out);
    assert_eq!(out, vec![0xff, 0x7f]);
    assert_eq!(i8_::new(-5).d0, -5);
    assert_eq!(i8_float::new(3).d0, 3);
}

#[test]
fn mat3_and_scalar_encodings() {
    let m = mat3_f32::new(1, 2, 3, 4, 5, 6, 7, 8, 9);
    let mut out = Vec::new();
    m.write_bytes(&mut out);
    assert_eq!(out.len(), 36);
    assert_eq!(&out[0..4], &[1, 0, 0, 0]);
    assert_eq!(&out[32..36], &[9, 0, 0, 0]);
    let mut one = Vec::new();
    f32_::new(bits(2.0)).write_bytes(&mut one);
    assert_eq!(one, vec![0, 0, 0, 0x40]);
}
