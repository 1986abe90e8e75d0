use renderer::color::{initial_color, pack_color, Color, ColorUniform, BITS_HALF, BITS_ONE, BITS_ZERO, COLOR_BYTES};

#[test]
fn bit_patterns_match_ieee_singles() {
    assert_eq!(BITS_ZERO, 0.0f32.to_bits());
    assert_eq!(BITS_HALF, 0.5f32.to_bits());
    assert_eq!(BITS_ONE, 1.0f32.to_bits());
}

#[test]
fn new_orders_channels() {
    let c = Color::new([1, 2, 3, 4]);
    assert_eq!(c.r, 1);
    assert_eq!(c.g, 2);
    assert_eq!(c.b, 3);
    assert_eq!(c.a, 4);
}

#[test]
fn initial_color_is_opaque_red() {
    let c = initial_color();
    assert_eq!(c.r, 1.0f32.to_bits());
    assert_eq!(c.g, 0.0f32.to_bits());
    assert_eq!(c.b, 0.0f32.to_bits());
    assert_eq!(c.a, 1.0f32.to_bits());
}

#[test]
fn pack_color_is_little_endian_rgba() {
    let c = Color { r: 1.0f32.to_bits(), g: 0.25f32.to_bits(), b: 0.75f32.to_bits(), a: 0.5f32.to_bits() };
    let packed = pack_color(&c);
    let mut expected = Vec::new();
    for channel in [1.0f32, 0.25, 0.75, 0.5] {
        expected.extend_from_slice(&channel.to_le_bytes());
    }
    assert_eq!(packed, expected);
    assert_eq!(packed.len(), COLOR_BYTES);
}

#[test]
fn pack_color_opaque_red_bytes() {
    let packed = pack_color(&initial_color());
    assert_eq!(
        packed,
        vec![0, 0, 0x80, 0x3F, 0, 0, 0, 0, 0, 0, 0, 0, 0, 0, 0x80, 0x3F]
    );
}

#[test]
fn uniform_starts_zeroed() {
    let u = ColorUniform::new();
    assert_eq!(u.read_back(), vec![0u8; 16]);
}

#[test]
fn uniform_write_overwrites_all_prior_contents() {
    let c = Color { r: 0.125f32.to_bits(), g: 0.5f32.to_bits(), b: 1.0f32.to_bits(), a: 0.875f32.to_bits() };

    let mut fresh = ColorUniform::new();
    fresh.write(&c);

    let mut dirty = ColorUniform::new();
    dirty.write(&Color { r: u32::MAX, g: u32::MAX, b: u32::MAX, a: u32::MAX });
    dirty.write(&c);

    assert_eq!(fresh.read_back(), pack_color(&c));
    assert_eq!(dirty.read_back(), pack_color(&c));
    assert_eq!(fresh.read_back(), dirty.read_back());
}
