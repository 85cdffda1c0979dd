use protonsdk_variant::Variant;

fn packed(v: &Variant) -> Vec<u8> {
    let mut out: Vec<u8> = Vec::new();
    v.pack(&mut out);
    out
}

#[test]
fn nil_packs_to_tag_only() {
    assert_eq!(packed(&Variant::Nil), vec![0u8]);
}

#[test]
fn uint_packs_tag_and_le_payload() {
    assert_eq!(
        packed(&Variant::UInt(0xDEAD_BEEF)),
        vec![5u8, 0xEF, 0xBE, 0xAD, 0xDE]
    );
    assert_eq!(packed(&Variant::UInt(5)), vec![5u8, 5, 0, 0, 0]);
}

#[test]
fn int_packs_tag_and_le_twos_complement_payload() {
    assert_eq!(packed(&Variant::Int(-2)), vec![9u8, 0xFE, 0xFF, 0xFF, 0xFF]);
    assert_eq!(packed(&Variant::Int(1)), vec![9u8, 1, 0, 0, 0]);
}

#[test]
fn float_packs_tag_and_ieee_bits() {
    let mut expected: Vec<u8> = vec![1u8];
    expected.extend_from_slice(&1.5f32.to_le_bytes());
    assert_eq!(packed(&Variant::Float(1.5f32.to_bits())), expected);
}

#[test]
fn vec2_packs_both_components() {
    let x = 1.0f32;
    let y = -2.5f32;
    let mut expected: Vec<u8> = vec![3u8];
    expected.extend_from_slice(&x.to_le_bytes());
    expected.extend_from_slice(&y.to_le_bytes());
    let got = packed(&Variant::Vec2(x.to_bits(), y.to_bits()));
    assert_eq!(got.len(), 9);
    assert_eq!(got, expected);
}

#[test]
fn vec3_packs_all_components() {
    let (x, y, z) = (0.25f32, 4096.0f32, -0.0f32);
    let mut expected: Vec<u8> = vec![4u8];
    expected.extend_from_slice(&x.to_le_bytes());
    expected.extend_from_slice(&y.to_le_bytes());
    expected.extend_from_slice(&z.to_le_bytes());
    let got = packed(&Variant::Vec3(x.to_bits(), y.to_bits(), z.to_bits()));
    assert_eq!(got.len(), 13);
    assert_eq!(got, expected);
}

#[test]
fn str_packs_length_prefix_and_raw_bytes() {
    let got = packed(&Variant::Str(String::from("Hello")));
    let mut expected: Vec<u8> = vec![2u8, 5, 0, 0, 0];
    expected.extend_from_slice(b"Hello");
    assert_eq!(got, expected);
}

#[test]
fn str_length_prefix_counts_utf8_bytes_not_chars() {
    // "héllo" has five characters but six UTF-8 bytes.
    let s = "h\u{e9}llo";
    let got = packed(&Variant::Str(String::from(s)));
    assert_eq!(got[0], 2u8);
    assert_eq!(&got[1..5], &[6u8, 0, 0, 0]);
    assert_eq!(&got[5..], s.as_bytes());
    assert_eq!(got.len(), 1 + 4 + 6);
}

#[test]
fn empty_str_packs_zero_length() {
    assert_eq!(
        packed(&Variant::Str(String::new())),
        vec![2u8, 0, 0, 0, 0]
    );
}

#[test]
fn signed_widths_with_equal_value_pack_identically() {
    let expected = packed(&Variant::Int(5));
    assert_eq!(packed(&Variant::from(5i8)), expected);
    assert_eq!(packed(&Variant::from(5i16)), expected);
    assert_eq!(packed(&Variant::from(5i32)), expected);
    assert_eq!(packed(&Variant::from(5i64)), expected);
    assert_eq!(packed(&Variant::from(5i128)), expected);

    let negative = packed(&Variant::Int(-7));
    assert_eq!(packed(&Variant::from(-7i8)), negative);
    assert_eq!(packed(&Variant::from(-7i64)), negative);
}

#[test]
fn unsigned_widths_with_equal_value_pack_identically() {
    let expected = packed(&Variant::UInt(200));
    assert_eq!(packed(&Variant::from(200u8)), expected);
    assert_eq!(packed(&Variant::from(200u16)), expected);
    assert_eq!(packed(&Variant::from(200u32)), expected);
    assert_eq!(packed(&Variant::from(200u64)), expected);
    assert_eq!(packed(&Variant::from(200u128)), expected);
}

#[test]
fn float_widths_with_equal_value_pack_identically() {
    let expected = packed(&Variant::Float(5.0f32.to_bits()));
    let narrowed = (5.0f64 as f32).to_bits();
    assert_eq!(packed(&Variant::Float(narrowed)), expected);
}

#[test]
fn out_of_range_signed_values_truncate_to_32_bits() {
    // 2^32 + 5 reinterprets as 5; -1 keeps all bits set.
    assert_eq!(
        packed(&Variant::from(0x1_0000_0005i64)),
        packed(&Variant::Int(5))
    );
    assert_eq!(
        packed(&Variant::from(-1i64)),
        packed(&Variant::Int(-1))
    );
    assert_eq!(
        packed(&Variant::from(0x7_0000_0007u64)),
        packed(&Variant::UInt(7))
    );
}

#[test]
fn string_conversions_pack_like_str_variant() {
    let expected = packed(&Variant::Str(String::from("abc")));
    assert_eq!(packed(&Variant::from("abc")), expected);
    assert_eq!(packed(&Variant::from(String::from("abc"))), expected);
}

#[test]
fn pack_appends_without_clearing_the_sink() {
    let mut out: Vec<u8> = vec![0xAA, 0xBB];
    Variant::UInt(1).pack(&mut out);
    assert_eq!(out, vec![0xAA, 0xBB, 5u8, 1, 0, 0, 0]);
}
