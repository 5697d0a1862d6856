use sm_ext::cell::cell_t;
use sm_ext::context::{
    cell_ref_conversion, float_bits_ref_conversion, int_ref_conversion, local_cell, local_string,
    prepare_native_error, string_conversion, AddrTranslation, ConversionError, StringTranslation,
};

#[test]
fn int_round_trip() {
    for x in [0i32, 1, -1, 42, i32::MAX, i32::MIN] {
        let c = cell_t::from_int(x);
        assert_eq!(c.to_int(), x);
        assert_eq!(cell_t::from_int(c.to_int()), c);
    }
}

#[test]
fn int_round_trip_through_from() {
    let c = cell_t::from(5i32);
    assert_eq!(i32::from(c), 5);
    assert_eq!(cell_t::from(i32::from(c)), c);
}

#[test]
fn float_round_trip() {
    for f in [0.0f32, 1.5, -2.25, f32::MIN_POSITIVE, f32::MAX, f32::NEG_INFINITY] {
        let c = cell_t::from_bits(f.to_bits());
        assert_eq!(f32::from_bits(c.to_bits()), f);
    }
}

#[test]
fn float_bit_patterns_round_trip() {
    for b in [0u32, 1, 0x8000_0000, 0x7FC0_0000, 0x4120_0000, u32::MAX] {
        let c = cell_t::from_bits(b);
        assert_eq!(c.to_bits(), b);
        assert_eq!(cell_t::from_bits(c.to_bits()), c);
    }
}

#[test]
fn int_and_bits_alias_the_same_word() {
    let c = cell_t::from_int(-1);
    assert_eq!(c.to_bits(), u32::MAX);
    let c2 = cell_t::from_bits(0x8000_0000);
    assert_eq!(c2.to_int(), i32::MIN);
}

#[test]
fn failed_translation_yields_invalid_address_everywhere() {
    let code = 17;
    assert_eq!(
        string_conversion(StringTranslation::Invalid(code)),
        Err(ConversionError::InvalidMemoryAddress)
    );
    assert_eq!(
        cell_ref_conversion(AddrTranslation::Invalid(code)),
        Err(ConversionError::InvalidMemoryAddress)
    );
    assert_eq!(
        int_ref_conversion(AddrTranslation::Invalid(code)),
        Err(ConversionError::InvalidMemoryAddress)
    );
    assert_eq!(
        float_bits_ref_conversion(AddrTranslation::Invalid(code)),
        Err(ConversionError::InvalidMemoryAddress)
    );
}

#[test]
fn raw_translations_keep_the_failure_code() {
    assert_eq!(local_cell(AddrTranslation::Invalid(-3)), Err(-3));
    assert_eq!(local_string(StringTranslation::Invalid(7)), Err(7));
    let c = cell_t::from_int(10);
    assert_eq!(local_cell(AddrTranslation::Valid(c)), Ok(c));
    assert_eq!(
        local_string(StringTranslation::Valid(b"hi".to_vec())),
        Ok(b"hi".to_vec())
    );
}

#[test]
fn successful_translation_converts() {
    let c = cell_t::from_int(-7);
    assert_eq!(cell_ref_conversion(AddrTranslation::Valid(c)), Ok(c));
    assert_eq!(int_ref_conversion(AddrTranslation::Valid(c)), Ok(-7));
    let cf = cell_t::from_bits(1.5f32.to_bits());
    assert_eq!(
        float_bits_ref_conversion(AddrTranslation::Valid(cf)),
        Ok(1.5f32.to_bits())
    );
    assert_eq!(
        string_conversion(StringTranslation::Valid(b"abc".to_vec())),
        Ok(b"abc".to_vec())
    );
}

#[test]
fn conversion_error_message() {
    assert_eq!(
        ConversionError::InvalidMemoryAddress.message(),
        "Invalid memory address"
    );
}

#[test]
fn native_error_message_is_terminated() {
    assert_eq!(prepare_native_error(&b"oops".to_vec()), b"oops\0".to_vec());
}

#[test]
fn native_error_message_with_embedded_terminator_falls_back() {
    assert_eq!(
        prepare_native_error(&b"bad\0msg".to_vec()),
        b"ThrowNativeError message contained NUL byte\0".to_vec()
    );
}
