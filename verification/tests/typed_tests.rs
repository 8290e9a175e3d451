use wasm_gpu::wast_args::{WastArgument, WastHeapType};
use wasm_gpu::le_bytes::{read_le, split_le_words, write_le};
use wasm_gpu::typed::{
    decode_vals, encode_vals, i64_const_words, v128_const_words, ExternRef, F32Bits, F64Bits,
    FuncRef, Val, ValType, ValTypeByteCount, WasmTyVal, WasmTyVec, V128,
};

#[test]
fn value_sizes_follow_their_types() {
    assert_eq!(ValType::I32.size_in_bytes(), 4);
    assert_eq!(ValType::I64.size_in_bytes(), 8);
    assert_eq!(ValType::F32.size_in_bytes(), 4);
    assert_eq!(ValType::F64.size_in_bytes(), 8);
    assert_eq!(ValType::V128.size_in_bytes(), 16);
    assert_eq!(ValType::FuncRef.size_in_bytes(), 4);
    assert_eq!(ValType::ExternRef.byte_count(), 4);
}

#[test]
fn v128_round_trips_through_bytes() {
    let mut bytes = [0u8; 16];
    for (i, b) in bytes.iter_mut().enumerate() {
        *b = i as u8 + 1;
    }
    let v = V128::from_le_bytes(bytes);
    assert_eq!(v.to_le_bytes(), bytes);
    assert_eq!(v.bits(), u128::from_le_bytes(bytes));
    let w = V128::from_bits(0x0102_0304_0506_0708_090a_0b0c_0d0e_0f10);
    assert_eq!(w.bits(), 0x0102_0304_0506_0708_090a_0b0c_0d0e_0f10);
    assert_eq!(w.to_le_bytes()[0], 0x10);
    assert_eq!(w.to_le_bytes()[15], 0x01);
}

#[test]
fn i32_answer_is_encoded_little_endian() {
    let bytes = <i32 as WasmTyVal>::to_bytes(&42);
    assert_eq!(bytes, vec![42, 0, 0, 0]);
    let back = <i32 as WasmTyVal>::try_from_bytes(&bytes).unwrap();
    assert_eq!(back, 42);
    let negative = <i32 as WasmTyVal>::to_bytes(&-2);
    assert_eq!(negative, vec![0xfe, 0xff, 0xff, 0xff]);
}

#[test]
fn big_i64_round_trips() {
    let big: i64 = 9223372036854775805;
    let bytes = <i64 as WasmTyVal>::to_bytes(&big);
    assert_eq!(bytes, big.to_le_bytes().to_vec());
    assert_eq!(<i64 as WasmTyVal>::try_from_bytes(&bytes).unwrap(), big);
}

#[test]
fn float_bits_round_trip() {
    let f = F32Bits(19.000001f32.to_bits());
    let bytes = <F32Bits as WasmTyVal>::to_bytes(&f);
    assert_eq!(bytes, 19.000001f32.to_le_bytes().to_vec());
    assert_eq!(<F32Bits as WasmTyVal>::try_from_bytes(&bytes).unwrap().0, f.0);
    let g = F64Bits(1900.000001f64.to_bits());
    let bytes = <F64Bits as WasmTyVal>::to_bytes(&g);
    assert_eq!(bytes, 1900.000001f64.to_le_bytes().to_vec());
    assert_eq!(<F64Bits as WasmTyVal>::try_from_bytes(&bytes).unwrap().0, g.0);
}

#[test]
fn parse_error_names_source_and_target() {
    let err = <i64 as WasmTyVal>::try_from_bytes(&[1, 2, 3]).unwrap_err();
    assert_eq!(err.source(), &vec![1u8, 2, 3]);
    assert_eq!(err.target(), ValType::I64);
    let err = ValType::V128.try_from_bytes(&[0; 15]).unwrap_err();
    assert_eq!(err.target(), ValType::V128);
}

#[test]
fn coercion_error_names_source_and_target() {
    let err = <i32 as WasmTyVal>::try_from_val(Val::I64(5)).unwrap_err();
    assert!(matches!(err.source(), Val::I64(5)));
    assert_eq!(err.target(), ValType::I32);
    let ok = <i64 as WasmTyVal>::try_from_val(Val::I64(5)).unwrap();
    assert_eq!(ok, 5);
}

#[test]
fn references_use_the_max_word_for_null() {
    assert!(FuncRef::none().is_null());
    assert_eq!(FuncRef::none().as_u32(), None);
    assert!(FuncRef::try_from(u32::MAX).is_err());
    let r = FuncRef::try_from(7u32).unwrap();
    assert_eq!(r.as_u32(), Some(7));
    assert!(r.is_not_null());
    assert!(FuncRef::try_from(None::<u32>).unwrap().is_null());
    assert_eq!(FuncRef::try_from(Some(3u32)).unwrap().word(), 3);
    assert!(ExternRef::none().is_null());
    assert_eq!(ExternRef::from_word(9).as_u32(), Some(9));
    assert_eq!(ExternRef::from_le_bytes([1, 0, 0, 0]).word(), 1);
    assert_eq!(FuncRef::from_word(0x0403_0201).to_le_bytes(), [1, 2, 3, 4]);
}

#[test]
fn values_know_their_type_and_bytes() {
    let v = Val::I32(1084);
    assert_eq!(v.get_type(), ValType::I32);
    assert_eq!(v.to_bytes(), vec![0x3c, 0x04, 0, 0]);
    assert!(v.bitwise_eq(&Val::I32(1084)));
    assert!(!v.bitwise_eq(&Val::I32(1085)));
    assert!(!Val::F32(F32Bits(0)).bitwise_eq(&Val::I32(0)));
    assert_eq!(Val::V128(V128::from_bits(1)).to_bytes().len(), 16);
    assert_eq!(Val::FuncRef(FuncRef::none()).to_bytes(), vec![0xff; 4]);
}

#[test]
fn value_pairs_round_trip() {
    let pair: (i32, i64) = (-1, 2);
    assert_eq!(<(i32, i64) as WasmTyVec>::byte_count(), 12);
    let bytes = <(i32, i64) as WasmTyVec>::to_bytes(&pair);
    assert_eq!(bytes, vec![0xff, 0xff, 0xff, 0xff, 2, 0, 0, 0, 0, 0, 0, 0]);
    let back = <(i32, i64) as WasmTyVec>::try_from_bytes(&bytes).unwrap();
    assert_eq!(back, pair);
    let vals = <(i32, i64) as WasmTyVec>::to_val_vec(&pair);
    assert_eq!(vals.len(), 2);
    assert!(vals[0].bitwise_eq(&Val::I32(-1)));
    assert_eq!(<(i32, i64) as WasmTyVec>::val_types(), vec![ValType::I32, ValType::I64]);
}

#[test]
fn value_sequences_reject_wrong_shapes() {
    let err = <(i32, i32) as WasmTyVec>::try_from_val_vec(&vec![Val::I32(1)]).unwrap_err();
    assert_eq!(err.sources().len(), 1);
    assert_eq!(err.targets(), &vec![ValType::I32, ValType::I32]);
    let err = <(i32, i32) as WasmTyVec>::try_from_bytes(&[0; 7]).unwrap_err();
    assert_eq!(err.source().len(), 7);
    assert_eq!(<() as WasmTyVec>::byte_count(), 0);
    assert!(<() as WasmTyVec>::try_from_bytes(&[]).is_ok());
    assert!(<() as WasmTyVec>::try_from_bytes(&[0]).is_err());
    assert_eq!(<i32 as WasmTyVec>::to_bytes(&5), vec![5, 0, 0, 0]);
}

#[test]
fn value_lists_encode_and_decode() {
    let vals = vec![Val::I32(1), Val::I64(-1), Val::ExternRef(ExternRef::from_word(2))];
    let bytes = encode_vals(&vals);
    assert_eq!(bytes.len(), 16);
    let back = decode_vals(&[ValType::I32, ValType::I64, ValType::ExternRef], &bytes).unwrap();
    assert_eq!(back.len(), 3);
    for (a, b) in back.iter().zip(vals.iter()) {
        assert!(a.bitwise_eq(b));
    }
    assert!(decode_vals(&[ValType::I32], &bytes).is_err());
}

#[test]
fn constants_split_into_little_endian_words() {
    assert_eq!(i64_const_words(0x0000_0001_0000_0002), vec![2, 1]);
    assert_eq!(i64_const_words(-1), vec![u32::MAX, u32::MAX]);
    let v = V128::from_bits(0x0000_0004_0000_0003_0000_0002_0000_0001);
    assert_eq!(v128_const_words(v), vec![1, 2, 3, 4]);
}

#[test]
fn little_endian_helpers() {
    assert_eq!(read_le(&[1, 2]), 0x0201);
    assert_eq!(write_le(0x0201, 3), vec![1, 2, 0]);
    assert_eq!(split_le_words(&[1, 0, 0, 0, 0, 0, 0, 1]), vec![1, 0x0100_0000]);
}

#[test]
fn single_and_long_tuples_round_trip() {
    let one: (i64,) = (7,);
    let bytes = <(i64,) as WasmTyVec>::to_bytes(&one);
    assert_eq!(bytes, 7i64.to_le_bytes().to_vec());
    assert_eq!(<(i64,) as WasmTyVec>::try_from_bytes(&bytes).unwrap(), one);

    let three = (1i32, F64Bits(2.5f64.to_bits()), FuncRef::from_word(3));
    let bytes = <(i32, F64Bits, FuncRef) as WasmTyVec>::to_bytes(&three);
    assert_eq!(bytes.len(), 16);
    assert_eq!(<(i32, F64Bits, FuncRef) as WasmTyVec>::try_from_bytes(&bytes).unwrap(), three);
    assert!(<(i32, F64Bits, FuncRef) as WasmTyVec>::try_from_bytes(&bytes[..15]).is_err());
    let vals = <(i32, F64Bits, FuncRef) as WasmTyVec>::to_val_vec(&three);
    assert_eq!(<(i32, F64Bits, FuncRef) as WasmTyVec>::try_from_val_vec(&vals).unwrap(), three);

    type Sixteen = (i32, i32, i32, i32, i32, i32, i32, i32, i32, i32, i32, i32, i32, i32, i32, i64);
    let many: Sixteen = (0, 1, 2, 3, 4, 5, 6, 7, 8, 9, 10, 11, 12, 13, 14, -15);
    assert_eq!(<Sixteen as WasmTyVec>::byte_count(), 68);
    let bytes = <Sixteen as WasmTyVec>::to_bytes(&many);
    assert_eq!(&bytes[60..68], &(-15i64).to_le_bytes());
    let back = match <Sixteen as WasmTyVec>::try_from_bytes(&bytes) {
        Ok(b) => b,
        Err(_) => panic!("sixteen values did not read back"),
    };
    assert_eq!(
        (back.0, back.1, back.2, back.3, back.4, back.5, back.6, back.7),
        (many.0, many.1, many.2, many.3, many.4, many.5, many.6, many.7)
    );
    assert_eq!(
        (back.8, back.9, back.10, back.11, back.12, back.13, back.14, back.15),
        (many.8, many.9, many.10, many.11, many.12, many.13, many.14, many.15)
    );
    assert_eq!(<Sixteen as WasmTyVec>::val_types().len(), 16);
}

#[test]
fn script_arguments_become_values() {
    assert!(Val::try_from_wast(WastArgument::I32(5)).unwrap().bitwise_eq(&Val::I32(5)));
    assert!(Val::try_from_wast(WastArgument::F32(1.5f32.to_bits()))
        .unwrap()
        .bitwise_eq(&Val::F32(F32Bits(1.5f32.to_bits()))));
    let mut bytes = [0u8; 16];
    bytes[0] = 9;
    assert!(Val::try_from_wast(WastArgument::V128(bytes))
        .unwrap()
        .bitwise_eq(&Val::V128(V128::from_bits(9))));
    assert!(Val::try_from_wast(WastArgument::RefNull(WastHeapType::Func))
        .unwrap()
        .bitwise_eq(&Val::FuncRef(FuncRef::none())));
    assert!(Val::try_from_wast(WastArgument::RefExtern(4))
        .unwrap()
        .bitwise_eq(&Val::ExternRef(ExternRef::from_word(4))));
    assert_eq!(
        Val::try_from_wast(WastArgument::RefExtern(u32::MAX)).unwrap_err(),
        "extern ref can't be u32::MAX"
    );
    assert_eq!(
        Val::try_from_wast(WastArgument::RefNull(WastHeapType::Other("Any".to_string()))).unwrap_err(),
        "null reference of type Any is not supported"
    );
    assert_eq!(
        Val::try_from_wast(WastArgument::RefHost(1)).unwrap_err(),
        "HostRefs are not supported"
    );
    assert_eq!(
        Val::try_from_wast(WastArgument::Component).unwrap_err(),
        "component model not supported"
    );
}

#[test]
fn values_compare_floats_as_floats() {
    assert_eq!(Val::I32(3), Val::I32(3));
    assert_ne!(Val::I32(3), Val::I64(3));
    let nan = F32Bits(f32::NAN.to_bits());
    assert_ne!(Val::F32(nan), Val::F32(nan));
    assert_eq!(Val::F32(F32Bits(0.0f32.to_bits())), Val::F32(F32Bits((-0.0f32).to_bits())));
    assert_eq!(Val::F64(F64Bits(1.5f64.to_bits())), Val::F64(F64Bits(1.5f64.to_bits())));
    assert_ne!(Val::F64(F64Bits(f64::NAN.to_bits())), Val::F64(F64Bits(f64::NAN.to_bits())));
    assert_eq!(Val::F64(F64Bits(0.0f64.to_bits())), Val::F64(F64Bits((-0.0f64).to_bits())));
    assert_eq!(Val::V128(V128::from_bits(5)), Val::V128(V128::from_bits(5)));
    assert_eq!(Val::FuncRef(FuncRef::none()), Val::FuncRef(FuncRef::none()));
}
