use plrust::error::{marshal_error, ConversionError, GuestError, PlRustError};
use plrust::marshal::{
    decode_return, decode_text, encode_text, frame_length, handle_address, handle_argument,
    marshal_arguments, pack_with_len, set_wasm_args, set_wasm_ret, unmarshal_result,
    unpack_with_len, HostValue, MarshalError, Marshalled, ReturnStep, Val, HANDLE_ALIGNMENT,
};
use plrust::types::{BuiltinType, MappingError, PgOid, SemanticType};

fn scalar(b: BuiltinType) -> SemanticType {
    SemanticType::scalar(PgOid::BuiltIn(b))
}

#[test]
fn payload_is_packed_behind_its_length() {
    assert_eq!(pack_with_len(vec![]), vec![0, 0, 0, 0, 0, 0, 0, 0]);
    assert_eq!(pack_with_len(vec![7, 8, 9]), vec![3, 0, 0, 0, 0, 0, 0, 0, 7, 8, 9]);
    let long = vec![1u8; 258];
    let frame = pack_with_len(long.clone());
    assert_eq!(&frame[..8], &[2, 1, 0, 0, 0, 0, 0, 0]);
    assert_eq!(&frame[8..], &long[..]);
}

#[test]
fn frame_is_unpacked() {
    assert_eq!(unpack_with_len(&vec![3, 0, 0, 0, 0, 0, 0, 0, 7, 8, 9]), Some(vec![7, 8, 9]));
    assert_eq!(unpack_with_len(&vec![2, 0, 0, 0, 0, 0, 0, 0, 7, 8, 9]), Some(vec![7, 8]));
    assert_eq!(unpack_with_len(&vec![0, 0, 0, 0, 0, 0, 0, 0]), Some(vec![]));
    assert_eq!(unpack_with_len(&vec![4, 0, 0, 0, 0, 0, 0, 0, 7, 8, 9]), None);
    assert_eq!(unpack_with_len(&vec![0, 0, 0, 0, 0, 0, 0]), None);
    assert_eq!(unpack_with_len(&vec![]), None);
    assert_eq!(unpack_with_len(&vec![255, 255, 255, 255, 255, 255, 255, 255, 1]), None);
}

#[test]
fn pack_and_unpack_round_trip() {
    for payload in [vec![], vec![0u8], vec![1, 2, 3, 4, 5, 6, 7, 8, 9], vec![255u8; 300]] {
        assert_eq!(unpack_with_len(&pack_with_len(payload.clone())), Some(payload));
    }
    let frame = vec![1, 0, 0, 0, 0, 0, 0, 0, 42];
    assert_eq!(pack_with_len(unpack_with_len(&frame).unwrap()), frame);
}

#[test]
fn text_is_encoded_with_its_byte_length() {
    assert_eq!(encode_text(&"hi".to_string()), vec![2, 0, 0, 0, 0, 0, 0, 0, b'h', b'i']);
    assert_eq!(encode_text(&String::new()), vec![0, 0, 0, 0, 0, 0, 0, 0]);
    assert_eq!(
        encode_text(&"\u{e9}\u{20ac}".to_string()),
        vec![5, 0, 0, 0, 0, 0, 0, 0, 0xc3, 0xa9, 0xe2, 0x82, 0xac]
    );
}

#[test]
fn text_is_decoded() {
    assert_eq!(decode_text(&vec![2, 0, 0, 0, 0, 0, 0, 0, b'H', b'I']), Some("HI".to_string()));
    assert_eq!(decode_text(&vec![0, 0, 0, 0, 0, 0, 0, 0]), Some(String::new()));
    assert_eq!(decode_text(&vec![1, 0, 0, 0, 0, 0, 0, 0, b'a', b'b']), Some("a".to_string()));
    assert_eq!(decode_text(&vec![3, 0, 0, 0, 0, 0, 0, 0, b'a', b'b']), None);
    assert_eq!(decode_text(&vec![1, 0, 0, 0, 0, 0, 0]), None);
    assert_eq!(decode_text(&vec![1, 0, 0, 0, 0, 0, 0, 0, 0xff]), None);
    assert_eq!(decode_text(&vec![2, 0, 0, 0, 0, 0, 0, 0, 0xc3, 0x28]), None);
}

#[test]
fn text_round_trips_through_the_encoding() {
    for s in ["", "hi", "HI", "a\nb", "\u{1f600} smile", "\u{0}"] {
        let text = s.to_string();
        assert_eq!(decode_text(&encode_text(&text)), Some(text));
    }
    let bytes = vec![3, 0, 0, 0, 0, 0, 0, 0, b'a', b'b', b'c'];
    assert_eq!(encode_text(&decode_text(&bytes).unwrap()), bytes);
}

#[test]
fn addresses_are_carried_as_signed_words() {
    assert_eq!(handle_argument(0), Val::I64(0));
    assert_eq!(handle_argument(1024), Val::I64(1024));
    assert_eq!(handle_argument(0x7fff_ffff_ffff_ffff), Val::I64(i64::MAX));
    assert_eq!(handle_argument(0x8000_0000_0000_0000), Val::I64(i64::MIN));
    assert_eq!(handle_argument(u64::MAX), Val::I64(-1));
    assert_eq!(handle_address(0), 0);
    assert_eq!(handle_address(-1), u64::MAX);
    assert_eq!(handle_address(i64::MIN), 0x8000_0000_0000_0000);
    assert_eq!(handle_address(i64::MAX), 0x7fff_ffff_ffff_ffff);
    for a in [0u64, 1, 65536, 1 << 63, u64::MAX - 8, u64::MAX] {
        match handle_argument(a) {
            Val::I64(w) => assert_eq!(handle_address(w), a),
            _ => panic!("an address is a 64-bit word"),
        }
    }
    assert_eq!(HANDLE_ALIGNMENT, 8);
}

#[test]
fn primitive_arguments_pass_as_words() {
    let mut buf = Vec::new();
    assert_eq!(set_wasm_args(&scalar(BuiltinType::Int4), 1, 0, &Some(HostValue::Int4(-5)), &mut buf), Ok(()));
    assert_eq!(set_wasm_args(&scalar(BuiltinType::Int8), 1, 1, &Some(HostValue::Int8(1 << 40)), &mut buf), Ok(()));
    assert_eq!(buf, vec![Marshalled::ByValue(Val::I32(-5)), Marshalled::ByValue(Val::I64(1 << 40))]);
}

#[test]
fn text_argument_passes_as_a_packed_encoding() {
    let mut buf = vec![Marshalled::ByValue(Val::I32(1))];
    let r = set_wasm_args(&scalar(BuiltinType::Text), 1, 1, &Some(HostValue::Text("hi".to_string())), &mut buf);
    assert_eq!(r, Ok(()));
    assert_eq!(
        buf,
        vec![
            Marshalled::ByValue(Val::I32(1)),
            Marshalled::ByHandle(vec![10, 0, 0, 0, 0, 0, 0, 0, 2, 0, 0, 0, 0, 0, 0, 0, b'h', b'i']),
        ]
    );
}

#[test]
fn arguments_that_cannot_cross_are_refused() {
    let mut buf = vec![Marshalled::ByValue(Val::I32(1))];
    let before = buf.clone();
    let cases: Vec<(SemanticType, Option<HostValue>, MarshalError)> = vec![
        (SemanticType::scalar(PgOid::Invalid), Some(HostValue::Int4(1)), MarshalError::Unsupported(MappingError::InvalidType)),
        (SemanticType::scalar(PgOid::Custom(9)), None, MarshalError::Unsupported(MappingError::UnknownType(9))),
        (scalar(BuiltinType::Int4), None, MarshalError::NullArgument(77, 3)),
        (scalar(BuiltinType::Int8), None, MarshalError::NullArgument(77, 3)),
        (scalar(BuiltinType::Text), None, MarshalError::NullArgument(77, 3)),
        (scalar(BuiltinType::Int4), Some(HostValue::Int8(1)), MarshalError::TypeMismatch),
        (scalar(BuiltinType::Int8), Some(HostValue::Text("x".to_string())), MarshalError::TypeMismatch),
        (scalar(BuiltinType::Text), Some(HostValue::Int4(1)), MarshalError::TypeMismatch),
        (scalar(BuiltinType::Varchar), Some(HostValue::Text("x".to_string())), MarshalError::NoEncoding),
        (scalar(BuiltinType::Bool), None, MarshalError::NoEncoding),
        (
            SemanticType { oid: PgOid::Custom(1009), element: PgOid::BuiltIn(BuiltinType::Text) },
            Some(HostValue::Text("x".to_string())),
            MarshalError::NoEncoding,
        ),
    ];
    for (ty, value, error) in cases {
        assert_eq!(set_wasm_args(&ty, 77, 3, &value, &mut buf), Err(error));
        assert_eq!(buf, before);
    }
}

#[test]
fn all_arguments_are_marshalled_in_order() {
    let types = vec![scalar(BuiltinType::Int8), scalar(BuiltinType::Int8)];
    let values = vec![Some(HostValue::Int8(2)), Some(HostValue::Int8(3))];
    assert_eq!(
        marshal_arguments(42, &types, &values),
        Ok(vec![Marshalled::ByValue(Val::I64(2)), Marshalled::ByValue(Val::I64(3))])
    );
    assert_eq!(marshal_arguments(42, &vec![], &vec![]), Ok(vec![]));
    assert_eq!(marshal_arguments(42, &vec![], &values), Ok(vec![]));
}

#[test]
fn first_failing_argument_decides() {
    let types = vec![scalar(BuiltinType::Int8), scalar(BuiltinType::Int4), scalar(BuiltinType::Bool)];
    let values = vec![Some(HostValue::Int8(2)), None];
    assert_eq!(marshal_arguments(42, &types, &values), Err(MarshalError::NullArgument(42, 1)));
    let values = vec![Some(HostValue::Int8(2)), Some(HostValue::Int4(1))];
    assert_eq!(marshal_arguments(42, &types, &values), Err(MarshalError::NoEncoding));
    let types = vec![scalar(BuiltinType::Int8), scalar(BuiltinType::Int4)];
    let values = vec![Some(HostValue::Int8(2))];
    assert_eq!(marshal_arguments(42, &types, &values), Err(MarshalError::NullArgument(42, 1)));
}

#[test]
fn result_slot_is_reserved() {
    let mut buf = Vec::new();
    set_wasm_ret(&scalar(BuiltinType::Int8), &mut buf);
    assert_eq!(buf, vec![Val::ExternRef]);
    set_wasm_ret(&scalar(BuiltinType::Text), &mut buf);
    assert_eq!(buf, vec![Val::ExternRef, Val::ExternRef]);
}

#[test]
fn sum_of_two_and_three_comes_back_as_five() {
    let types = vec![scalar(BuiltinType::Int8), scalar(BuiltinType::Int8)];
    let values = vec![Some(HostValue::Int8(2)), Some(HostValue::Int8(3))];
    let args = marshal_arguments(42, &types, &values).unwrap();
    let sum = args.iter().fold(0i64, |acc, a| match a {
        Marshalled::ByValue(Val::I64(v)) => acc + v,
        _ => panic!("int64 passes by value"),
    });
    let step = unmarshal_result(&scalar(BuiltinType::Int8), &vec![Val::I64(sum)]);
    assert_eq!(step, Ok(ReturnStep::Value(HostValue::Int8(5))));
}

#[test]
fn uppercased_text_crosses_the_boundary_both_ways() {
    let ty = scalar(BuiltinType::Text);
    let args = marshal_arguments(7, &vec![ty], &vec![Some(HostValue::Text("hi".to_string()))]).unwrap();
    let frame = match &args[0] {
        Marshalled::ByHandle(frame) => frame.clone(),
        _ => panic!("text passes by handle"),
    };
    // the guest: unpack, decode, run the user code, encode, pack
    let input = decode_text(&unpack_with_len(&frame).unwrap()).unwrap();
    assert_eq!(input, "hi");
    let reply = pack_with_len(encode_text(&input.to_uppercase()));
    // guest memory, with the reply at address 64
    let mut memory = vec![0u8; 64];
    memory.extend_from_slice(&reply);
    let step = unmarshal_result(&ty, &vec![handle_argument(64)]).unwrap();
    assert_eq!(step, ReturnStep::Encoded { address: 64, body: 72 });
    let length = frame_length(&memory[64..72].to_vec()).unwrap();
    assert_eq!(length, 10);
    let body = memory[72..72 + length as usize].to_vec();
    assert_eq!(decode_return(&ty, &body), Ok(HostValue::Text("HI".to_string())));
}

#[test]
fn primitive_results_are_read_off_the_slot() {
    assert_eq!(
        unmarshal_result(&scalar(BuiltinType::Int4), &vec![Val::I32(-7)]),
        Ok(ReturnStep::Value(HostValue::Int4(-7)))
    );
    assert_eq!(
        unmarshal_result(&scalar(BuiltinType::Int8), &vec![Val::I64(i64::MIN)]),
        Ok(ReturnStep::Value(HostValue::Int8(i64::MIN)))
    );
}

#[test]
fn results_that_cannot_cross_are_refused() {
    let int4 = scalar(BuiltinType::Int4);
    let int8 = scalar(BuiltinType::Int8);
    let text = scalar(BuiltinType::Text);
    assert_eq!(unmarshal_result(&int4, &vec![]), Err(MarshalError::ResultCount));
    assert_eq!(unmarshal_result(&int4, &vec![Val::I32(1), Val::I32(2)]), Err(MarshalError::ResultCount));
    assert_eq!(unmarshal_result(&int4, &vec![Val::I64(1)]), Err(MarshalError::TypeMismatch));
    assert_eq!(unmarshal_result(&int8, &vec![Val::I32(1)]), Err(MarshalError::TypeMismatch));
    assert_eq!(unmarshal_result(&int8, &vec![Val::ExternRef]), Err(MarshalError::TypeMismatch));
    assert_eq!(unmarshal_result(&text, &vec![]), Err(MarshalError::ResultCount));
    assert_eq!(unmarshal_result(&text, &vec![Val::I32(1)]), Err(MarshalError::TypeMismatch));
    assert_eq!(unmarshal_result(&text, &vec![Val::I64(-1)]), Err(MarshalError::AddressOverflow));
    assert_eq!(unmarshal_result(&text, &vec![Val::I64(-8)]), Err(MarshalError::AddressOverflow));
    assert_eq!(
        unmarshal_result(&text, &vec![Val::I64(-9)]),
        Ok(ReturnStep::Encoded { address: u64::MAX - 8, body: u64::MAX })
    );
    assert_eq!(unmarshal_result(&scalar(BuiltinType::Json), &vec![Val::I64(8)]), Err(MarshalError::NoEncoding));
    assert_eq!(
        unmarshal_result(&SemanticType::scalar(PgOid::Custom(5)), &vec![Val::I64(8)]),
        Err(MarshalError::Unsupported(MappingError::UnknownType(5)))
    );
    assert_eq!(
        unmarshal_result(&SemanticType::scalar(PgOid::Invalid), &vec![]),
        Err(MarshalError::Unsupported(MappingError::InvalidType))
    );
}

#[test]
fn length_prefix_is_read() {
    assert_eq!(frame_length(&vec![10, 0, 0, 0, 0, 0, 0, 0]), Ok(10));
    assert_eq!(frame_length(&vec![0, 1, 0, 0, 0, 0, 0, 0]), Ok(256));
    assert_eq!(frame_length(&vec![255; 8]), Ok(u64::MAX));
    assert_eq!(frame_length(&vec![0; 7]), Err(MarshalError::BadFrame));
    assert_eq!(frame_length(&vec![0; 9]), Err(MarshalError::BadFrame));
    assert_eq!(frame_length(&vec![]), Err(MarshalError::BadFrame));
}

#[test]
fn returned_body_is_decoded() {
    let text = scalar(BuiltinType::Text);
    assert_eq!(
        decode_return(&text, &vec![2, 0, 0, 0, 0, 0, 0, 0, b'H', b'I']),
        Ok(HostValue::Text("HI".to_string()))
    );
    assert_eq!(decode_return(&text, &vec![9, 0, 0, 0, 0, 0, 0, 0, b'H']), Err(MarshalError::BadEncoding));
    assert_eq!(decode_return(&text, &vec![]), Err(MarshalError::BadEncoding));
    assert_eq!(
        decode_return(&scalar(BuiltinType::Int4), &vec![2, 0, 0, 0, 0, 0, 0, 0, b'H', b'I']),
        Err(MarshalError::NoEncoding)
    );
}

#[test]
fn errors_say_what_went_wrong() {
    let conversion = ConversionError { value: "Text".to_string(), into: "i32".to_string() };
    assert_eq!(conversion.message(), "Could not turn value into Text: i32");
    assert_eq!(
        GuestError::ConversionError(conversion.clone()).message(),
        "Could not turn value into Text: i32"
    );
    assert_eq!(GuestError::CoerceError("no".to_string()).message(), "no");
    assert_eq!(
        PlRustError::Guest(GuestError::ConversionError(conversion)).message(),
        "WASM guest error: Could not turn value into Text: i32"
    );
    assert_eq!(PlRustError::Trap("unreachable".to_string()).message(), "WASM guest experienced a trap: unreachable");
    assert_eq!(PlRustError::Wasi("denied".to_string()).message(), "WASM WASI error: denied");
    assert_eq!(
        PlRustError::CargoMessageParse("eof".to_string()).message(),
        "Failed to parse `cargo build` messages: eof"
    );
    assert_eq!(
        PlRustError::BuildFailure("exit status: 101".to_string()).message(),
        "`cargo build` failed with code exit status: 101"
    );
    assert_eq!(PlRustError::ModuleNotFound("fn1_2_3".to_string()).message(), "Module not found: fn1_2_3");
    assert_eq!(PlRustError::FunctionCallInfoWasNone.message(), "FunctionCallInfo was None");
    assert_eq!(PlRustError::FnOidWasNone.message(), "FunctionCallInfo provided fn_oid was None");
    assert_eq!(
        PlRustError::PgGetArgWasNone(16384, 2).message(),
        "pg_getarg on fn_oid 16384 at index 2 was None"
    );
}

#[test]
fn marshalling_failures_become_pipeline_errors() {
    assert_eq!(marshal_error(MarshalError::NullArgument(5, 1)), PlRustError::PgGetArgWasNone(5, 1));
    assert_eq!(
        marshal_error(MarshalError::TypeMismatch),
        PlRustError::Guest(GuestError::CoerceError("the value is not of the declared type".to_string()))
    );
    assert_eq!(
        marshal_error(MarshalError::BadEncoding).message(),
        "WASM guest error: the bytes encode no value of the declared type"
    );
    for e in [
        MarshalError::Unsupported(MappingError::InvalidType),
        MarshalError::NoEncoding,
        MarshalError::ResultCount,
        MarshalError::BadFrame,
        MarshalError::AddressOverflow,
        MarshalError::OutOfOrder,
    ] {
        assert!(matches!(marshal_error(e), PlRustError::Guest(GuestError::CoerceError(_))));
    }
}
