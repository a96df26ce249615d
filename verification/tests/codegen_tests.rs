use plrust::codegen::{
    argument_name_of, assemble_function_source, generate_function_source, CodegenError,
};
use plrust::lints::{compile_lints, covers_baseline, find_disabled_lint, lint_disabled, parse_lints, required_lints};
use plrust::source::parse_source_and_deps;
use plrust::text::chars_of;
use plrust::types::{
    oid_to_syn_type, oid_to_valtype, oid_to_valtype_and_ptr_marker, valtype_to_syn_type,
    BuiltinType, MappingError, PgOid, SemanticType, ValType,
};

fn scalar(b: BuiltinType) -> SemanticType {
    SemanticType::scalar(PgOid::BuiltIn(b))
}

fn lints(names: &[&str]) -> Vec<String> {
    names.iter().map(|s| s.to_string()).collect()
}

#[test]
fn adds_two_int64_arguments() {
    let args = vec![
        (scalar(BuiltinType::Int8), Some("a".to_string())),
        (scalar(BuiltinType::Int8), Some("b".to_string())),
    ];
    let source = generate_function_source(
        42,
        "a + b",
        &args,
        &scalar(BuiltinType::Int8),
        false,
        false,
        &lints(&["unsafe_code"]),
    )
    .unwrap();
    let expected = "#[deny(unsafe_code)]\n\
fn plrust_fn_42(a: i64, b: i64) -> i64 { a + b }\n\
#[no_mangle]\n\
fn entry(a: i64, b: i64) -> i64 {\n    let retval = plrust_fn_42(a, b);\n    retval\n}\n";
    assert_eq!(source, expected);
}

#[test]
fn uppercases_text_through_a_handle() {
    let args = vec![(scalar(BuiltinType::Text), Some("s".to_string()))];
    let source = generate_function_source(
        7,
        "s.to_uppercase()",
        &args,
        &scalar(BuiltinType::Text),
        false,
        true,
        &lints(&[]),
    )
    .unwrap();
    let expected = "fn plrust_fn_7(s: String) -> String { s.to_uppercase() }\n\
#[no_mangle]\n\
fn entry(s: u64) -> u64 {\n    let retval = plrust_fn_7(unsafe { ::plrust_interface::own_unpack_and_deserialize(s as *mut u8).unwrap() });\n    unsafe { ::plrust_interface::serialize_pack_and_leak(&retval).unwrap() as u64 }\n}\n";
    assert_eq!(source, expected);
}

#[test]
fn zero_argument_function_has_empty_lists() {
    let source = generate_function_source(
        1,
        "1",
        &vec![],
        &scalar(BuiltinType::Int4),
        false,
        false,
        &lints(&["unsafe_code", "unknown_lints"]),
    )
    .unwrap();
    let expected = "#[deny(unsafe_code)]\n#[deny(unknown_lints)]\n\
fn plrust_fn_1() -> i32 { 1 }\n\
#[no_mangle]\n\
fn entry() -> i32 {\n    let retval = plrust_fn_1();\n    retval\n}\n";
    assert_eq!(source, expected);
}

#[test]
fn unnamed_arguments_are_numbered() {
    let args = vec![
        (scalar(BuiltinType::Int4), None),
        (scalar(BuiltinType::Int4), Some(String::new())),
    ];
    let source = generate_function_source(
        3,
        "arg0 + arg1",
        &args,
        &scalar(BuiltinType::Int4),
        false,
        false,
        &lints(&[]),
    )
    .unwrap();
    assert!(source.starts_with("fn plrust_fn_3(arg0: i32, arg1: i32) -> i32 { arg0 + arg1 }\n"));
    assert!(source.contains("let retval = plrust_fn_3(arg0, arg1);"));
}

#[test]
fn set_and_strict_flags_do_not_change_the_source() {
    let args = vec![(scalar(BuiltinType::Int4), Some("x".to_string()))];
    let ret = scalar(BuiltinType::Int4);
    let a = generate_function_source(9, "x", &args, &ret, false, false, &lints(&[])).unwrap();
    let b = generate_function_source(9, "x", &args, &ret, true, true, &lints(&[])).unwrap();
    assert_eq!(a, b);
}

#[test]
fn array_argument_is_encoded() {
    let array = SemanticType { oid: PgOid::Custom(1007), element: PgOid::BuiltIn(BuiltinType::Int4) };
    let args = vec![(array, Some("v".to_string()))];
    let source = generate_function_source(
        5,
        "v.len() as i32",
        &args,
        &scalar(BuiltinType::Int4),
        false,
        false,
        &lints(&[]),
    )
    .unwrap();
    assert!(source.starts_with("fn plrust_fn_5(v: Vec<Option<i32>>) -> i32 {"));
    assert!(source.contains("fn entry(v: u64) -> i32 {"));
}

#[test]
fn disabled_required_lint_is_refused_at_generation() {
    let args = vec![(scalar(BuiltinType::Int4), Some("x".to_string()))];
    let r = generate_function_source(
        9,
        "#![allow(unsafe_code)]\nunsafe { x }",
        &args,
        &scalar(BuiltinType::Int4),
        false,
        false,
        &lints(&["unknown_lints", "unsafe_code"]),
    );
    assert_eq!(r, Err(CodegenError::LintOverride(1)));
}

#[test]
fn lint_override_is_reported_before_other_faults() {
    let args = vec![(SemanticType::scalar(PgOid::Custom(99999)), Some("x".to_string()))];
    let r = generate_function_source(
        9,
        "#[warn (unsafe_code)] fn f() {",
        &args,
        &SemanticType::scalar(PgOid::Invalid),
        false,
        false,
        &lints(&["unsafe_code"]),
    );
    assert_eq!(r, Err(CodegenError::LintOverride(0)));
}

#[test]
fn unsupported_argument_type_is_refused() {
    let args = vec![
        (scalar(BuiltinType::Int4), Some("x".to_string())),
        (SemanticType::scalar(PgOid::Custom(99999)), Some("y".to_string())),
    ];
    let r = generate_function_source(9, "x", &args, &scalar(BuiltinType::Int4), false, false, &lints(&[]));
    assert_eq!(r, Err(CodegenError::UnsupportedArgumentType(1)));
}

#[test]
fn invalid_argument_name_is_refused() {
    let args = vec![(scalar(BuiltinType::Int4), Some("not an ident".to_string()))];
    let r = generate_function_source(9, "1", &args, &scalar(BuiltinType::Int4), false, false, &lints(&[]));
    assert_eq!(r, Err(CodegenError::InvalidArgumentName(0)));
    let args = vec![(scalar(BuiltinType::Int4), Some("fn".to_string()))];
    let r = generate_function_source(9, "1", &args, &scalar(BuiltinType::Int4), false, false, &lints(&[]));
    assert_eq!(r, Err(CodegenError::InvalidArgumentName(0)));
}

#[test]
fn code_that_is_no_block_is_refused() {
    let r = generate_function_source(9, "let x = ;", &vec![], &scalar(BuiltinType::Int4), false, false, &lints(&[]));
    assert_eq!(r, Err(CodegenError::InvalidCode));
    let r = generate_function_source(9, "1 }", &vec![], &scalar(BuiltinType::Int4), false, false, &lints(&[]));
    assert_eq!(r, Err(CodegenError::InvalidCode));
}

#[test]
fn unsupported_return_type_is_refused() {
    let r = generate_function_source(9, "1", &vec![], &SemanticType::scalar(PgOid::Invalid), false, false, &lints(&[]));
    assert_eq!(r, Err(CodegenError::UnsupportedReturnType));
}

#[test]
fn directive_detection() {
    let lint = chars_of("unsafe_code");
    let yes = [
        "#![allow(unsafe_code)]",
        "#[allow(dead_code, unsafe_code)] fn f() {}",
        "#[warn\n (unsafe_code)]",
        "#[expect(unsafe_code)]",
        "#[cfg_attr(all(), allow(unsafe_code))]",
        "x allow( y unsafe_code",
        "#[allow/**/(unsafe_code)] let x = unsafe { f() }; x",
        "#[allow /* a */ // b\n (unsafe_code)]",
        "#[allow(/*]*/unsafe_code)]",
        "#[allow(dead_code)] fn unsafe_code() {}",
        "allow(unsafe_code",
        "warn(unsafe_code",
        "expect((unsafe_code",
    ];
    for code in yes.iter() {
        assert!(lint_disabled(&chars_of(code), &lint), "{}", code);
    }
    let no = [
        "",
        "unsafe_code",
        "a + b",
        "#[allow(dead_code)]",
        "#[deny(unsafe_code)]",
        "allow unsafe_code",
        "allow(unsafe_cod",
        "unsafe_code allow(",
        "(unsafe_code) allow",
        "allo(unsafe_code)",
        "allow(",
        "(allow unsafe_code",
    ];
    for code in no.iter() {
        assert!(!lint_disabled(&chars_of(code), &lint), "{}", code);
    }
    assert!(lint_disabled(&chars_of("warn("), &chars_of("")));
    assert!(!lint_disabled(&chars_of("warn"), &chars_of("")));
}

#[test]
fn directive_with_a_comment_in_it_is_refused() {
    let args = vec![(scalar(BuiltinType::Int4), Some("x".to_string()))];
    let r = generate_function_source(
        9,
        "#[allow/**/(unsafe_code)] let x = unsafe { f() }; x",
        &args,
        &scalar(BuiltinType::Int4),
        false,
        false,
        &lints(&["unsafe_code"]),
    );
    assert_eq!(r, Err(CodegenError::LintOverride(0)));
}

#[test]
fn name_that_is_more_than_an_identifier_is_refused() {
    for name in ["a //x", "a/**/", " a", "a ", "a\n", "/* */a", "a\u{200e}", "\u{200f}a", "a\u{a0}"] {
        let args = vec![(scalar(BuiltinType::Int8), Some(name.to_string()))];
        let r = generate_function_source(9, "1", &args, &scalar(BuiltinType::Int8), false, false, &lints(&[]));
        assert_eq!(r, Err(CodegenError::InvalidArgumentName(0)), "{:?}", name);
    }
    for name in ["a", "_a", "a1", "r#type", "\u{e9}t\u{e9}"] {
        let args = vec![(scalar(BuiltinType::Int8), Some(name.to_string()))];
        let r = generate_function_source(9, "1", &args, &scalar(BuiltinType::Int8), false, false, &lints(&[]));
        assert!(r.is_ok(), "{:?}", name);
    }
}

#[test]
fn every_literal_is_taken_by_the_parser() {
    let ret = scalar(BuiltinType::Int4);
    for code in [
        "let p = c\"hi\"; 1",
        "let p = cr#\"hi\"#; 1",
        "let p = (/*ERROR*/); 1",
        "let p = b\"hi\"; let q = b'a'; let r = 'a'; let s = r\"x\"; 1",
        "1e10; 0x1f; 0b1; 0o7; 1.5e-3f64; 12u8; 1",
    ] {
        let r = generate_function_source(9, code, &vec![], &ret, false, false, &lints(&[]));
        assert!(r.is_ok() || r == Err(CodegenError::InvalidCode), "{}", code);
    }
}

#[test]
fn source_is_put_together_from_the_parser_s_answers() {
    let args = vec![
        (scalar(BuiltinType::Int8), Some("a".to_string())),
        (scalar(BuiltinType::Text), None),
    ];
    let ret = scalar(BuiltinType::Int8);
    let none = lints(&[]);
    assert_eq!(argument_name_of(&Some("a".to_string()), 0), "a");
    assert_eq!(argument_name_of(&None, 1), "arg1");
    assert_eq!(argument_name_of(&Some(String::new()), 12), "arg12");
    let expected = "fn plrust_fn_3(a: i64, arg1: String) -> i64 { a }\n\
#[no_mangle]\n\
fn entry(a: i64, arg1: u64) -> i64 {\n    let retval = plrust_fn_3(a, unsafe { ::plrust_interface::own_unpack_and_deserialize(arg1 as *mut u8).unwrap() });\n    retval\n}\n";
    assert_eq!(
        assemble_function_source(3, "a", &args, &ret, &none, &vec![true, true], true),
        Ok(expected.to_string())
    );
    assert_eq!(
        assemble_function_source(3, "a", &args, &ret, &none, &vec![true, true, false], true),
        Ok(expected.to_string())
    );
    assert_eq!(
        assemble_function_source(3, "a", &args, &ret, &none, &vec![true, false], true),
        Err(CodegenError::InvalidArgumentName(1))
    );
    assert_eq!(
        assemble_function_source(3, "a", &args, &ret, &none, &vec![true], true),
        Err(CodegenError::InvalidArgumentName(1))
    );
    assert_eq!(
        assemble_function_source(3, "a", &args, &ret, &none, &vec![false, false], false),
        Err(CodegenError::InvalidArgumentName(0))
    );
    assert_eq!(
        assemble_function_source(3, "a", &args, &ret, &none, &vec![true, true], false),
        Err(CodegenError::InvalidCode)
    );
    assert_eq!(
        assemble_function_source(3, "allow(x)", &args, &ret, &lints(&["x"]), &vec![false], false),
        Err(CodegenError::LintOverride(0))
    );
    assert_eq!(
        assemble_function_source(
            3,
            "a",
            &args,
            &SemanticType::scalar(PgOid::Invalid),
            &none,
            &vec![true, true],
            true
        ),
        Err(CodegenError::UnsupportedReturnType)
    );
}

#[test]
fn first_disabled_lint_is_found() {
    let list = lints(&["a_lint", "b_lint", "c_lint"]);
    assert_eq!(find_disabled_lint("#[allow(c_lint, b_lint)]", &list), Some(1));
    assert_eq!(find_disabled_lint("#[allow(d_lint)]", &list), None);
    assert_eq!(find_disabled_lint("#[allow(a_lint)]", &vec![]), None);
}

#[test]
fn lint_lists_are_read() {
    assert_eq!(parse_lints(" a , ,b,, c_d "), lints(&["a", "b", "c_d"]));
    assert_eq!(parse_lints(""), Vec::<String>::new());
    assert_eq!(parse_lints(" , "), Vec::<String>::new());
    let builtin = lints(&[
        "plrust_extern_blocks",
        "plrust_lifetime_parameterized_traits",
        "implied_bounds_entailment",
        "unsafe_code",
        "unknown_lints",
    ]);
    assert_eq!(compile_lints(None), builtin);
    assert_eq!(required_lints(None), builtin);
    assert_eq!(compile_lints(Some("x, y")), lints(&["x", "y"]));
    assert_eq!(required_lints(Some("unsafe_code")), lints(&["unsafe_code"]));
}

#[test]
fn baseline_lint_is_required() {
    assert!(covers_baseline(&required_lints(None)));
    assert!(covers_baseline(&lints(&["x", "unsafe_code"])));
    assert!(!covers_baseline(&lints(&["x", "unsafe_codes"])));
    assert!(!covers_baseline(&vec![]));
}

#[test]
fn source_sections_are_split() {
    let (deps, code) = parse_source_and_deps("\n[dependencies]\nrand = \"0.8\"\n[code]\n  a + b\n");
    assert_eq!(deps, "rand = \"0.8\"\n");
    assert_eq!(code, "  a + b\n");
}

#[test]
fn text_before_the_first_marker_is_code() {
    let (deps, code) = parse_source_and_deps("let x = 1;\n  [dependencies]  \nserde = \"1\"\n\n [code] \r\nx\r\n");
    assert_eq!(deps, "serde = \"1\"\n\n");
    assert_eq!(code, "let x = 1;\nx\n");
}

#[test]
fn sections_may_come_in_either_order_and_repeat() {
    let (deps, code) = parse_source_and_deps("[code]\na\n[dependencies]\nb = \"1\"\n[code]\nc\n[dependencies]\nd = \"2\"");
    assert_eq!(deps, "b = \"1\"\nd = \"2\"\n");
    assert_eq!(code, "a\nc\n");
}

#[test]
fn empty_source_has_empty_sections() {
    assert_eq!(parse_source_and_deps(""), (String::new(), String::new()));
    assert_eq!(parse_source_and_deps("  \n \t "), (String::new(), String::new()));
    assert_eq!(parse_source_and_deps("a + b"), (String::new(), "a + b\n".to_string()));
}

#[test]
fn type_identifiers_are_classified() {
    assert_eq!(PgOid::from_u32(0), PgOid::Invalid);
    assert_eq!(PgOid::from_u32(23), PgOid::BuiltIn(BuiltinType::Int4));
    assert_eq!(PgOid::from_u32(20), PgOid::BuiltIn(BuiltinType::Int8));
    assert_eq!(PgOid::from_u32(25), PgOid::BuiltIn(BuiltinType::Text));
    assert_eq!(PgOid::from_u32(3802), PgOid::BuiltIn(BuiltinType::Jsonb));
    assert_eq!(PgOid::from_u32(12345), PgOid::Custom(12345));
    for oid in [16u32, 17, 18, 20, 21, 23, 25, 26, 27, 114, 700, 701, 869, 1043, 1700, 2275, 2278, 2283, 3802] {
        assert_eq!(PgOid::from_u32(oid).value(), oid);
        assert_eq!(BuiltinType::from_u32(oid).unwrap().value(), oid);
    }
    assert_eq!(PgOid::Invalid.value(), 0);
    assert_eq!(PgOid::Custom(77).value(), 77);
}

#[test]
fn primitive_types_pass_by_value() {
    assert_eq!(oid_to_valtype(&PgOid::BuiltIn(BuiltinType::Int4)), Ok(Some(ValType::I32)));
    assert_eq!(oid_to_valtype(&PgOid::BuiltIn(BuiltinType::Int8)), Ok(Some(ValType::I64)));
    assert_eq!(oid_to_valtype(&PgOid::BuiltIn(BuiltinType::Text)), Ok(None));
    assert_eq!(oid_to_valtype(&PgOid::BuiltIn(BuiltinType::Int2)), Ok(None));
    assert_eq!(oid_to_valtype(&PgOid::Invalid), Err(MappingError::InvalidType));
    assert_eq!(oid_to_valtype(&PgOid::Custom(9)), Err(MappingError::UnknownType(9)));
    assert_eq!(
        oid_to_valtype_and_ptr_marker(&PgOid::BuiltIn(BuiltinType::Int4)),
        Ok((ValType::I32, false))
    );
    assert_eq!(
        oid_to_valtype_and_ptr_marker(&PgOid::BuiltIn(BuiltinType::Text)),
        Ok((ValType::I64, true))
    );
    assert_eq!(
        oid_to_valtype_and_ptr_marker(&PgOid::Custom(9)),
        Err(MappingError::UnknownType(9))
    );
    let array = SemanticType { oid: PgOid::Custom(1007), element: PgOid::BuiltIn(BuiltinType::Int4) };
    assert_eq!(array.classify(), Ok(None));
    assert_eq!(scalar(BuiltinType::Int8).classify(), Ok(Some(ValType::I64)));
}

#[test]
fn value_kinds_have_names() {
    assert_eq!(valtype_to_syn_type(ValType::I32), Some("i32".to_string()));
    assert_eq!(valtype_to_syn_type(ValType::I64), Some("i64".to_string()));
    for v in [ValType::F32, ValType::F64, ValType::V128, ValType::FuncRef, ValType::ExternRef] {
        assert_eq!(valtype_to_syn_type(v), None);
    }
}

#[test]
fn semantic_types_have_concrete_names() {
    let none = PgOid::Invalid;
    let cases: Vec<(BuiltinType, &str, &str)> = vec![
        (BuiltinType::AnyElement, "AnyElement", "AnyElement"),
        (BuiltinType::Bool, "bool", "bool"),
        (BuiltinType::Bytea, "Vec<Option<[u8]>>", "&[u8]"),
        (BuiltinType::Char, "u8", "u8"),
        (BuiltinType::Cstring, "std::ffi::CStr", "std::ffi::CStr"),
        (BuiltinType::Float4, "f32", "f32"),
        (BuiltinType::Float8, "f64", "f64"),
        (BuiltinType::Inet, "Inet", "Inet"),
        (BuiltinType::Int2, "i16", "i16"),
        (BuiltinType::Int4, "i32", "i32"),
        (BuiltinType::Int8, "i64", "i64"),
        (BuiltinType::Jsonb, "JsonB", "JsonB"),
        (BuiltinType::Json, "Json", "Json"),
        (BuiltinType::Numeric, "Numeric", "Numeric"),
        (BuiltinType::Oid, "pg_sys::Oid", "pg_sys::Oid"),
        (BuiltinType::Text, "String", "&str"),
        (BuiltinType::Tid, "pg_sys::ItemPointer", "pg_sys::ItemPointer"),
        (BuiltinType::Varchar, "String", "&str"),
        (BuiltinType::Void, "()", "()"),
    ];
    for (b, owned, borrowed) in cases {
        assert_eq!(oid_to_syn_type(&PgOid::BuiltIn(b), &none, true), Some(owned.to_string()));
        assert_eq!(oid_to_syn_type(&PgOid::BuiltIn(b), &none, false), Some(borrowed.to_string()));
    }
    let element = PgOid::BuiltIn(BuiltinType::Text);
    assert_eq!(
        oid_to_syn_type(&PgOid::Custom(1009), &element, true),
        Some("Vec<Option<String>>".to_string())
    );
    assert_eq!(
        oid_to_syn_type(&PgOid::Custom(1009), &element, false),
        Some("Array<&str>".to_string())
    );
    assert_eq!(oid_to_syn_type(&PgOid::Custom(1009), &none, true), None);
    assert_eq!(oid_to_syn_type(&none, &none, true), None);
    assert_eq!(oid_to_syn_type(&PgOid::Custom(5), &PgOid::Custom(6), true), None);
}
