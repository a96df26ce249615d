use plrust::builder::{
    linker_variable_of, artifact_name_of, check_dependencies, compile_command, compile_function, compile_outcome, CompileAction,
    CompileEvent, crate_name,
    crate_name_and_path, create_function_crate, find_wasm_module, interface_crate_path, join_path,
    manifest_text, parse_dependencies, wasm_module_path, BuildFailure, Dependency,
    FunctionDefinition, PolicyError, StateBuilt, StateProvisioned, ToolOutput,
};
use plrust::codegen::CodegenError;
use plrust::source::{extract_code_and_args, parse_source_and_deps, CatalogError, ProcEntry};
use plrust::target::{CompilationTarget, CrossCompilationTarget, HostPlatform};
use plrust::text::{
    chars_of, copy_range, decimal_string, lines_of, split_chars, string_of, string_of_range,
    text_eq, trim_range, trimmed,
};
use plrust::types::{BuiltinType, PgOid, SemanticType};

fn scalar(b: BuiltinType) -> SemanticType {
    SemanticType::scalar(PgOid::BuiltIn(b))
}

fn dep(name: &str, version: Option<&str>) -> Dependency {
    Dependency { name: name.to_string(), version: version.map(|v| v.to_string()) }
}

fn definition(dependencies: &str, code: &str) -> FunctionDefinition {
    FunctionDefinition {
        fn_oid: 42,
        dependencies: dependencies.to_string(),
        code: code.to_string(),
        args: vec![
            (scalar(BuiltinType::Int8), Some("a".to_string())),
            (scalar(BuiltinType::Int8), Some("b".to_string())),
        ],
        return_type: scalar(BuiltinType::Int8),
        is_set: false,
        is_strict: false,
    }
}

#[test]
fn numbers_are_written_in_decimal() {
    assert_eq!(decimal_string(0), "0");
    assert_eq!(decimal_string(7), "7");
    assert_eq!(decimal_string(10), "10");
    assert_eq!(decimal_string(16384), "16384");
    assert_eq!(decimal_string(1234567890), "1234567890");
    assert_eq!(decimal_string(u64::MAX), "18446744073709551615");
}

#[test]
fn characters_convert_both_ways() {
    assert_eq!(chars_of("a\u{e9}\u{1f600}"), vec!['a', '\u{e9}', '\u{1f600}']);
    assert_eq!(string_of(&vec!['x', '\u{20ac}']), "x\u{20ac}");
    assert_eq!(string_of(&chars_of("")), "");
}

#[test]
fn paths_are_joined() {
    assert_eq!(join_path("/work", "fn1"), "/work/fn1");
    assert_eq!(join_path("/work/", "fn1"), "/work/fn1");
    assert_eq!(join_path("", "fn1"), "fn1");
    assert_eq!(join_path("/work", "/abs"), "/abs");
    assert_eq!(join_path("/work", ""), "/work/");
    assert_eq!(join_path("rel", "a/b"), "rel/a/b");
}

#[test]
fn crate_is_named_after_its_identifiers() {
    assert_eq!(crate_name(5, 2200, 16384), "fn5_2200_16384");
    assert_eq!(crate_name(0, 0, 0), "fn0_0_0");
    assert_eq!(
        crate_name_and_path("/var/plrust", 5, 2200, 16384),
        ("fn5_2200_16384".to_string(), "/var/plrust/fn5_2200_16384".to_string())
    );
    assert_eq!(interface_crate_path("/var/plrust"), "/var/plrust/plrust_interface");
    assert_eq!(wasm_module_path("/var/plrust/fn5_2200_16384"), "/var/plrust/fn5_2200_16384.wasm");
    assert_eq!(
        find_wasm_module("/var/plrust", "fn5_2200_16384"),
        "/var/plrust/fn5_2200_16384/target/wasm32-wasi/release/fn5_2200_16384.wasm"
    );
}

#[test]
fn manifest_names_package_library_and_dependencies() {
    let text = manifest_text("fn5_2200_16384", "/var/plrust/plrust_interface", "rand = \"0.8\"\n");
    let expected = "[package]\nname = \"fn5_2200_16384\"\nversion = \"0.0.0\"\nedition = \"2021\"\n\n[lib]\ncrate-type = [\"cdylib\"]\n\n[dependencies]\nplrust_interface = { path = \"/var/plrust/plrust_interface\" }\nrand = \"0.8\"\n\n";
    assert_eq!(text, expected);
}

#[test]
fn dependency_tables_are_read() {
    assert_eq!(parse_dependencies(""), Some(vec![]));
    assert_eq!(parse_dependencies("rand = \"0.8\"\n"), Some(vec![dep("rand", Some("0.8"))]));
    let table = parse_dependencies("a = \"1\"\nb = { version = \"2\" }\nc = 3\n").unwrap();
    assert_eq!(table.len(), 3);
    assert!(table.contains(&dep("a", Some("1"))));
    assert!(table.contains(&dep("b", None)));
    assert!(table.contains(&dep("c", None)));
    assert_eq!(parse_dependencies("rand = \n"), None);
    assert_eq!(parse_dependencies("[a]\nb = 1\n[a]\nc = 2\n"), None);
    assert_eq!(parse_dependencies("not toml at all"), None);
}

#[test]
fn dependencies_are_held_against_the_allow_list() {
    let allowed = vec![dep("rand", Some("0.8")), dep("serde", Some("1")), dep("odd", None)];
    assert_eq!(check_dependencies(&vec![], &allowed), None);
    assert_eq!(check_dependencies(&vec![dep("rand", Some("0.8"))], &allowed), None);
    assert_eq!(
        check_dependencies(&vec![dep("serde", Some("1")), dep("rand", Some("0.8"))], &allowed),
        None
    );
    assert_eq!(check_dependencies(&vec![dep("rand", Some("0.7"))], &allowed), Some(0));
    assert_eq!(check_dependencies(&vec![dep("rand", None)], &allowed), Some(0));
    assert_eq!(check_dependencies(&vec![dep("odd", None)], &allowed), Some(0));
    assert_eq!(
        check_dependencies(&vec![dep("rand", Some("0.8")), dep("libc", Some("0.2")), dep("x", Some("1"))], &allowed),
        Some(1)
    );
    assert_eq!(check_dependencies(&vec![dep("rand", Some("0.8"))], &vec![]), Some(0));
}

#[test]
fn disallowed_dependency_is_refused_before_anything_else() {
    let allowed = vec![dep("rand", Some("0.8"))];
    let lints = vec!["unsafe_code".to_string()];
    // the code is faulty too, and lowers a lint; the dependency still decides
    let def = definition("rand = \"0.8\"\nlibc = \"0.2\"\n", "#![allow(unsafe_code)] let x = ;");
    let r = create_function_crate(&def, "/w/fn1", "fn1", "/w/plrust_interface", &allowed, &lints);
    assert!(matches!(r, Err(PolicyError::DisallowedDependency(_))));
    let def = definition("libc = \"0.2\"\n", "a + b");
    let r = create_function_crate(&def, "/w/fn1", "fn1", "/w/plrust_interface", &vec![], &lints);
    assert!(matches!(r, Err(PolicyError::DisallowedDependency(0))));
}

#[test]
fn malformed_dependencies_are_refused() {
    let def = definition("rand = \n", "a + b");
    let r = create_function_crate(&def, "/w/fn1", "fn1", "/w/plrust_interface", &vec![], &vec![]);
    assert!(matches!(r, Err(PolicyError::MalformedDependencies)));
}

#[test]
fn codegen_faults_are_passed_on() {
    let def = definition("", "#![allow(unsafe_code)] a + b");
    let lints = vec!["unsafe_code".to_string()];
    let r = create_function_crate(&def, "/w/fn1", "fn1", "/w/plrust_interface", &vec![], &lints);
    assert!(matches!(r, Err(PolicyError::Codegen(CodegenError::LintOverride(0)))));
    let def = definition("", "a +");
    let r = create_function_crate(&def, "/w/fn1", "fn1", "/w/plrust_interface", &vec![], &lints);
    assert!(matches!(r, Err(PolicyError::Codegen(CodegenError::InvalidCode))));
}

#[test]
fn crate_files_are_laid_out() {
    let allowed = vec![dep("rand", Some("0.8"))];
    let lints = vec!["unsafe_code".to_string()];
    let def = definition("rand = \"0.8\"\n", "a + b");
    let files = match create_function_crate(&def, "/w/fn1", "fn1", "/w/plrust_interface", &allowed, &lints) {
        Ok(files) => files,
        Err(_) => panic!("the definition is in order"),
    };
    assert_eq!(files.manifest_path, "/w/fn1/Cargo.toml");
    assert_eq!(files.src_dir, "/w/fn1/src");
    assert_eq!(files.lib_path, "/w/fn1/src/lib.rs");
    assert_eq!(files.manifest, manifest_text("fn1", "/w/plrust_interface", "rand = \"0.8\"\n"));
    assert!(files.source.starts_with("#[deny(unsafe_code)]\nfn plrust_fn_42(a: i64, b: i64) -> i64 { a + b }\n"));
}

#[test]
fn build_command_names_the_target() {
    let state = StateProvisioned::new(5, 16384, "fn5_2200_16384".to_string(), "/w/fn5_2200_16384".to_string());
    assert_eq!(*state.fn_oid(), 16384);
    assert_eq!(*state.db_oid(), 5);
    assert_eq!(state.crate_dir(), "/w/fn5_2200_16384");
    let target = CompilationTarget::new("x86_64-unknown-linux-gnu");
    let c = state.build_command("/usr/bin/pg_config", "/w/target", &target, None);
    assert_eq!(c.program, "cargo");
    assert_eq!(c.current_dir, "/w/fn5_2200_16384");
    assert_eq!(c.args, vec!["rustc", "--release", "--target", "x86_64-unknown-linux-gnu"]);
    assert_eq!(
        c.env,
        vec![
            ("PGX_PG_CONFIG_PATH".to_string(), "/usr/bin/pg_config".to_string()),
            ("CARGO_TARGET_DIR".to_string(), "/w/target".to_string()),
            (
                "RUSTFLAGS".to_string(),
                "-Ctarget-cpu=native -Clink-args=-Wl,-undefined,dynamic_lookup".to_string()
            ),
        ]
    );
}

#[test]
fn successful_build_yields_the_artifact_path() {
    let target = CompilationTarget::new("x86_64-unknown-linux-gnu");
    let output = ToolOutput { success: true, stdout: vec![1, 2], stderr: vec![0xff] };
    let state = StateProvisioned::new(5, 16384, "fn5_2200_16384".to_string(), "/w/fn5".to_string());
    let (built, out) = match state.build("/w/target", &target, output.clone(), ".so", None, "src") {
        Ok(r) => r,
        Err(_) => panic!("the build succeeded"),
    };
    assert_eq!(out, output);
    assert_eq!(built.fn_oid, 16384);
    assert_eq!(
        built.shared_object(),
        "/w/target/x86_64-unknown-linux-gnu/release/libfn5_2200_16384.so"
    );
    let state = StateProvisioned::new(5, 16384, "fn5_2200_16384".to_string(), "/w/fn5".to_string());
    let (built, _) = match state.build("/w/target", &target, output, ".dylib", Some(3), "src") {
        Ok(r) => r,
        Err(_) => panic!("the build succeeded"),
    };
    assert_eq!(
        built.shared_object(),
        "/w/target/x86_64-unknown-linux-gnu/release/libfn5_2200_16384_3.dylib"
    );
}

#[test]
fn failed_build_keeps_output_and_source() {
    let target = CompilationTarget::new("t");
    let state = || StateProvisioned::new(5, 16384, "fn5".to_string(), "/w/fn5".to_string());
    let output = ToolOutput { success: false, stdout: b"out".to_vec(), stderr: b"error[E0308]".to_vec() };
    match state().build("/w/target", &target, output, ".so", None, "fn f() {}") {
        Err(e) => assert_eq!(
            e,
            BuildFailure::CargoBuildFail {
                stdout: "out".to_string(),
                stderr: "error[E0308]".to_string(),
                source: "fn f() {}".to_string(),
            }
        ),
        Ok(_) => panic!("the build failed"),
    }
    let output = ToolOutput { success: false, stdout: vec![0xff], stderr: vec![0xff] };
    match state().build("/w/target", &target, output, ".so", None, "") {
        Err(e) => assert_eq!(e, BuildFailure::StdoutNotUtf8),
        Ok(_) => panic!("the build failed"),
    }
    let output = ToolOutput { success: false, stdout: vec![], stderr: vec![0xc3] };
    match state().build("/w/target", &target, output, ".so", None, "") {
        Err(e) => assert_eq!(e, BuildFailure::StderrNotUtf8),
        Ok(_) => panic!("the build failed"),
    }
}

#[test]
fn built_state_keeps_its_fields() {
    let built = StateBuilt::new(9, "/w/lib.so".to_string());
    assert_eq!(built.fn_oid, 9);
    assert_eq!(built.shared_object(), "/w/lib.so");
    assert_eq!(artifact_name_of("fn1", None), "fn1");
    assert_eq!(artifact_name_of("fn1", Some(0)), "fn1_0");
    assert_eq!(artifact_name_of("fn1", Some(12)), "fn1_12");
}

#[test]
fn module_build_command() {
    let c = compile_command("/w/fn1");
    assert_eq!(c.program, "cargo");
    assert_eq!(c.current_dir, "/w/fn1");
    assert_eq!(c.args, vec!["build", "--target", "wasm32-wasi", "--release"]);
    assert!(c.env.is_empty());
}

#[test]
fn module_build_outcomes() {
    match compile_outcome("/w", "fn1", true, "out", "err", "src", true) {
        Ok(m) => {
            assert_eq!(m.built_path, "/w/fn1/target/wasm32-wasi/release/fn1.wasm");
            assert_eq!(m.final_path, "/w/fn1.wasm");
            assert_eq!(m.output, "outerr");
        },
        Err(_) => panic!("the module was built"),
    }
    match compile_outcome("/w", "fn1", true, "out", "err", "src", false) {
        Err(text) => assert_eq!(text, "outerr"),
        Ok(_) => panic!("no module was found"),
    }
    match compile_outcome("/w", "fn1", false, "out", "err", "fn f() {}", true) {
        Err(text) => assert_eq!(text, "outerr-----------------\nfn f() {}"),
        Ok(_) => panic!("the build failed"),
    }
}

fn entry() -> ProcEntry {
    ProcEntry {
        fn_oid: 16384,
        is_plrust: true,
        source: Some("[dependencies]\nrand = \"0.8\"\n[code]\na + b".to_string()),
        nargs: 2,
        argnames: Some(vec![Some("a".to_string()), None]),
        argtypes: Some(vec![scalar(BuiltinType::Int8), scalar(BuiltinType::Text)]),
        return_type: scalar(BuiltinType::Int8),
        is_set: true,
        is_strict: true,
    }
}

#[test]
fn definition_is_read_from_the_catalog_entry() {
    let def = match extract_code_and_args(&entry()) {
        Ok(def) => def,
        Err(_) => panic!("the entry is in order"),
    };
    assert_eq!(def.fn_oid, 16384);
    assert_eq!(def.dependencies, "rand = \"0.8\"\n");
    assert_eq!(def.code, "a + b\n");
    assert_eq!(
        def.args,
        vec![(scalar(BuiltinType::Int8), Some("a".to_string())), (scalar(BuiltinType::Text), None)]
    );
    assert_eq!(def.return_type, scalar(BuiltinType::Int8));
    assert!(def.is_set);
    assert!(def.is_strict);
    assert_eq!(
        (def.dependencies, def.code),
        parse_source_and_deps("[dependencies]\nrand = \"0.8\"\n[code]\na + b")
    );
    let mut e = entry();
    e.argnames = None;
    match extract_code_and_args(&e) {
        Ok(def) => assert_eq!(def.args[0].1, None),
        Err(_) => panic!("names are optional"),
    }
    let mut e = entry();
    e.nargs = 0;
    e.argtypes = None;
    match extract_code_and_args(&e) {
        Ok(def) => assert!(def.args.is_empty()),
        Err(_) => panic!("no parameters need no types"),
    }
}

#[test]
fn faulty_catalog_entries_are_refused() {
    let mut e = entry();
    e.is_plrust = false;
    e.source = None;
    assert!(matches!(extract_code_and_args(&e), Err(CatalogError::NotPlRust)));
    let mut e = entry();
    e.source = None;
    e.argtypes = None;
    assert!(matches!(extract_code_and_args(&e), Err(CatalogError::SourceMissing)));
    let mut e = entry();
    e.argtypes = None;
    assert!(matches!(extract_code_and_args(&e), Err(CatalogError::ArgumentTypeMissing(0))));
    let mut e = entry();
    e.nargs = 3;
    assert!(matches!(extract_code_and_args(&e), Err(CatalogError::ArgumentTypeMissing(2))));
}

#[test]
fn text_is_trimmed_split_and_cut_into_lines() {
    let v = chars_of(" \t a b \n");
    assert_eq!(trimmed(&v), chars_of("a b"));
    assert_eq!(trim_range(&v, 0, v.len()), (3, 6));
    assert_eq!(trim_range(&v, 4, 5), (5, 5));
    assert_eq!(trimmed(&chars_of("\u{a0}x\u{2003}")), chars_of("x"));
    assert_eq!(trimmed(&chars_of("  ")), Vec::<char>::new());
    assert_eq!(copy_range(&v, 3, 6), chars_of("a b"));
    assert_eq!(string_of_range(&v, 3, 6), "a b");
    assert!(text_eq("abc", "abc"));
    assert!(!text_eq("abc", "abd"));
    assert!(!text_eq("abc", "ab"));
    let pieces = |s: &str| -> Vec<String> {
        split_chars(&chars_of(s), ',').iter().map(|p| string_of(p)).collect()
    };
    assert_eq!(pieces(""), vec![""]);
    assert_eq!(pieces("a"), vec!["a"]);
    assert_eq!(pieces("a,b"), vec!["a", "b"]);
    assert_eq!(pieces(",a,,b,"), vec!["", "a", "", "b", ""]);
    let lines = |s: &str| -> Vec<String> {
        lines_of(&chars_of(s)).iter().map(|p| string_of(p)).collect()
    };
    for s in ["", "a", "a\n", "a\nb", "a\r\nb\r\n", "\n", "\n\n", "a\r", "a\rb\n", "\r\n", "a\n\nb", "a\r\r\n"] {
        let expected: Vec<String> = s.lines().map(|l| l.to_string()).collect();
        assert_eq!(lines(s), expected, "{:?}", s);
    }
    assert_eq!(lines("a\r"), vec!["a\r"]);
    assert_eq!(lines("a\r\r\nb"), vec!["a\r", "b"]);
}

#[test]
fn linker_override_is_passed_in_the_environment() {
    assert_eq!(
        linker_variable_of(&CompilationTarget::new("aarch64-unknown-linux-gnu")),
        "CARGO_TARGET_AARCH64_UNKNOWN_LINUX_GNU_LINKER"
    );
    assert_eq!(
        linker_variable_of(&CompilationTarget::new("thumbv7em-none-eabi.x")),
        "CARGO_TARGET_THUMBV7EM_NONE_EABI_X_LINKER"
    );
    assert_eq!(linker_variable_of(&CompilationTarget::new("")), "CARGO_TARGET__LINKER");
    let state = StateProvisioned::new(5, 16384, "fn5".to_string(), "/w/fn5".to_string());
    let target = CompilationTarget::new("aarch64-unknown-linux-gnu");
    let c = state.build_command("/pg_config", "/w/target", &target, Some("aarch64-linux-gnu-gcc"));
    assert_eq!(c.env.len(), 4);
    assert_eq!(
        c.env[3],
        (
            "CARGO_TARGET_AARCH64_UNKNOWN_LINUX_GNU_LINKER".to_string(),
            "aarch64-linux-gnu-gcc".to_string()
        )
    );
    assert_eq!(c.env[1], ("CARGO_TARGET_DIR".to_string(), "/w/target".to_string()));
}

#[test]
fn one_command_is_planned_per_target() {
    let host = HostPlatform {
        arch: "x86_64".to_string(),
        vendor: "unknown".to_string(),
        os: "linux".to_string(),
        env: "gnu".to_string(),
        restricted_std: false,
    };
    assert_eq!(
        CrossCompilationTarget::Aarch64.target(&host),
        CompilationTarget::new("aarch64-unknown-linux-gnu")
    );
    assert_eq!(
        CrossCompilationTarget::X86_64.target(&host),
        CompilationTarget::new("x86_64-unknown-linux-gnu")
    );
    let state = StateProvisioned::new(5, 16384, "fn5".to_string(), "/w/fn5".to_string());
    let this = CompilationTarget::new("x86_64-unknown-linux-gnu");
    let commands = state.build_commands("/pg_config", "/w/target", &this, &host, &vec![], &vec![]);
    assert_eq!(commands.len(), 1);
    assert_eq!(commands[0].args, vec!["rustc", "--release", "--target", "x86_64-unknown-linux-gnu"]);
    assert_eq!(commands[0].env.len(), 3);
    let others = vec![CrossCompilationTarget::Aarch64, CrossCompilationTarget::X86_64];
    let linkers = vec![Some("aarch64-linux-gnu-gcc".to_string())];
    let commands = state.build_commands("/pg_config", "/w/target", &this, &host, &others, &linkers);
    assert_eq!(commands.len(), 3);
    for c in commands.iter() {
        assert_eq!(c.program, "cargo");
        assert_eq!(c.current_dir, "/w/fn5");
    }
    assert_eq!(commands[0].env.len(), 3);
    assert_eq!(commands[1].args, vec!["rustc", "--release", "--target", "aarch64-unknown-linux-gnu"]);
    assert_eq!(
        commands[1].env[3],
        (
            "CARGO_TARGET_AARCH64_UNKNOWN_LINUX_GNU_LINKER".to_string(),
            "aarch64-linux-gnu-gcc".to_string()
        )
    );
    assert_eq!(commands[2].args, vec!["rustc", "--release", "--target", "x86_64-unknown-linux-gnu"]);
    assert_eq!(commands[2].env.len(), 3);
}

fn built(success: bool, module_found: bool) -> CompileEvent {
    CompileEvent::Built {
        success,
        stdout: "out".to_string(),
        stderr: "err".to_string(),
        module_found,
    }
}

#[test]
fn module_build_goes_through_the_policy_at_every_step() {
    let allowed = vec![dep("rand", Some("0.8"))];
    let lints = vec!["unsafe_code".to_string()];
    let refused = definition("libc = \"0.2\"\n", "a + b");
    for event in [CompileEvent::Begin, built(true, true), built(true, false), built(false, false)] {
        let action = compile_function(&refused, "/w", "fn1", &allowed, &lints, event);
        assert!(matches!(action, CompileAction::Refuse(PolicyError::DisallowedDependency(0))));
    }
    let lowered = definition("", "#[allow(unsafe_code)] a + b");
    let action = compile_function(&lowered, "/w", "fn1", &allowed, &lints, CompileEvent::Begin);
    assert!(matches!(
        action,
        CompileAction::Refuse(PolicyError::Codegen(CodegenError::LintOverride(0)))
    ));

    let def = definition("rand = \"0.8\"\n", "a + b");
    match compile_function(&def, "/w", "fn1", &allowed, &lints, CompileEvent::Begin) {
        CompileAction::Build { files, command } => {
            assert_eq!(files.manifest_path, "/w/fn1/Cargo.toml");
            assert_eq!(files.lib_path, "/w/fn1/src/lib.rs");
            assert_eq!(files.manifest, manifest_text("fn1", "/w/plrust_interface", "rand = \"0.8\"\n"));
            assert_eq!(command.current_dir, "/w/fn1");
            assert_eq!(command.args, vec!["build", "--target", "wasm32-wasi", "--release"]);
        }
        _ => panic!("the definition is in order"),
    }
    match compile_function(&def, "/w", "fn1", &allowed, &lints, built(true, true)) {
        CompileAction::Finish(m) => {
            assert_eq!(m.built_path, "/w/fn1/target/wasm32-wasi/release/fn1.wasm");
            assert_eq!(m.final_path, "/w/fn1.wasm");
            assert_eq!(m.output, "outerr");
        }
        _ => panic!("the module was built"),
    }
    match compile_function(&def, "/w", "fn1", &allowed, &lints, built(true, false)) {
        CompileAction::Fail(text) => assert_eq!(text, "outerr"),
        _ => panic!("no module was found"),
    }
    match compile_function(&def, "/w", "fn1", &allowed, &lints, built(false, true)) {
        CompileAction::Fail(text) => {
            assert!(text.starts_with("outerr-----------------\n#[deny(unsafe_code)]\nfn plrust_fn_42("));
        }
        _ => panic!("the build failed"),
    }
}

#[test]
fn only_an_admitted_definition_is_provisioned() {
    let allowed = vec![dep("rand", Some("0.8"))];
    let lints = vec!["unsafe_code".to_string()];
    let refused = definition("libc = \"0.2\"\n", "a + b");
    let r = StateProvisioned::provision(5, &refused, "/w/fn1", "fn1", "/w/plrust_interface", &allowed, &lints);
    assert!(matches!(r, Err(PolicyError::DisallowedDependency(0))));
    let def = definition("rand = \"0.8\"\n", "a + b");
    match StateProvisioned::provision(5, &def, "/w/fn1", "fn1", "/w/plrust_interface", &allowed, &lints) {
        Ok((state, files)) => {
            assert_eq!(*state.db_oid(), 5);
            assert_eq!(*state.fn_oid(), 42);
            assert_eq!(state.crate_dir(), "/w/fn1");
            assert_eq!(state.crate_name, "fn1");
            assert_eq!(files.lib_path, "/w/fn1/src/lib.rs");
        }
        Err(_) => panic!("the definition is in order"),
    }
}

#[test]
fn whitespace_is_the_unicode_property() {
    let listed = |c: char| {
        let n = c as u32;
        (0x9..=0xd).contains(&n)
            || [0x20, 0x85, 0xa0, 0x1680, 0x2028, 0x2029, 0x202f, 0x205f, 0x3000].contains(&n)
            || (0x2000..=0x200a).contains(&n)
    };
    for n in 0u32..=0x10ffff {
        if let Some(c) = char::from_u32(n) {
            assert_eq!(c.is_whitespace(), listed(c), "{:x}", n);
        }
    }
    for c in ['\t', ' ', '\u{85}', '\u{3000}'] {
        assert!(trimmed(&vec![c]).is_empty());
    }
    for c in ['a', '\u{200b}', '\u{200e}', '\u{180e}', '\u{feff}'] {
        assert_eq!(trimmed(&vec![c]), vec![c]);
    }
}
