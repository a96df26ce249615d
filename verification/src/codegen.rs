//! Synthesis of the wrapper source for one function definition: a user function
//! with concrete parameter and return types, guarded by the lint policy, and an
//! entry point that only takes and returns machine words.

use vstd::prelude::*;
use vstd::string::StringExecFns;
use crate::lints::{find_disabled_lint, first_disabled, strings};
use crate::text::{char_is_whitespace, chars_of, decimal, is_whitespace, push_decimal};
use crate::types::{valtype_name, valtype_to_syn_type, SemanticType, ValType};

verus! {

/// Whether a text is an identifier of the Rust language, as the parser sees it.
pub uninterp spec fn is_rust_ident(name: Seq<char>) -> bool;

/// Whether a text is a block of the Rust language, braces and all, as the
/// parser sees it.
pub uninterp spec fn is_rust_block(text: Seq<char>) -> bool;

/// Calls `syn::parse_str` for an identifier. Trusted: the call returns for
/// every text, succeeds exactly on the texts that [`is_rust_ident`] names, and
/// depends on the text alone.
#[verifier::external_body]
fn parses_as_ident(name: &str) -> (b: bool)
    ensures
        b == is_rust_ident(name@),
{
    syn::parse_str::<syn::Ident>(name).is_ok()
}

/// Calls `syn::parse_str` for a block. Trusted: the call returns for every
/// text, succeeds exactly on the texts that [`is_rust_block`] names, and
/// depends on the text alone. The parser of this version turns every literal
/// that the lexer hands it into a value, the unknown kinds into verbatim ones.
#[verifier::external_body]
fn parses_as_block(text: &str) -> (b: bool)
    ensures
        b == is_rust_block(text@),
{
    syn::parse_str::<syn::Block>(text).is_ok()
}

/// Why no source was synthesised for a definition.
#[derive(Clone, Copy, Debug, PartialEq, Eq, Structural)]
pub enum CodegenError {
    /// The user code may lower the level of the lint at this position of the
    /// list.
    LintOverride(usize),
    /// The parameter at this position has a type without concrete counterpart.
    UnsupportedArgumentType(usize),
    /// The parameter at this position has a name that is no identifier, or
    /// that holds more than the identifier.
    InvalidArgumentName(usize),
    /// The user code is not a block.
    InvalidCode,
    /// The return type has no concrete counterpart.
    UnsupportedReturnType,
}

/// A parameter: its type and, where the definition gives one, its name.
pub type Argument = (SemanticType, Option<String>);

/// The name under which a parameter is known in the synthesised source: its
/// own, or `arg` and its position where it has none or an empty one.
pub open spec fn argument_name(name: Option<String>, idx: int) -> Seq<char> {
    match name {
        Some(n) => if n@.len() > 0 {
            n@
        } else {
            "arg"@ + decimal(idx as nat)
        },
        None => "arg"@ + decimal(idx as nat),
    }
}

/// Whether a name holds nothing that the parser would pass over: no
/// whitespace, no mark of writing direction, and no slash, with which every
/// comment begins. A name that the parser accepts and that is plain is the
/// identifier itself, so nothing but the identifier is put into the source.
pub open spec fn is_plain_name(name: Seq<char>) -> bool {
    forall|i: int|
        0 <= i < name.len() ==> !is_whitespace(#[trigger] name[i]) && name[i] != '/' && name[i]
            != '\u{200e}' && name[i] != '\u{200f}'
}

/// The parser's answer for the name of the parameter at a position, taken as
/// a refusal where none is given.
pub open spec fn answer_at(names_ok: Seq<bool>, idx: int) -> bool {
    0 <= idx < names_ok.len() && names_ok[idx]
}

/// What is wrong with the parameter at position `idx`, if anything, given
/// whether the parser takes its name for an identifier.
pub open spec fn argument_error(arg: Argument, idx: int, name_ok: bool) -> Option<CodegenError> {
    if arg.0.rust_name(true) is None {
        Some(CodegenError::UnsupportedArgumentType(idx as usize))
    } else if !is_plain_name(argument_name(arg.1, idx)) || !name_ok {
        Some(CodegenError::InvalidArgumentName(idx as usize))
    } else {
        None
    }
}

/// What is wrong with the first `n` parameters: the fault of the first faulty
/// one, if there is any.
pub open spec fn arguments_error(args: Seq<Argument>, names_ok: Seq<bool>, n: int) -> Option<
    CodegenError,
>
    decreases n,
{
    if n <= 0 {
        None
    } else {
        match arguments_error(args, names_ok, n - 1) {
            Some(e) => Some(e),
            None => argument_error(args[n - 1], n - 1, answer_at(names_ok, n - 1)),
        }
    }
}

/// A fault among the first `i` parameters is the fault among any longer prefix.
pub proof fn lemma_arguments_error_stays(args: Seq<Argument>, names_ok: Seq<bool>, i: int, n: int)
    requires
        i <= n,
        arguments_error(args, names_ok, i) is Some,
    ensures
        arguments_error(args, names_ok, n) == arguments_error(args, names_ok, i),
    decreases n - i,
{
    if i < n {
        lemma_arguments_error_stays(args, names_ok, i, n - 1);
    }
}

/// The user code as the body of a function.
pub open spec fn wrapped_code(code: Seq<char>) -> Seq<char> {
    "{ "@ + code + " }"@
}

/// Why a definition is refused, if it is, given the parser's answers: for
/// each parameter, whether its name is an identifier, and whether the user
/// code, wrapped in braces, is a block. The checks run in this order: the lint
/// policy, the parameters from first to last, the code, the return type.
pub open spec fn assembly_error(
    code: Seq<char>,
    args: Seq<Argument>,
    return_type: SemanticType,
    lints: Seq<Seq<char>>,
    names_ok: Seq<bool>,
    code_ok: bool,
) -> Option<CodegenError> {
    match first_disabled(code, lints, 0) {
        Some(k) => Some(CodegenError::LintOverride(k as usize)),
        None => match arguments_error(args, names_ok, args.len() as int) {
            Some(e) => Some(e),
            None => if !code_ok {
                Some(CodegenError::InvalidCode)
            } else if return_type.rust_name(true) is None {
                Some(CodegenError::UnsupportedReturnType)
            } else {
                None
            },
        },
    }
}

/// What the parser says of the parameters' names.
pub open spec fn parsed_names(args: Seq<Argument>) -> Seq<bool> {
    Seq::new(args.len(), |i: int| is_rust_ident(argument_name(args[i].1, i)))
}

/// Why a definition is refused, if it is.
pub open spec fn generation_error(
    code: Seq<char>,
    args: Seq<Argument>,
    return_type: SemanticType,
    lints: Seq<Seq<char>>,
) -> Option<CodegenError> {
    assembly_error(
        code,
        args,
        return_type,
        lints,
        parsed_names(args),
        is_rust_block(wrapped_code(code)),
    )
}

/// One deny directive per lint, each on a line of its own.
pub open spec fn lint_header(lints: Seq<Seq<char>>) -> Seq<char>
    decreases lints.len(),
{
    if lints.len() == 0 {
        Seq::<char>::empty()
    } else {
        lint_header(lints.drop_last()) + ("#[deny("@ + lints.last() + ")]\n"@)
    }
}

/// The items, separated by a comma and a space.
pub open spec fn joined(items: Seq<Seq<char>>) -> Seq<char>
    decreases items.len(),
{
    if items.len() == 0 {
        Seq::<char>::empty()
    } else if items.len() == 1 {
        items[0]
    } else {
        joined(items.drop_last()) + ", "@ + items.last()
    }
}

/// The type under which a value crosses the entry point: its own where it is
/// primitive, otherwise the 64-bit handle of its encoding.
pub open spec fn wire_type(t: SemanticType) -> Seq<char> {
    match t.wire_kind() {
        Ok(Some(ValType::I32)) => "i32"@,
        Ok(Some(ValType::I64)) => "i64"@,
        _ => "u64"@,
    }
}

/// A parameter of the user function.
pub open spec fn user_parameter(arg: Argument, idx: int) -> Seq<char> {
    argument_name(arg.1, idx) + ": "@ + arg.0.rust_name(true).unwrap()
}

/// A parameter of the entry point.
pub open spec fn entry_parameter(arg: Argument, idx: int) -> Seq<char> {
    argument_name(arg.1, idx) + ": "@ + wire_type(arg.0)
}

/// What the entry point hands to the user function for a parameter: the value
/// itself where it is primitive, otherwise the value decoded from its handle.
pub open spec fn entry_argument(arg: Argument, idx: int) -> Seq<char> {
    if arg.0.passes_by_value() {
        argument_name(arg.1, idx)
    } else {
        "unsafe { ::plrust_interface::own_unpack_and_deserialize("@ + argument_name(arg.1, idx)
            + " as *mut u8).unwrap() }"@
    }
}

/// What the entry point returns: the user function's result itself where it is
/// primitive, otherwise the handle of its encoding.
pub open spec fn return_transform(t: SemanticType) -> Seq<char> {
    if t.passes_by_value() {
        "retval"@
    } else {
        "unsafe { ::plrust_interface::serialize_pack_and_leak(&retval).unwrap() as u64 }"@
    }
}

/// The parameters of the user function.
pub open spec fn user_parameters(args: Seq<Argument>) -> Seq<Seq<char>> {
    Seq::new(args.len(), |i: int| user_parameter(args[i], i))
}

/// The parameters of the entry point.
pub open spec fn entry_parameters(args: Seq<Argument>) -> Seq<Seq<char>> {
    Seq::new(args.len(), |i: int| entry_parameter(args[i], i))
}

/// The arguments of the call that the entry point makes.
pub open spec fn entry_arguments(args: Seq<Argument>) -> Seq<Seq<char>> {
    Seq::new(args.len(), |i: int| entry_argument(args[i], i))
}

/// The name of the user function for a function identifier.
pub open spec fn user_function_name(fn_oid: u32) -> Seq<char> {
    "plrust_fn_"@ + decimal(fn_oid as nat)
}

/// The user function: the lint directives, then the function with the user
/// code as its body.
pub open spec fn user_function(
    fn_oid: u32,
    code: Seq<char>,
    args: Seq<Argument>,
    return_type: SemanticType,
    lints: Seq<Seq<char>>,
) -> Seq<char> {
    lint_header(lints) + "fn "@ + user_function_name(fn_oid) + "("@ + joined(
        user_parameters(args),
    ) + ") -> "@ + return_type.rust_name(true).unwrap() + " "@ + wrapped_code(code) + "\n"@
}

/// The entry point: it calls the user function and passes the result on.
pub open spec fn entry_function(fn_oid: u32, args: Seq<Argument>, return_type: SemanticType) -> Seq<
    char,
> {
    "#[no_mangle]\nfn entry("@ + joined(entry_parameters(args)) + ") -> "@ + wire_type(return_type)
        + " {\n    let retval = "@ + user_function_name(fn_oid) + "("@ + joined(
        entry_arguments(args),
    ) + ");\n    "@ + return_transform(return_type) + "\n}\n"@
}

/// The whole unit for a definition that passes every check.
pub open spec fn function_source(
    fn_oid: u32,
    code: Seq<char>,
    args: Seq<Argument>,
    return_type: SemanticType,
    lints: Seq<Seq<char>>,
) -> Seq<char> {
    user_function(fn_oid, code, args, return_type, lints) + entry_function(
        fn_oid,
        args,
        return_type,
    )
}

/// The name under which a parameter is known in the synthesised source.
pub fn argument_name_of(name: &Option<String>, idx: usize) -> (s: String)
    ensures
        s@ == argument_name(*name, idx as int),
{
    match name {
        Some(n) => {
            if !n.as_str().is_empty() {
                return n.clone();
            }
        },
        None => {},
    }
    let mut s = String::from_str("arg");
    push_decimal(&mut s, idx as u64);
    s
}

fn wire_type_of(t: &SemanticType) -> (s: String)
    ensures
        s@ == wire_type(*t),
{
    match t.classify() {
        Ok(Some(ValType::I32)) => String::from_str("i32"),
        Ok(Some(ValType::I64)) => String::from_str("i64"),
        _ => String::from_str("u64"),
    }
}

fn passes_by_value(t: &SemanticType) -> (b: bool)
    ensures
        b == t.passes_by_value(),
{
    match t.classify() {
        Ok(Some(_)) => true,
        _ => false,
    }
}

fn join(items: &Vec<String>) -> (s: String)
    ensures
        s@ == joined(strings(items@)),
{
    let mut s = String::new();
    let mut i: usize = 0;
    assert(strings(items@).take(0) =~= Seq::<Seq<char>>::empty());
    while i < items.len()
        invariant
            i <= items.len(),
            s@ == joined(strings(items@).take(i as int)),
        decreases items.len() - i,
    {
        proof {
            let next = strings(items@).take(i + 1);
            assert(next.drop_last() =~= strings(items@).take(i as int));
            assert(next.last() == items@[i as int]@);
            if i == 0 {
                assert(Seq::<char>::empty() + items@[0]@ =~= items@[0]@);
            }
        }
        if i > 0 {
            s.append(", ");
        }
        s.append(items[i].as_str());
        i = i + 1;
    }
    assert(strings(items@).take(items@.len() as int) =~= strings(items@));
    s
}

fn lint_header_of(lints: &Vec<String>) -> (s: String)
    ensures
        s@ == lint_header(strings(lints@)),
{
    let mut s = String::new();
    let mut i: usize = 0;
    assert(strings(lints@).take(0) =~= Seq::<Seq<char>>::empty());
    while i < lints.len()
        invariant
            i <= lints.len(),
            s@ == lint_header(strings(lints@).take(i as int)),
        decreases lints.len() - i,
    {
        proof {
            let next = strings(lints@).take(i + 1);
            assert(next.drop_last() =~= strings(lints@).take(i as int));
            assert(next.last() == lints@[i as int]@);
        }
        let mut line = String::from_str("#[deny(");
        line.append(lints[i].as_str());
        line.append(")]\n");
        s.append(line.as_str());
        i = i + 1;
    }
    assert(strings(lints@).take(lints@.len() as int) =~= strings(lints@));
    s
}

fn name_is_plain(name: &str) -> (r: bool)
    ensures
        r == is_plain_name(name@),
{
    let chars = chars_of(name);
    let mut i: usize = 0;
    while i < chars.len()
        invariant
            i <= chars.len(),
            chars@ == name@,
            forall|k: int|
                0 <= k < i ==> !is_whitespace(#[trigger] chars@[k]) && chars@[k] != '/'
                    && chars@[k] != '\u{200e}' && chars@[k] != '\u{200f}',
        decreases chars.len() - i,
    {
        let c = chars[i];
        if char_is_whitespace(c) || c == '/' || c == '\u{200e}' || c == '\u{200f}' {
            return false;
        }
        i = i + 1;
    }
    true
}

/// Puts the wrapper source together, given what the parser said of the
/// definition: for the parameter at each position of `names_ok`, whether its
/// name is an identifier, and in `code_ok`, whether the user code, wrapped in
/// braces, is a block.
///
/// The definition is refused, in this order, where the user code may lower
/// the level of one of `lints`; where a parameter has an unsupported type, or
/// a name that is not plain or that the parser refused; where the parser
/// refused the user code; and where the return type is unsupported. Otherwise
/// the result is the user function, preceded by one deny directive per lint,
/// and the entry point. A primitive parameter or result passes through the
/// entry point as it is; any other crosses it as the 64-bit handle of a
/// length-prefixed encoding.
pub fn assemble_function_source(
    fn_oid: u32,
    code: &str,
    args: &Vec<Argument>,
    return_type: &SemanticType,
    lints: &Vec<String>,
    names_ok: &Vec<bool>,
    code_ok: bool,
) -> (r: Result<String, CodegenError>)
    ensures
        match r {
            Ok(s) => assembly_error(
                code@,
                args@,
                *return_type,
                strings(lints@),
                names_ok@,
                code_ok,
            ) is None && s@ == function_source(
                fn_oid,
                code@,
                args@,
                *return_type,
                strings(lints@),
            ),
            Err(e) => assembly_error(
                code@,
                args@,
                *return_type,
                strings(lints@),
                names_ok@,
                code_ok,
            ) == Some(e),
        },
{
    match find_disabled_lint(code, lints) {
        Some(k) => {
            return Err(CodegenError::LintOverride(k));
        },
        None => {},
    }
    let mut user_params: Vec<String> = Vec::new();
    let mut entry_params: Vec<String> = Vec::new();
    let mut entry_args: Vec<String> = Vec::new();
    let mut i: usize = 0;
    while i < args.len()
        invariant
            i <= args.len(),
            first_disabled(code@, strings(lints@), 0) is None,
            arguments_error(args@, names_ok@, i as int) is None,
            strings(user_params@) == user_parameters(args@).take(i as int),
            strings(entry_params@) == entry_parameters(args@).take(i as int),
            strings(entry_args@) == entry_arguments(args@).take(i as int),
        decreases args.len() - i,
    {
        let arg = &args[i];
        let ty = match arg.0.rust_type_name(true) {
            Some(ty) => ty,
            None => {
                proof {
                    assert(arguments_error(args@, names_ok@, i + 1) == Some(
                        CodegenError::UnsupportedArgumentType(i),
                    ));
                    lemma_arguments_error_stays(args@, names_ok@, i + 1, args@.len() as int);
                }
                return Err(CodegenError::UnsupportedArgumentType(i));
            },
        };
        let name = argument_name_of(&arg.1, i);
        let name_ok = i < names_ok.len() && names_ok[i];
        if !name_is_plain(name.as_str()) || !name_ok {
            proof {
                assert(arguments_error(args@, names_ok@, i + 1) == Some(
                    CodegenError::InvalidArgumentName(i),
                ));
                lemma_arguments_error_stays(args@, names_ok@, i + 1, args@.len() as int);
            }
            return Err(CodegenError::InvalidArgumentName(i));
        }
        assert(arguments_error(args@, names_ok@, i + 1) is None);
        let mut user_param = name.clone();
        user_param.append(": ");
        user_param.append(ty.as_str());

        let mut entry_param = name.clone();
        entry_param.append(": ");
        entry_param.append(wire_type_of(&arg.0).as_str());

        let entry_arg = if passes_by_value(&arg.0) {
            name
        } else {
            let mut decoded = String::from_str(
                "unsafe { ::plrust_interface::own_unpack_and_deserialize(",
            );
            decoded.append(name.as_str());
            decoded.append(" as *mut u8).unwrap() }");
            decoded
        };
        proof {
            let ghost_i = i as int;
            assert(user_param@ == user_parameter(args@[ghost_i], ghost_i));
            assert(entry_param@ == entry_parameter(args@[ghost_i], ghost_i));
            assert(entry_arg@ == entry_argument(args@[ghost_i], ghost_i));
        }
        let ghost user_before = strings(user_params@);
        let ghost params_before = strings(entry_params@);
        let ghost args_before = strings(entry_args@);
        user_params.push(user_param);
        entry_params.push(entry_param);
        entry_args.push(entry_arg);
        proof {
            assert(strings(user_params@) =~= user_before.push(user_param@));
            assert(strings(entry_params@) =~= params_before.push(entry_param@));
            assert(strings(entry_args@) =~= args_before.push(entry_arg@));
            assert(user_parameters(args@).take(i + 1) =~= user_parameters(args@).take(
                i as int,
            ).push(user_param@));
            assert(entry_parameters(args@).take(i + 1) =~= entry_parameters(args@).take(
                i as int,
            ).push(entry_param@));
            assert(entry_arguments(args@).take(i + 1) =~= entry_arguments(args@).take(
                i as int,
            ).push(entry_arg@));
        }
        i = i + 1;
    }
    proof {
        let n = args@.len() as int;
        assert(user_parameters(args@).take(n) =~= user_parameters(args@));
        assert(entry_parameters(args@).take(n) =~= entry_parameters(args@));
        assert(entry_arguments(args@).take(n) =~= entry_arguments(args@));
    }
    if !code_ok {
        return Err(CodegenError::InvalidCode);
    }
    let ret = match return_type.rust_type_name(true) {
        Some(ret) => ret,
        None => {
            return Err(CodegenError::UnsupportedReturnType);
        },
    };
    let mut body = String::from_str("{ ");
    body.append(code);
    body.append(" }");
    let mut fn_name = String::from_str("plrust_fn_");
    push_decimal(&mut fn_name, fn_oid as u64);

    let mut user_fn = lint_header_of(lints);
    user_fn.append("fn ");
    user_fn.append(fn_name.as_str());
    user_fn.append("(");
    user_fn.append(join(&user_params).as_str());
    user_fn.append(") -> ");
    user_fn.append(ret.as_str());
    user_fn.append(" ");
    user_fn.append(body.as_str());
    user_fn.append("\n");

    let mut entry_fn = String::from_str("#[no_mangle]\nfn entry(");
    entry_fn.append(join(&entry_params).as_str());
    entry_fn.append(") -> ");
    entry_fn.append(wire_type_of(return_type).as_str());
    entry_fn.append(" {\n    let retval = ");
    entry_fn.append(fn_name.as_str());
    entry_fn.append("(");
    entry_fn.append(join(&entry_args).as_str());
    entry_fn.append(");\n    ");
    if passes_by_value(return_type) {
        entry_fn.append("retval");
    } else {
        entry_fn.append(
            "unsafe { ::plrust_interface::serialize_pack_and_leak(&retval).unwrap() as u64 }",
        );
    }
    entry_fn.append("\n}\n");

    let mut source = user_fn;
    source.append(entry_fn.as_str());
    Ok(source)
}

/// Synthesises the wrapper source for a function definition.
///
/// The parser is asked whether each parameter's name is an identifier and
/// whether the user code, wrapped in braces, is a block; the rest is
/// [`assemble_function_source`]. Whether the function is strict or returns a set
/// does not change the source.
pub fn generate_function_source(
    fn_oid: u32,
    code: &str,
    args: &Vec<Argument>,
    return_type: &SemanticType,
    is_set: bool,
    is_strict: bool,
    lints: &Vec<String>,
) -> (r: Result<String, CodegenError>)
    ensures
        match r {
            Ok(s) => generation_error(code@, args@, *return_type, strings(lints@)) is None && s@
                == function_source(fn_oid, code@, args@, *return_type, strings(lints@)),
            Err(e) => generation_error(code@, args@, *return_type, strings(lints@)) == Some(e),
        },
{
    let mut names_ok: Vec<bool> = Vec::new();
    let mut i: usize = 0;
    while i < args.len()
        invariant
            i <= args.len(),
            names_ok@ == parsed_names(args@).take(i as int),
        decreases args.len() - i,
    {
        let name = argument_name_of(&args[i].1, i);
        names_ok.push(parses_as_ident(name.as_str()));
        assert(parsed_names(args@).take(i + 1) =~= parsed_names(args@).take(i as int).push(
            parsed_names(args@)[i as int],
        ));
        i = i + 1;
    }
    assert(parsed_names(args@).take(args@.len() as int) =~= parsed_names(args@));
    let mut body = String::from_str("{ ");
    body.append(code);
    body.append(" }");
    let code_ok = parses_as_block(body.as_str());
    assemble_function_source(fn_oid, code, args, return_type, lints, &names_ok, code_ok)
}

/// A primitive value passes through the entry point untouched: the entry point
/// takes it under the type that the user function takes it, hands on the very
/// parameter, and returns the user function's result as it is.
pub proof fn lemma_primitive_passes_through(arg: Argument, idx: int, return_type: SemanticType)
    ensures
        arg.0.passes_by_value() ==> entry_parameter(arg, idx) == user_parameter(arg, idx)
            && entry_argument(arg, idx) == argument_name(arg.1, idx),
        return_type.passes_by_value() ==> return_transform(return_type) == "retval"@ && Some(
            wire_type(return_type),
        ) == return_type.rust_name(true),
{
}

/// A definition whose code lowers the level of a lint of the policy is refused
/// when its source is synthesised, whatever else the definition holds.
pub proof fn lemma_lint_override_refused(
    code: Seq<char>,
    args: Seq<Argument>,
    return_type: SemanticType,
    lints: Seq<Seq<char>>,
    k: int,
)
    requires
        0 <= k < lints.len(),
        crate::lints::disables_lint(code, lints[k]),
    ensures
        generation_error(code, args, return_type, lints) matches Some(
            CodegenError::LintOverride(_),
        ),
{
    crate::lints::lemma_first_disabled(code, lints, 0);
}

} // verus!
