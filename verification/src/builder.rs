//! Build planning: crate names and paths, the dependency allow-list, the build
//! manifest, the toolchain command, and what a finished toolchain run means.
//!
//! Nothing here starts a process or touches a file. The caller writes the files
//! and runs the command that these functions describe, and reports the outcome.

use vstd::prelude::*;
use vstd::string::StringExecFns;
use vstd::utf8::{decode_utf8, valid_utf8};
use crate::codegen::{
    function_source, generate_function_source, generation_error, Argument, CodegenError,
};
use crate::lints::strings;
use crate::text::{chars_eq, chars_of, decimal, push_decimal};
use crate::target::{tuple_of, CompilationTarget, CrossCompilationTarget, HostPlatform};
use crate::types::SemanticType;

verus! {

/// Joins a directory and a name. A name that starts at the root replaces the
/// directory; otherwise the two are put together with exactly one separator
/// between them, and none where the directory is empty.
pub open spec fn path_join(dir: Seq<char>, name: Seq<char>) -> Seq<char> {
    if name.len() > 0 && name[0] == '/' {
        name
    } else if dir.len() == 0 || dir.last() == '/' {
        dir + name
    } else {
        dir + "/"@ + name
    }
}

/// Joins a directory and a name.
pub fn join_path(dir: &str, name: &str) -> (path: String)
    ensures
        path@ == path_join(dir@, name@),
{
    let d = chars_of(dir);
    let n = chars_of(name);
    if n.len() > 0 && n[0] == '/' {
        return String::from_str(name);
    }
    let mut path = String::from_str(dir);
    if d.len() > 0 && d[d.len() - 1] != '/' {
        path.append("/");
    }
    path.append(name);
    path
}

/// The name of the crate that holds a function: the identifiers of its
/// database, its namespace and itself.
pub open spec fn crate_name_of(db_oid: u32, ns_oid: u32, fn_oid: u32) -> Seq<char> {
    "fn"@ + decimal(db_oid as nat) + "_"@ + decimal(ns_oid as nat) + "_"@ + decimal(fn_oid as nat)
}

/// The name of the crate that holds a function.
pub fn crate_name(db_oid: u32, ns_oid: u32, fn_oid: u32) -> (name: String)
    ensures
        name@ == crate_name_of(db_oid, ns_oid, fn_oid),
{
    let mut name = String::from_str("fn");
    push_decimal(&mut name, db_oid as u64);
    name.append("_");
    push_decimal(&mut name, ns_oid as u64);
    name.append("_");
    push_decimal(&mut name, fn_oid as u64);
    name
}

/// The name of the crate that holds a function, and its directory below the
/// work directory.
pub fn crate_name_and_path(work_dir: &str, db_oid: u32, ns_oid: u32, fn_oid: u32) -> (r: (
    String,
    String,
))
    ensures
        r.0@ == crate_name_of(db_oid, ns_oid, fn_oid),
        r.1@ == path_join(work_dir@, crate_name_of(db_oid, ns_oid, fn_oid)),
{
    let name = crate_name(db_oid, ns_oid, fn_oid);
    let dir = join_path(work_dir, name.as_str());
    (name, dir)
}

/// Where the support crate of the sandbox is unpacked, below the work
/// directory.
pub fn interface_crate_path(work_dir: &str) -> (path: String)
    ensures
        path@ == path_join(work_dir@, "plrust_interface"@),
{
    join_path(work_dir, "plrust_interface")
}

/// Where the module of a crate is kept once it is built: beside the crate's
/// directory, under the directory's name with the module suffix.
pub fn wasm_module_path(crate_dir: &str) -> (path: String)
    ensures
        path@ == crate_dir@ + ".wasm"@,
{
    let mut path = String::from_str(crate_dir);
    path.append(".wasm");
    path
}

/// Where the toolchain leaves the module of a crate.
pub open spec fn built_module_path(work_dir: Seq<char>, crate_name: Seq<char>) -> Seq<char> {
    path_join(
        path_join(
            path_join(path_join(path_join(work_dir, crate_name), "target"@), "wasm32-wasi"@),
            "release"@,
        ),
        crate_name + ".wasm"@,
    )
}

/// Where the toolchain leaves the module of a crate. Whether a file is there
/// is for the caller to find out.
pub fn find_wasm_module(work_dir: &str, crate_name: &str) -> (path: String)
    ensures
        path@ == built_module_path(work_dir@, crate_name@),
{
    let crate_dir = join_path(work_dir, crate_name);
    let target = join_path(crate_dir.as_str(), "target");
    let triple = join_path(target.as_str(), "wasm32-wasi");
    let release = join_path(triple.as_str(), "release");
    let mut file = String::from_str(crate_name);
    file.append(".wasm");
    join_path(release.as_str(), file.as_str())
}

/// One entry of a dependency table: a crate's name and, where the table gives
/// a plain version requirement for it, that requirement.
#[derive(Clone, Debug, PartialEq, Eq)]
pub struct Dependency {
    pub name: String,
    pub version: Option<String>,
}

/// What a dependency entry holds.
pub struct DependencyData {
    pub name: Seq<char>,
    pub version: Option<Seq<char>>,
}

impl View for Dependency {
    type V = DependencyData;

    open spec fn view(&self) -> DependencyData {
        DependencyData {
            name: self.name@,
            version: match self.version {
                Some(v) => Some(v@),
                None => None,
            },
        }
    }
}

/// What the entries of a table hold.
pub open spec fn dependencies(v: Seq<Dependency>) -> Seq<DependencyData> {
    v.map_values(|d: Dependency| d@)
}

/// The entries of a text that is a TOML table, in the order in which the
/// table hands them out, which is by name and not as the text has them;
/// `None` for a text that is no such table. An entry's version is its value
/// where that is a string, and absent otherwise.
pub uninterp spec fn toml_entries(text: Seq<char>) -> Option<Seq<DependencyData>>;

/// Calls `toml::from_str` for a table and hands out its entries. Trusted: the
/// call succeeds exactly on the texts that [`toml_entries`] gives entries for,
/// and the entries are those; the result depends on the text alone.
#[verifier::external_body]
fn parse_toml_entries(text: &str) -> (r: Option<Vec<Dependency>>)
    ensures
        r is Some == toml_entries(text@) is Some,
        r matches Some(v) ==> Some(dependencies(v@)) == toml_entries(text@),
{
    let table = toml::from_str::<toml::value::Table>(text).ok()?;
    Some(table.into_iter().map(|(name, value)| Dependency {
        name,
        version: match value {
            toml::Value::String(s) => Some(s),
            toml::Value::Integer(_) => None,
            toml::Value::Float(_) => None,
            toml::Value::Boolean(_) => None,
            toml::Value::Datetime(_) => None,
            toml::Value::Array(_) => None,
            toml::Value::Table(_) => None,
        },
    }).collect())
}

/// Reads a dependency table: the allow-list, or the dependency section of a
/// stored function.
pub fn parse_dependencies(text: &str) -> (r: Option<Vec<Dependency>>)
    ensures
        r is Some == toml_entries(text@) is Some,
        r matches Some(v) ==> Some(dependencies(v@)) == toml_entries(text@),
{
    parse_toml_entries(text)
}

/// Whether the allow-list admits a dependency: the dependency asks for a plain
/// version requirement, and the list holds an entry of the same name with the
/// same requirement.
pub open spec fn allows(allowed: Seq<DependencyData>, dep: DependencyData) -> bool {
    dep.version is Some && exists|k: int| 0 <= k < allowed.len() && allowed[k] == dep
}

/// The position, at or after `from`, of the first dependency that the
/// allow-list does not admit.
pub open spec fn first_disallowed(
    deps: Seq<DependencyData>,
    allowed: Seq<DependencyData>,
    from: int,
) -> Option<int>
    decreases deps.len() - from,
{
    if from < 0 || from >= deps.len() {
        None
    } else if !allows(allowed, deps[from]) {
        Some(from)
    } else {
        first_disallowed(deps, allowed, from + 1)
    }
}

fn same_text(a: &String, b: &String) -> (r: bool)
    ensures
        r == (a@ == b@),
{
    let x = chars_of(a.as_str());
    let y = chars_of(b.as_str());
    chars_eq(&x, &y)
}

fn is_allowed(allowed: &Vec<Dependency>, dep: &Dependency) -> (r: bool)
    ensures
        r == allows(dependencies(allowed@), dep@),
{
    let version = match &dep.version {
        Some(v) => v,
        None => {
            return false;
        },
    };
    let mut k: usize = 0;
    while k < allowed.len()
        invariant
            k <= allowed.len(),
            dep.version == Some(*version),
            forall|m: int| 0 <= m < k ==> dependencies(allowed@)[m] != dep@,
        decreases allowed.len() - k,
    {
        let entry = &allowed[k];
        let same_version = match &entry.version {
            Some(v) => same_text(v, version),
            None => false,
        };
        if same_version && same_text(&entry.name, &dep.name) {
            assert(dependencies(allowed@)[k as int] == dep@);
            return true;
        }
        assert(dependencies(allowed@)[k as int] != dep@);
        k = k + 1;
    }
    false
}

/// Holds the dependencies of a function against the allow-list. Returns the
/// position of the first dependency that the list does not admit, or `None`
/// where it admits them all.
pub fn check_dependencies(deps: &Vec<Dependency>, allowed: &Vec<Dependency>) -> (r: Option<usize>)
    ensures
        r is Some == first_disallowed(dependencies(deps@), dependencies(allowed@), 0) is Some,
        r matches Some(k) ==> first_disallowed(dependencies(deps@), dependencies(allowed@), 0)
            == Some(k as int),
{
    let mut i: usize = 0;
    while i < deps.len()
        invariant
            i <= deps.len(),
            first_disallowed(dependencies(deps@), dependencies(allowed@), 0) == first_disallowed(
                dependencies(deps@),
                dependencies(allowed@),
                i as int,
            ),
        decreases deps.len() - i,
    {
        assert(dependencies(deps@)[i as int] == deps@[i as int]@);
        if !is_allowed(allowed, &deps[i]) {
            return Some(i);
        }
        i = i + 1;
    }
    None
}

/// A disallowed dependency is found exactly where the list fails to admit one,
/// and the one found is the first.
pub proof fn lemma_first_disallowed(
    deps: Seq<DependencyData>,
    allowed: Seq<DependencyData>,
    from: int,
)
    requires
        0 <= from,
    ensures
        first_disallowed(deps, allowed, from) is None <==> forall|k: int|
            from <= k < deps.len() ==> allows(allowed, deps[k]),
        first_disallowed(deps, allowed, from) matches Some(k) ==> from <= k < deps.len()
            && !allows(allowed, deps[k]),
    decreases deps.len() - from,
{
    if from < deps.len() && allows(allowed, deps[from]) {
        lemma_first_disallowed(deps, allowed, from + 1);
    }
}

/// The build manifest of a function's crate: the package, a dynamic library as
/// its one output, and as dependencies the support crate by its path and then
/// the function's own dependency section, word for word.
pub open spec fn cargo_manifest(
    crate_name: Seq<char>,
    interface_path: Seq<char>,
    deps: Seq<char>,
) -> Seq<char> {
    "[package]\nname = \""@ + crate_name
        + "\"\nversion = \"0.0.0\"\nedition = \"2021\"\n\n[lib]\ncrate-type = [\"cdylib\"]\n\n[dependencies]\nplrust_interface = { path = \""@
        + interface_path + "\" }\n"@ + deps + "\n"@
}

/// Writes out the build manifest of a function's crate.
pub fn manifest_text(crate_name: &str, interface_path: &str, deps: &str) -> (text: String)
    ensures
        text@ == cargo_manifest(crate_name@, interface_path@, deps@),
{
    let mut text = String::from_str("[package]\nname = \"");
    text.append(crate_name);
    text.append(
        "\"\nversion = \"0.0.0\"\nedition = \"2021\"\n\n[lib]\ncrate-type = [\"cdylib\"]\n\n[dependencies]\nplrust_interface = { path = \"",
    );
    text.append(interface_path);
    text.append("\" }\n");
    text.append(deps);
    text.append("\n");
    text
}

/// A function as the catalog describes it.
pub struct FunctionDefinition {
    pub fn_oid: u32,
    /// The dependency section of the stored text.
    pub dependencies: String,
    /// The code section of the stored text.
    pub code: String,
    pub args: Vec<Argument>,
    pub return_type: SemanticType,
    pub is_set: bool,
    pub is_strict: bool,
}

/// The files of a function's crate, with what each is to hold.
pub struct CrateFiles {
    pub manifest_path: String,
    pub manifest: String,
    pub src_dir: String,
    pub lib_path: String,
    pub source: String,
}

/// Why no crate was laid out for a function.
#[derive(Clone, Copy, Debug, PartialEq, Eq, Structural)]
pub enum PolicyError {
    /// The dependency section is no table.
    MalformedDependencies,
    /// The dependency at this position is not on the allow-list. The position
    /// counts in the order of [`parse_dependencies`].
    DisallowedDependency(usize),
    /// The definition was refused when its source was synthesised.
    Codegen(CodegenError),
}

/// Why a definition gets no crate, if it gets none. The dependencies are held
/// against the allow-list before anything else is looked at.
pub open spec fn crate_error(
    def: FunctionDefinition,
    allowed: Seq<DependencyData>,
    lints: Seq<Seq<char>>,
) -> Option<PolicyError> {
    match toml_entries(def.dependencies@) {
        None => Some(PolicyError::MalformedDependencies),
        Some(deps) => match first_disallowed(deps, allowed, 0) {
            Some(k) => Some(PolicyError::DisallowedDependency(k as usize)),
            None => match generation_error(def.code@, def.args@, def.return_type, lints) {
                Some(e) => Some(PolicyError::Codegen(e)),
                None => None,
            },
        },
    }
}

/// Lays out the crate of a function: its manifest and its one source file.
///
/// The dependency section must be a table and every entry of it on the
/// allow-list, else the function is refused before its source is even
/// synthesised, let alone a toolchain started. The source is that of
/// [`generate_function_source`] under the given lints.
pub fn create_function_crate(
    def: &FunctionDefinition,
    crate_dir: &str,
    crate_name: &str,
    interface_path: &str,
    allowed: &Vec<Dependency>,
    lints: &Vec<String>,
) -> (r: Result<CrateFiles, PolicyError>)
    ensures
        match r {
            Ok(files) => {
                &&& crate_error(*def, dependencies(allowed@), strings(lints@)) is None
                &&& files.manifest_path@ == path_join(crate_dir@, "Cargo.toml"@)
                &&& files.manifest@ == cargo_manifest(
                    crate_name@,
                    interface_path@,
                    def.dependencies@,
                )
                &&& files.src_dir@ == path_join(crate_dir@, "src"@)
                &&& files.lib_path@ == path_join(path_join(crate_dir@, "src"@), "lib.rs"@)
                &&& files.source@ == function_source(
                    def.fn_oid,
                    def.code@,
                    def.args@,
                    def.return_type,
                    strings(lints@),
                )
            },
            Err(e) => crate_error(*def, dependencies(allowed@), strings(lints@)) == Some(e),
        },
{
    let deps = match parse_dependencies(def.dependencies.as_str()) {
        Some(deps) => deps,
        None => {
            return Err(PolicyError::MalformedDependencies);
        },
    };
    match check_dependencies(&deps, allowed) {
        Some(k) => {
            return Err(PolicyError::DisallowedDependency(k));
        },
        None => {},
    }
    let source = match generate_function_source(
        def.fn_oid,
        def.code.as_str(),
        &def.args,
        &def.return_type,
        def.is_set,
        def.is_strict,
        lints,
    ) {
        Ok(source) => source,
        Err(e) => {
            return Err(PolicyError::Codegen(e));
        },
    };
    let manifest_path = join_path(crate_dir, "Cargo.toml");
    let manifest = manifest_text(crate_name, interface_path, def.dependencies.as_str());
    let src_dir = join_path(crate_dir, "src");
    let lib_path = join_path(src_dir.as_str(), "lib.rs");
    Ok(CrateFiles { manifest_path, manifest, src_dir, lib_path, source })
}

/// A function with a dependency that the allow-list does not admit gets no
/// crate: it is refused for that dependency, whatever its code. Every function
/// that plans a command, or takes the outcome of one, refuses the function
/// where this says so: no command is ever planned for it.
pub proof fn lemma_disallowed_dependency_refused(
    def: FunctionDefinition,
    allowed: Seq<DependencyData>,
    lints: Seq<Seq<char>>,
    k: int,
)
    requires
        toml_entries(def.dependencies@) matches Some(deps) && 0 <= k < deps.len() && !allows(
            allowed,
            deps[k],
        ),
    ensures
        crate_error(def, allowed, lints) matches Some(PolicyError::DisallowedDependency(_)),
{
    lemma_first_disallowed(toml_entries(def.dependencies@).unwrap(), allowed, 0);
}

/// A toolchain run that the caller is to start.
pub struct BuildCommand {
    pub program: String,
    pub current_dir: String,
    pub args: Vec<String>,
    /// The variables to set for the run, each with its value.
    pub env: Vec<(String, String)>,
}

/// What a list of variables holds.
pub open spec fn pairs(v: Seq<(String, String)>) -> Seq<(Seq<char>, Seq<char>)> {
    v.map_values(|p: (String, String)| (p.0@, p.1@))
}

/// What a toolchain run left behind.
#[derive(Clone, Debug, PartialEq, Eq)]
pub struct ToolOutput {
    /// Whether the run ended in success.
    pub success: bool,
    pub stdout: Vec<u8>,
    pub stderr: Vec<u8>,
}

/// Why a build gave no artifact.
#[derive(Clone, Debug, PartialEq, Eq)]
pub enum BuildFailure {
    /// The toolchain failed, and what it wrote to its standard output is not
    /// valid UTF-8.
    StdoutNotUtf8,
    /// The toolchain failed, and what it wrote to its standard error is not
    /// valid UTF-8.
    StderrNotUtf8,
    /// The toolchain failed. What it wrote is kept, and the source it was
    /// given, for diagnosis.
    CargoBuildFail { stdout: String, stderr: String, source: String },
}

/// What a build failure holds.
pub enum BuildFailureData {
    StdoutNotUtf8,
    StderrNotUtf8,
    CargoBuildFail { stdout: Seq<char>, stderr: Seq<char>, source: Seq<char> },
}

impl View for BuildFailure {
    type V = BuildFailureData;

    open spec fn view(&self) -> BuildFailureData {
        match self {
            BuildFailure::StdoutNotUtf8 => BuildFailureData::StdoutNotUtf8,
            BuildFailure::StderrNotUtf8 => BuildFailureData::StderrNotUtf8,
            BuildFailure::CargoBuildFail { stdout, stderr, source } => {
                BuildFailureData::CargoBuildFail {
                    stdout: stdout@,
                    stderr: stderr@,
                    source: source@,
                }
            },
        }
    }
}

/// Calls `String::from_utf8` of the standard library. Trusted: the call
/// succeeds exactly on valid UTF-8, and the string is the text that the bytes
/// encode.
#[verifier::external_body]
fn utf8_text(bytes: Vec<u8>) -> (r: Option<String>)
    ensures
        r is Some == valid_utf8(bytes@),
        r matches Some(s) ==> s@ == decode_utf8(bytes@),
{
    String::from_utf8(bytes).ok()
}

/// A character of a triple as it stands in the name of an environment
/// variable: letters in upper case, and an underscore for a dash or a dot.
pub open spec fn env_key_char(c: char) -> char {
    match c {
        'a' => 'A',
        'b' => 'B',
        'c' => 'C',
        'd' => 'D',
        'e' => 'E',
        'f' => 'F',
        'g' => 'G',
        'h' => 'H',
        'i' => 'I',
        'j' => 'J',
        'k' => 'K',
        'l' => 'L',
        'm' => 'M',
        'n' => 'N',
        'o' => 'O',
        'p' => 'P',
        'q' => 'Q',
        'r' => 'R',
        's' => 'S',
        't' => 'T',
        'u' => 'U',
        'v' => 'V',
        'w' => 'W',
        'x' => 'X',
        'y' => 'Y',
        'z' => 'Z',
        '-' => '_',
        '.' => '_',
        _ => c,
    }
}

/// The name of the environment variable that overrides the linker for a
/// target.
pub open spec fn linker_variable(target: Seq<char>) -> Seq<char> {
    "CARGO_TARGET_"@ + target.map_values(|c: char| env_key_char(c)) + "_LINKER"@
}

fn env_key_of(c: char) -> (k: char)
    ensures
        k == env_key_char(c),
{
    match c {
        'a' => 'A',
        'b' => 'B',
        'c' => 'C',
        'd' => 'D',
        'e' => 'E',
        'f' => 'F',
        'g' => 'G',
        'h' => 'H',
        'i' => 'I',
        'j' => 'J',
        'k' => 'K',
        'l' => 'L',
        'm' => 'M',
        'n' => 'N',
        'o' => 'O',
        'p' => 'P',
        'q' => 'Q',
        'r' => 'R',
        's' => 'S',
        't' => 'T',
        'u' => 'U',
        'v' => 'V',
        'w' => 'W',
        'x' => 'X',
        'y' => 'Y',
        'z' => 'Z',
        '-' => '_',
        '.' => '_',
        _ => c,
    }
}

/// The name of the environment variable that overrides the linker for a
/// target.
pub fn linker_variable_of(target: &CompilationTarget) -> (name: String)
    ensures
        name@ == linker_variable(target@),
{
    let triple = chars_of(target.as_str());
    let mut key: Vec<char> = Vec::new();
    let mut i: usize = 0;
    while i < triple.len()
        invariant
            i <= triple.len(),
            key@ == triple@.take(i as int).map_values(|c: char| env_key_char(c)),
        decreases triple.len() - i,
    {
        key.push(env_key_of(triple[i]));
        assert(triple@.take(i + 1).map_values(|c: char| env_key_char(c)) =~= triple@.take(
            i as int,
        ).map_values(|c: char| env_key_char(c)).push(env_key_char(triple@[i as int])));
        i = i + 1;
    }
    assert(triple@.take(triple@.len() as int) =~= triple@);
    let mut name = String::from_str("CARGO_TARGET_");
    name.append(crate::text::string_of(&key).as_str());
    name.append("_LINKER");
    name
}

/// The variables of a build: where the database's configuration tool lies,
/// where the output goes, the flags of the compiler, and the linker where one
/// is given for the target.
pub open spec fn build_environment(
    pg_config: Seq<char>,
    target_dir: Seq<char>,
    target: Seq<char>,
    linker: Option<Seq<char>>,
) -> Seq<(Seq<char>, Seq<char>)> {
    let base = seq![
        ("PGX_PG_CONFIG_PATH"@, pg_config),
        ("CARGO_TARGET_DIR"@, target_dir),
        ("RUSTFLAGS"@, "-Ctarget-cpu=native -Clink-args=-Wl,-undefined,dynamic_lookup"@),
    ];
    match linker {
        Some(l) => base.push((linker_variable(target), l)),
        None => base,
    }
}

/// The linker given for the cross-compilation target at a position, if one is
/// given.
pub open spec fn linker_at(linkers: Seq<Option<String>>, i: int) -> Option<Seq<char>> {
    if 0 <= i < linkers.len() {
        match linkers[i] {
            Some(l) => Some(l@),
            None => None,
        }
    } else {
        None
    }
}

/// The name of a crate's artifact: the crate's name, followed on platforms
/// that need it by an underscore and the generation of the build.
pub open spec fn artifact_name(crate_name: Seq<char>, generation: Option<u64>) -> Seq<char> {
    match generation {
        Some(g) => crate_name + "_"@ + decimal(g as nat),
        None => crate_name,
    }
}

/// Where the toolchain leaves the dynamic library of a crate that it built for
/// a target.
pub open spec fn shared_object_path(
    target_dir: Seq<char>,
    target: Seq<char>,
    crate_name: Seq<char>,
    generation: Option<u64>,
    dll_suffix: Seq<char>,
) -> Seq<char> {
    path_join(
        path_join(path_join(target_dir, target), "release"@),
        "lib"@ + artifact_name(crate_name, generation) + dll_suffix,
    )
}

/// What a failed toolchain run amounts to.
pub open spec fn failure_of(output: ToolOutput, source: Seq<char>) -> BuildFailureData {
    if !valid_utf8(output.stdout@) {
        BuildFailureData::StdoutNotUtf8
    } else if !valid_utf8(output.stderr@) {
        BuildFailureData::StderrNotUtf8
    } else {
        BuildFailureData::CargoBuildFail {
            stdout: decode_utf8(output.stdout@),
            stderr: decode_utf8(output.stderr@),
            source,
        }
    }
}

/// The name of a crate's artifact.
pub fn artifact_name_of(crate_name: &str, generation: Option<u64>) -> (name: String)
    ensures
        name@ == artifact_name(crate_name@, generation),
{
    let mut name = String::from_str(crate_name);
    match generation {
        Some(g) => {
            name.append("_");
            push_decimal(&mut name, g);
        },
        None => {},
    }
    name
}

/// A crate that has been laid out on disk and awaits its build.
pub struct StateProvisioned {
    pub db_oid: u32,
    pub fn_oid: u32,
    pub crate_name: String,
    pub crate_dir: String,
}

/// A crate that has been built: the function it holds and where its dynamic
/// library lies.
pub struct StateBuilt {
    pub fn_oid: u32,
    pub shared_object: String,
}

impl StateBuilt {
    pub fn new(fn_oid: u32, shared_object: String) -> (built: StateBuilt)
        ensures
            built.fn_oid == fn_oid,
            built.shared_object == shared_object,
    {
        StateBuilt { fn_oid, shared_object }
    }

    /// Where the dynamic library lies.
    pub fn shared_object(&self) -> (path: &str)
        ensures
            path@ == self.shared_object@,
    {
        self.shared_object.as_str()
    }
}

impl StateProvisioned {
    pub fn new(db_oid: u32, fn_oid: u32, crate_name: String, crate_dir: String) -> (state:
        StateProvisioned)
        ensures
            state.db_oid == db_oid,
            state.fn_oid == fn_oid,
            state.crate_name == crate_name,
            state.crate_dir == crate_dir,
    {
        StateProvisioned { db_oid, fn_oid, crate_name, crate_dir }
    }

    /// The toolchain run that builds this crate for a target: an optimised
    /// build in the crate's directory, with its output below `target_dir`, and
    /// with the linker overridden where one is given.
    pub fn build_command(
        &self,
        pg_config: &str,
        target_dir: &str,
        target: &CompilationTarget,
        linker: Option<&str>,
    ) -> (c: BuildCommand)
        ensures
            c.program@ == "cargo"@,
            c.current_dir@ == self.crate_dir@,
            strings(c.args@) == seq!["rustc"@, "--release"@, "--target"@, target@],
            pairs(c.env@) == build_environment(
                pg_config@,
                target_dir@,
                target@,
                match linker {
                    Some(l) => Some(l@),
                    None => None,
                },
            ),
    {
        let mut args: Vec<String> = Vec::new();
        args.push(String::from_str("rustc"));
        args.push(String::from_str("--release"));
        args.push(String::from_str("--target"));
        args.push(String::from_str(target.as_str()));
        let mut env: Vec<(String, String)> = Vec::new();
        env.push((String::from_str("PGX_PG_CONFIG_PATH"), String::from_str(pg_config)));
        env.push((String::from_str("CARGO_TARGET_DIR"), String::from_str(target_dir)));
        env.push(
            (
                String::from_str("RUSTFLAGS"),
                String::from_str("-Ctarget-cpu=native -Clink-args=-Wl,-undefined,dynamic_lookup"),
            ),
        );
        proof {
            assert(strings(args@) =~= seq!["rustc"@, "--release"@, "--target"@, target@]);
            assert(pairs(env@) =~= seq![
                ("PGX_PG_CONFIG_PATH"@, pg_config@),
                ("CARGO_TARGET_DIR"@, target_dir@),
                ("RUSTFLAGS"@, "-Ctarget-cpu=native -Clink-args=-Wl,-undefined,dynamic_lookup"@),
            ]);
        }
        match linker {
            Some(l) => {
                let ghost before = pairs(env@);
                let key = linker_variable_of(target);
                env.push((key, String::from_str(l)));
                assert(pairs(env@) =~= before.push((linker_variable(target@), l@)));
            },
            None => {},
        }
        BuildCommand {
            program: String::from_str("cargo"),
            current_dir: self.crate_dir.clone(),
            args,
            env,
        }
    }

    /// The toolchain runs that build this crate for every target: first the
    /// host target, then each cross-compilation target in turn, which is the
    /// host's triple with another architecture. Only a cross-compilation
    /// target can have its linker overridden: the override for the target at
    /// a position is the entry of `linkers` at that position.
    pub fn build_commands(
        &self,
        pg_config: &str,
        target_dir: &str,
        host_target: &CompilationTarget,
        host: &HostPlatform,
        others: &Vec<CrossCompilationTarget>,
        linkers: &Vec<Option<String>>,
    ) -> (commands: Vec<BuildCommand>)
        ensures
            commands@.len() == others@.len() + 1,
            forall|i: int|
                0 <= i < commands@.len() ==> (#[trigger] commands@[i]).program@ == "cargo"@
                    && commands@[i].current_dir@ == self.crate_dir@,
            strings(commands@[0].args@) == seq!["rustc"@, "--release"@, "--target"@, host_target@],
            pairs(commands@[0].env@) == build_environment(
                pg_config@,
                target_dir@,
                host_target@,
                None,
            ),
            forall|i: int|
                0 <= i < others@.len() ==> strings((#[trigger] commands@[i + 1]).args@) == seq![
                    "rustc"@,
                    "--release"@,
                    "--target"@,
                    tuple_of(others@[i].name(), host.vendor@, host.os@, host.env@),
                ] && pairs(commands@[i + 1].env@) == build_environment(
                    pg_config@,
                    target_dir@,
                    tuple_of(others@[i].name(), host.vendor@, host.os@, host.env@),
                    linker_at(linkers@, i),
                ),
    {
        let mut commands: Vec<BuildCommand> = Vec::new();
        commands.push(self.build_command(pg_config, target_dir, host_target, None));
        let mut i: usize = 0;
        while i < others.len()
            invariant
                i <= others.len(),
                commands@.len() == i + 1,
                forall|k: int|
                    0 <= k < commands@.len() ==> (#[trigger] commands@[k]).program@ == "cargo"@
                        && commands@[k].current_dir@ == self.crate_dir@,
                strings(commands@[0].args@) == seq![
                    "rustc"@,
                    "--release"@,
                    "--target"@,
                    host_target@,
                ],
                pairs(commands@[0].env@) == build_environment(
                    pg_config@,
                    target_dir@,
                    host_target@,
                    None,
                ),
                forall|k: int|
                    0 <= k < i ==> strings((#[trigger] commands@[k + 1]).args@) == seq![
                        "rustc"@,
                        "--release"@,
                        "--target"@,
                        tuple_of(others@[k].name(), host.vendor@, host.os@, host.env@),
                    ] && pairs(commands@[k + 1].env@) == build_environment(
                        pg_config@,
                        target_dir@,
                        tuple_of(others@[k].name(), host.vendor@, host.os@, host.env@),
                        linker_at(linkers@, k),
                    ),
            decreases others.len() - i,
        {
            let target = others[i].target(host);
            let command = if i < linkers.len() {
                match &linkers[i] {
                    Some(l) => self.build_command(pg_config, target_dir, &target, Some(l.as_str())),
                    None => self.build_command(pg_config, target_dir, &target, None),
                }
            } else {
                self.build_command(pg_config, target_dir, &target, None)
            };
            commands.push(command);
            i = i + 1;
        }
        commands
    }

    /// Takes the outcome of the toolchain run.
    ///
    /// After a success the crate is built: its dynamic library lies where the
    /// toolchain leaves it for this target, crate name and generation. After a
    /// failure nothing is looked for on disk; the error carries what the
    /// toolchain wrote and the source it was given.
    pub fn build(
        self,
        target_dir: &str,
        target: &CompilationTarget,
        output: ToolOutput,
        dll_suffix: &str,
        generation: Option<u64>,
        source: &str,
    ) -> (r: Result<(StateBuilt, ToolOutput), BuildFailure>)
        ensures
            match r {
                Ok((built, out)) => output.success && out == output && built.fn_oid == self.fn_oid
                    && built.shared_object@ == shared_object_path(
                    target_dir@,
                    target@,
                    self.crate_name@,
                    generation,
                    dll_suffix@,
                ),
                Err(e) => !output.success && e@ == failure_of(output, source@),
            },
    {
        if output.success {
            let mut file = String::from_str("lib");
            file.append(artifact_name_of(self.crate_name.as_str(), generation).as_str());
            file.append(dll_suffix);
            let target_root = join_path(target_dir, target.as_str());
            let release = join_path(target_root.as_str(), "release");
            let built_shared_object = join_path(release.as_str(), file.as_str());
            Ok((StateBuilt::new(self.fn_oid, built_shared_object), output))
        } else {
            let stdout = match utf8_text(output.stdout) {
                Some(stdout) => stdout,
                None => {
                    return Err(BuildFailure::StdoutNotUtf8);
                },
            };
            let stderr = match utf8_text(output.stderr) {
                Some(stderr) => stderr,
                None => {
                    return Err(BuildFailure::StderrNotUtf8);
                },
            };
            Err(BuildFailure::CargoBuildFail { stdout, stderr, source: String::from_str(source) })
        }
    }

    pub fn fn_oid(&self) -> (oid: &u32)
        ensures
            *oid == self.fn_oid,
    {
        &self.fn_oid
    }

    pub fn db_oid(&self) -> (oid: &u32)
        ensures
            *oid == self.db_oid,
    {
        &self.db_oid
    }

    pub fn crate_dir(&self) -> (dir: &str)
        ensures
            dir@ == self.crate_dir@,
    {
        self.crate_dir.as_str()
    }
}

/// The toolchain run that builds the sandbox module of a crate.
pub fn compile_command(crate_dir: &str) -> (c: BuildCommand)
    ensures
        c.program@ == "cargo"@,
        c.current_dir@ == crate_dir@,
        strings(c.args@) == seq!["build"@, "--target"@, "wasm32-wasi"@, "--release"@],
        c.env@.len() == 0,
{
    let mut args: Vec<String> = Vec::new();
    args.push(String::from_str("build"));
    args.push(String::from_str("--target"));
    args.push(String::from_str("wasm32-wasi"));
    args.push(String::from_str("--release"));
    assert(strings(args@) =~= seq!["build"@, "--target"@, "wasm32-wasi"@, "--release"@]);
    BuildCommand {
        program: String::from_str("cargo"),
        current_dir: String::from_str(crate_dir),
        args,
        env: Vec::new(),
    }
}

/// A sandbox module that was built: where the toolchain left it, where it is
/// to be moved, and what the toolchain wrote.
pub struct CompiledModule {
    pub built_path: String,
    pub final_path: String,
    pub output: String,
}

/// What the outcome of building a sandbox module amounts to.
///
/// The toolchain's two outputs are put together in any case. After a failure
/// they are the error, followed by a rule and the source that was compiled.
/// After a success the module is moved from where the toolchain left it to the
/// work directory, under the crate's name; where the toolchain left none, its
/// output alone is the error.
pub fn compile_outcome(
    work_dir: &str,
    crate_name: &str,
    success: bool,
    stdout: &str,
    stderr: &str,
    source_code: &str,
    module_found: bool,
) -> (r: Result<CompiledModule, String>)
    ensures
        match r {
            Ok(m) => success && module_found && m.built_path@ == built_module_path(
                work_dir@,
                crate_name@,
            ) && m.final_path@ == path_join(work_dir@, crate_name@ + ".wasm"@) && m.output@
                == stdout@ + stderr@,
            Err(text) => if success {
                !module_found && text@ == stdout@ + stderr@
            } else {
                text@ == stdout@ + stderr@ + "-----------------\n"@ + source_code@
            },
        },
{
    let mut output = String::from_str(stdout);
    output.append(stderr);
    if !success {
        output.append("-----------------\n");
        output.append(source_code);
        Err(output)
    } else if module_found {
        let built_path = find_wasm_module(work_dir, crate_name);
        let mut file = String::from_str(crate_name);
        file.append(".wasm");
        let final_path = join_path(work_dir, file.as_str());
        Ok(CompiledModule { built_path, final_path, output })
    } else {
        Err(output)
    }
}

/// What the caller reports while a sandbox module is built.
pub enum CompileEvent {
    /// The build is to begin.
    Begin,
    /// The toolchain has run. `module_found` says whether a module lies where
    /// the toolchain leaves it; it is looked for only after a success.
    Built { success: bool, stdout: String, stderr: String, module_found: bool },
}

/// What the caller is to do for the build of a sandbox module.
pub enum CompileAction {
    /// The definition is refused. No file is written and no toolchain run.
    Refuse(PolicyError),
    /// Write the files of the crate, run the command, and report the outcome.
    Build { files: CrateFiles, command: BuildCommand },
    /// The module is built: move it from where the toolchain left it to its
    /// place in the work directory.
    Finish(CompiledModule),
    /// The build failed; this is what the toolchain wrote, and after a failed
    /// run the source that it was given.
    Fail(String),
}

/// Takes the build of a function's sandbox module one step further.
///
/// The definition is held against the policy at every step, the
/// dependencies against the allow-list before anything else: a definition that
/// the policy refuses never gets a command, whatever the caller reports. For
/// an admitted definition the build begins with the files of its crate, in
/// its directory below the work directory, and the command to run there; once
/// the toolchain has run, the outcome is that of [`compile_outcome`].
pub fn compile_function(
    def: &FunctionDefinition,
    work_dir: &str,
    crate_name: &str,
    allowed: &Vec<Dependency>,
    lints: &Vec<String>,
    event: CompileEvent,
) -> (action: CompileAction)
    ensures
        match crate_error(*def, dependencies(allowed@), strings(lints@)) {
            Some(e) => action matches CompileAction::Refuse(refusal) && refusal == e,
            None => match event {
                CompileEvent::Begin => action matches CompileAction::Build { files, command } && {
                    &&& files.manifest_path@ == path_join(
                        path_join(work_dir@, crate_name@),
                        "Cargo.toml"@,
                    )
                    &&& files.manifest@ == cargo_manifest(
                        crate_name@,
                        path_join(work_dir@, "plrust_interface"@),
                        def.dependencies@,
                    )
                    &&& files.src_dir@ == path_join(path_join(work_dir@, crate_name@), "src"@)
                    &&& files.lib_path@ == path_join(
                        path_join(path_join(work_dir@, crate_name@), "src"@),
                        "lib.rs"@,
                    )
                    &&& files.source@ == function_source(
                        def.fn_oid,
                        def.code@,
                        def.args@,
                        def.return_type,
                        strings(lints@),
                    )
                    &&& command.program@ == "cargo"@
                    &&& command.current_dir@ == path_join(work_dir@, crate_name@)
                    &&& strings(command.args@) == seq![
                        "build"@,
                        "--target"@,
                        "wasm32-wasi"@,
                        "--release"@,
                    ]
                    &&& command.env@.len() == 0
                },
                CompileEvent::Built { success, stdout, stderr, module_found } => if success
                    && module_found {
                    action matches CompileAction::Finish(m) && m.built_path@ == built_module_path(
                        work_dir@,
                        crate_name@,
                    ) && m.final_path@ == path_join(work_dir@, crate_name@ + ".wasm"@) && m.output@
                        == stdout@ + stderr@
                } else if success {
                    action matches CompileAction::Fail(text) && text@ == stdout@ + stderr@
                } else {
                    action matches CompileAction::Fail(text) && text@ == stdout@ + stderr@
                        + "-----------------\n"@ + function_source(
                        def.fn_oid,
                        def.code@,
                        def.args@,
                        def.return_type,
                        strings(lints@),
                    )
                },
            },
        },
{
    let crate_dir = join_path(work_dir, crate_name);
    let interface = interface_crate_path(work_dir);
    let files = match create_function_crate(
        def,
        crate_dir.as_str(),
        crate_name,
        interface.as_str(),
        allowed,
        lints,
    ) {
        Ok(files) => files,
        Err(e) => {
            return CompileAction::Refuse(e);
        },
    };
    match event {
        CompileEvent::Begin => {
            let command = compile_command(crate_dir.as_str());
            CompileAction::Build { files, command }
        },
        CompileEvent::Built { success, stdout, stderr, module_found } => {
            match compile_outcome(
                work_dir,
                crate_name,
                success,
                stdout.as_str(),
                stderr.as_str(),
                files.source.as_str(),
                module_found,
            ) {
                Ok(m) => CompileAction::Finish(m),
                Err(text) => CompileAction::Fail(text),
            }
        },
    }
}

impl StateProvisioned {
    /// Lays out the crate of a function for a build by the native backend.
    /// Only a definition that the policy admits gets a crate, and only a crate
    /// gets a build command.
    pub fn provision(
        db_oid: u32,
        def: &FunctionDefinition,
        crate_dir: &str,
        crate_name: &str,
        interface_path: &str,
        allowed: &Vec<Dependency>,
        lints: &Vec<String>,
    ) -> (r: Result<(StateProvisioned, CrateFiles), PolicyError>)
        ensures
            match r {
                Ok((state, files)) => {
                    &&& crate_error(*def, dependencies(allowed@), strings(lints@)) is None
                    &&& state.db_oid == db_oid
                    &&& state.fn_oid == def.fn_oid
                    &&& state.crate_name@ == crate_name@
                    &&& state.crate_dir@ == crate_dir@
                    &&& files.manifest_path@ == path_join(crate_dir@, "Cargo.toml"@)
                    &&& files.manifest@ == cargo_manifest(
                        crate_name@,
                        interface_path@,
                        def.dependencies@,
                    )
                    &&& files.src_dir@ == path_join(crate_dir@, "src"@)
                    &&& files.lib_path@ == path_join(path_join(crate_dir@, "src"@), "lib.rs"@)
                    &&& files.source@ == function_source(
                        def.fn_oid,
                        def.code@,
                        def.args@,
                        def.return_type,
                        strings(lints@),
                    )
                },
                Err(e) => crate_error(*def, dependencies(allowed@), strings(lints@)) == Some(e),
            },
    {
        match create_function_crate(def, crate_dir, crate_name, interface_path, allowed, lints) {
            Ok(files) => Ok(
                (
                    StateProvisioned::new(
                        db_oid,
                        def.fn_oid,
                        String::from_str(crate_name),
                        String::from_str(crate_dir),
                    ),
                    files,
                ),
            ),
            Err(e) => Err(e),
        }
    }
}

} // verus!
