//! Loading an artifact into the running process: which strategy to follow,
//! under which names, and what the loaded function amounts to.
//!
//! The caller performs the steps of a plan and reports how they ended. It also
//! owns the operating system's handles; a loaded function here carries the
//! number under which the caller keeps them.

use vstd::prelude::*;
use vstd::string::StringExecFns;
use crate::builder::{artifact_name, artifact_name_of, StateBuilt};
use crate::lints::{baseline_lint, covers_baseline, strings};
use crate::text::{
    chars_eq, chars_of, decimal, lemma_decimal_injective, lemma_middle_cancels, push_decimal,
};

verus! {

/// How an artifact gets from bytes to a loaded library.
#[derive(Clone, Copy, Debug, PartialEq, Eq, Structural)]
pub enum LoadStrategy {
    /// Through an anonymous file in memory, of exactly the artifact's size
    /// and sealed against resizing, opened by the path of its descriptor. The
    /// descriptor stays open for as long as the library is loaded: were it
    /// closed before, its number could be handed out again and a later load
    /// would resolve to this library.
    AnonymousMemory,
    /// Through a uniquely named file in the scratch directory, which is
    /// deleted as soon as the library is loaded.
    TemporaryFile,
}

/// One step of loading.
#[derive(Clone, Copy, Debug, PartialEq, Eq, Structural)]
pub enum LoadAction {
    /// Create the anonymous file, with sealing allowed.
    CreateAnonymousFile,
    /// Set the file to this length.
    SetLength(u64),
    /// Seal the file against shrinking and growing.
    SealSize,
    /// Seal the set of seals itself.
    SealSeals,
    /// Create the file in the scratch directory.
    CreateTemporaryFile,
    /// Write the artifact to the file.
    WriteArtifact,
    /// Load the library by the path of the file's descriptor.
    OpenByDescriptor,
    /// Load the library by the path of the file.
    OpenByPath,
    /// Delete the file.
    DeleteFile,
    /// Resolve the entry symbol in the loaded library.
    ResolveSymbol,
}

/// What loading depends on the platform for.
#[derive(Clone, Copy, Debug, PartialEq, Eq, Structural)]
pub struct Platform {
    /// Whether anonymous files in memory exist.
    pub anonymous_memory: bool,
    /// Whether the dynamic loader tells libraries apart by the identity of
    /// their file rather than by what they hold, so that every build of a
    /// function needs a name of its own.
    pub generation_suffix: bool,
}

/// What to load, and how.
pub struct LoadPlan {
    pub pg_proc_xmin: u32,
    pub strategy: LoadStrategy,
    /// The name of the anonymous file.
    pub label: String,
    /// The steps, in the order in which they are to be taken.
    pub actions: Vec<LoadAction>,
    /// The symbol to resolve.
    pub symbol_name: String,
}

/// Why an artifact was not loaded.
#[derive(Clone, Copy, Debug, PartialEq, Eq, Structural)]
pub enum LoadError {
    /// The required lints no longer hold the one that forbids unsafe code.
    BaselineLintMissing,
    /// The required lint at this position was not applied when the artifact
    /// was built.
    RequiredLintMissing(usize),
    /// The bytes are no loadable image.
    BadImage,
    /// The image lacks the entry symbol.
    MissingSymbol,
    /// The process has this artifact loaded already, under another identity.
    IdentityConflict,
}

/// The position, at or after `from`, of the first required lint that is not
/// among the applied ones.
pub open spec fn first_missing(required: Seq<Seq<char>>, applied: Seq<Seq<char>>, from: int) -> Option<
    int,
>
    decreases required.len() - from,
{
    if from < 0 || from >= required.len() {
        None
    } else if !applied.contains(required[from]) {
        Some(from)
    } else {
        first_missing(required, applied, from + 1)
    }
}

/// Why the lints stand in the way of loading, if they do. The required set
/// must hold the lint that forbids unsafe code, whatever the configuration
/// says; and every required lint must have been applied when the artifact was
/// built.
pub open spec fn lint_error(required: Seq<Seq<char>>, applied: Seq<Seq<char>>) -> Option<LoadError> {
    if !required.contains(baseline_lint()) {
        Some(LoadError::BaselineLintMissing)
    } else {
        match first_missing(required, applied, 0) {
            Some(k) => Some(LoadError::RequiredLintMissing(k as usize)),
            None => None,
        }
    }
}

fn is_among(lints: &Vec<String>, lint: &String) -> (r: bool)
    ensures
        r == strings(lints@).contains(lint@),
{
    let wanted = chars_of(lint.as_str());
    let mut i: usize = 0;
    while i < lints.len()
        invariant
            i <= lints.len(),
            wanted@ == lint@,
            forall|k: int| 0 <= k < i ==> strings(lints@)[k] != lint@,
        decreases lints.len() - i,
    {
        let name = chars_of(lints[i].as_str());
        if chars_eq(&name, &wanted) {
            assert(strings(lints@)[i as int] == lint@);
            return true;
        }
        i = i + 1;
    }
    false
}

/// Holds the lints of an artifact against the lints that are required.
pub fn check_lints(required: &Vec<String>, applied: &Vec<String>) -> (r: Option<LoadError>)
    ensures
        r == lint_error(strings(required@), strings(applied@)),
{
    if !covers_baseline(required) {
        return Some(LoadError::BaselineLintMissing);
    }
    let mut i: usize = 0;
    while i < required.len()
        invariant
            i <= required.len(),
            strings(required@).contains(baseline_lint()),
            first_missing(strings(required@), strings(applied@), 0) == first_missing(
                strings(required@),
                strings(applied@),
                i as int,
            ),
        decreases required.len() - i,
    {
        assert(strings(required@)[i as int] == required@[i as int]@);
        if !is_among(applied, &required[i]) {
            return Some(LoadError::RequiredLintMissing(i));
        }
        i = i + 1;
    }
    None
}

proof fn lemma_first_missing(required: Seq<Seq<char>>, applied: Seq<Seq<char>>, from: int)
    requires
        0 <= from,
    ensures
        first_missing(required, applied, from) is None <==> forall|k: int|
            from <= k < required.len() ==> applied.contains(required[k]),
    decreases required.len() - from,
{
    if from < required.len() && applied.contains(required[from]) {
        lemma_first_missing(required, applied, from + 1);
    }
}

/// The lints let an artifact be loaded exactly where the required set holds
/// the lint that forbids unsafe code and every required lint was applied to
/// the artifact.
pub proof fn lemma_lints_admit(required: Seq<Seq<char>>, applied: Seq<Seq<char>>)
    ensures
        lint_error(required, applied) is None <==> required.contains(baseline_lint()) && forall|
            k: int,
        |
            0 <= k < required.len() ==> applied.contains(required[k]),
{
    lemma_first_missing(required, applied, 0);
}

/// The strategy for a platform: anonymous memory wherever it exists.
pub open spec fn strategy_for(platform: Platform) -> LoadStrategy {
    if platform.anonymous_memory {
        LoadStrategy::AnonymousMemory
    } else {
        LoadStrategy::TemporaryFile
    }
}

/// The steps of a strategy for an artifact of `size` bytes.
pub open spec fn load_steps(strategy: LoadStrategy, size: u64) -> Seq<LoadAction> {
    match strategy {
        LoadStrategy::AnonymousMemory => seq![
            LoadAction::CreateAnonymousFile,
            LoadAction::SetLength(size),
            LoadAction::SealSize,
            LoadAction::SealSeals,
            LoadAction::WriteArtifact,
            LoadAction::OpenByDescriptor,
            LoadAction::ResolveSymbol,
        ],
        LoadStrategy::TemporaryFile => seq![
            LoadAction::CreateTemporaryFile,
            LoadAction::WriteArtifact,
            LoadAction::OpenByPath,
            LoadAction::DeleteFile,
            LoadAction::ResolveSymbol,
        ],
    }
}

/// The name of the anonymous file that holds an artifact: the identifiers of
/// the database and the function, and the version of the definition.
pub open spec fn file_label(db_oid: u32, fn_oid: u32, pg_proc_xmin: u32) -> Seq<char> {
    "plrust-fn-"@ + decimal(db_oid as nat) + "-"@ + decimal(fn_oid as nat) + "-"@ + decimal(
        pg_proc_xmin as nat,
    )
}

/// The generation that a load names, on a platform that needs one.
pub open spec fn generation_for(platform: Platform, latest_generation: u64) -> Option<u64> {
    if platform.generation_suffix {
        Some(latest_generation)
    } else {
        None
    }
}

/// The entry symbol of a crate's artifact.
pub open spec fn symbol_name_of(crate_name: Seq<char>, generation: Option<u64>) -> Seq<char> {
    artifact_name(crate_name, generation) + "_wrapper"@
}

/// The path under which an open descriptor can be opened again.
pub fn descriptor_path(raw_fd: u32) -> (path: String)
    ensures
        path@ == "/proc/self/fd/"@ + decimal(raw_fd as nat),
{
    let mut path = String::from_str("/proc/self/fd/");
    push_decimal(&mut path, raw_fd as u64);
    path
}

/// The entry symbol of a crate's artifact.
pub fn symbol_name(crate_name: &str, generation: Option<u64>) -> (name: String)
    ensures
        name@ == symbol_name_of(crate_name@, generation),
{
    let mut name = artifact_name_of(crate_name, generation);
    name.append("_wrapper");
    name
}

/// Plans the loading of an artifact of `size` bytes.
///
/// The lints are looked at first: nothing is loaded unless the required set
/// holds the lint that forbids unsafe code and every required lint was
/// applied when the artifact was built. Otherwise the plan follows the
/// strategy of the platform, and names the entry symbol after the crate and,
/// where the platform needs it, the latest generation.
pub fn plan_load(
    pg_proc_xmin: u32,
    db_oid: u32,
    fn_oid: u32,
    crate_name: &str,
    size: u64,
    platform: Platform,
    latest_generation: u64,
    required_lints: &Vec<String>,
    applied_lints: &Vec<String>,
) -> (r: Result<LoadPlan, LoadError>)
    ensures
        match r {
            Ok(plan) => {
                &&& lint_error(strings(required_lints@), strings(applied_lints@)) is None
                &&& plan.pg_proc_xmin == pg_proc_xmin
                &&& plan.strategy == strategy_for(platform)
                &&& plan.label@ == file_label(db_oid, fn_oid, pg_proc_xmin)
                &&& plan.actions@ == load_steps(strategy_for(platform), size)
                &&& plan.symbol_name@ == symbol_name_of(
                    crate_name@,
                    generation_for(platform, latest_generation),
                )
            },
            Err(e) => lint_error(strings(required_lints@), strings(applied_lints@)) == Some(e),
        },
{
    match check_lints(required_lints, applied_lints) {
        Some(e) => {
            return Err(e);
        },
        None => {},
    }
    let mut label = String::from_str("plrust-fn-");
    push_decimal(&mut label, db_oid as u64);
    label.append("-");
    push_decimal(&mut label, fn_oid as u64);
    label.append("-");
    push_decimal(&mut label, pg_proc_xmin as u64);

    let mut actions: Vec<LoadAction> = Vec::new();
    let strategy = if platform.anonymous_memory {
        actions.push(LoadAction::CreateAnonymousFile);
        actions.push(LoadAction::SetLength(size));
        actions.push(LoadAction::SealSize);
        actions.push(LoadAction::SealSeals);
        actions.push(LoadAction::WriteArtifact);
        actions.push(LoadAction::OpenByDescriptor);
        actions.push(LoadAction::ResolveSymbol);
        LoadStrategy::AnonymousMemory
    } else {
        actions.push(LoadAction::CreateTemporaryFile);
        actions.push(LoadAction::WriteArtifact);
        actions.push(LoadAction::OpenByPath);
        actions.push(LoadAction::DeleteFile);
        actions.push(LoadAction::ResolveSymbol);
        LoadStrategy::TemporaryFile
    };
    assert(actions@ =~= load_steps(strategy, size));
    let generation = if platform.generation_suffix {
        Some(latest_generation)
    } else {
        None
    };
    Ok(
        LoadPlan {
            pg_proc_xmin,
            strategy,
            label,
            actions,
            symbol_name: symbol_name(crate_name, generation),
        },
    )
}

impl StateBuilt {
    /// Plans the loading of this crate's dynamic library, which holds `size`
    /// bytes. See [`plan_load`].
    pub fn load(
        self,
        pg_proc_xmin: u32,
        db_oid: u32,
        crate_name: &str,
        size: u64,
        platform: Platform,
        latest_generation: u64,
        required_lints: &Vec<String>,
        applied_lints: &Vec<String>,
    ) -> (r: Result<LoadPlan, LoadError>)
        ensures
            match r {
                Ok(plan) => {
                    &&& lint_error(strings(required_lints@), strings(applied_lints@)) is None
                    &&& plan.pg_proc_xmin == pg_proc_xmin
                    &&& plan.strategy == strategy_for(platform)
                    &&& plan.label@ == file_label(db_oid, self.fn_oid, pg_proc_xmin)
                    &&& plan.actions@ == load_steps(strategy_for(platform), size)
                    &&& plan.symbol_name@ == symbol_name_of(
                        crate_name@,
                        generation_for(platform, latest_generation),
                    )
                },
                Err(e) => lint_error(strings(required_lints@), strings(applied_lints@)) == Some(
                    e,
                ),
            },
    {
        plan_load(
            pg_proc_xmin,
            db_oid,
            self.fn_oid,
            crate_name,
            size,
            platform,
            latest_generation,
            required_lints,
            applied_lints,
        )
    }
}

/// How the steps of a plan ended.
#[derive(Clone, Copy, Debug, PartialEq, Eq, Structural)]
pub enum LoadOutcome {
    /// The library is loaded and the symbol resolved. The caller keeps both,
    /// and whatever file it holds for them, under this number.
    Loaded(u64),
    /// The bytes are no loadable image.
    NotLoadable,
    /// The library was loaded, but the symbol is not in it.
    SymbolNotFound,
    /// The process has the artifact loaded under another identity.
    AlreadyMapped,
}

/// A function that is loaded and can be called.
pub struct FnReady {
    /// The version of the definition that the artifact was built from.
    pub pg_proc_xmin: u32,
    pub symbol_name: String,
    /// The number under which the caller keeps the library and the symbol.
    pub handle: u64,
    /// Whether a file is held open for the library's sake.
    pub holds_file: bool,
}

/// What closing a loaded function asks of the caller.
#[derive(Clone, Copy, Debug, PartialEq, Eq, Structural)]
pub struct CloseRequest {
    /// The library to unload. Nothing of it may run afterwards.
    pub handle: u64,
    /// Whether a file is to be released once the library is unloaded, and not
    /// before.
    pub release_file: bool,
}

/// The error that an outcome stands for, if it is one.
pub open spec fn load_error(outcome: LoadOutcome) -> Option<LoadError> {
    match outcome {
        LoadOutcome::Loaded(_) => None,
        LoadOutcome::NotLoadable => Some(LoadError::BadImage),
        LoadOutcome::SymbolNotFound => Some(LoadError::MissingSymbol),
        LoadOutcome::AlreadyMapped => Some(LoadError::IdentityConflict),
    }
}

impl FnReady {
    /// Takes the outcome of a plan's steps. A loaded library makes a function
    /// that is ready under the plan's version and symbol; with the anonymous
    /// memory strategy it holds the file for as long as it lives.
    pub fn load(plan: LoadPlan, outcome: LoadOutcome) -> (r: Result<FnReady, LoadError>)
        ensures
            match r {
                Ok(ready) => outcome == LoadOutcome::Loaded(ready.handle) && ready.pg_proc_xmin
                    == plan.pg_proc_xmin && ready.symbol_name == plan.symbol_name
                    && ready.holds_file == (plan.strategy == LoadStrategy::AnonymousMemory),
                Err(e) => load_error(outcome) == Some(e),
            },
    {
        match outcome {
            LoadOutcome::Loaded(handle) => {
                let holds_file = match plan.strategy {
                    LoadStrategy::AnonymousMemory => true,
                    LoadStrategy::TemporaryFile => false,
                };
                Ok(
                    FnReady {
                        pg_proc_xmin: plan.pg_proc_xmin,
                        symbol_name: plan.symbol_name,
                        handle,
                        holds_file,
                    },
                )
            },
            LoadOutcome::NotLoadable => Err(LoadError::BadImage),
            LoadOutcome::SymbolNotFound => Err(LoadError::MissingSymbol),
            LoadOutcome::AlreadyMapped => Err(LoadError::IdentityConflict),
        }
    }

    /// Gives the function up. The caller unloads the library, and only then
    /// releases the file it held for it.
    pub fn close(self) -> (request: CloseRequest)
        ensures
            request.handle == self.handle,
            request.release_file == self.holds_file,
    {
        CloseRequest { handle: self.handle, release_file: self.holds_file }
    }

    pub fn symbol_name(&self) -> (name: &str)
        ensures
            name@ == self.symbol_name@,
    {
        self.symbol_name.as_str()
    }

    pub fn xmin(&self) -> (xmin: u32)
        ensures
            xmin == self.pg_proc_xmin,
    {
        self.pg_proc_xmin
    }
}

/// Builds of different generations have different entry symbols, so a reload
/// never resolves the symbol of the build before it.
pub proof fn lemma_generations_differ(crate_name: Seq<char>, g1: u64, g2: u64)
    requires
        g1 != g2,
    ensures
        symbol_name_of(crate_name, Some(g1)) != symbol_name_of(crate_name, Some(g2)),
{
    if symbol_name_of(crate_name, Some(g1)) == symbol_name_of(crate_name, Some(g2)) {
        lemma_middle_cancels(
            crate_name + "_"@,
            decimal(g1 as nat),
            decimal(g2 as nat),
            "_wrapper"@,
        );
        lemma_decimal_injective(g1 as nat, g2 as nat);
    }
}

} // verus!
