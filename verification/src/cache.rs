//! The execution cache: the functions that are loaded, by identifier, each
//! with the version of the definition it was built from; and the decision, for
//! every call, between calling what is loaded and loading anew.
//!
//! The cache is an ordinary value that its owner creates at start, keeps for
//! the life of the process and guards against concurrent use. An entry that
//! leaves the cache is handed to the caller, which must close it.

use std::collections::{HashMap, HashSet};
use vstd::prelude::*;
use crate::loader::FnReady;
use crate::types::{pg_oid_of, PgOid, SemanticType};

verus! {

broadcast use vstd::std_specs::hash::group_hash_axioms;

/// What to do for a call.
#[derive(Clone, Copy, Debug, PartialEq, Eq, Structural)]
pub enum Dispatch {
    /// The function is strict and an argument is absent: the result is absent
    /// too, and nothing is called.
    ReturnNull,
    /// Call the loaded function that the caller keeps under this number.
    Call(u64),
    /// Nothing is loaded for the function: build, load and install it, then
    /// ask again.
    Load,
    /// What is loaded was built from another version of the definition:
    /// build and load the current one; then unload and close the old one,
    /// install the new one, and ask again.
    Reload,
}

/// The loaded functions, and how often each function has been loaded.
pub struct FunctionCache {
    pub entries: HashMap<u32, FnReady>,
    pub loads: HashMap<u32, u64>,
}

/// Whether any argument is absent.
pub open spec fn any_null(nulls: Seq<bool>) -> bool {
    exists|i: int| 0 <= i < nulls.len() && nulls[i]
}

/// What to do for a call of `fn_oid`, whose definition is at version
/// `current_xmin`, given what is loaded.
pub open spec fn dispatch(
    entries: Map<u32, FnReady>,
    fn_oid: u32,
    current_xmin: u32,
    is_strict: bool,
    nulls: Seq<bool>,
) -> Dispatch {
    if is_strict && any_null(nulls) {
        Dispatch::ReturnNull
    } else if !entries.contains_key(fn_oid) {
        Dispatch::Load
    } else if entries[fn_oid].pg_proc_xmin == current_xmin {
        Dispatch::Call(entries[fn_oid].handle)
    } else {
        Dispatch::Reload
    }
}

/// How often a function has been loaded.
pub open spec fn load_count(loads: Map<u32, u64>, fn_oid: u32) -> u64 {
    if loads.contains_key(fn_oid) {
        loads[fn_oid]
    } else {
        0
    }
}

fn has_null(nulls: &Vec<bool>) -> (r: bool)
    ensures
        r == any_null(nulls@),
{
    let mut i: usize = 0;
    while i < nulls.len()
        invariant
            i <= nulls.len(),
            forall|k: int| 0 <= k < i ==> !nulls@[k],
        decreases nulls.len() - i,
    {
        if nulls[i] {
            return true;
        }
        i = i + 1;
    }
    false
}

impl FunctionCache {
    /// A cache with nothing loaded.
    pub fn new() -> (cache: FunctionCache)
        ensures
            cache.entries@ == Map::<u32, FnReady>::empty(),
            cache.loads@ == Map::<u32, u64>::empty(),
    {
        FunctionCache { entries: HashMap::new(), loads: HashMap::new() }
    }

    /// Decides what to do for a call. `nulls` says of each argument whether
    /// it is absent.
    pub fn invoke(&self, fn_oid: u32, current_xmin: u32, is_strict: bool, nulls: &Vec<bool>) -> (d:
        Dispatch)
        ensures
            d == dispatch(self.entries@, fn_oid, current_xmin, is_strict, nulls@),
    {
        if is_strict && has_null(nulls) {
            return Dispatch::ReturnNull;
        }
        match self.entries.get(&fn_oid) {
            None => Dispatch::Load,
            Some(ready) => {
                if ready.pg_proc_xmin == current_xmin {
                    Dispatch::Call(ready.handle)
                } else {
                    Dispatch::Reload
                }
            },
        }
    }

    /// The generation of the next build of a function: the number of times
    /// it has been loaded so far.
    pub fn next_generation(&self, fn_oid: u32) -> (g: u64)
        ensures
            g == load_count(self.loads@, fn_oid),
    {
        match self.loads.get(&fn_oid) {
            Some(n) => *n,
            None => 0,
        }
    }

    /// Takes a function out of the cache. The entry, if there was one, is
    /// handed to the caller, which closes it. Unloading a function that is not
    /// loaded changes nothing.
    pub fn unload_function(&mut self, fn_oid: u32) -> (removed: Option<FnReady>)
        ensures
            final(self).entries@ == old(self).entries@.remove(fn_oid),
            final(self).loads@ == old(self).loads@,
            match removed {
                Some(ready) => old(self).entries@.contains_key(fn_oid) && ready == old(
                    self,
                ).entries@[fn_oid],
                None => !old(self).entries@.contains_key(fn_oid),
            },
    {
        self.entries.remove(&fn_oid)
    }

    /// Puts a freshly loaded function into the cache and counts the load. An
    /// entry that was still there for the function is displaced and handed to
    /// the caller, which closes it; after [`FunctionCache::unload_function`]
    /// there is none.
    pub fn install(&mut self, fn_oid: u32, ready: FnReady) -> (displaced: Option<FnReady>)
        requires
            load_count(old(self).loads@, fn_oid) < u64::MAX,
        ensures
            final(self).entries@ == old(self).entries@.insert(fn_oid, ready),
            final(self).loads@ == old(self).loads@.insert(
                fn_oid,
                (load_count(old(self).loads@, fn_oid) + 1) as u64,
            ),
            match displaced {
                Some(before) => old(self).entries@.contains_key(fn_oid) && before == old(
                    self,
                ).entries@[fn_oid],
                None => !old(self).entries@.contains_key(fn_oid),
            },
    {
        let count = self.next_generation(fn_oid);
        self.loads.insert(fn_oid, count + 1);
        self.entries.insert(fn_oid, ready)
    }

    /// Takes note of a build or a load that failed for good. Whatever is
    /// loaded for the function is taken out and handed to the caller, which
    /// closes it; other functions are not touched.
    pub fn load_failed(&mut self, fn_oid: u32) -> (evicted: Option<FnReady>)
        ensures
            final(self).entries@ == old(self).entries@.remove(fn_oid),
            final(self).loads@ == old(self).loads@,
            match evicted {
                Some(ready) => old(self).entries@.contains_key(fn_oid) && ready == old(
                    self,
                ).entries@[fn_oid],
                None => !old(self).entries@.contains_key(fn_oid),
            },
    {
        self.unload_function(fn_oid)
    }

    /// Takes note of a call that failed. The entry stays unless the failure
    /// left the loaded code in a corrupted state; then it is taken out and
    /// handed to the caller, which closes it.
    pub fn call_failed(&mut self, fn_oid: u32, corrupted: bool) -> (evicted: Option<FnReady>)
        ensures
            final(self).loads@ == old(self).loads@,
            final(self).entries@ == if corrupted {
                old(self).entries@.remove(fn_oid)
            } else {
                old(self).entries@
            },
            match evicted {
                Some(ready) => corrupted && old(self).entries@.contains_key(fn_oid) && ready
                    == old(self).entries@[fn_oid],
                None => !corrupted || !old(self).entries@.contains_key(fn_oid),
            },
    {
        if corrupted {
            self.unload_function(fn_oid)
        } else {
            None
        }
    }
}

/// A call only ever reaches code that was built from the current version of
/// the definition.
pub proof fn lemma_never_calls_stale(
    entries: Map<u32, FnReady>,
    fn_oid: u32,
    current_xmin: u32,
    is_strict: bool,
    nulls: Seq<bool>,
    handle: u64,
)
    requires
        dispatch(entries, fn_oid, current_xmin, is_strict, nulls) == Dispatch::Call(handle),
    ensures
        entries.contains_key(fn_oid),
        entries[fn_oid].pg_proc_xmin == current_xmin,
        entries[fn_oid].handle == handle,
{
}

/// Once a definition has changed, the function that was loaded before is
/// never called again: the next call asks for a reload, and after the new
/// build is installed, calls go to it.
pub proof fn lemma_redefinition_replaces(
    entries: Map<u32, FnReady>,
    fn_oid: u32,
    new_xmin: u32,
    ready: FnReady,
    is_strict: bool,
    nulls: Seq<bool>,
)
    requires
        entries.contains_key(fn_oid),
        entries[fn_oid].pg_proc_xmin != new_xmin,
        ready.pg_proc_xmin == new_xmin,
    ensures
        dispatch(entries, fn_oid, new_xmin, is_strict, nulls) == Dispatch::Reload || dispatch(
            entries,
            fn_oid,
            new_xmin,
            is_strict,
            nulls,
        ) == Dispatch::ReturnNull,
        dispatch(entries.remove(fn_oid).insert(fn_oid, ready), fn_oid, new_xmin, is_strict, nulls)
            == Dispatch::Call(ready.handle) || dispatch(
            entries.remove(fn_oid).insert(fn_oid, ready),
            fn_oid,
            new_xmin,
            is_strict,
            nulls,
        ) == Dispatch::ReturnNull,
{
}

/// Unloading twice is unloading once.
pub proof fn lemma_unload_idempotent(entries: Map<u32, FnReady>, fn_oid: u32)
    ensures
        entries.remove(fn_oid).remove(fn_oid) == entries.remove(fn_oid),
        !entries.remove(fn_oid).contains_key(fn_oid),
{
    assert(entries.remove(fn_oid).remove(fn_oid) =~= entries.remove(fn_oid));
}

/// Loading or unloading one function leaves every other function as it was.
pub proof fn lemma_other_entries_untouched(
    entries: Map<u32, FnReady>,
    fn_oid: u32,
    other: u32,
    ready: FnReady,
    current_xmin: u32,
    is_strict: bool,
    nulls: Seq<bool>,
)
    requires
        other != fn_oid,
    ensures
        dispatch(entries.insert(fn_oid, ready), other, current_xmin, is_strict, nulls) == dispatch(
            entries,
            other,
            current_xmin,
            is_strict,
            nulls,
        ),
        dispatch(entries.remove(fn_oid), other, current_xmin, is_strict, nulls) == dispatch(
            entries,
            other,
            current_xmin,
            is_strict,
            nulls,
        ),
{
}

/// A sandbox module that is compiled and can be instantiated: the number under
/// which the caller keeps it, the version of the definition that it was
/// compiled from, and the types of its parameters and its result as the
/// catalog gave them when it was compiled.
pub struct ModuleEntry {
    pub module: u64,
    pub xmin: u32,
    pub arg_types: Vec<SemanticType>,
    pub return_type: SemanticType,
}

/// The entry for a module that the caller has compiled from the definition
/// at version `xmin`, with the parameter and result types that the catalog
/// gives as numbers.
pub fn initialize_cache_entry(module: u64, xmin: u32, argtypes: &Vec<u32>, rettype: u32) -> (entry:
    ModuleEntry)
    ensures
        entry.module == module,
        entry.xmin == xmin,
        entry.return_type == (SemanticType { oid: pg_oid_of(rettype), element: PgOid::Invalid }),
        entry.arg_types@.len() == argtypes@.len(),
        forall|i: int|
            0 <= i < argtypes@.len() ==> #[trigger] entry.arg_types@[i] == (SemanticType {
                oid: pg_oid_of(argtypes@[i]),
                element: PgOid::Invalid,
            }),
{
    let mut arg_types: Vec<SemanticType> = Vec::new();
    let mut i: usize = 0;
    while i < argtypes.len()
        invariant
            i <= argtypes.len(),
            arg_types@.len() == i,
            forall|k: int|
                0 <= k < i ==> #[trigger] arg_types@[k] == (SemanticType {
                    oid: pg_oid_of(argtypes@[k]),
                    element: PgOid::Invalid,
                }),
        decreases argtypes.len() - i,
    {
        arg_types.push(SemanticType::scalar(PgOid::from_u32(argtypes[i])));
        i = i + 1;
    }
    ModuleEntry {
        module,
        xmin,
        arg_types,
        return_type: SemanticType::scalar(PgOid::from_u32(rettype)),
    }
}

/// The compiled sandbox modules, by function. Compiling a module is
/// expensive, so each is compiled once and kept; instantiating one is cheap and
/// done for every call.
pub struct ModuleCache {
    pub entries: HashMap<u32, ModuleEntry>,
}

impl ModuleCache {
    /// A cache without modules.
    pub fn new() -> (cache: ModuleCache)
        ensures
            cache.entries@ == Map::<u32, ModuleEntry>::empty(),
    {
        ModuleCache { entries: HashMap::new() }
    }

    /// The module of a function, if one is kept.
    pub fn get(&self, fn_oid: u32) -> (entry: Option<&ModuleEntry>)
        ensures
            match entry {
                Some(e) => self.entries@.contains_key(fn_oid) && *e == self.entries@[fn_oid],
                None => !self.entries@.contains_key(fn_oid),
            },
    {
        self.entries.get(&fn_oid)
    }

    /// Keeps a module for a function. A module that was kept for it before is
    /// handed back.
    pub fn insert(&mut self, fn_oid: u32, entry: ModuleEntry) -> (displaced: Option<ModuleEntry>)
        ensures
            final(self).entries@ == old(self).entries@.insert(fn_oid, entry),
            match displaced {
                Some(before) => old(self).entries@.contains_key(fn_oid) && before == old(
                    self,
                ).entries@[fn_oid],
                None => !old(self).entries@.contains_key(fn_oid),
            },
    {
        self.entries.insert(fn_oid, entry)
    }

    /// Drops the module of a function. Where none is kept, nothing changes.
    pub fn unload_function(&mut self, fn_oid: u32) -> (removed: Option<ModuleEntry>)
        ensures
            final(self).entries@ == old(self).entries@.remove(fn_oid),
            match removed {
                Some(entry) => old(self).entries@.contains_key(fn_oid) && entry == old(
                    self,
                ).entries@[fn_oid],
                None => !old(self).entries@.contains_key(fn_oid),
            },
    {
        self.entries.remove(&fn_oid)
    }
}

/// The functions for which a build is under way. At most one build runs for a
/// function at any time; builds of different functions do not wait for each
/// other. Replacing and closing a loaded function goes behind the same
/// exclusion as building it.
pub struct BuildLocks {
    pub in_flight: HashSet<u32>,
}

impl BuildLocks {
    /// No build is under way.
    pub fn new() -> (locks: BuildLocks)
        ensures
            locks.in_flight@ == Set::<u32>::empty(),
    {
        BuildLocks { in_flight: HashSet::new() }
    }

    /// Claims the build of a function. Returns whether the claim succeeded: it
    /// fails, and changes nothing, while another build of the function is
    /// under way.
    pub fn try_begin(&mut self, fn_oid: u32) -> (claimed: bool)
        ensures
            claimed == !old(self).in_flight@.contains(fn_oid),
            final(self).in_flight@ == old(self).in_flight@.insert(fn_oid),
    {
        self.in_flight.insert(fn_oid)
    }

    /// Gives up the claim on the build of a function, whether it ran to its
    /// end or failed.
    pub fn finish(&mut self, fn_oid: u32)
        ensures
            final(self).in_flight@ == old(self).in_flight@.remove(fn_oid),
    {
        self.in_flight.remove(&fn_oid);
    }
}

/// While a build of a function is under way no second one can be claimed for
/// it, and a claim for another function is not held up by it.
pub proof fn lemma_one_build_in_flight(in_flight: Set<u32>, fn_oid: u32, other: u32)
    requires
        other != fn_oid,
    ensures
        in_flight.insert(fn_oid).contains(fn_oid),
        in_flight.insert(fn_oid).contains(other) == in_flight.contains(other),
        !in_flight.insert(fn_oid).remove(fn_oid).contains(fn_oid),
{
}

} // verus!
