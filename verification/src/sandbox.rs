//! One call into the sandbox, step by step. The caller owns the sandbox and
//! does what each step asks of it: compile a module, instantiate it, allocate
//! guest memory, write to it, call the entry point, read guest memory. After
//! each action it reports what came of it, and is told the next one, until the
//! call returns a value, returns nothing, or fails.
//!
//! A compiled module is kept and used again for as long as the definition it
//! was compiled from is the current one. Every call gets an instance of its
//! own, which the caller drops when the call is over.

use vstd::prelude::*;
use vstd::bytes::spec_u64_from_le_bytes;
use crate::cache::{ModuleCache, ModuleEntry};
use crate::marshal::{
    address_word, copy_bytes, decode_return, decoded_return, frame_length, handle_argument,
    marshal_arguments, marshalled_all, marshalled_items, return_step, unmarshal_result, HostData,
    HostValue, MarshalError, Marshalled, MarshalledData, ReturnStep, ReturnStepData, Val,
    HANDLE_ALIGNMENT,
};
use crate::types::SemanticType;

verus! {

broadcast use vstd::std_specs::hash::group_hash_axioms;

/// Where a call stands.
pub enum CallState {
    /// Nothing has happened yet.
    Start,
    /// The module is being compiled. The arguments wait.
    Compiling { values: Vec<Option<HostValue>> },
    /// The module is being instantiated. The arguments are marshalled.
    Instantiating { items: Vec<Marshalled>, return_type: SemanticType },
    /// The guest has been asked for memory for the argument at `next`. The
    /// arguments before it are in `args` already.
    Allocating { items: Vec<Marshalled>, args: Vec<Val>, next: usize, return_type: SemanticType },
    /// The encoding of the argument at `next` is being written to `address`.
    Writing {
        items: Vec<Marshalled>,
        args: Vec<Val>,
        next: usize,
        address: u64,
        return_type: SemanticType,
    },
    /// The entry point has been called.
    Calling { return_type: SemanticType },
    /// The length prefix of the result is being read. What it counts lies at
    /// `body`.
    ReadingLength { body: u64, return_type: SemanticType },
    /// The encoding of the result, `length` bytes long, is being read.
    ReadingBody { length: u64, return_type: SemanticType },
    /// The call is over.
    Done,
}

/// What the sandbox reports.
pub enum CallEvent {
    /// The call is to begin, with these arguments, for a function that is
    /// strict or not.
    Begin { is_strict: bool, values: Vec<Option<HostValue>> },
    /// The module is compiled; this is its entry for the cache.
    Compiled(ModuleEntry),
    /// The module is instantiated.
    Instantiated,
    /// The guest has allocated memory at this address.
    Allocated(u64),
    /// The bytes are written.
    Written,
    /// The entry point returned, leaving these results.
    Returned(Vec<Val>),
    /// These bytes were read.
    Read(Vec<u8>),
}

/// What the caller is to do next.
pub enum CallAction {
    /// Compile the module of the function from its current definition, make
    /// its cache entry, and report it. A module that was kept for an older
    /// definition has left the cache; drop it.
    Compile { stale: Option<u64> },
    /// Make a fresh instance of this module, with a store of its own, for
    /// this call alone.
    Instantiate { module: u64 },
    /// Ask the guest for `len` bytes of memory with this alignment, and report
    /// the address.
    Allocate { len: u64, align: u64 },
    /// Write the bytes to guest memory at `address`.
    Write { address: u64, bytes: Vec<u8> },
    /// Call the entry point with these arguments and result slots, and report
    /// the results.
    Call { args: Vec<Val>, results: Vec<Val> },
    /// Read `len` bytes of guest memory at `address`, and report them.
    Read { address: u64, len: u64 },
    /// The call returned this value.
    Return(HostValue),
    /// The function is strict and an argument was absent: the result is
    /// absent, and nothing was compiled, instantiated or called.
    ReturnNull,
    /// The call failed.
    Fail(MarshalError),
}

/// What a state holds.
pub enum CallStateData {
    Start,
    Compiling { values: Seq<Option<HostValue>> },
    Instantiating { items: Seq<MarshalledData>, return_type: SemanticType },
    Allocating { items: Seq<MarshalledData>, args: Seq<Val>, next: int, return_type: SemanticType },
    Writing {
        items: Seq<MarshalledData>,
        args: Seq<Val>,
        next: int,
        address: u64,
        return_type: SemanticType,
    },
    Calling { return_type: SemanticType },
    ReadingLength { body: u64, return_type: SemanticType },
    ReadingBody { length: u64, return_type: SemanticType },
    Done,
}

/// What an action holds.
pub enum CallActionData {
    Compile { stale: Option<u64> },
    Instantiate { module: u64 },
    Allocate { len: u64, align: u64 },
    Write { address: u64, bytes: Seq<u8> },
    Call { args: Seq<Val>, results: Seq<Val> },
    Read { address: u64, len: u64 },
    Return(HostData),
    ReturnNull,
    Fail(MarshalError),
}

impl View for CallState {
    type V = CallStateData;

    open spec fn view(&self) -> CallStateData {
        match self {
            CallState::Start => CallStateData::Start,
            CallState::Compiling { values } => CallStateData::Compiling { values: values@ },
            CallState::Instantiating { items, return_type } => CallStateData::Instantiating {
                items: marshalled_items(items@),
                return_type: *return_type,
            },
            CallState::Allocating { items, args, next, return_type } => CallStateData::Allocating {
                items: marshalled_items(items@),
                args: args@,
                next: *next as int,
                return_type: *return_type,
            },
            CallState::Writing { items, args, next, address, return_type } => {
                CallStateData::Writing {
                    items: marshalled_items(items@),
                    args: args@,
                    next: *next as int,
                    address: *address,
                    return_type: *return_type,
                }
            },
            CallState::Calling { return_type } => CallStateData::Calling {
                return_type: *return_type,
            },
            CallState::ReadingLength { body, return_type } => CallStateData::ReadingLength {
                body: *body,
                return_type: *return_type,
            },
            CallState::ReadingBody { length, return_type } => CallStateData::ReadingBody {
                length: *length,
                return_type: *return_type,
            },
            CallState::Done => CallStateData::Done,
        }
    }
}

impl View for CallAction {
    type V = CallActionData;

    open spec fn view(&self) -> CallActionData {
        match self {
            CallAction::Compile { stale } => CallActionData::Compile { stale: *stale },
            CallAction::Instantiate { module } => CallActionData::Instantiate { module: *module },
            CallAction::Allocate { len, align } => CallActionData::Allocate {
                len: *len,
                align: *align,
            },
            CallAction::Write { address, bytes } => CallActionData::Write {
                address: *address,
                bytes: bytes@,
            },
            CallAction::Call { args, results } => CallActionData::Call {
                args: args@,
                results: results@,
            },
            CallAction::Read { address, len } => CallActionData::Read {
                address: *address,
                len: *len,
            },
            CallAction::Return(v) => CallActionData::Return(v@),
            CallAction::ReturnNull => CallActionData::ReturnNull,
            CallAction::Fail(e) => CallActionData::Fail(*e),
        }
    }
}

/// The end of a call that failed.
pub open spec fn failed(e: MarshalError) -> (CallStateData, CallActionData) {
    (CallStateData::Done, CallActionData::Fail(e))
}

/// Whether any argument is absent.
pub open spec fn any_absent(values: Seq<Option<HostValue>>) -> bool {
    exists|i: int| 0 <= i < values.len() && (#[trigger] values[i]) is None
}

/// Whether the cache holds a module for the function that was compiled from
/// the current version of its definition.
pub open spec fn holds_current(entries: Map<u32, ModuleEntry>, fn_oid: u32, current_xmin: u32) -> bool {
    entries.contains_key(fn_oid) && entries[fn_oid].xmin == current_xmin
}

/// What follows once a module for the current definition is at hand: the
/// arguments are marshalled under the parameter types that the module was
/// compiled with, and a fresh instance is asked for.
pub open spec fn begin_call(fn_oid: u32, entry: ModuleEntry, values: Seq<Option<HostValue>>) -> (
    CallStateData,
    CallActionData,
) {
    match marshalled_all(fn_oid, entry.arg_types@, values, entry.arg_types@.len() as int) {
        Ok(items) => (
            CallStateData::Instantiating { items, return_type: entry.return_type },
            CallActionData::Instantiate { module: entry.module },
        ),
        Err(e) => failed(e),
    }
}

/// What follows once the arguments before `next` are in `args`: primitive
/// arguments are taken as they are, up to the first encoded one, for which the
/// guest is asked for memory; when none is left, the entry point is called,
/// with one slot for its result.
pub open spec fn advance(
    items: Seq<MarshalledData>,
    args: Seq<Val>,
    next: int,
    return_type: SemanticType,
) -> (CallStateData, CallActionData)
    decreases items.len() - next,
{
    if next < 0 || next >= items.len() {
        (
            CallStateData::Calling { return_type },
            CallActionData::Call { args, results: seq![Val::ExternRef] },
        )
    } else {
        match items[next] {
            MarshalledData::ByValue(v) => advance(items, args.push(v), next + 1, return_type),
            MarshalledData::ByHandle(bytes) => (
                CallStateData::Allocating { items, args, next, return_type },
                CallActionData::Allocate { len: bytes.len() as u64, align: 8 },
            ),
        }
    }
}

/// The next state and action of a call, for a state and what the sandbox
/// reported.
///
/// A strict function that is handed an absent argument returns nothing, and
/// that is all. Otherwise the module that the cache holds for the current
/// definition is instantiated; where it holds none, or one for an older
/// definition, the module is compiled first. Then the arguments go in: each
/// encoded argument is allocated for, written, and passed as the address it
/// was written to. When all are in place the entry point is called. A
/// primitive result is returned as it comes. An encoded result is read in two
/// steps: first the eight bytes of its length prefix, then exactly as many
/// bytes as the prefix counts, from directly behind it. A report that does not
/// fit the state ends the call.
pub open spec fn call_step(
    entries: Map<u32, ModuleEntry>,
    fn_oid: u32,
    current_xmin: u32,
    state: CallStateData,
    event: CallEvent,
) -> (CallStateData, CallActionData) {
    match (state, event) {
        (CallStateData::Start, CallEvent::Begin { is_strict, values }) => {
            if is_strict && any_absent(values@) {
                (CallStateData::Done, CallActionData::ReturnNull)
            } else if holds_current(entries, fn_oid, current_xmin) {
                begin_call(fn_oid, entries[fn_oid], values@)
            } else {
                (
                    CallStateData::Compiling { values: values@ },
                    CallActionData::Compile {
                        stale: if entries.contains_key(fn_oid) {
                            Some(entries[fn_oid].module)
                        } else {
                            None
                        },
                    },
                )
            }
        },
        (CallStateData::Compiling { values }, CallEvent::Compiled(entry)) => {
            if entry.xmin == current_xmin {
                begin_call(fn_oid, entry, values)
            } else {
                failed(MarshalError::OutOfOrder)
            }
        },
        (CallStateData::Instantiating { items, return_type }, CallEvent::Instantiated) => advance(
            items,
            Seq::<Val>::empty(),
            0,
            return_type,
        ),
        (
            CallStateData::Allocating { items, args, next, return_type },
            CallEvent::Allocated(address),
        ) => {
            if 0 <= next < items.len() {
                match items[next] {
                    MarshalledData::ByHandle(bytes) => (
                        CallStateData::Writing { items, args, next, address, return_type },
                        CallActionData::Write { address, bytes },
                    ),
                    MarshalledData::ByValue(_) => failed(MarshalError::OutOfOrder),
                }
            } else {
                failed(MarshalError::OutOfOrder)
            }
        },
        (CallStateData::Writing { items, args, next, address, return_type }, CallEvent::Written) => {
            if 0 <= next < items.len() {
                advance(items, args.push(Val::I64(address_word(address))), next + 1, return_type)
            } else {
                failed(MarshalError::OutOfOrder)
            }
        },
        (CallStateData::Calling { return_type }, CallEvent::Returned(results)) => match return_step(
            return_type,
            results@,
        ) {
            Ok(ReturnStepData::Value(v)) => (CallStateData::Done, CallActionData::Return(v)),
            Ok(ReturnStepData::Encoded { address, body }) => (
                CallStateData::ReadingLength { body, return_type },
                CallActionData::Read { address, len: 8 },
            ),
            Err(e) => failed(e),
        },
        (CallStateData::ReadingLength { body, return_type }, CallEvent::Read(bytes)) => {
            if bytes@.len() != 8 {
                failed(MarshalError::BadFrame)
            } else if spec_u64_from_le_bytes(bytes@) > u64::MAX - body {
                failed(MarshalError::AddressOverflow)
            } else {
                (
                    CallStateData::ReadingBody {
                        length: spec_u64_from_le_bytes(bytes@),
                        return_type,
                    },
                    CallActionData::Read { address: body, len: spec_u64_from_le_bytes(bytes@) },
                )
            }
        },
        (CallStateData::ReadingBody { length, return_type }, CallEvent::Read(bytes)) => {
            if bytes@.len() != length {
                failed(MarshalError::BadFrame)
            } else {
                match decoded_return(return_type, bytes@) {
                    Ok(v) => (CallStateData::Done, CallActionData::Return(v)),
                    Err(e) => failed(e),
                }
            }
        },
        _ => failed(MarshalError::OutOfOrder),
    }
}

/// What a step does to the cache. A call whose module must be compiled takes
/// the stale module out when it begins, and puts the new one in when it is
/// compiled. No other step touches the cache, and no step touches the module
/// of another function.
pub open spec fn cache_step(
    entries: Map<u32, ModuleEntry>,
    fn_oid: u32,
    current_xmin: u32,
    state: CallStateData,
    event: CallEvent,
) -> Map<u32, ModuleEntry> {
    match (state, event) {
        (CallStateData::Start, CallEvent::Begin { is_strict, values }) => {
            if is_strict && any_absent(values@) {
                entries
            } else if holds_current(entries, fn_oid, current_xmin) {
                entries
            } else {
                entries.remove(fn_oid)
            }
        },
        (CallStateData::Compiling { values }, CallEvent::Compiled(entry)) => {
            if entry.xmin == current_xmin {
                entries.insert(fn_oid, entry)
            } else {
                entries
            }
        },
        _ => entries,
    }
}

fn fail(e: MarshalError) -> (r: (CallState, CallAction))
    ensures
        (r.0@, r.1@) == failed(e),
{
    (CallState::Done, CallAction::Fail(e))
}

fn has_absent(values: &Vec<Option<HostValue>>) -> (r: bool)
    ensures
        r == any_absent(values@),
{
    let mut i: usize = 0;
    while i < values.len()
        invariant
            i <= values.len(),
            forall|k: int| 0 <= k < i ==> (#[trigger] values@[k]) is Some,
        decreases values.len() - i,
    {
        if values[i].is_none() {
            return true;
        }
        i = i + 1;
    }
    false
}

fn begin(fn_oid: u32, entry: &ModuleEntry, values: &Vec<Option<HostValue>>) -> (r: (
    CallState,
    CallAction,
))
    ensures
        (r.0@, r.1@) == begin_call(fn_oid, *entry, values@),
{
    match marshal_arguments(fn_oid, &entry.arg_types, values) {
        Ok(items) => (
            CallState::Instantiating { items, return_type: entry.return_type },
            CallAction::Instantiate { module: entry.module },
        ),
        Err(e) => fail(e),
    }
}

fn advance_call(items: Vec<Marshalled>, args: Vec<Val>, next: usize, return_type: SemanticType) -> (r:
    (CallState, CallAction))
    ensures
        (r.0@, r.1@) == advance(marshalled_items(items@), args@, next as int, return_type),
{
    let ghost given = args@;
    let mut args = args;
    let mut i: usize = next;
    let mut pending: Option<u64> = None;
    while i < items.len() && pending.is_none()
        invariant
            advance(marshalled_items(items@), args@, i as int, return_type) == advance(
                marshalled_items(items@),
                given,
                next as int,
                return_type,
            ),
            match pending {
                Some(len) => i < items.len() && marshalled_items(items@)[i as int]
                    == MarshalledData::ByHandle(items@[i as int]->ByHandle_0@) && items@[i as int]
                    is ByHandle && len == items@[i as int]->ByHandle_0@.len() as u64,
                None => true,
            },
        decreases
                2 * (items.len() - i) + if pending is None {
                    1int
                } else {
                    0int
                },
    {
        match &items[i] {
            Marshalled::ByValue(v) => {
                args.push(*v);
                i = i + 1;
            },
            Marshalled::ByHandle(frame) => {
                pending = Some(frame.len() as u64);
            },
        }
    }
    match pending {
        Some(len) => (
            CallState::Allocating { items, args, next: i, return_type },
            CallAction::Allocate { len, align: HANDLE_ALIGNMENT },
        ),
        None => {
            let mut results: Vec<Val> = Vec::new();
            results.push(Val::ExternRef);
            assert(results@ =~= seq![Val::ExternRef]);
            (CallState::Calling { return_type }, CallAction::Call { args, results })
        },
    }
}

/// Takes a call one step further.
pub fn execute_wasm_function(
    cache: &mut ModuleCache,
    fn_oid: u32,
    current_xmin: u32,
    state: CallState,
    event: CallEvent,
) -> (r: (CallState, CallAction))
    ensures
        (r.0@, r.1@) == call_step(old(cache).entries@, fn_oid, current_xmin, state@, event),
        final(cache).entries@ == cache_step(
            old(cache).entries@,
            fn_oid,
            current_xmin,
            state@,
            event,
        ),
{
    match state {
        CallState::Start => match event {
            CallEvent::Begin { is_strict, values } => {
                if is_strict && has_absent(&values) {
                    return (CallState::Done, CallAction::ReturnNull);
                }
                let current = match cache.get(fn_oid) {
                    Some(entry) => entry.xmin == current_xmin,
                    None => false,
                };
                if current {
                    match cache.get(fn_oid) {
                        Some(entry) => begin(fn_oid, entry, &values),
                        None => fail(MarshalError::OutOfOrder),
                    }
                } else {
                    let stale = match cache.unload_function(fn_oid) {
                        Some(entry) => Some(entry.module),
                        None => None,
                    };
                    (CallState::Compiling { values }, CallAction::Compile { stale })
                }
            },
            _ => fail(MarshalError::OutOfOrder),
        },
        CallState::Compiling { values } => match event {
            CallEvent::Compiled(entry) => {
                if entry.xmin == current_xmin {
                    let r = begin(fn_oid, &entry, &values);
                    cache.insert(fn_oid, entry);
                    r
                } else {
                    fail(MarshalError::OutOfOrder)
                }
            },
            _ => fail(MarshalError::OutOfOrder),
        },
        CallState::Instantiating { items, return_type } => match event {
            CallEvent::Instantiated => advance_call(items, Vec::new(), 0, return_type),
            _ => fail(MarshalError::OutOfOrder),
        },
        CallState::Allocating { items, args, next, return_type } => match event {
            CallEvent::Allocated(address) => {
                if next < items.len() {
                    let bytes = match &items[next] {
                        Marshalled::ByHandle(frame) => Some(copy_bytes(frame, 0, frame.len())),
                        Marshalled::ByValue(_) => None,
                    };
                    match bytes {
                        Some(bytes) => {
                            assert(bytes@ =~= items@[next as int]->ByHandle_0@);
                            (
                                CallState::Writing { items, args, next, address, return_type },
                                CallAction::Write { address, bytes },
                            )
                        },
                        None => fail(MarshalError::OutOfOrder),
                    }
                } else {
                    fail(MarshalError::OutOfOrder)
                }
            },
            _ => fail(MarshalError::OutOfOrder),
        },
        CallState::Writing { items, args, next, address, return_type } => match event {
            CallEvent::Written => {
                if next < items.len() {
                    let mut args = args;
                    args.push(handle_argument(address));
                    advance_call(items, args, next + 1, return_type)
                } else {
                    fail(MarshalError::OutOfOrder)
                }
            },
            _ => fail(MarshalError::OutOfOrder),
        },
        CallState::Calling { return_type } => match event {
            CallEvent::Returned(results) => match unmarshal_result(&return_type, &results) {
                Ok(ReturnStep::Value(v)) => (CallState::Done, CallAction::Return(v)),
                Ok(ReturnStep::Encoded { address, body }) => (
                    CallState::ReadingLength { body, return_type },
                    CallAction::Read { address, len: 8 },
                ),
                Err(e) => fail(e),
            },
            _ => fail(MarshalError::OutOfOrder),
        },
        CallState::ReadingLength { body, return_type } => match event {
            CallEvent::Read(bytes) => match frame_length(&bytes) {
                Ok(length) => {
                    if length > u64::MAX - body {
                        fail(MarshalError::AddressOverflow)
                    } else {
                        (
                            CallState::ReadingBody { length, return_type },
                            CallAction::Read { address: body, len: length },
                        )
                    }
                },
                Err(e) => fail(e),
            },
            _ => fail(MarshalError::OutOfOrder),
        },
        CallState::ReadingBody { length, return_type } => match event {
            CallEvent::Read(bytes) => {
                if bytes.len() as u64 != length {
                    fail(MarshalError::BadFrame)
                } else {
                    match decode_return(&return_type, &bytes) {
                        Ok(v) => (CallState::Done, CallAction::Return(v)),
                        Err(e) => fail(e),
                    }
                }
            },
            _ => fail(MarshalError::OutOfOrder),
        },
        CallState::Done => fail(MarshalError::OutOfOrder),
    }
}

/// A strict function that is handed an absent argument returns nothing: no
/// module is compiled or instantiated for the call, no guest memory is asked
/// for, nothing is called, and the cache stays as it was.
pub proof fn lemma_strict_returns_null(
    entries: Map<u32, ModuleEntry>,
    fn_oid: u32,
    current_xmin: u32,
    values: Vec<Option<HostValue>>,
)
    requires
        any_absent(values@),
    ensures
        call_step(
            entries,
            fn_oid,
            current_xmin,
            CallStateData::Start,
            CallEvent::Begin { is_strict: true, values },
        ) == (CallStateData::Done, CallActionData::ReturnNull),
        cache_step(
            entries,
            fn_oid,
            current_xmin,
            CallStateData::Start,
            CallEvent::Begin { is_strict: true, values },
        ) == entries,
{
}

/// A step leaves the modules of all other functions as they were, and the
/// cache holds no function after it that it did not hold before, but for the
/// function that is called.
pub proof fn lemma_call_touches_one_function(
    entries: Map<u32, ModuleEntry>,
    fn_oid: u32,
    current_xmin: u32,
    state: CallStateData,
    event: CallEvent,
    other: u32,
)
    requires
        other != fn_oid,
    ensures
        cache_step(entries, fn_oid, current_xmin, state, event).contains_key(other)
            == entries.contains_key(other),
        entries.contains_key(other) ==> cache_step(entries, fn_oid, current_xmin, state, event)[other]
            == entries[other],
{
}

/// A module that the cache holds for the current definition is used as it
/// is: the call does not ask for it to be compiled again, and the cache stays
/// as it was.
pub proof fn lemma_current_module_is_kept(
    entries: Map<u32, ModuleEntry>,
    fn_oid: u32,
    current_xmin: u32,
    is_strict: bool,
    values: Vec<Option<HostValue>>,
)
    requires
        holds_current(entries, fn_oid, current_xmin),
    ensures
        !(call_step(
            entries,
            fn_oid,
            current_xmin,
            CallStateData::Start,
            CallEvent::Begin { is_strict, values },
        ).1 is Compile),
        cache_step(
            entries,
            fn_oid,
            current_xmin,
            CallStateData::Start,
            CallEvent::Begin { is_strict, values },
        ) == entries,
{
}

/// Only a module that was compiled from the current definition is ever
/// instantiated: the one that the cache holds for it, or the one that was just
/// compiled and is in the cache from then on. Once the definition has
/// changed, the module of the old one leaves the cache when the next call
/// begins, and is never instantiated again.
pub proof fn lemma_never_instantiates_stale(
    entries: Map<u32, ModuleEntry>,
    fn_oid: u32,
    current_xmin: u32,
    state: CallStateData,
    event: CallEvent,
    module: u64,
)
    requires
        call_step(entries, fn_oid, current_xmin, state, event).1 == (CallActionData::Instantiate {
            module,
        }),
    ensures
        holds_current(
            cache_step(entries, fn_oid, current_xmin, state, event),
            fn_oid,
            current_xmin,
        ),
        cache_step(entries, fn_oid, current_xmin, state, event)[fn_oid].module == module,
        state is Start || state is Compiling,
{
    if !(state is Start) && !(state is Compiling) {
        lemma_advance_never_instantiates(entries, fn_oid, current_xmin, state, event);
    }
}

/// Once the arguments go in, no further instance is asked for: a call has one
/// instance.
pub proof fn lemma_advance_never_instantiates(
    entries: Map<u32, ModuleEntry>,
    fn_oid: u32,
    current_xmin: u32,
    state: CallStateData,
    event: CallEvent,
)
    requires
        !(state is Start),
        !(state is Compiling),
    ensures
        !(call_step(entries, fn_oid, current_xmin, state, event).1 is Instantiate),
        !(call_step(entries, fn_oid, current_xmin, state, event).1 is Compile),
{
    match (state, event) {
        (CallStateData::Instantiating { items, return_type }, CallEvent::Instantiated) => {
            lemma_advance_action(items, Seq::<Val>::empty(), 0, return_type);
        },
        (CallStateData::Writing { items, args, next, address, return_type }, CallEvent::Written) => {
            lemma_advance_action(
                items,
                args.push(Val::I64(address_word(address))),
                next + 1,
                return_type,
            );
        },
        _ => {},
    }
}

proof fn lemma_advance_action(
    items: Seq<MarshalledData>,
    args: Seq<Val>,
    next: int,
    return_type: SemanticType,
)
    ensures
        advance(items, args, next, return_type).1 is Allocate || advance(
            items,
            args,
            next,
            return_type,
        ).1 is Call,
    decreases items.len() - next,
{
    if 0 <= next < items.len() {
        match items[next] {
            MarshalledData::ByValue(v) => lemma_advance_action(
                items,
                args.push(v),
                next + 1,
                return_type,
            ),
            MarshalledData::ByHandle(_) => {},
        }
    }
}

} // verus!
