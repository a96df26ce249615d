//! Value passing across the boundary of the sandbox. Primitive values travel as
//! machine words. Any other value is encoded, prefixed with its length as eight
//! little-endian bytes, written into memory that the guest allocated, and
//! passed as the address of that memory.
//!
//! The functions here decide what crosses the boundary and in which form. The
//! caller owns the sandbox: it allocates, writes, calls and reads as they say.

use vstd::prelude::*;
use vstd::bytes::{
    lemma_auto_spec_u64_to_from_le_bytes, spec_u64_from_le_bytes, spec_u64_to_le_bytes,
    u64_from_le_bytes, u64_to_le_bytes,
};
use vstd::utf8::{decode_utf8, encode_utf8, valid_utf8};
use crate::types::{BuiltinType, MappingError, PgOid, SemanticType, ValType};

verus! {

/// A machine value that the sandbox passes in a call.
#[derive(Clone, Copy, Debug, PartialEq, Eq, Structural)]
pub enum Val {
    I32(i32),
    I64(i64),
    /// A 32-bit floating point value, by its bits.
    F32(u32),
    /// A 64-bit floating point value, by its bits.
    F64(u64),
    V128(u128),
    /// A null function reference.
    FuncRef,
    /// A null reference to a host object.
    ExternRef,
}

/// A value on the host side of the boundary.
#[derive(Clone, Debug, PartialEq, Eq)]
pub enum HostValue {
    Int4(i32),
    Int8(i64),
    Text(String),
}

/// What a host value holds.
pub enum HostData {
    Int4(i32),
    Int8(i64),
    Text(Seq<char>),
}

impl View for HostValue {
    type V = HostData;

    open spec fn view(&self) -> HostData {
        match self {
            HostValue::Int4(v) => HostData::Int4(*v),
            HostValue::Int8(v) => HostData::Int8(*v),
            HostValue::Text(s) => HostData::Text(s@),
        }
    }
}

/// An argument in the form in which it crosses the boundary.
#[derive(Clone, Debug, PartialEq, Eq)]
pub enum Marshalled {
    /// A machine word, passed as it is.
    ByValue(Val),
    /// A length-prefixed encoding. The caller asks the guest for that many
    /// bytes, aligned to eight, writes the bytes there, and passes the address.
    ByHandle(Vec<u8>),
}

/// What a marshalled argument holds.
pub enum MarshalledData {
    ByValue(Val),
    ByHandle(Seq<u8>),
}

impl View for Marshalled {
    type V = MarshalledData;

    open spec fn view(&self) -> MarshalledData {
        match self {
            Marshalled::ByValue(v) => MarshalledData::ByValue(*v),
            Marshalled::ByHandle(b) => MarshalledData::ByHandle(b@),
        }
    }
}

/// Why a value could not cross the boundary.
#[derive(Clone, Copy, Debug, PartialEq, Eq, Structural)]
pub enum MarshalError {
    /// The type's identifier names no known type.
    Unsupported(MappingError),
    /// The type is known, but no encoding is defined for it.
    NoEncoding,
    /// The argument at this position of this function is absent.
    NullArgument(u32, u64),
    /// The value is not of the declared type.
    TypeMismatch,
    /// The call did not leave exactly one result.
    ResultCount,
    /// A length prefix is not eight bytes long.
    BadFrame,
    /// The address of an encoding, plus its prefix, leaves the address space.
    AddressOverflow,
    /// The bytes are not an encoding of a value of the declared type.
    BadEncoding,
    /// What the sandbox reported does not fit the point at which the call
    /// stands.
    OutOfOrder,
}

/// A payload behind its length, written as eight little-endian bytes.
pub open spec fn packed(payload: Seq<u8>) -> Seq<u8> {
    spec_u64_to_le_bytes(payload.len() as u64) + payload
}

/// The payload of a frame: the bytes that follow the length prefix, as many as
/// the prefix says. `None` where the prefix is incomplete or promises more
/// bytes than follow it.
pub open spec fn unpacked(frame: Seq<u8>) -> Option<Seq<u8>> {
    if frame.len() < 8 {
        None
    } else {
        let n = spec_u64_from_le_bytes(frame.take(8)) as int;
        if 8 + n > frame.len() {
            None
        } else {
            Some(frame.subrange(8, 8 + n))
        }
    }
}

/// Puts a payload behind its length.
pub fn pack_with_len(payload: Vec<u8>) -> (frame: Vec<u8>)
    ensures
        frame@ == packed(payload@),
{
    let mut frame = u64_to_le_bytes(payload.len() as u64);
    let mut payload = payload;
    frame.append(&mut payload);
    frame
}

/// Takes the payload out of a frame.
pub fn unpack_with_len(frame: &Vec<u8>) -> (payload: Option<Vec<u8>>)
    ensures
        payload is Some == unpacked(frame@) is Some,
        payload matches Some(p) ==> Some(p@) == unpacked(frame@),
{
    if frame.len() < 8 {
        return None;
    }
    let header = copy_bytes(frame, 0, 8);
    assert(header@ =~= frame@.take(8));
    let n = u64_from_le_bytes(header.as_slice());
    if n > (frame.len() - 8) as u64 {
        return None;
    }
    let end: usize = 8 + n as usize;
    Some(copy_bytes(frame, 8, end))
}

/// A copy of `v[lo..hi]`.
pub fn copy_bytes(v: &Vec<u8>, lo: usize, hi: usize) -> (t: Vec<u8>)
    requires
        lo <= hi <= v.len(),
    ensures
        t@ == v@.subrange(lo as int, hi as int),
{
    let mut t: Vec<u8> = Vec::new();
    let mut i: usize = lo;
    while i < hi
        invariant
            lo <= i <= hi <= v.len(),
            t@ == v@.subrange(lo as int, i as int),
        decreases hi - i,
    {
        t.push(v[i]);
        assert(v@.subrange(lo as int, i + 1) =~= v@.subrange(lo as int, i as int).push(v@[i as int]));
        i = i + 1;
    }
    t
}

/// Unpacking a frame that was packed gives the payload back.
pub proof fn lemma_unpack_pack(payload: Seq<u8>)
    requires
        payload.len() <= u64::MAX,
    ensures
        unpacked(packed(payload)) == Some(payload),
{
    lemma_auto_spec_u64_to_from_le_bytes();
    let frame = packed(payload);
    let header = spec_u64_to_le_bytes(payload.len() as u64);
    assert(frame.take(8) =~= header);
    assert(frame.subrange(8, 8 + payload.len() as int) =~= payload);
}

/// Packing the payload of a frame gives the frame back, provided nothing
/// follows the payload in it.
pub proof fn lemma_pack_unpack(frame: Seq<u8>)
    requires
        unpacked(frame) is Some,
        frame.len() == 8 + unpacked(frame).unwrap().len(),
    ensures
        packed(unpacked(frame).unwrap()) == frame,
{
    lemma_auto_spec_u64_to_from_le_bytes();
    let n = spec_u64_from_le_bytes(frame.take(8));
    assert(spec_u64_to_le_bytes(n) == frame.take(8));
    assert(packed(unpacked(frame).unwrap()) =~= frame);
}

/// The encoding of a text: the length of its UTF-8 form as eight little-endian
/// bytes, then that form.
pub open spec fn encoded_text(s: Seq<char>) -> Seq<u8> {
    spec_u64_to_le_bytes(encode_utf8(s).len() as u64) + encode_utf8(s)
}

/// The text that a byte sequence encodes: eight little-endian bytes of length,
/// then that many bytes of valid UTF-8. Bytes after those are ignored. `None`
/// where the length is incomplete, promises more bytes than follow, or the
/// bytes are not valid UTF-8.
pub open spec fn decoded_text(bytes: Seq<u8>) -> Option<Seq<char>> {
    if bytes.len() < 8 {
        None
    } else {
        let n = spec_u64_from_le_bytes(bytes.take(8)) as int;
        if 8 + n > bytes.len() {
            None
        } else if !valid_utf8(bytes.subrange(8, 8 + n)) {
            None
        } else {
            Some(decode_utf8(bytes.subrange(8, 8 + n)))
        }
    }
}

/// Calls `bincode::serialize` on a string. Trusted: the call succeeds, and the
/// bytes are the length of the string's UTF-8 form as eight little-endian
/// bytes, followed by that form.
#[verifier::external_body]
fn serialize_text(s: &String) -> (r: Option<Vec<u8>>)
    ensures
        r is Some,
        r matches Some(b) ==> b@ == encoded_text(s@),
{
    bincode::serialize(s).ok()
}

/// Calls `bincode::deserialize` for a string. Trusted: the call succeeds exactly
/// on the byte sequences that [`decoded_text`] gives a text for, and returns
/// that text.
#[verifier::external_body]
fn deserialize_text(bytes: &Vec<u8>) -> (r: Option<String>)
    ensures
        r is Some == decoded_text(bytes@) is Some,
        r matches Some(s) ==> Some(s@) == decoded_text(bytes@),
{
    bincode::deserialize::<String>(bytes.as_slice()).ok()
}

/// Encodes a text.
pub fn encode_text(s: &String) -> (bytes: Vec<u8>)
    ensures
        bytes@ == encoded_text(s@),
{
    match serialize_text(s) {
        Some(bytes) => bytes,
        None => Vec::new(),
    }
}

/// Decodes a text, or returns `None` where the bytes encode none.
pub fn decode_text(bytes: &Vec<u8>) -> (r: Option<String>)
    ensures
        r is Some == decoded_text(bytes@) is Some,
        r matches Some(s) ==> Some(s@) == decoded_text(bytes@),
{
    deserialize_text(bytes)
}

/// Decoding an encoded text gives the text back.
pub proof fn lemma_decode_encode(s: Seq<char>)
    requires
        encode_utf8(s).len() <= u64::MAX,
    ensures
        decoded_text(encoded_text(s)) == Some(s),
{
    lemma_auto_spec_u64_to_from_le_bytes();
    let body = encode_utf8(s);
    let bytes = encoded_text(s);
    assert(bytes.take(8) =~= spec_u64_to_le_bytes(body.len() as u64));
    assert(bytes.subrange(8, 8 + body.len() as int) =~= body);
    vstd::utf8::encode_utf8_valid_utf8(s);
    vstd::utf8::encode_utf8_decode_utf8(s);
}

/// Encoding a decoded text gives the bytes back, provided nothing follows the
/// text in them.
pub proof fn lemma_encode_decode(bytes: Seq<u8>)
    requires
        decoded_text(bytes) is Some,
        bytes.len() == 8 + spec_u64_from_le_bytes(bytes.take(8)),
    ensures
        encoded_text(decoded_text(bytes).unwrap()) == bytes,
{
    lemma_auto_spec_u64_to_from_le_bytes();
    let n = spec_u64_from_le_bytes(bytes.take(8));
    let body = bytes.subrange(8, 8 + n);
    vstd::utf8::decode_utf8_encode_utf8(body);
    assert(spec_u64_to_le_bytes(n) == bytes.take(8));
    assert(encoded_text(decoded_text(bytes).unwrap()) =~= bytes);
}

/// A 64-bit address as the signed word that carries it in a call.
pub open spec fn address_word(address: u64) -> i64 {
    if address <= i64::MAX {
        address as i64
    } else {
        (address - 0x1_0000_0000_0000_0000) as i64
    }
}

/// The 64-bit address that a signed word carries.
pub open spec fn word_address(word: i64) -> u64 {
    if word >= 0 {
        word as u64
    } else {
        (word + 0x1_0000_0000_0000_0000) as u64
    }
}

/// The machine value that passes an address into a call.
pub fn handle_argument(address: u64) -> (v: Val)
    ensures
        v == Val::I64(address_word(address)),
        word_address(address_word(address)) == address,
{
    if address <= 0x7fff_ffff_ffff_ffff {
        Val::I64(address as i64)
    } else {
        let low: i64 = (address - 0x8000_0000_0000_0000) as i64;
        Val::I64(low + i64::MIN)
    }
}

/// The address that a signed word carries.
pub fn handle_address(word: i64) -> (address: u64)
    ensures
        address == word_address(word),
{
    if word >= 0 {
        word as u64
    } else {
        let low: u64 = (word - i64::MIN) as u64;
        low + 0x8000_0000_0000_0000
    }
}

/// Whether a type is the text type, the one type for which an encoding is
/// defined.
pub open spec fn is_text(ty: SemanticType) -> bool {
    ty.oid == PgOid::BuiltIn(BuiltinType::Text) && ty.element == PgOid::Invalid
}

/// The form in which an argument crosses the boundary. The type decides first:
/// an unknown type, or an encoded type other than text, is refused whatever
/// the value. Then the value must be present and of that type.
pub open spec fn marshalled(ty: SemanticType, fn_oid: u32, idx: int, value: Option<HostValue>) -> Result<
    MarshalledData,
    MarshalError,
> {
    match ty.wire_kind() {
        Err(e) => Err(MarshalError::Unsupported(e)),
        Ok(Some(ValType::I32)) => match value {
            None => Err(MarshalError::NullArgument(fn_oid, idx as u64)),
            Some(HostValue::Int4(v)) => Ok(MarshalledData::ByValue(Val::I32(v))),
            Some(_) => Err(MarshalError::TypeMismatch),
        },
        Ok(Some(ValType::I64)) => match value {
            None => Err(MarshalError::NullArgument(fn_oid, idx as u64)),
            Some(HostValue::Int8(v)) => Ok(MarshalledData::ByValue(Val::I64(v))),
            Some(_) => Err(MarshalError::TypeMismatch),
        },
        Ok(Some(_)) => Err(MarshalError::NoEncoding),
        Ok(None) => if !is_text(ty) {
            Err(MarshalError::NoEncoding)
        } else {
            match value {
                None => Err(MarshalError::NullArgument(fn_oid, idx as u64)),
                Some(HostValue::Text(s)) => Ok(MarshalledData::ByHandle(packed(encoded_text(s@)))),
                Some(_) => Err(MarshalError::TypeMismatch),
            }
        },
    }
}

fn type_is_text(ty: &SemanticType) -> (b: bool)
    ensures
        b == is_text(*ty),
{
    let base = match ty.oid {
        PgOid::BuiltIn(BuiltinType::Text) => true,
        _ => false,
    };
    let scalar = match ty.element {
        PgOid::Invalid => true,
        _ => false,
    };
    base && scalar
}

/// Marshals one argument and appends it to `buf`. On an error `buf` is left as
/// it was.
pub fn set_wasm_args(
    ty: &SemanticType,
    fn_oid: u32,
    idx: usize,
    value: &Option<HostValue>,
    buf: &mut Vec<Marshalled>,
) -> (r: Result<(), MarshalError>)
    ensures
        match r {
            Ok(()) => final(buf)@.len() == old(buf)@.len() + 1 && final(buf)@.take(
                old(buf)@.len() as int,
            ) == old(buf)@ && Ok::<MarshalledData, MarshalError>(final(buf)@.last()@)
                == marshalled(*ty, fn_oid, idx as int, *value),
            Err(e) => final(buf)@ == old(buf)@ && Err::<MarshalledData, MarshalError>(e)
                == marshalled(*ty, fn_oid, idx as int, *value),
        },
{
    let item = match ty.classify() {
        Err(e) => {
            return Err(MarshalError::Unsupported(e));
        },
        Ok(Some(ValType::I32)) => match value {
            None => {
                return Err(MarshalError::NullArgument(fn_oid, idx as u64));
            },
            Some(HostValue::Int4(v)) => Marshalled::ByValue(Val::I32(*v)),
            Some(_) => {
                return Err(MarshalError::TypeMismatch);
            },
        },
        Ok(Some(ValType::I64)) => match value {
            None => {
                return Err(MarshalError::NullArgument(fn_oid, idx as u64));
            },
            Some(HostValue::Int8(v)) => Marshalled::ByValue(Val::I64(*v)),
            Some(_) => {
                return Err(MarshalError::TypeMismatch);
            },
        },
        Ok(Some(_)) => {
            return Err(MarshalError::NoEncoding);
        },
        Ok(None) => {
            if !type_is_text(ty) {
                return Err(MarshalError::NoEncoding);
            }
            match value {
                None => {
                    return Err(MarshalError::NullArgument(fn_oid, idx as u64));
                },
                Some(HostValue::Text(s)) => Marshalled::ByHandle(pack_with_len(encode_text(s))),
                Some(_) => {
                    return Err(MarshalError::TypeMismatch);
                },
            }
        },
    };
    buf.push(item);
    assert(buf@.take(old(buf)@.len() as int) =~= old(buf)@);
    Ok(())
}

/// Reserves the slot that the call writes its one result to.
pub fn set_wasm_ret(ty: &SemanticType, buf: &mut Vec<Val>)
    ensures
        final(buf)@ == old(buf)@.push(Val::ExternRef),
{
    buf.push(Val::ExternRef)
}

/// The value at a position, or none where the position is past the end.
pub open spec fn value_at(values: Seq<Option<HostValue>>, idx: int) -> Option<HostValue> {
    if 0 <= idx < values.len() {
        values[idx]
    } else {
        None
    }
}

/// What a list of marshalled arguments holds.
pub open spec fn marshalled_items(v: Seq<Marshalled>) -> Seq<MarshalledData> {
    v.map_values(|m: Marshalled| m@)
}

/// The first `n` arguments of a call in the form in which they cross the
/// boundary, or the error of the first among them that cannot cross it. An
/// argument without a value counts as absent.
pub open spec fn marshalled_all(
    fn_oid: u32,
    arg_types: Seq<SemanticType>,
    values: Seq<Option<HostValue>>,
    n: int,
) -> Result<Seq<MarshalledData>, MarshalError>
    decreases n,
{
    if n <= 0 {
        Ok(Seq::<MarshalledData>::empty())
    } else {
        match marshalled_all(fn_oid, arg_types, values, n - 1) {
            Err(e) => Err(e),
            Ok(before) => match marshalled(arg_types[n - 1], fn_oid, n - 1, value_at(values, n - 1)) {
                Ok(item) => Ok(before.push(item)),
                Err(e) => Err(e),
            },
        }
    }
}

/// An error among the first `i` arguments is the error of any longer prefix.
pub proof fn lemma_marshalled_all_error_stays(
    fn_oid: u32,
    arg_types: Seq<SemanticType>,
    values: Seq<Option<HostValue>>,
    i: int,
    n: int,
)
    requires
        i <= n,
        marshalled_all(fn_oid, arg_types, values, i) is Err,
    ensures
        marshalled_all(fn_oid, arg_types, values, n) == marshalled_all(fn_oid, arg_types, values, i),
    decreases n - i,
{
    if i < n {
        lemma_marshalled_all_error_stays(fn_oid, arg_types, values, i, n - 1);
    }
}

/// Marshals the arguments of a call, one per declared parameter type and in
/// their order. An argument without a value counts as absent. The first
/// argument that cannot cross the boundary decides the error.
pub fn marshal_arguments(
    fn_oid: u32,
    arg_types: &Vec<SemanticType>,
    values: &Vec<Option<HostValue>>,
) -> (r: Result<Vec<Marshalled>, MarshalError>)
    ensures
        match r {
            Ok(args) => Ok::<Seq<MarshalledData>, MarshalError>(marshalled_items(args@))
                == marshalled_all(fn_oid, arg_types@, values@, arg_types@.len() as int),
            Err(e) => Err::<Seq<MarshalledData>, MarshalError>(e) == marshalled_all(
                fn_oid,
                arg_types@,
                values@,
                arg_types@.len() as int,
            ),
        },
{
    let mut args: Vec<Marshalled> = Vec::new();
    let absent: Option<HostValue> = None;
    let mut i: usize = 0;
    assert(marshalled_items(args@) =~= Seq::<MarshalledData>::empty());
    while i < arg_types.len()
        invariant
            i <= arg_types.len(),
            absent is None,
            args@.len() == i,
            Ok::<Seq<MarshalledData>, MarshalError>(marshalled_items(args@)) == marshalled_all(
                fn_oid,
                arg_types@,
                values@,
                i as int,
            ),
        decreases arg_types.len() - i,
    {
        let value = if i < values.len() {
            &values[i]
        } else {
            &absent
        };
        let ghost before = args@;
        match set_wasm_args(&arg_types[i], fn_oid, i, value, &mut args) {
            Ok(()) => {
                assert(marshalled_items(args@) =~= marshalled_items(before).push(args@.last()@))
                    by {
                    assert forall|k: int| 0 <= k < before.len() implies args@[k] == before[k] by {
                        assert(args@[k] == args@.take(before.len() as int)[k]);
                    }
                }
            },
            Err(e) => {
                proof {
                    assert(marshalled_all(fn_oid, arg_types@, values@, i + 1) == Err::<
                        Seq<MarshalledData>,
                        MarshalError,
                    >(e));
                    lemma_marshalled_all_error_stays(
                        fn_oid,
                        arg_types@,
                        values@,
                        i + 1,
                        arg_types@.len() as int,
                    );
                }
                return Err(e);
            },
        }
        i = i + 1;
    }
    Ok(args)
}

/// What to do with the result slots of a call that returned.
#[derive(Clone, Debug, PartialEq, Eq)]
pub enum ReturnStep {
    /// The result is this value.
    Value(HostValue),
    /// The result is encoded in guest memory. Read the eight bytes at
    /// `address` and hand them to [`frame_length`]; then read that many bytes
    /// at `body` and hand them to [`decode_return`].
    Encoded { address: u64, body: u64 },
}

/// What a return step holds.
pub enum ReturnStepData {
    Value(HostData),
    Encoded { address: u64, body: u64 },
}

impl View for ReturnStep {
    type V = ReturnStepData;

    open spec fn view(&self) -> ReturnStepData {
        match self {
            ReturnStep::Value(v) => ReturnStepData::Value(v@),
            ReturnStep::Encoded { address, body } => ReturnStepData::Encoded {
                address: *address,
                body: *body,
            },
        }
    }
}

/// What the result slots of a call mean for a declared return type. A
/// primitive result is read off the one slot. An encoded result is the address
/// of a frame in guest memory, which the slot carries as a 64-bit word.
pub open spec fn return_step(ty: SemanticType, results: Seq<Val>) -> Result<
    ReturnStepData,
    MarshalError,
> {
    match ty.wire_kind() {
        Err(e) => Err(MarshalError::Unsupported(e)),
        Ok(Some(ValType::I32)) => if results.len() != 1 {
            Err(MarshalError::ResultCount)
        } else {
            match results[0] {
                Val::I32(v) => Ok(ReturnStepData::Value(HostData::Int4(v))),
                _ => Err(MarshalError::TypeMismatch),
            }
        },
        Ok(Some(ValType::I64)) => if results.len() != 1 {
            Err(MarshalError::ResultCount)
        } else {
            match results[0] {
                Val::I64(v) => Ok(ReturnStepData::Value(HostData::Int8(v))),
                _ => Err(MarshalError::TypeMismatch),
            }
        },
        Ok(Some(_)) => Err(MarshalError::NoEncoding),
        Ok(None) => if !is_text(ty) {
            Err(MarshalError::NoEncoding)
        } else if results.len() != 1 {
            Err(MarshalError::ResultCount)
        } else {
            match results[0] {
                Val::I64(word) => if word_address(word) > u64::MAX - 8 {
                    Err(MarshalError::AddressOverflow)
                } else {
                    Ok(
                        ReturnStepData::Encoded {
                            address: word_address(word),
                            body: (word_address(word) + 8) as u64,
                        },
                    )
                },
                _ => Err(MarshalError::TypeMismatch),
            }
        },
    }
}

/// Interprets the result slots of a call that returned.
pub fn unmarshal_result(ty: &SemanticType, results: &Vec<Val>) -> (r: Result<
    ReturnStep,
    MarshalError,
>)
    ensures
        match r {
            Ok(step) => Ok::<ReturnStepData, MarshalError>(step@) == return_step(*ty, results@),
            Err(e) => Err::<ReturnStepData, MarshalError>(e) == return_step(*ty, results@),
        },
{
    match ty.classify() {
        Err(e) => Err(MarshalError::Unsupported(e)),
        Ok(Some(ValType::I32)) => {
            if results.len() != 1 {
                return Err(MarshalError::ResultCount);
            }
            match results[0] {
                Val::I32(v) => Ok(ReturnStep::Value(HostValue::Int4(v))),
                _ => Err(MarshalError::TypeMismatch),
            }
        },
        Ok(Some(ValType::I64)) => {
            if results.len() != 1 {
                return Err(MarshalError::ResultCount);
            }
            match results[0] {
                Val::I64(v) => Ok(ReturnStep::Value(HostValue::Int8(v))),
                _ => Err(MarshalError::TypeMismatch),
            }
        },
        Ok(Some(_)) => Err(MarshalError::NoEncoding),
        Ok(None) => {
            if !type_is_text(ty) {
                return Err(MarshalError::NoEncoding);
            }
            if results.len() != 1 {
                return Err(MarshalError::ResultCount);
            }
            match results[0] {
                Val::I64(word) => {
                    let address = handle_address(word);
                    if address > u64::MAX - 8 {
                        Err(MarshalError::AddressOverflow)
                    } else {
                        Ok(ReturnStep::Encoded { address, body: address + 8 })
                    }
                },
                _ => Err(MarshalError::TypeMismatch),
            }
        },
    }
}

/// The number of bytes that follow a length prefix.
pub fn frame_length(prefix: &Vec<u8>) -> (r: Result<u64, MarshalError>)
    ensures
        match r {
            Ok(n) => prefix@.len() == 8 && n == spec_u64_from_le_bytes(prefix@),
            Err(e) => prefix@.len() != 8 && e == MarshalError::BadFrame,
        },
{
    if prefix.len() != 8 {
        return Err(MarshalError::BadFrame);
    }
    Ok(u64_from_le_bytes(prefix.as_slice()))
}

/// The value that the body of a frame encodes for a declared return type.
pub open spec fn decoded_return(ty: SemanticType, body: Seq<u8>) -> Result<HostData, MarshalError> {
    if !is_text(ty) {
        Err(MarshalError::NoEncoding)
    } else {
        match decoded_text(body) {
            Some(s) => Ok(HostData::Text(s)),
            None => Err(MarshalError::BadEncoding),
        }
    }
}

/// Decodes the body of the frame that a call returned.
pub fn decode_return(ty: &SemanticType, body: &Vec<u8>) -> (r: Result<HostValue, MarshalError>)
    ensures
        match r {
            Ok(v) => Ok::<HostData, MarshalError>(v@) == decoded_return(*ty, body@),
            Err(e) => Err::<HostData, MarshalError>(e) == decoded_return(*ty, body@),
        },
{
    if !type_is_text(ty) {
        return Err(MarshalError::NoEncoding);
    }
    match decode_text(body) {
        Some(s) => Ok(HostValue::Text(s)),
        None => Err(MarshalError::BadEncoding),
    }
}

/// The alignment that the host asks of the guest for the memory of an encoding.
pub const HANDLE_ALIGNMENT: u64 = 8;

/// A primitive value crosses the boundary untouched: marshalled, it is the
/// machine word that holds it, and a call that hands that word back returns
/// the value.
pub proof fn lemma_primitive_round_trip(ty: SemanticType, fn_oid: u32, idx: int, value: HostValue)
    requires
        ty.passes_by_value(),
        marshalled(ty, fn_oid, idx, Some(value)) is Ok,
    ensures
        marshalled(ty, fn_oid, idx, Some(value)) matches Ok(MarshalledData::ByValue(word))
            && return_step(ty, seq![word]) == Ok::<ReturnStepData, MarshalError>(
            ReturnStepData::Value(value@),
        ),
{
}

/// A text that is marshalled as an argument, unpacked on the far side and
/// decoded there is the text that was sent.
pub proof fn lemma_text_round_trip(s: Seq<char>)
    requires
        encode_utf8(s).len() + 8 <= u64::MAX,
    ensures
        unpacked(packed(encoded_text(s))) == Some(encoded_text(s)),
        decoded_text(encoded_text(s)) == Some(s),
{
    lemma_auto_spec_u64_to_from_le_bytes();
    lemma_unpack_pack(encoded_text(s));
    lemma_decode_encode(s);
}

} // verus!
