//! The errors of the pipeline, and what each of them says.

use vstd::prelude::*;
use vstd::string::StringExecFns;
use crate::marshal::MarshalError;
use crate::text::{decimal, push_decimal};

verus! {

/// A value that could not be turned into another kind of value.
#[derive(Clone, Debug, PartialEq, Eq)]
pub struct ConversionError {
    pub value: String,
    pub into: String,
}

/// A failure on the guest side of the sandbox boundary.
#[derive(Clone, Debug, PartialEq, Eq)]
pub enum GuestError {
    ConversionError(ConversionError),
    CoerceError(String),
}

/// What went wrong.
#[derive(Clone, Debug, PartialEq, Eq)]
pub enum PlRustError {
    Guest(GuestError),
    /// The guest trapped; the text is the trap's description.
    Trap(String),
    /// The system interface of the sandbox failed.
    Wasi(String),
    /// The messages of the toolchain could not be read.
    CargoMessageParse(String),
    /// The toolchain failed; the text is its exit status.
    BuildFailure(String),
    ModuleNotFound(String),
    FunctionCallInfoWasNone,
    FnOidWasNone,
    /// The argument at this position of this function was absent.
    PgGetArgWasNone(u32, u64),
}

impl ConversionError {
    pub open spec fn message_text(self) -> Seq<char> {
        "Could not turn value into "@ + self.value@ + ": "@ + self.into@
    }

    /// What the error says.
    pub fn message(&self) -> (s: String)
        ensures
            s@ == self.message_text(),
    {
        let mut s = String::from_str("Could not turn value into ");
        s.append(self.value.as_str());
        s.append(": ");
        s.append(self.into.as_str());
        s
    }
}

impl GuestError {
    pub open spec fn message_text(self) -> Seq<char> {
        match self {
            GuestError::ConversionError(e) => e.message_text(),
            GuestError::CoerceError(e) => e@,
        }
    }

    /// What the error says.
    pub fn message(&self) -> (s: String)
        ensures
            s@ == self.message_text(),
    {
        match self {
            GuestError::ConversionError(e) => e.message(),
            GuestError::CoerceError(e) => e.clone(),
        }
    }
}

impl PlRustError {
    pub open spec fn message_text(self) -> Seq<char> {
        match self {
            PlRustError::Guest(e) => "WASM guest error: "@ + e.message_text(),
            PlRustError::Trap(t) => "WASM guest experienced a trap: "@ + t@,
            PlRustError::Wasi(e) => "WASM WASI error: "@ + e@,
            PlRustError::CargoMessageParse(e) => "Failed to parse `cargo build` messages: "@ + e@,
            PlRustError::BuildFailure(status) => "`cargo build` failed with code "@ + status@,
            PlRustError::ModuleNotFound(name) => "Module not found: "@ + name@,
            PlRustError::FunctionCallInfoWasNone => "FunctionCallInfo was None"@,
            PlRustError::FnOidWasNone => "FunctionCallInfo provided fn_oid was None"@,
            PlRustError::PgGetArgWasNone(fn_oid, idx) => "pg_getarg on fn_oid "@ + decimal(
                fn_oid as nat,
            ) + " at index "@ + decimal(idx as nat) + " was None"@,
        }
    }

    /// What the error says.
    pub fn message(&self) -> (s: String)
        ensures
            s@ == self.message_text(),
    {
        match self {
            PlRustError::Guest(e) => {
                let mut s = String::from_str("WASM guest error: ");
                s.append(e.message().as_str());
                s
            },
            PlRustError::Trap(t) => {
                let mut s = String::from_str("WASM guest experienced a trap: ");
                s.append(t.as_str());
                s
            },
            PlRustError::Wasi(e) => {
                let mut s = String::from_str("WASM WASI error: ");
                s.append(e.as_str());
                s
            },
            PlRustError::CargoMessageParse(e) => {
                let mut s = String::from_str("Failed to parse `cargo build` messages: ");
                s.append(e.as_str());
                s
            },
            PlRustError::BuildFailure(status) => {
                let mut s = String::from_str("`cargo build` failed with code ");
                s.append(status.as_str());
                s
            },
            PlRustError::ModuleNotFound(name) => {
                let mut s = String::from_str("Module not found: ");
                s.append(name.as_str());
                s
            },
            PlRustError::FunctionCallInfoWasNone => String::from_str("FunctionCallInfo was None"),
            PlRustError::FnOidWasNone => String::from_str(
                "FunctionCallInfo provided fn_oid was None",
            ),
            PlRustError::PgGetArgWasNone(fn_oid, idx) => {
                let mut s = String::from_str("pg_getarg on fn_oid ");
                push_decimal(&mut s, *fn_oid as u64);
                s.append(" at index ");
                push_decimal(&mut s, *idx);
                s.append(" was None");
                s
            },
        }
    }
}

/// What a failure to cross the sandbox boundary says.
pub open spec fn marshal_text(e: MarshalError) -> Seq<char> {
    match e {
        MarshalError::Unsupported(_) => "the type is not known"@,
        MarshalError::NoEncoding => "no encoding is defined for the type"@,
        MarshalError::NullArgument(_, _) => "the argument is absent"@,
        MarshalError::TypeMismatch => "the value is not of the declared type"@,
        MarshalError::ResultCount => "the call did not leave exactly one result"@,
        MarshalError::BadFrame => "the length prefix is not eight bytes long"@,
        MarshalError::AddressOverflow => "the encoding leaves the address space"@,
        MarshalError::BadEncoding => "the bytes encode no value of the declared type"@,
        MarshalError::OutOfOrder => "the sandbox reported what was not asked of it"@,
    }
}

/// The pipeline error for a failure to cross the sandbox boundary: an absent
/// argument is reported as such, with its function and position; anything else
/// is a failure of the guest to coerce a value.
pub fn marshal_error(e: MarshalError) -> (r: PlRustError)
    ensures
        match e {
            MarshalError::NullArgument(fn_oid, idx) => r == PlRustError::PgGetArgWasNone(
                fn_oid,
                idx,
            ),
            _ => r matches PlRustError::Guest(GuestError::CoerceError(text)) && text@
                == marshal_text(e),
        },
{
    let text = match e {
        MarshalError::NullArgument(fn_oid, idx) => {
            return PlRustError::PgGetArgWasNone(fn_oid, idx);
        },
        MarshalError::Unsupported(_) => "the type is not known",
        MarshalError::NoEncoding => "no encoding is defined for the type",
        MarshalError::TypeMismatch => "the value is not of the declared type",
        MarshalError::ResultCount => "the call did not leave exactly one result",
        MarshalError::BadFrame => "the length prefix is not eight bytes long",
        MarshalError::AddressOverflow => "the encoding leaves the address space",
        MarshalError::BadEncoding => "the bytes encode no value of the declared type",
        MarshalError::OutOfOrder => "the sandbox reported what was not asked of it",
    };
    PlRustError::Guest(GuestError::CoerceError(String::from_str(text)))
}

} // verus!
