//! Semantic types of the catalog and how they cross the sandbox boundary: as a
//! machine word, or as a handle to a length-prefixed encoding.

use vstd::prelude::*;
use vstd::string::StringExecFns;

verus! {

/// The catalog types that the pipeline knows by name.
#[derive(Clone, Copy, Debug, PartialEq, Eq, Structural)]
pub enum BuiltinType {
    AnyElement,
    Bool,
    Bytea,
    Char,
    Cstring,
    Float4,
    Float8,
    Inet,
    Int2,
    Int4,
    Int8,
    Jsonb,
    Json,
    Numeric,
    Oid,
    Text,
    Tid,
    Varchar,
    Void,
}

/// A type identifier as the catalog hands it out.
#[derive(Clone, Copy, Debug, PartialEq, Eq, Structural)]
pub enum PgOid {
    /// The identifier zero, which names no type.
    Invalid,
    /// An identifier that is not among the known built-in types.
    Custom(u32),
    /// A known built-in type.
    BuiltIn(BuiltinType),
}

/// The kinds of machine value that the sandbox passes in a call.
#[derive(Clone, Copy, Debug, PartialEq, Eq, Structural)]
pub enum ValType {
    I32,
    I64,
    F32,
    F64,
    V128,
    FuncRef,
    ExternRef,
}

/// Why a semantic type could not be mapped.
#[derive(Clone, Copy, Debug, PartialEq, Eq, Structural)]
pub enum MappingError {
    /// The identifier names no type.
    InvalidType,
    /// The identifier names a type that the pipeline does not know.
    UnknownType(u32),
    /// The type is known but has no concrete counterpart.
    UnmappedType(BuiltinType),
    /// The machine value kind has no concrete counterpart.
    UnmappedValue(ValType),
}

/// The built-in type that the catalog numbers `oid`, if it is a known one.
pub open spec fn builtin_of(oid: u32) -> Option<BuiltinType> {
    if oid == 16 {
        Some(BuiltinType::Bool)
    } else if oid == 17 {
        Some(BuiltinType::Bytea)
    } else if oid == 18 {
        Some(BuiltinType::Char)
    } else if oid == 20 {
        Some(BuiltinType::Int8)
    } else if oid == 21 {
        Some(BuiltinType::Int2)
    } else if oid == 23 {
        Some(BuiltinType::Int4)
    } else if oid == 25 {
        Some(BuiltinType::Text)
    } else if oid == 26 {
        Some(BuiltinType::Oid)
    } else if oid == 27 {
        Some(BuiltinType::Tid)
    } else if oid == 114 {
        Some(BuiltinType::Json)
    } else if oid == 700 {
        Some(BuiltinType::Float4)
    } else if oid == 701 {
        Some(BuiltinType::Float8)
    } else if oid == 869 {
        Some(BuiltinType::Inet)
    } else if oid == 1043 {
        Some(BuiltinType::Varchar)
    } else if oid == 1700 {
        Some(BuiltinType::Numeric)
    } else if oid == 2275 {
        Some(BuiltinType::Cstring)
    } else if oid == 2278 {
        Some(BuiltinType::Void)
    } else if oid == 2283 {
        Some(BuiltinType::AnyElement)
    } else if oid == 3802 {
        Some(BuiltinType::Jsonb)
    } else {
        None
    }
}

/// The number under which the catalog knows a built-in type.
pub open spec fn builtin_number(b: BuiltinType) -> u32 {
    match b {
        BuiltinType::Bool => 16,
        BuiltinType::Bytea => 17,
        BuiltinType::Char => 18,
        BuiltinType::Int8 => 20,
        BuiltinType::Int2 => 21,
        BuiltinType::Int4 => 23,
        BuiltinType::Text => 25,
        BuiltinType::Oid => 26,
        BuiltinType::Tid => 27,
        BuiltinType::Json => 114,
        BuiltinType::Float4 => 700,
        BuiltinType::Float8 => 701,
        BuiltinType::Inet => 869,
        BuiltinType::Varchar => 1043,
        BuiltinType::Numeric => 1700,
        BuiltinType::Cstring => 2275,
        BuiltinType::Void => 2278,
        BuiltinType::AnyElement => 2283,
        BuiltinType::Jsonb => 3802,
    }
}

impl BuiltinType {
    /// The known built-in type numbered `oid`, if there is one.
    pub fn from_u32(oid: u32) -> (r: Option<BuiltinType>)
        ensures
            r == builtin_of(oid),
    {
        if oid == 16 {
            Some(BuiltinType::Bool)
        } else if oid == 17 {
            Some(BuiltinType::Bytea)
        } else if oid == 18 {
            Some(BuiltinType::Char)
        } else if oid == 20 {
            Some(BuiltinType::Int8)
        } else if oid == 21 {
            Some(BuiltinType::Int2)
        } else if oid == 23 {
            Some(BuiltinType::Int4)
        } else if oid == 25 {
            Some(BuiltinType::Text)
        } else if oid == 26 {
            Some(BuiltinType::Oid)
        } else if oid == 27 {
            Some(BuiltinType::Tid)
        } else if oid == 114 {
            Some(BuiltinType::Json)
        } else if oid == 700 {
            Some(BuiltinType::Float4)
        } else if oid == 701 {
            Some(BuiltinType::Float8)
        } else if oid == 869 {
            Some(BuiltinType::Inet)
        } else if oid == 1043 {
            Some(BuiltinType::Varchar)
        } else if oid == 1700 {
            Some(BuiltinType::Numeric)
        } else if oid == 2275 {
            Some(BuiltinType::Cstring)
        } else if oid == 2278 {
            Some(BuiltinType::Void)
        } else if oid == 2283 {
            Some(BuiltinType::AnyElement)
        } else if oid == 3802 {
            Some(BuiltinType::Jsonb)
        } else {
            None
        }
    }

    /// The catalog number of this type.
    pub fn value(&self) -> (oid: u32)
        ensures
            oid == builtin_number(*self),
            builtin_of(oid) == Some(*self),
    {
        match self {
            BuiltinType::Bool => 16,
            BuiltinType::Bytea => 17,
            BuiltinType::Char => 18,
            BuiltinType::Int8 => 20,
            BuiltinType::Int2 => 21,
            BuiltinType::Int4 => 23,
            BuiltinType::Text => 25,
            BuiltinType::Oid => 26,
            BuiltinType::Tid => 27,
            BuiltinType::Json => 114,
            BuiltinType::Float4 => 700,
            BuiltinType::Float8 => 701,
            BuiltinType::Inet => 869,
            BuiltinType::Varchar => 1043,
            BuiltinType::Numeric => 1700,
            BuiltinType::Cstring => 2275,
            BuiltinType::Void => 2278,
            BuiltinType::AnyElement => 2283,
            BuiltinType::Jsonb => 3802,
        }
    }
}

/// The identifier that stands for the catalog number `oid`.
pub open spec fn pg_oid_of(oid: u32) -> PgOid {
    if oid == 0 {
        PgOid::Invalid
    } else {
        match builtin_of(oid) {
            Some(b) => PgOid::BuiltIn(b),
            None => PgOid::Custom(oid),
        }
    }
}

impl PgOid {
    /// Classifies a catalog number.
    pub fn from_u32(oid: u32) -> (r: PgOid)
        ensures
            r == pg_oid_of(oid),
    {
        if oid == 0 {
            PgOid::Invalid
        } else {
            match BuiltinType::from_u32(oid) {
                Some(b) => PgOid::BuiltIn(b),
                None => PgOid::Custom(oid),
            }
        }
    }

    /// The catalog number that this identifier stands for.
    pub open spec fn number(self) -> u32 {
        match self {
            PgOid::Invalid => 0,
            PgOid::Custom(oid) => oid,
            PgOid::BuiltIn(b) => builtin_number(b),
        }
    }

    /// The catalog number that this identifier stands for.
    pub fn value(&self) -> (oid: u32)
        ensures
            oid == self.number(),
    {
        match self {
            PgOid::Invalid => 0,
            PgOid::Custom(oid) => *oid,
            PgOid::BuiltIn(b) => b.value(),
        }
    }
}

/// A semantic type as a function definition names it: its identifier, and the
/// identifier of its element type where it is an array type. For a type that
/// is no array the element identifier is invalid.
#[derive(Clone, Copy, Debug, PartialEq, Eq, Structural)]
pub struct SemanticType {
    pub oid: PgOid,
    pub element: PgOid,
}

impl SemanticType {
    /// Whether this is an array type.
    pub open spec fn is_array(self) -> bool {
        self.element != PgOid::Invalid
    }

    /// The concrete type name, where the type is supported.
    pub open spec fn rust_name(self, owned: bool) -> Option<Seq<char>> {
        rust_type(self.oid, self.element, owned)
    }

    /// How the type crosses the sandbox boundary. Arrays are always encoded.
    pub open spec fn wire_kind(self) -> Result<Option<ValType>, MappingError> {
        if self.is_array() {
            Ok(None)
        } else {
            valtype_of(self.oid)
        }
    }

    /// Whether values of the type are passed as they are.
    pub open spec fn passes_by_value(self) -> bool {
        self.wire_kind() matches Ok(Some(_))
    }

    /// A type that is no array.
    pub fn scalar(oid: PgOid) -> (t: SemanticType)
        ensures
            t == (SemanticType { oid, element: PgOid::Invalid }),
    {
        SemanticType { oid, element: PgOid::Invalid }
    }

    /// Classifies the type as primitive or encoded.
    pub fn classify(&self) -> (r: Result<Option<ValType>, MappingError>)
        ensures
            r == self.wire_kind(),
    {
        match self.element {
            PgOid::Invalid => oid_to_valtype(&self.oid),
            _ => Ok(None),
        }
    }

    /// The concrete type name, or `None` where the type is not supported.
    pub fn rust_type_name(&self, owned: bool) -> (r: Option<String>)
        ensures
            r is Some == self.rust_name(owned) is Some,
            r matches Some(s) ==> Some(s@) == self.rust_name(owned),
    {
        oid_to_syn_type(&self.oid, &self.element, owned)
    }
}

/// How a semantic type crosses the sandbox boundary: `Ok(Some(kind))` for a
/// primitive passed by value as `kind`, `Ok(None)` for a type that is encoded
/// and passed by handle, and an error for an identifier that names no known
/// type.
pub open spec fn valtype_of(oid: PgOid) -> Result<Option<ValType>, MappingError> {
    match oid {
        PgOid::Invalid => Err(MappingError::InvalidType),
        PgOid::Custom(n) => Err(MappingError::UnknownType(n)),
        PgOid::BuiltIn(BuiltinType::Int4) => Ok(Some(ValType::I32)),
        PgOid::BuiltIn(BuiltinType::Int8) => Ok(Some(ValType::I64)),
        PgOid::BuiltIn(_) => Ok(None),
    }
}

/// Classifies a semantic type as primitive or encoded.
pub fn oid_to_valtype(oid: &PgOid) -> (r: Result<Option<ValType>, MappingError>)
    ensures
        r == valtype_of(*oid),
{
    match oid {
        PgOid::Invalid => Err(MappingError::InvalidType),
        PgOid::Custom(n) => Err(MappingError::UnknownType(*n)),
        PgOid::BuiltIn(builtin) => match builtin {
            BuiltinType::Int4 => Ok(Some(ValType::I32)),
            BuiltinType::Int8 => Ok(Some(ValType::I64)),
            _ => Ok(None),
        },
    }
}

/// The machine value kind under which a semantic type is passed, and whether
/// that value is a handle to an encoding rather than the value itself. A handle
/// is a 64-bit word.
pub fn oid_to_valtype_and_ptr_marker(oid: &PgOid) -> (r: Result<(ValType, bool), MappingError>)
    ensures
        r == match valtype_of(*oid) {
            Ok(Some(kind)) => Ok((kind, false)),
            Ok(None) => Ok((ValType::I64, true)),
            Err(e) => Err(e),
        },
{
    match oid_to_valtype(oid) {
        Ok(Some(valtype)) => Ok((valtype, false)),
        Ok(None) => Ok((ValType::I64, true)),
        Err(e) => Err(e),
    }
}

/// The concrete type name of a machine value kind, for the kinds that have one.
pub open spec fn valtype_name(valtype: ValType) -> Option<Seq<char>> {
    match valtype {
        ValType::I32 => Some("i32"@),
        ValType::I64 => Some("i64"@),
        _ => None,
    }
}

/// The concrete type name of a machine value kind. Only the two integer kinds
/// have one.
pub fn valtype_to_syn_type(valtype: ValType) -> (r: Option<String>)
    ensures
        r is Some == valtype_name(valtype) is Some,
        r matches Some(s) ==> Some(s@) == valtype_name(valtype),
{
    match valtype {
        ValType::I32 => Some(String::from_str("i32")),
        ValType::I64 => Some(String::from_str("i64")),
        _ => None,
    }
}

/// The concrete type name of a built-in type that is not an array. `owned`
/// chooses between the owning and the borrowing form where the two differ.
pub open spec fn base_rust_type(b: BuiltinType, owned: bool) -> Seq<char> {
    match b {
        BuiltinType::AnyElement => "AnyElement"@,
        BuiltinType::Bool => "bool"@,
        BuiltinType::Bytea => if owned {
            "Vec<Option<[u8]>>"@
        } else {
            "&[u8]"@
        },
        BuiltinType::Char => "u8"@,
        BuiltinType::Cstring => "std::ffi::CStr"@,
        BuiltinType::Float4 => "f32"@,
        BuiltinType::Float8 => "f64"@,
        BuiltinType::Inet => "Inet"@,
        BuiltinType::Int2 => "i16"@,
        BuiltinType::Int4 => "i32"@,
        BuiltinType::Int8 => "i64"@,
        BuiltinType::Jsonb => "JsonB"@,
        BuiltinType::Json => "Json"@,
        BuiltinType::Numeric => "Numeric"@,
        BuiltinType::Oid => "pg_sys::Oid"@,
        BuiltinType::Text => if owned {
            "String"@
        } else {
            "&str"@
        },
        BuiltinType::Tid => "pg_sys::ItemPointer"@,
        BuiltinType::Varchar => if owned {
            "String"@
        } else {
            "&str"@
        },
        BuiltinType::Void => "()"@,
    }
}

/// The concrete type name of a semantic type. `element` is the element type
/// that the catalog gives for `type_oid`: an invalid identifier unless
/// `type_oid` is an array type. An array maps to a vector of optional elements
/// when owned and to an array view otherwise.
pub open spec fn rust_type(type_oid: PgOid, element: PgOid, owned: bool) -> Option<Seq<char>> {
    let array = element != PgOid::Invalid;
    let base = if array {
        element
    } else {
        type_oid
    };
    match base {
        PgOid::BuiltIn(b) => Some(
            if array && owned {
                "Vec<Option<"@ + base_rust_type(b, owned) + ">>"@
            } else if array {
                "Array<"@ + base_rust_type(b, owned) + ">"@
            } else {
                base_rust_type(b, owned)
            },
        ),
        _ => None,
    }
}

fn base_type(b: BuiltinType, owned: bool) -> (s: String)
    ensures
        s@ == base_rust_type(b, owned),
{
    match b {
        BuiltinType::AnyElement => String::from_str("AnyElement"),
        BuiltinType::Bool => String::from_str("bool"),
        BuiltinType::Bytea => if owned {
            String::from_str("Vec<Option<[u8]>>")
        } else {
            String::from_str("&[u8]")
        },
        BuiltinType::Char => String::from_str("u8"),
        BuiltinType::Cstring => String::from_str("std::ffi::CStr"),
        BuiltinType::Float4 => String::from_str("f32"),
        BuiltinType::Float8 => String::from_str("f64"),
        BuiltinType::Inet => String::from_str("Inet"),
        BuiltinType::Int2 => String::from_str("i16"),
        BuiltinType::Int4 => String::from_str("i32"),
        BuiltinType::Int8 => String::from_str("i64"),
        BuiltinType::Jsonb => String::from_str("JsonB"),
        BuiltinType::Json => String::from_str("Json"),
        BuiltinType::Numeric => String::from_str("Numeric"),
        BuiltinType::Oid => String::from_str("pg_sys::Oid"),
        BuiltinType::Text => if owned {
            String::from_str("String")
        } else {
            String::from_str("&str")
        },
        BuiltinType::Tid => String::from_str("pg_sys::ItemPointer"),
        BuiltinType::Varchar => if owned {
            String::from_str("String")
        } else {
            String::from_str("&str")
        },
        BuiltinType::Void => String::from_str("()"),
    }
}

/// Maps a semantic type to its concrete type name, or to `None` where the type
/// is not supported.
pub fn oid_to_syn_type(type_oid: &PgOid, element: &PgOid, owned: bool) -> (r: Option<String>)
    ensures
        r is Some == rust_type(*type_oid, *element, owned) is Some,
        r matches Some(s) ==> Some(s@) == rust_type(*type_oid, *element, owned),
{
    let array = match element {
        PgOid::Invalid => false,
        _ => true,
    };
    let base_oid = if array {
        *element
    } else {
        *type_oid
    };
    match base_oid {
        PgOid::BuiltIn(b) => {
            let base = base_type(b, owned);
            if array && owned {
                let mut s = String::from_str("Vec<Option<");
                s.append(base.as_str());
                s.append(">>");
                Some(s)
            } else if array {
                let mut s = String::from_str("Array<");
                s.append(base.as_str());
                s.append(">");
                Some(s)
            } else {
                Some(base)
            }
        },
        _ => None,
    }
}

} // verus!
