//! The type resolver: maps a field's tag, data type and enumerated-type
//! fact to a concrete Rust type expression, in an owning, path-qualified
//! mode (for standalone constants) and a lifetime-parameterized mode (for
//! zero-copy struct members). Both modes share one priority ladder: the
//! checksum tag first, then the enumerated type, then the decimal type for
//! every floating-point category, then a fixed lookup table, with a raw
//! bytes fallback for anything unrecognized.

use vstd::prelude::*;
use vstd::string::StringExecFns;
use crate::dictionary::{spec_base_type, DataType};
use crate::CHECKSUM_TAG;

verus! {

/// The type expression chosen in the owning, path-qualified mode, as used
/// by standalone constant declarations.
pub open spec fn owned_type_text(
    tag: u16,
    data_type: DataType,
    enum_type_name: Option<Seq<char>>,
    fefix_path: Seq<char>,
) -> Seq<char> {
    if tag == CHECKSUM_TAG {
        fefix_path + "::dtf::CheckSum"@
    } else {
        match enum_type_name {
            Option::Some(name) => name,
            Option::None => {
                if spec_base_type(data_type) == DataType::Float {
                    "rust_decimal::Decimal"@
                } else {
                    match data_type {
                        DataType::String => "&[u8]"@,
                        DataType::Char => "u8"@,
                        DataType::Boolean => "bool"@,
                        DataType::Country => "&[u8; 2]"@,
                        DataType::Currency => "&[u8; 3]"@,
                        DataType::Exchange => "&[u8; 4]"@,
                        DataType::Data => "&[u8]"@,
                        DataType::Length => "usize"@,
                        DataType::DayOfMonth => "u32"@,
                        DataType::Int => "i64"@,
                        DataType::Language => "&[u8; 2]"@,
                        DataType::SeqNum => "u64"@,
                        DataType::NumInGroup => "usize"@,
                        DataType::Qty => "i64"@,
                        DataType::UtcDateOnly => fefix_path + "::dtf::Date"@,
                        DataType::UtcTimeOnly => fefix_path + "::dtf::Time"@,
                        DataType::UtcTimestamp => fefix_path + "::dtf::Timestamp"@,
                        _ => "&[u8]"@,
                    }
                }
            },
        }
    }
}

/// The type expression chosen in the lifetime-parameterized mode, as used
/// by zero-copy struct members.
pub open spec fn borrowed_type_text(tag: u16, data_type: DataType) -> Seq<char> {
    if tag == CHECKSUM_TAG {
        "crate::dtf::CheckSum"@
    } else if spec_base_type(data_type) == DataType::Float {
        "rust_decimal::Decimal"@
    } else {
        match data_type {
            DataType::String => "&'a [u8]"@,
            DataType::Char => "u8"@,
            DataType::Boolean => "bool"@,
            DataType::Country => "[u8; 2]"@,
            DataType::Currency => "[u8; 3]"@,
            DataType::Exchange => "[u8; 4]"@,
            DataType::Data => "&'a [u8]"@,
            DataType::Length => "usize"@,
            DataType::DayOfMonth => "u32"@,
            DataType::Int => "i64"@,
            DataType::Language => "[u8; 2]"@,
            DataType::SeqNum => "u64"@,
            DataType::NumInGroup => "usize"@,
            DataType::Qty => "i64"@,
            DataType::UtcDateOnly => "crate::dtf::Date"@,
            DataType::UtcTimeOnly => "crate::dtf::Time"@,
            DataType::UtcTimestamp => "crate::dtf::Timestamp"@,
            _ => "&'a [u8]"@,
        }
    }
}

/// An optional member type is wrapped in the option type; a required one is
/// left as it stands.
pub open spec fn optional_wrap_text(required: bool, typ: Seq<char>) -> Seq<char> {
    if required {
        typ
    } else {
        "::std::option::Option<"@ + typ + ">"@
    }
}

/// Resolves a field to its owning, path-qualified type expression.
pub fn suggested_type(
    tag: u16,
    data_type: DataType,
    enum_type_name: Option<String>,
    fefix_path: &str,
) -> (r: String)
    ensures
        r@ == owned_type_text(tag, data_type, enum_type_name.deep_view(), fefix_path@),
{
    if tag == CHECKSUM_TAG {
        let mut s = String::from_str(fefix_path);
        s.append("::dtf::CheckSum");
        return s;
    }
    if let Option::Some(name) = enum_type_name {
        return name;
    }
    if data_type.base_type() == DataType::Float {
        return String::from_str("rust_decimal::Decimal");
    }
    match data_type {
        DataType::String => String::from_str("&[u8]"),
        DataType::Char => String::from_str("u8"),
        DataType::Boolean => String::from_str("bool"),
        DataType::Country => String::from_str("&[u8; 2]"),
        DataType::Currency => String::from_str("&[u8; 3]"),
        DataType::Exchange => String::from_str("&[u8; 4]"),
        DataType::Data => String::from_str("&[u8]"),
        DataType::Length => String::from_str("usize"),
        DataType::DayOfMonth => String::from_str("u32"),
        DataType::Int => String::from_str("i64"),
        DataType::Language => String::from_str("&[u8; 2]"),
        DataType::SeqNum => String::from_str("u64"),
        DataType::NumInGroup => String::from_str("usize"),
        DataType::Qty => String::from_str("i64"),
        DataType::UtcDateOnly => {
            let mut s = String::from_str(fefix_path);
            s.append("::dtf::Date");
            s
        },
        DataType::UtcTimeOnly => {
            let mut s = String::from_str(fefix_path);
            s.append("::dtf::Time");
            s
        },
        DataType::UtcTimestamp => {
            let mut s = String::from_str(fefix_path);
            s.append("::dtf::Timestamp");
            s
        },
        _ => String::from_str("&[u8]"),
    }
}

/// Resolves a field to its lifetime-parameterized type expression.
pub fn suggested_type_with_lifetime(tag: u16, data_type: DataType) -> (r: &'static str)
    ensures
        r@ == borrowed_type_text(tag, data_type),
{
    if tag == CHECKSUM_TAG {
        return "crate::dtf::CheckSum";
    }
    if data_type.base_type() == DataType::Float {
        return "rust_decimal::Decimal";
    }
    match data_type {
        DataType::String => "&'a [u8]",
        DataType::Char => "u8",
        DataType::Boolean => "bool",
        DataType::Country => "[u8; 2]",
        DataType::Currency => "[u8; 3]",
        DataType::Exchange => "[u8; 4]",
        DataType::Data => "&'a [u8]",
        DataType::Length => "usize",
        DataType::DayOfMonth => "u32",
        DataType::Int => "i64",
        DataType::Language => "[u8; 2]",
        DataType::SeqNum => "u64",
        DataType::NumInGroup => "usize",
        DataType::Qty => "i64",
        DataType::UtcDateOnly => "crate::dtf::Date",
        DataType::UtcTimeOnly => "crate::dtf::Time",
        DataType::UtcTimestamp => "crate::dtf::Timestamp",
        _ => "&'a [u8]",
    }
}

/// Wraps a member type in the option type unless the layout position marks
/// it required.
pub fn make_type_optional(required: bool, typ: String) -> (r: String)
    ensures
        r@ == optional_wrap_text(required, typ@),
{
    if required {
        typ
    } else {
        let mut s = String::from_str("::std::option::Option<");
        s.append(typ.as_str());
        s.append(">");
        s
    }
}

/// A field whose tag is the checksum tag resolves to the dedicated checksum
/// type in both modes, whatever its declared data type.
pub proof fn lemma_checksum_resolution(
    data_type: DataType,
    enum_type_name: Option<Seq<char>>,
    fefix_path: Seq<char>,
)
    ensures
        owned_type_text(CHECKSUM_TAG, data_type, enum_type_name, fefix_path) == fefix_path
            + "::dtf::CheckSum"@,
        borrowed_type_text(CHECKSUM_TAG, data_type) == "crate::dtf::CheckSum"@,
{
}

/// A field of a floating-point base category resolves to the decimal type
/// in both modes, never to a native float. The checksum field and fields
/// with an enumerated type take their own types first, so they are left
/// out here.
pub proof fn lemma_float_resolution(tag: u16, data_type: DataType, fefix_path: Seq<char>)
    requires
        tag != CHECKSUM_TAG,
        spec_base_type(data_type) == DataType::Float,
    ensures
        owned_type_text(tag, data_type, Option::None, fefix_path) == "rust_decimal::Decimal"@,
        borrowed_type_text(tag, data_type) == "rust_decimal::Decimal"@,
{
}

} // verus!
