//! Code generation for FIX protocol dictionaries: resolves protocol data
//! types to Rust type expressions, renders field constants, enumerated
//! value types and message structs, and assembles them into one source file.

use vstd::prelude::*;

pub mod casing;
pub mod codegen;
pub mod dictionary;
pub mod strutil;
pub mod types;

verus! {

/// The reserved tag of the checksum field; it always resolves to the
/// dedicated checksum type, whatever its declared data type.
pub const CHECKSUM_TAG: u16 = 10;

/// True exactly when `c` is a decimal digit.
pub open spec fn spec_is_digit(c: char) -> bool {
    '0' <= c && c <= '9'
}

/// Executable test for a decimal digit character.
pub fn is_digit(c: char) -> (r: bool)
    ensures
        r == spec_is_digit(c),
{
    '0' <= c && c <= '9'
}

} // verus!
