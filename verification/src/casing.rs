//! The identifier normalizer's casing primitives. The three casing
//! conventions of generated identifiers (type-name case, constant-name case
//! and member-name case) are computed by the heck crate; each conversion is
//! a pure function of the input characters, so its result is given a name
//! that the emitters' contracts speak of.

use vstd::prelude::*;

verus! {

/// The type-name (upper camel) casing of a string.
pub uninterp spec fn camel_of(s: Seq<char>) -> Seq<char>;

/// The constant-name (shouty snake) casing of a string.
pub uninterp spec fn shouty_snake_of(s: Seq<char>) -> Seq<char>;

/// The member-name (snake) casing of a string.
pub uninterp spec fn snake_of(s: Seq<char>) -> Seq<char>;

/// Relies on heck's `CamelCase::to_camel_case` for `str`: a pure case
/// conversion whose result depends on the input characters alone.
#[verifier::external_body]
pub(crate) fn to_camel(s: &str) -> (r: String)
    ensures
        r@ == camel_of(s@),
{
    heck::CamelCase::to_camel_case(s)
}

/// Relies on heck's `ShoutySnakeCase::to_shouty_snake_case` for `str`: a
/// pure case conversion whose result depends on the input characters alone.
#[verifier::external_body]
pub(crate) fn to_shouty_snake(s: &str) -> (r: String)
    ensures
        r@ == shouty_snake_of(s@),
{
    heck::ShoutySnakeCase::to_shouty_snake_case(s)
}

/// Relies on heck's `SnakeCase::to_snake_case` for `str`: a pure case
/// conversion whose result depends on the input characters alone.
#[verifier::external_body]
pub(crate) fn to_snake(s: &str) -> (r: String)
    ensures
        r@ == snake_of(s@),
{
    heck::SnakeCase::to_snake_case(s)
}

} // verus!
