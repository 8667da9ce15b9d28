//! Case conversion of identifiers, done by `heck`.
use vstd::prelude::*;

verus! {

/// What `heck` makes of an identifier in PascalCase.
pub uninterp spec fn pascal_of(s: Seq<char>) -> Seq<char>;

/// What `heck` makes of an identifier in snake_case.
pub uninterp spec fn snake_of(s: Seq<char>) -> Seq<char>;

/// Relies on `heck::ToPascalCase::to_pascal_case` for `str`: its result
/// depends on the characters of the input alone.
#[verifier::external_body]
pub(crate) fn to_pascal_case(s: &str) -> (r: String)
    ensures
        r@ == pascal_of(s@),
{
    heck::ToPascalCase::to_pascal_case(s)
}

/// Relies on `heck::ToSnakeCase::to_snake_case` for `str`: its result
/// depends on the characters of the input alone.
#[verifier::external_body]
pub(crate) fn to_snake_case(s: &str) -> (r: String)
    ensures
        r@ == snake_of(s@),
{
    heck::ToSnakeCase::to_snake_case(s)
}

} // verus!
