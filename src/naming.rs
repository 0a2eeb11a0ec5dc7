//! Case conversion of identifiers, through `convert_case` and std.

use vstd::prelude::*;

use convert_case::{Case, Casing};

verus! {

/// What `convert_case` makes of a text in snake case.
pub uninterp spec fn snake_of(s: Seq<char>) -> Seq<char>;

/// What `convert_case` makes of a text in Pascal case.
pub uninterp spec fn pascal_of(s: Seq<char>) -> Seq<char>;

/// What std's `str::to_lowercase` makes of a text.
pub uninterp spec fn lower_of(s: Seq<char>) -> Seq<char>;

/// Relies on `convert_case::Casing::to_case` with `Case::Snake`: the result
/// depends on the text alone.
#[verifier::external_body]
pub(crate) fn to_snake_case(s: &str) -> (r: String)
    ensures
        r@ == snake_of(s@),
{
    s.to_case(Case::Snake)
}

/// Relies on `convert_case::Casing::to_case` with `Case::Pascal`: the result
/// depends on the text alone.
#[verifier::external_body]
pub(crate) fn to_pascal_case(s: &str) -> (r: String)
    ensures
        r@ == pascal_of(s@),
{
    s.to_case(Case::Pascal)
}

/// Relies on `str::to_lowercase`: the result depends on the text alone.
#[verifier::external_body]
pub(crate) fn to_lower_case(s: &str) -> (r: String)
    ensures
        r@ == lower_of(s@),
{
    s.to_lowercase()
}

} // verus!
