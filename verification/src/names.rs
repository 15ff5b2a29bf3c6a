//! Name normalization: type names and member names each have one canonical
//! casing, computed by the `heck` crate.

use vstd::prelude::*;

verus! {

/// The upper camel case form that `heck` gives a name.
pub uninterp spec fn pascal_case(name: Seq<char>) -> Seq<char>;

/// The snake case form that `heck` gives a name.
pub uninterp spec fn snake_case(name: Seq<char>) -> Seq<char>;

/// Calls `heck::ToPascalCase::to_pascal_case` on `name`. The conversion reads
/// nothing but the characters of `name`, so its result is the value that
/// `pascal_case` stands for.
#[verifier::external_body]
pub(crate) fn to_pascal_case(name: &str) -> (cased: String)
    ensures
        cased@ == pascal_case(name@),
{
    heck::ToPascalCase::to_pascal_case(name)
}

/// Calls `heck::ToSnakeCase::to_snake_case` on `name`. The conversion reads
/// nothing but the characters of `name`, so its result is the value that
/// `snake_case` stands for.
#[verifier::external_body]
pub(crate) fn to_snake_case(name: &str) -> (cased: String)
    ensures
        cased@ == snake_case(name@),
{
    heck::ToSnakeCase::to_snake_case(name)
}

} // verus!
