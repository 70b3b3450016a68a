//! Identifier case conversion and fresh names, from outside crates.

use vstd::prelude::*;
use convert_case::{Case, Casing};

verus! {

/// What `convert_case` makes of an identifier in `Case::Pascal`.
pub uninterp spec fn pascal_case(s: Seq<char>) -> Seq<char>;

/// What `convert_case` makes of an identifier in `Case::Snake`.
pub uninterp spec fn snake_case(s: Seq<char>) -> Seq<char>;

/// `Casing::to_case(s, Case::Pascal)` of `convert_case`: the result depends
/// on the text alone and is named [pascal_case]; nothing more is stated.
#[verifier::external_body]
pub(crate) fn to_pascal_case(s: &String) -> (r: String)
    ensures
        r@ == pascal_case(s@),
{
    s.to_case(Case::Pascal)
}

/// `Casing::to_case(s, Case::Snake)` of `convert_case`: the result depends
/// on the text alone and is named [snake_case]; nothing more is stated.
#[verifier::external_body]
pub(crate) fn to_snake_case(s: &String) -> (r: String)
    ensures
        r@ == snake_case(s@),
{
    s.to_case(Case::Snake)
}

/// A lower case hexadecimal digit.
pub open spec fn is_lower_hex(c: char) -> bool {
    ('0' <= c && c <= '9') || ('a' <= c && c <= 'f')
}

/// `uuid::Uuid::new_v4().simple().to_string()`: a random UUID in its simple
/// form, which the crate documents as 32 lower case hexadecimal digits. Which
/// digits come is chance and is not stated; the call panics only when the
/// system gives no random bytes.
#[verifier::external_body]
pub(crate) fn random_uuid_simple() -> (r: String)
    ensures
        r@.len() == 32,
        forall|i: int| 0 <= i < 32 ==> is_lower_hex(#[trigger] r@[i]),
{
    uuid::Uuid::new_v4().simple().to_string()
}

} // verus!
