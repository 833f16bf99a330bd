use vstd::prelude::*;
use crate::text::{join2, strip_prefix};

verus! {

/// The scope a token needs to read the variable at `path`.
pub open spec fn read_scope_of(path: Seq<char>) -> Seq<char> {
    "variables:read:"@ + path
}

/// The scope a token needs to write the variable at `path`.
pub open spec fn write_scope_of(path: Seq<char>) -> Seq<char> {
    "variables:write:"@ + path
}

/// How a resource's value refers to the variable at `path`.
pub open spec fn reference_to(path: Seq<char>) -> Seq<char> {
    "$var:"@ + path
}

pub fn read_scope(path: &str) -> (r: String)
    ensures
        r@ == read_scope_of(path@),
{
    join2("variables:read:", path)
}

pub fn write_scope(path: &str) -> (r: String)
    ensures
        r@ == write_scope_of(path@),
{
    join2("variables:write:", path)
}

/// The text by which a resource refers to the variable at `path`.
pub fn var_reference(path: &str) -> (r: String)
    ensures
        r@ == reference_to(path@),
{
    join2("$var:", path)
}

/// The variable path that `s` refers to, where `s` is a variable reference.
pub fn referenced_path(s: &str) -> (r: Option<String>)
    ensures
        r is Some <==> "$var:"@.is_prefix_of(s@),
        r matches Some(p) ==> reference_to(p@) == s@,
{
    let r = strip_prefix(s, "$var:");
    proof {
        if r is Some {
            let p = r->0;
            assert(reference_to(p@) =~= s@);
        }
    }
    r
}

/// A reference to a path always resolves to that path.
pub proof fn law_reference_resolves_to_its_path(path: Seq<char>)
    ensures
        "$var:"@.is_prefix_of(reference_to(path)),
        reference_to(path).skip("$var:"@.len() as int) == path,
{
    assert(reference_to(path).subrange(0, "$var:"@.len() as int) =~= "$var:"@);
    assert(reference_to(path).skip("$var:"@.len() as int) =~= path);
}

} // verus!
