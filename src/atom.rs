//! Interned symbols, as provided by `string_cache`.
use string_cache::{Atom, DefaultAtom, EmptyStaticAtomSet, StaticAtomSet};
use vstd::prelude::*;

verus! {

#[verifier::external_type_specification]
#[verifier::external_body]
#[verifier::reject_recursive_types(Static)]
pub struct ExAtom<Static>(Atom<Static>);

#[verifier::external_type_specification]
#[verifier::external_body]
pub struct ExEmptyStaticAtomSet(EmptyStaticAtomSet);

/// The text that an interned symbol stands for.
pub uninterp spec fn atom_text(a: DefaultAtom) -> Seq<char>;

/// Relies on `string_cache`'s `From<&str> for Atom`: the atom stands for
/// exactly the given text.
#[verifier::external_body]
pub(crate) fn atom_from_str(s: &str) -> (r: DefaultAtom)
    ensures
        atom_text(r) == s@,
{
    DefaultAtom::from(s)
}

/// Relies on `string_cache`'s `Deref<Target = str> for Atom`: it yields the
/// text the atom was made from.
#[verifier::external_body]
pub(crate) fn atom_as_str(a: &DefaultAtom) -> (r: &str)
    ensures
        r@ == atom_text(*a),
{
    a
}

/// Relies on `string_cache`'s `Clone for Atom`: the copy holds the same
/// packed data as the original (it only raises a shared reference count).
pub assume_specification<Static: StaticAtomSet>[ <Atom<Static> as Clone>::clone ](a: &Atom<Static>) -> (r:
    Atom<Static>)
    ensures
        r == *a,
;

} // verus!
