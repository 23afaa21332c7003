//! Sequences of names: the uniforms of a program, the sources of a texture
//! cache. Both are looked up by name and answer with a position.

use vstd::prelude::*;

verus! {

/// The names that a sequence of strings spells.
pub open spec fn names_of(strings: Seq<String>) -> Seq<Seq<char>> {
    Seq::new(strings.len(), |i: int| strings[i]@)
}

/// Whether `index` is the position at which `name` first occurs in
/// `names`. At most one position is.
pub open spec fn is_first_occurrence(names: Seq<Seq<char>>, name: Seq<char>, index: int) -> bool {
    &&& 0 <= index < names.len()
    &&& names[index] == name
    &&& forall|j: int| 0 <= j < index ==> names[j] != name
}

} // verus!
