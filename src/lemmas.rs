use vstd::prelude::*;

use crate::sequence::IntoVec;
use crate::text::IntoString;

verus! {

/// Converting into a `Vec` and then converting that `Vec` once more leaves
/// the contents as the first conversion gave them.
pub proof fn lemma_into_vec_twice<T, S: IntoVec<T>>(s: S, once: Vec<T>, twice: Seq<T>)
    requires
        s.yields_vec(once@),
        once.yields_vec(twice),
    ensures
        twice == once@,
{
}

/// Converting into a `String` and then converting that `String` once more
/// leaves the text as the first conversion gave it.
pub proof fn lemma_into_string_twice<S: IntoString>(s: S, once: String, twice: Seq<char>)
    requires
        s.yields_string(once@),
        once.yields_string(twice),
    ensures
        twice == once@,
{
}

/// An owned `String` and a borrowed `str` holding the same text convert into
/// the same bytes.
pub proof fn lemma_owned_and_borrowed_text_agree(t: String, r: &str, a: Seq<u8>, b: Seq<u8>)
    requires
        t@ == r@,
        t.yields_vec(a),
        r.yields_vec(b),
    ensures
        a == b,
{
}

} // verus!
