use vstd::prelude::*;
use vstd::utf8::encode_utf8;

verus! {

/// Anything convertible into a `Vec`, copying only where the source does not
/// own its elements.
pub trait IntoVec<T>: Sized {
    /// Holds when `out` is exactly what converting `self` yields.
    spec fn yields_vec(&self, out: Seq<T>) -> bool;

    /// Converts `self` into a `Vec`.
    fn into_vec(self) -> (r: Vec<T>)
        ensures
            self.yields_vec(r@),
    ;
}

/// An owned `Vec` is handed back as it is.
impl<T> IntoVec<T> for Vec<T> {
    open spec fn yields_vec(&self, out: Seq<T>) -> bool {
        out == self@
    }

    fn into_vec(self) -> (r: Vec<T>)
        ensures
            r@ == self@,
    {
        self
    }
}

/// A borrowed slice is copied: every element is cloned, in order.
impl<'a, T: Clone> IntoVec<T> for &'a [T] {
    open spec fn yields_vec(&self, out: Seq<T>) -> bool {
        &&& out.len() == self@.len()
        &&& forall|i: int| 0 <= i < out.len() ==> cloned(self@[i], #[trigger] out[i])
    }

    fn into_vec(self) -> (r: Vec<T>)
        ensures
            r@.len() == self@.len(),
            forall|i: int| 0 <= i < r@.len() ==> cloned(self@[i], #[trigger] r@[i]),
    {
        let mut r: Vec<T> = Vec::with_capacity(self.len());
        let mut i: usize = 0;
        while i < self.len()
            invariant
                i <= self@.len(),
                r@.len() == i,
                forall|j: int| 0 <= j < i ==> cloned(self@[j], #[trigger] r@[j]),
            decreases self@.len() - i,
        {
            r.push(self[i].clone());
            i += 1;
        }
        r
    }
}

/// An owned boxed slice becomes a `Vec` in place: its buffer is kept and the
/// capacity is set to its length, so no element is copied.
impl<T> IntoVec<T> for Box<[T]> {
    open spec fn yields_vec(&self, out: Seq<T>) -> bool {
        out == self@
    }

    fn into_vec(self) -> (r: Vec<T>)
        ensures
            r@ == self@,
    {
        <[T]>::into_vec(self)
    }
}

/// Relies on `String::into_bytes`: the string's own buffer is handed over,
/// holding the UTF-8 encoding of its characters.
#[verifier::external_body]
fn string_into_bytes(s: String) -> (r: Vec<u8>)
    ensures
        r@ == encode_utf8(s@),
{
    s.into_bytes()
}

/// An owned `String` gives up its buffer as the UTF-8 bytes of its text.
impl IntoVec<u8> for String {
    open spec fn yields_vec(&self, out: Seq<u8>) -> bool {
        out == encode_utf8(self@)
    }

    fn into_vec(self) -> (r: Vec<u8>)
        ensures
            r@ == encode_utf8(self@),
    {
        string_into_bytes(self)
    }
}

/// A borrowed `str` is copied through its byte slice.
impl<'a> IntoVec<u8> for &'a str {
    open spec fn yields_vec(&self, out: Seq<u8>) -> bool {
        out == encode_utf8(self@)
    }

    fn into_vec(self) -> (r: Vec<u8>)
        ensures
            r@ == encode_utf8(self@),
    {
        let bytes: &[u8] = self.as_bytes();
        let r = bytes.into_vec();
        assert(r@ =~= bytes@);
        r
    }
}

} // verus!
