use vstd::prelude::*;

verus! {

/// Anything convertible into a `String`, copying only where the source does
/// not own its text.
pub trait IntoString: Sized {
    /// Holds when `out` is exactly the text that converting `self` yields.
    spec fn yields_string(&self, out: Seq<char>) -> bool;

    /// Converts `self` into a `String`.
    fn into_string(self) -> (r: String)
        ensures
            self.yields_string(r@),
    ;
}

/// An owned `String` is handed back as it is.
impl IntoString for String {
    open spec fn yields_string(&self, out: Seq<char>) -> bool {
        out == self@
    }

    fn into_string(self) -> (r: String)
        ensures
            r@ == self@,
    {
        self
    }
}

/// A borrowed `str` is copied into a newly allocated `String`.
impl<'a> IntoString for &'a str {
    open spec fn yields_string(&self, out: Seq<char>) -> bool {
        out == self@
    }

    fn into_string(self) -> (r: String)
        ensures
            r@ == self@,
    {
        self.to_owned()
    }
}

} // verus!
