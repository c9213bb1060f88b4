use vstd::prelude::*;

verus! {

/// A caller-defined tag that classifies an error.
///
/// The library never interprets a kind: it only prints it, for the default
/// description of a new error and for the kind text of an erased one.
pub trait ErrorKind: Sized {
    /// Prints this kind.
    fn text(&self) -> String;
}

/// `s` is a printed form of `k`: a result that `k.text()` may return.
pub open spec fn printed<T: ErrorKind>(k: T, s: String) -> bool {
    call_ensures(T::text, (&k,), s)
}

} // verus!
