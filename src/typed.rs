use std::sync::Arc;
use vstd::prelude::*;

use crate::kind::{printed, ErrorKind};
use crate::wrapped::{chain_below, Frame, WrappedError};

verus! {

/// An error of a caller-defined kind, with a description, the place where it was
/// created and an optional cause.
#[derive(Debug)]
pub struct Error<T: ErrorKind> {
    pub kind: T,
    pub description: String,
    pub file: &'static str,
    pub line: u32,
    pub sub_error: Option<Arc<WrappedError>>,
}

impl<T: ErrorKind> Error<T> {
    /// This error's own level of the chain, with `kind_text` for its kind.
    pub open spec fn frame_with(&self, kind_text: Seq<char>) -> Frame {
        Frame {
            kind: kind_text,
            description: self.description@,
            file: self.file@,
            line: self.line,
        }
    }

    /// The error this one wraps, if any.
    pub open spec fn spec_cause(&self) -> Option<WrappedError> {
        match self.sub_error {
            Some(c) => Some(*c),
            None => None,
        }
    }

    /// The whole chain, this error first with `kind_text` for its kind, and the
    /// original failure last.
    pub open spec fn chain_with(&self, kind_text: Seq<char>) -> Seq<Frame> {
        seq![self.frame_with(kind_text)] + chain_below(self.sub_error)
    }

    /// Creates an error with an explicit description and no cause.
    pub fn with_kind_desc(kind: T, description: &str, file: &'static str, line: u32) -> (r: Self)
        ensures
            r.kind == kind,
            r.description@ == description@,
            r.file == file,
            r.line == line,
            r.sub_error is None,
    {
        Error { kind, description: description.to_owned(), file, line, sub_error: None }
    }

    /// Creates an error with no cause, described by its printed kind.
    pub fn with_kind(kind: T, file: &'static str, line: u32) -> (r: Self)
        ensures
            r.kind == kind,
            printed(kind, r.description),
            r.file == file,
            r.line == line,
            r.sub_error is None,
    {
        let description = kind.text();
        Error { kind, description, file, line, sub_error: None }
    }

    /// Creates an error with an explicit description that wraps `sub_error`.
    pub fn propagate_with_kind_desc(
        kind: T,
        description: &str,
        sub_error: WrappedError,
        file: &'static str,
        line: u32,
    ) -> (r: Self)
        ensures
            r.kind == kind,
            r.description@ == description@,
            r.file == file,
            r.line == line,
            r.spec_cause() == Some(sub_error),
    {
        Error {
            kind,
            description: description.to_owned(),
            file,
            line,
            sub_error: Some(Arc::new(sub_error)),
        }
    }

    /// Creates an error that wraps `sub_error`, described by its printed kind.
    pub fn propagate_with_kind(kind: T, sub_error: WrappedError, file: &'static str, line: u32) -> (r: Self)
        ensures
            r.kind == kind,
            printed(kind, r.description),
            r.file == file,
            r.line == line,
            r.spec_cause() == Some(sub_error),
    {
        let description = kind.text();
        Error { kind, description, file, line, sub_error: Some(Arc::new(sub_error)) }
    }

    /// Rethrows `sub_error` at a new place: the new error has a clone of its kind and
    /// a copy of its description, and wraps it, erased.
    pub fn propagate(sub_error: Error<T>, file: &'static str, line: u32) -> (r: Self) where
        T: Clone,
        ensures
            cloned::<T>(sub_error.kind, r.kind),
            r.description@ == sub_error.description@,
            r.file == file,
            r.line == line,
            r.spec_cause() matches Some(c) && erased_from(c, sub_error),
    {
        let kind = sub_error.kind.clone();
        let description = sub_error.description.clone();
        let wrapped = WrappedError::from(sub_error);
        Error::propagate_with_kind_desc(kind, description.as_str(), wrapped, file, line)
    }
}

/// `w` is `e` with its kind replaced by a printed form of the kind.
pub open spec fn erased_from<T: ErrorKind>(w: WrappedError, e: Error<T>) -> bool {
    &&& printed(e.kind, w.kind_repr)
    &&& w.description == e.description
    &&& w.file == e.file
    &&& w.line == e.line
    &&& w.sub_error == e.sub_error
}

impl<T: ErrorKind> From<Error<T>> for WrappedError {
    /// Erases the kind of `error`: keeps its description, place and cause, and
    /// replaces its kind by the kind's printed form.
    fn from(error: Error<T>) -> (r: WrappedError)
        ensures
            erased_from(r, error),
    {
        let kind_repr = error.kind.text();
        WrappedError {
            kind_repr,
            description: error.description,
            file: error.file,
            line: error.line,
            sub_error: error.sub_error,
        }
    }
}

// Erasure is not a spec value of its own (a `String` is known only by its view), so
// `from`'s contract stands on the impl above and `from_spec` is not used.
impl<T: ErrorKind> vstd::std_specs::convert::FromSpecImpl<Error<T>> for WrappedError {
    open spec fn obeys_from_spec() -> bool {
        false
    }

    open spec fn from_spec(v: Error<T>) -> WrappedError {
        arbitrary()
    }
}

} // verus!
