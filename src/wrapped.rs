use std::sync::Arc;
use vstd::prelude::*;

verus! {

/// One level of a cause chain, as plain text: the kind text, the description and
/// the place where the level was created.
pub struct Frame {
    pub kind: Seq<char>,
    pub description: Seq<char>,
    pub file: Seq<char>,
    pub line: u32,
}

/// An error whose kind has been erased to its printed form, so that errors of
/// different kinds can be chained.
#[derive(Debug, Clone)]
pub struct WrappedError {
    pub kind_repr: String,
    pub description: String,
    pub file: &'static str,
    pub line: u32,
    pub sub_error: Option<Arc<WrappedError>>,
}

/// The chain below an optional cause link: empty where there is none.
pub open spec fn chain_below(sub: Option<Arc<WrappedError>>) -> Seq<Frame> {
    match sub {
        Some(c) => c.chain(),
        None => seq![],
    }
}

impl WrappedError {
    /// This error's own level of the chain.
    pub open spec fn frame(&self) -> Frame {
        Frame { kind: self.kind_repr@, description: self.description@, file: self.file@, line: self.line }
    }

    /// The error this one wraps, if any.
    pub open spec fn spec_cause(&self) -> Option<WrappedError> {
        match self.sub_error {
            Some(c) => Some(*c),
            None => None,
        }
    }

    /// The chain below this error: that of its cause, or empty where it has none.
    pub open spec fn below(&self) -> Seq<Frame> {
        chain_below(self.sub_error)
    }

    /// The error this one wraps, if any.
    pub fn cause(&self) -> (r: Option<&WrappedError>)
        ensures
            r matches Some(c) ==> self.spec_cause() == Some(*c),
            r is None <==> self.sub_error is None,
    {
        match &self.sub_error {
            Some(c) => Some(&**c),
            None => None,
        }
    }

    /// The whole chain, this error first and the original failure last.
    pub open spec fn chain(&self) -> Seq<Frame>
        decreases self,
    {
        match self.sub_error {
            Some(c) => seq![self.frame()] + c.chain(),
            None => seq![self.frame()],
        }
    }
}

} // verus!
