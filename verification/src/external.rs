//! A model of foreign failures outside the error-chain model.
//!
//! A foreign failure carries a display message and, possibly, a nested
//! cause of the same shape. Such a value can be attached to an error node
//! for display and debugging, but the chain capability never traverses
//! it.

use vstd::prelude::*;

verus! {

/// A foreign failure: a display message plus an optional nested cause.
pub struct ExternalError {
    /// The display message of this failure.
    pub message: String,
    /// The nested cause of this failure, if any.
    pub source: Option<Box<ExternalError>>,
}

impl ExternalError {
    /// The message of the deepest failure reachable from this one
    /// through nested causes (this failure itself when it has none).
    pub open spec fn spec_root_msg(self) -> Seq<char>
        decreases self,
    {
        match self.source {
            Option::None => self.message@,
            Option::Some(s) => (*s).spec_root_msg(),
        }
    }

    /// The debug rendering of this failure: its message closed by a
    /// period, then its cause, recursively.
    pub open spec fn spec_trace(self) -> Seq<char>
        decreases self,
    {
        self.message@ + "."@ + match self.source {
            Option::None => Seq::<char>::empty(),
            Option::Some(s) => " Caused by: "@ + (*s).spec_trace(),
        }
    }

    /// A foreign failure with no nested cause.
    pub fn new(message: String) -> (e: ExternalError)
        ensures
            e.message@ == message@,
            e.source is None,
    {
        ExternalError { message, source: Option::None }
    }

    /// A foreign failure wrapping a nested cause.
    pub fn wrap(message: String, source: ExternalError) -> (e: ExternalError)
        ensures
            e.message@ == message@,
            e.source matches Some(s) && *s == source,
    {
        ExternalError { message, source: Option::Some(Box::new(source)) }
    }

    /// Returns the message of the deepest failure reachable from this
    /// one through nested causes.
    pub fn root_message(&self) -> (s: String)
        ensures
            s@ == self.spec_root_msg(),
        decreases *self,
    {
        match &self.source {
            Option::None => self.message.clone(),
            Option::Some(s) => s.root_message(),
        }
    }

    /// Renders the debug trace of this failure.
    pub fn trace(&self) -> (s: String)
        ensures
            s@ == self.spec_trace(),
        decreases *self,
    {
        let mut s = self.message.clone();
        s.append(".");
        match &self.source {
            Option::None => {},
            Option::Some(src) => {
                s.append(" Caused by: ");
                s.append(src.trace().as_str());
            },
        }
        assert(s@ =~= self.spec_trace());
        s
    }
}

} // verus!
