//! A mock error for validating the chain and classification contracts.

use vstd::prelude::*;

use crate::ext::ErrorExt;
use crate::ext::StackError;
use crate::format::masked_message;
use crate::location::SourceLocation;
use crate::node::ErrorNode;
use crate::node::lines_view;
use crate::status_code::StatusCode;
use crate::status_code::lemma_name_nonempty;

verus! {

/// A mock error mainly for tests.
///
/// It carries a classification and, possibly, a nested mock error. The
/// nesting is a language-level cause only: the chain capability of a
/// mock error reports no next node, and its layer-numbered trace is
/// empty.
pub struct MockError {
    /// The classification of this mock error.
    pub code: StatusCode,
    /// The nested mock error, if any.
    pub source: Option<Box<MockError>>,
}

impl MockError {
    /// The classification of the deepest mock error reachable from this
    /// one through nested causes.
    pub open spec fn spec_root_code(self) -> StatusCode
        decreases self,
    {
        match self.source {
            Option::None => self.code,
            Option::Some(s) => (*s).spec_root_code(),
        }
    }

    /// The debug rendering of this mock error: its classification's
    /// name closed by a period, then its cause, recursively.
    pub open spec fn spec_trace(self) -> Seq<char>
        decreases self,
    {
        self.code.spec_name() + "."@ + match self.source {
            Option::None => Seq::<char>::empty(),
            Option::Some(s) => " Caused by: "@ + (*s).spec_trace(),
        }
    }

    /// Creates a new mock error with no nested cause.
    pub fn new(code: StatusCode) -> (e: MockError)
        ensures
            e.code == code,
            e.source is None,
    {
        MockError { code, source: Option::None }
    }

    /// Creates a new mock error nesting `source`; the classification of
    /// the source is copied upward (a simplification meant for test
    /// fixtures, not a rule of production nodes).
    pub fn with_source(source: MockError) -> (e: MockError)
        ensures
            e.code == source.code,
            e.source matches Some(s) && *s == source,
    {
        let code = source.code;
        MockError { code, source: Option::Some(Box::new(source)) }
    }

    /// Returns the classification of the deepest nested mock error.
    pub fn root_code(&self) -> (c: StatusCode)
        ensures
            c == self.spec_root_code(),
        decreases *self,
    {
        match &self.source {
            Option::None => self.code,
            Option::Some(s) => s.root_code(),
        }
    }

    /// Renders the debug trace of this mock error.
    pub fn trace(&self) -> (s: String)
        ensures
            s@ == self.spec_trace(),
        decreases *self,
    {
        let mut s = self.code.name().to_owned();
        s.append(".");
        match &self.source {
            Option::None => {},
            Option::Some(src) => {
                s.append(" Caused by: ");
                s.append(src.trace().as_str());
            },
        }
        assert(s@ =~= self.spec_trace());
        s
    }
}

impl StackError for MockError {
    open spec fn node_view(&self) -> ErrorNode {
        ErrorNode::Mock(*self)
    }

    fn debug_fmt(&self, layer: usize, buf: &mut Vec<String>) {
        proof {
            assert(lines_view(buf@) =~= lines_view(buf@) + self.node_view().debug_lines(
                layer as nat,
            ));
        }
    }

    fn next(&self) -> (r: Option<&ErrorNode>) {
        None
    }
}

impl ErrorExt for MockError {
    fn status_code(&self) -> (c: StatusCode) {
        self.code
    }

    fn location_opt(&self) -> (l: Option<SourceLocation>) {
        None
    }

    fn message(&self) -> (s: String) {
        self.code.name().to_owned()
    }

    fn output_msg(&self) -> (s: String) {
        if self.code.is_masked() {
            masked_message(self.code)
        } else {
            proof {
                let n = self.node_view();
                assert(n.chain() =~= seq![n]);
            }
            match &self.source {
                Option::None => self.code.name().to_owned(),
                Option::Some(src) => {
                    proof {
                        lemma_name_nonempty(self.code);
                    }
                    let mut s = self.code.name().to_owned();
                    s.append(": ");
                    s.append(src.root_code().name());
                    assert(s@ =~= self.node_view().user_message());
                    s
                },
            }
        }
    }

    fn into_node(self) -> (n: ErrorNode) {
        ErrorNode::Mock(self)
    }
}

} // verus!
