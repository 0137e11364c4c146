//! The capability contracts of the error model, and two reference
//! implementations: a plain message-plus-status error and an opaque
//! boxed error for module boundaries.

use std::sync::Arc;

use vstd::prelude::*;

use crate::decimal::u64_to_decimal;
use crate::format::masked_message;
use crate::format::render_user_message;
use crate::location::SourceLocation;
use crate::node::ErrorNode;
use crate::node::lines_view;
use crate::node::plain_line;
use crate::status_code::StatusCode;

verus! {

/// The chain capability: expose the immediate nested cause, if any, and
/// produce a layer-numbered text trace.
///
/// Every implementor is modelled by the node it stands for, and both
/// methods are specified against that node.
pub trait StackError {
    /// The chain node this value stands for.
    spec fn node_view(&self) -> ErrorNode;

    /// Appends this node's layer-numbered trace lines to `buf`, its own
    /// line first, then — where a next node exists — the next node's
    /// lines under layer `layer + 1`.
    fn debug_fmt(&self, layer: usize, buf: &mut Vec<String>)
        ensures
            layer + self.node_view().chain_tail().len() <= usize::MAX
                ==> crate::node::lines_view(final(buf)@) == crate::node::lines_view(old(buf)@)
                + self.node_view().debug_lines(layer as nat),
    ;

    /// Returns the immediate cause of this node, if this node wraps one.
    fn next(&self) -> (r: Option<&ErrorNode>)
        ensures
            match r {
                Some(n) => self.node_view().spec_next() == Some(*n),
                None => self.node_view().spec_next() is None,
            },
    ;
}

/// The classification capability: map a node to a [`StatusCode`],
/// expose its source location if one was recorded, and render the
/// user-safe message.
pub trait ErrorExt: StackError + Sized {
    /// Returns the classification of this node.
    fn status_code(&self) -> (c: StatusCode)
        ensures
            c == self.node_view().spec_status(),
    ;

    /// Returns the source location of this node, `None` if none was
    /// recorded.
    fn location_opt(&self) -> (l: Option<SourceLocation>)
        ensures
            match (l, self.node_view().spec_location()) {
                (Some(a), Some(b)) => a.spec_file() == b.spec_file() && a.spec_line()
                    == b.spec_line() && a.spec_column() == b.spec_column(),
                (None, None) => true,
                _ => false,
            },
    ;

    /// Returns the display message of this node.
    fn message(&self) -> (s: String)
        ensures
            s@ == self.node_view().spec_message(),
    ;

    /// Renders the user-safe message of this node: masked for `Unknown`
    /// and `Internal` classifications, the root cause's text otherwise.
    fn output_msg(&self) -> (s: String)
        ensures
            s@ == self.node_view().user_message(),
    ;

    /// Moves this value into the node it stands for.
    fn into_node(self) -> (n: ErrorNode)
        ensures
            n == self.node_view(),
    ;
}

/// An error type with a plain message and a classification chosen at
/// construction. A terminal node: it never wraps a cause.
pub struct PlainError {
    /// The display message.
    pub msg: String,
    /// The classification.
    pub status_code: StatusCode,
}

impl PlainError {
    /// Creates a new plain error from a message and a classification.
    pub fn new(msg: String, status_code: StatusCode) -> (e: PlainError)
        ensures
            e.msg@ == msg@,
            e.status_code == status_code,
    {
        PlainError { msg, status_code }
    }
}

/// An opaque boxed error: an exclusive owner of one node of the model,
/// re-exposing both capabilities unchanged at a module boundary.
pub struct BoxedError {
    /// The owned node.
    pub inner: Box<ErrorNode>,
}

impl BoxedError {
    /// The node this box owns.
    pub open spec fn inner_view(&self) -> ErrorNode {
        *self.inner
    }

    /// Boxes any error of the model, erasing which concrete kind it
    /// was. Boxing changes neither classification nor chain shape.
    pub fn new<E: ErrorExt>(err: E) -> (b: BoxedError)
        ensures
            b.inner_view() == err.node_view(),
    {
        BoxedError { inner: Box::new(err.into_node()) }
    }
}

impl StackError for PlainError {
    open spec fn node_view(&self) -> ErrorNode {
        ErrorNode::Plain(*self)
    }

    fn debug_fmt(&self, layer: usize, buf: &mut Vec<String>) {
        let mut line = u64_to_decimal(layer as u64);
        line.append(": ");
        line.append(self.msg.as_str());
        proof {
            assert(line@ =~= plain_line(*self, layer as nat));
        }
        let ghost entry = buf@;
        buf.push(line);
        proof {
            assert(lines_view(buf@) =~= lines_view(entry) + self.node_view().debug_lines(
                layer as nat,
            ));
        }
    }

    fn next(&self) -> (r: Option<&ErrorNode>) {
        None
    }
}

impl ErrorExt for PlainError {
    fn status_code(&self) -> (c: StatusCode) {
        self.status_code
    }

    fn location_opt(&self) -> (l: Option<SourceLocation>) {
        None
    }

    fn message(&self) -> (s: String) {
        self.msg.clone()
    }

    fn output_msg(&self) -> (s: String) {
        if self.status_code.is_masked() {
            masked_message(self.status_code)
        } else {
            proof {
                let n = self.node_view();
                assert(n.chain() =~= seq![n]);
            }
            self.msg.clone()
        }
    }

    fn into_node(self) -> (n: ErrorNode) {
        ErrorNode::Plain(self)
    }
}

impl StackError for BoxedError {
    open spec fn node_view(&self) -> ErrorNode {
        ErrorNode::Boxed(*self)
    }

    fn debug_fmt(&self, layer: usize, buf: &mut Vec<String>) {
        self.inner.debug_fmt(layer, buf)
    }

    fn next(&self) -> (r: Option<&ErrorNode>) {
        self.inner.next()
    }
}

impl ErrorExt for BoxedError {
    fn status_code(&self) -> (c: StatusCode) {
        self.inner.status_code()
    }

    fn location_opt(&self) -> (l: Option<SourceLocation>) {
        self.inner.location_opt()
    }

    fn message(&self) -> (s: String) {
        self.inner.message()
    }

    fn output_msg(&self) -> (s: String) {
        proof {
            lemma_boxed_user_message(*self);
        }
        render_user_message(&self.inner)
    }

    fn into_node(self) -> (n: ErrorNode) {
        ErrorNode::Boxed(self)
    }
}

impl StackError for ErrorNode {
    open spec fn node_view(&self) -> ErrorNode {
        *self
    }

    fn debug_fmt(&self, layer: usize, buf: &mut Vec<String>) {
        ErrorNode::debug_fmt(self, layer, buf)
    }

    fn next(&self) -> (r: Option<&ErrorNode>) {
        ErrorNode::next(self)
    }
}

impl ErrorExt for ErrorNode {
    fn status_code(&self) -> (c: StatusCode) {
        ErrorNode::status_code(self)
    }

    fn location_opt(&self) -> (l: Option<SourceLocation>) {
        ErrorNode::location_opt(self)
    }

    fn message(&self) -> (s: String) {
        ErrorNode::message(self)
    }

    fn output_msg(&self) -> (s: String) {
        render_user_message(self)
    }

    fn into_node(self) -> (n: ErrorNode) {
        self
    }
}

impl<T: StackError> StackError for Box<T> {
    open spec fn node_view(&self) -> ErrorNode {
        (**self).node_view()
    }

    fn debug_fmt(&self, layer: usize, buf: &mut Vec<String>) {
        (**self).debug_fmt(layer, buf)
    }

    fn next(&self) -> (r: Option<&ErrorNode>) {
        (**self).next()
    }
}

impl<T: StackError> StackError for Arc<T> {
    open spec fn node_view(&self) -> ErrorNode {
        (**self).node_view()
    }

    fn debug_fmt(&self, layer: usize, buf: &mut Vec<String>) {
        (**self).debug_fmt(layer, buf)
    }

    fn next(&self) -> (r: Option<&ErrorNode>) {
        (**self).next()
    }
}

/// Boxing a node never changes what the user or the diagnostic log
/// sees: the boxed node renders the same user-safe message as the node
/// it owns.
pub proof fn lemma_boxed_user_message(b: BoxedError)
    ensures
        ErrorNode::Boxed(b).user_message() == b.inner_view().user_message(),
{
    let nb = ErrorNode::Boxed(b);
    let ni = b.inner_view();
    if !nb.spec_status().spec_is_masked() {
        if ni.chain_tail().len() == 0 {
            assert(nb.chain() =~= seq![nb]);
            assert(ni.chain() =~= seq![ni]);
        } else {
            assert(nb.spec_last() == ni.chain_tail().last());
            assert(ni.spec_last() == ni.chain_tail().last());
        }
    }
}

/// Boxing a node into the opaque box is a no-op with respect to
/// classification, location, the layer-numbered trace, chain depth,
/// and the user-safe message.
pub proof fn lemma_boxing_is_transparent(b: BoxedError)
    ensures
        ErrorNode::Boxed(b).spec_status() == b.inner_view().spec_status(),
        ErrorNode::Boxed(b).spec_location() == b.inner_view().spec_location(),
        forall|layer: nat| #[trigger]
            ErrorNode::Boxed(b).debug_lines(layer) == b.inner_view().debug_lines(layer),
        ErrorNode::Boxed(b).chain().len() == b.inner_view().chain().len(),
        ErrorNode::Boxed(b).user_message() == b.inner_view().user_message(),
{
    lemma_boxed_user_message(b);
    assert(ErrorNode::Boxed(b).chain().len() == 1 + ErrorNode::Boxed(b).chain_tail().len());
    assert(b.inner_view().chain().len() == 1 + b.inner_view().chain_tail().len());
}

} // verus!
