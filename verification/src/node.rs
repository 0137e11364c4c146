//! The closed model of error nodes and chains.
//!
//! A node is one link in a causal chain. The kinds of node are closed:
//! a plain error, a mock error, a tagged-union node produced by the
//! generation contract, and an opaque boxed node. Every capability of
//! the model is specified against the recursive functions defined here.

use vstd::prelude::*;

use crate::decimal::dec_seq;
use crate::decimal::u64_to_decimal;
use crate::ext::BoxedError;
use crate::ext::PlainError;
use crate::external::ExternalError;
use crate::location::SourceLocation;
use crate::mock::MockError;
use crate::status_code::StatusCode;

verus! {

/// The nested-failure slot of a tagged-union node.
///
/// An internal cause is a node of this error model and is traversed by
/// the chain capability; an external cause is a foreign failure,
/// attached for display and debugging only.
pub enum CauseLink {
    /// No nested failure: the node is a root cause.
    Root,
    /// An internal cause, chained through the chain capability.
    Internal(Box<ErrorNode>),
    /// An external cause, outside the chain.
    External(ExternalError),
}

/// A node of a tagged-union error type as the generation contract
/// emits it: a rendered display template, a classification, an optional
/// recorded source location, and at most one nested failure.
pub struct TaggedError {
    /// The classification of this node.
    pub status: StatusCode,
    /// The rendered display template of the variant.
    pub message: String,
    /// The recorded source location, if the variant declares one.
    pub location: Option<SourceLocation>,
    /// The nested failure of the variant, if it declares one.
    pub cause: CauseLink,
}

/// One link in an error chain: any of the closed set of node kinds.
pub enum ErrorNode {
    /// A plain message-plus-status error.
    Plain(PlainError),
    /// A mock error.
    Mock(MockError),
    /// A node of a generated tagged-union error type.
    Tagged(TaggedError),
    /// An opaque boxed node.
    Boxed(BoxedError),
}

/// The views of the strings in `v`, in order.
pub open spec fn lines_view(v: Seq<String>) -> Seq<Seq<char>> {
    v.map_values(|s: String| s@)
}

/// The masked rendering of a classification: a literal prefix and the
/// numeric status code, nothing of the underlying message.
pub open spec fn masked_text(c: StatusCode) -> Seq<char> {
    "Internal error: "@ + dec_seq(c.spec_num() as nat)
}

/// The layer-numbered trace line of a plain error.
pub open spec fn plain_line(p: PlainError, layer: nat) -> Seq<char> {
    dec_seq(layer) + ": "@ + p.msg@
}

/// The layer-numbered trace line of a tagged-union node: its rendered
/// template, then its recorded location if present.
pub open spec fn tagged_line(t: TaggedError, layer: nat) -> Seq<char> {
    dec_seq(layer) + ": "@ + t.message@ + match t.location {
        Option::Some(l) => ", at "@ + l.spec_render(),
        Option::None => Seq::<char>::empty(),
    }
}

impl ErrorNode {
    /// The classification of this node. Pure function of the node's own
    /// data; a boxed node forwards to the node it owns.
    pub open spec fn spec_status(self) -> StatusCode
        decreases self,
    {
        match self {
            ErrorNode::Plain(p) => p.status_code,
            ErrorNode::Mock(m) => m.code,
            ErrorNode::Tagged(t) => t.status,
            ErrorNode::Boxed(b) => (*b.inner).spec_status(),
        }
    }

    /// The display message of this node.
    pub open spec fn spec_message(self) -> Seq<char>
        decreases self,
    {
        match self {
            ErrorNode::Plain(p) => p.msg@,
            ErrorNode::Mock(m) => m.code.spec_name(),
            ErrorNode::Tagged(t) => t.message@,
            ErrorNode::Boxed(b) => (*b.inner).spec_message(),
        }
    }

    /// The recorded source location of this node, if any.
    pub open spec fn spec_location(self) -> Option<SourceLocation>
        decreases self,
    {
        match self {
            ErrorNode::Plain(_) => Option::None,
            ErrorNode::Mock(_) => Option::None,
            ErrorNode::Tagged(t) => t.location,
            ErrorNode::Boxed(b) => (*b.inner).spec_location(),
        }
    }

    /// The immediate cause of this node in the chain, if this node
    /// wraps one. Only an internal cause of a tagged-union node is
    /// chained; a boxed node forwards.
    pub open spec fn spec_next(self) -> Option<ErrorNode>
        decreases self,
    {
        match self {
            ErrorNode::Plain(_) => Option::None,
            ErrorNode::Mock(_) => Option::None,
            ErrorNode::Tagged(t) => match t.cause {
                CauseLink::Internal(b) => Option::Some(*b),
                _ => Option::None,
            },
            ErrorNode::Boxed(b) => (*b.inner).spec_next(),
        }
    }

    /// The nodes strictly below this one in the chain, outermost first.
    pub open spec fn chain_tail(self) -> Seq<ErrorNode>
        decreases self,
    {
        match self {
            ErrorNode::Plain(_) => Seq::empty(),
            ErrorNode::Mock(_) => Seq::empty(),
            ErrorNode::Tagged(t) => match t.cause {
                CauseLink::Internal(b) => seq![*b] + (*b).chain_tail(),
                _ => Seq::empty(),
            },
            ErrorNode::Boxed(b) => (*b.inner).chain_tail(),
        }
    }

    /// The whole chain from this node to the root cause, outermost
    /// first. Always holds at least this node.
    pub open spec fn chain(self) -> Seq<ErrorNode> {
        seq![self] + self.chain_tail()
    }

    /// The root cause: the last node of the chain.
    pub open spec fn spec_last(self) -> ErrorNode {
        self.chain().last()
    }

    /// Whether this node has a language-level cause: a nested failure
    /// reachable for display and debugging, whether or not the chain
    /// capability traverses it.
    pub open spec fn has_lang_cause(self) -> bool
        decreases self,
    {
        match self {
            ErrorNode::Plain(_) => false,
            ErrorNode::Mock(m) => m.source is Some,
            ErrorNode::Tagged(t) => !(t.cause is Root),
            ErrorNode::Boxed(b) => (*b.inner).has_lang_cause(),
        }
    }

    /// The message of the deepest failure reachable from this node
    /// through language-level causes (this node's own message when it
    /// has none).
    pub open spec fn lang_root_msg(self) -> Seq<char>
        decreases self,
    {
        match self {
            ErrorNode::Plain(p) => p.msg@,
            ErrorNode::Mock(m) => m.spec_root_code().spec_name(),
            ErrorNode::Tagged(t) => match t.cause {
                CauseLink::Root => t.message@,
                CauseLink::Internal(b) => (*b).lang_root_msg(),
                CauseLink::External(e) => e.spec_root_msg(),
            },
            ErrorNode::Boxed(b) => (*b.inner).lang_root_msg(),
        }
    }

    /// The message of the deepest failure reachable from this node's
    /// immediate language-level cause. Meaningful only where
    /// `has_lang_cause` holds.
    pub open spec fn cause_root_text(self) -> Seq<char>
        decreases self,
    {
        match self {
            ErrorNode::Plain(_) => Seq::empty(),
            ErrorNode::Mock(m) => match m.source {
                Option::Some(s) => (*s).spec_root_code().spec_name(),
                Option::None => Seq::empty(),
            },
            ErrorNode::Tagged(t) => match t.cause {
                CauseLink::Root => Seq::empty(),
                CauseLink::Internal(b) => (*b).lang_root_msg(),
                CauseLink::External(e) => e.spec_root_msg(),
            },
            ErrorNode::Boxed(b) => (*b.inner).cause_root_text(),
        }
    }

    /// The layer-numbered trace of this node: its own line, then the
    /// lines of its next node under the following layer. A mock error
    /// contributes no lines; a boxed node forwards.
    pub open spec fn debug_lines(self, layer: nat) -> Seq<Seq<char>>
        decreases self,
    {
        match self {
            ErrorNode::Plain(p) => seq![plain_line(p, layer)],
            ErrorNode::Mock(_) => Seq::empty(),
            ErrorNode::Tagged(t) => seq![tagged_line(t, layer)] + match t.cause {
                CauseLink::Internal(b) => (*b).debug_lines(layer + 1),
                _ => Seq::<Seq<char>>::empty(),
            },
            ErrorNode::Boxed(b) => (*b.inner).debug_lines(layer),
        }
    }

    /// The line a node of this kind contributes under `layer` (empty
    /// for a mock error; a boxed node forwards).
    pub open spec fn own_line(self, layer: nat) -> Seq<char>
        decreases self,
    {
        match self {
            ErrorNode::Plain(p) => plain_line(p, layer),
            ErrorNode::Mock(_) => Seq::empty(),
            ErrorNode::Tagged(t) => tagged_line(t, layer),
            ErrorNode::Boxed(b) => (*b.inner).own_line(layer),
        }
    }

    /// The full debug trace of this node: its message closed by a
    /// period, its language-level cause rendered recursively, then its
    /// recorded location.
    pub open spec fn trace_seq(self) -> Seq<char>
        decreases self,
    {
        match self {
            ErrorNode::Plain(p) => p.msg@ + "."@,
            ErrorNode::Mock(m) => m.spec_trace(),
            ErrorNode::Tagged(t) => t.message@ + "."@ + (match t.cause {
                CauseLink::Root => Seq::<char>::empty(),
                CauseLink::Internal(b) => " Caused by: "@ + (*b).trace_seq(),
                CauseLink::External(e) => " Caused by: "@ + e.spec_trace(),
            }) + (match t.location {
                Option::Some(l) => " at: "@ + l.spec_render(),
                Option::None => Seq::<char>::empty(),
            }),
            ErrorNode::Boxed(b) => (*b.inner).trace_seq(),
        }
    }

    /// The user-safe message of this node. `Unknown` and `Internal`
    /// classifications are always masked to the numeric-only text; any
    /// other classification surfaces the root cause: its own message,
    /// its external root message, or both joined by `": "`.
    pub open spec fn user_message(self) -> Seq<char> {
        if self.spec_status().spec_is_masked() {
            masked_text(self.spec_status())
        } else {
            let root = self.spec_last();
            if root.has_lang_cause() {
                if root.spec_message().len() == 0 {
                    root.cause_root_text()
                } else {
                    root.spec_message() + ": "@ + root.cause_root_text()
                }
            } else {
                root.spec_message()
            }
        }
    }
}

/// The chain below a node unrolls through its immediate cause: it is
/// empty exactly where the node has no next node, and otherwise starts
/// at the next node.
pub proof fn lemma_chain_unfold(n: ErrorNode)
    ensures
        n.chain_tail() == match n.spec_next() {
            Option::Some(m) => seq![m] + m.chain_tail(),
            Option::None => Seq::<ErrorNode>::empty(),
        },
    decreases n,
{
    match n {
        ErrorNode::Boxed(b) => {
            lemma_chain_unfold(*b.inner);
        },
        _ => {},
    }
}

/// Structure of a chain: it starts at its own node, each node is
/// followed by its immediate cause, and it ends at the unique node of
/// the chain that has no cause — the root.
pub proof fn lemma_chain_structure(n: ErrorNode)
    ensures
        n.chain().len() >= 1,
        n.chain()[0] == n,
        n.spec_last() == n.chain().last(),
        n.spec_last().spec_next() is None,
        forall|i: int|
            0 <= i < n.chain().len() - 1 ==> (#[trigger] n.chain()[i]).spec_next() == Some(
                n.chain()[i + 1],
            ),
    decreases n.chain().len(),
{
    lemma_chain_unfold(n);
    match n.spec_next() {
        Option::None => {},
        Option::Some(m) => {
            assert(m.chain().len() < n.chain().len()) by {
                assert(n.chain_tail() =~= seq![m] + m.chain_tail());
            }
            lemma_chain_structure(m);
            assert(n.chain() =~= seq![n] + m.chain());
            assert forall|i: int| 0 <= i < n.chain().len() - 1 implies (#[trigger] n.chain()[
                i
            ]).spec_next() == Some(n.chain()[i + 1]) by {
                if i == 0 {
                } else {
                    assert(n.chain()[i] == m.chain()[i - 1]);
                    assert(n.chain()[i + 1] == m.chain()[i]);
                }
            }
        },
    }
}

/// For every chain built from plain errors and tagged-union nodes, the
/// layer-numbered trace holds exactly one line per chain node, indexed
/// `layer`, `layer + 1`, ... in outer-to-inner order; the line at
/// position `i` is the line of the chain's `i`-th node.
pub proof fn lemma_stacked_debug_lines(n: ErrorNode, layer: nat)
    requires
        n.stacked(),
    ensures
        n.debug_lines(layer).len() == n.chain().len(),
        forall|i: int|
            0 <= i < n.chain().len() ==> n.debug_lines(layer)[i] == (#[trigger] n.chain()[
                i
            ]).own_line((layer + i) as nat),
        forall|i: int|
            0 <= i < n.chain().len() ==> ((#[trigger] n.chain()[i]) is Plain || n.chain()[
                i
            ] is Tagged),
    decreases n,
{
    match n {
        ErrorNode::Tagged(t) => match t.cause {
            CauseLink::Internal(b) => {
                lemma_stacked_debug_lines(*b, layer + 1);
                assert(n.chain() =~= seq![n] + (*b).chain());
                assert(n.debug_lines(layer) =~= seq![tagged_line(t, layer)] + (*b).debug_lines(
                    layer + 1,
                ));
                assert forall|i: int| 0 <= i < n.chain().len() implies n.debug_lines(layer)[i]
                    == (#[trigger] n.chain()[i]).own_line((layer + i) as nat) by {
                    if i > 0 {
                        assert(n.chain()[i] == (*b).chain()[i - 1]);
                        assert(n.debug_lines(layer)[i] == (*b).debug_lines(layer + 1)[i - 1]);
                    }
                }
            },
            _ => {
                assert(n.chain() =~= seq![n]);
                assert(n.debug_lines(layer) =~= seq![tagged_line(t, layer)]);
            },
        },
        _ => {
            assert(n.chain() =~= seq![n]);
        },
    }
}

impl ErrorNode {
    /// Returns the classification of this node.
    pub fn status_code(&self) -> (c: StatusCode)
        ensures
            c == self.spec_status(),
        decreases *self,
    {
        match self {
            ErrorNode::Plain(p) => p.status_code,
            ErrorNode::Mock(m) => m.code,
            ErrorNode::Tagged(t) => t.status,
            ErrorNode::Boxed(b) => b.inner.status_code(),
        }
    }

    /// Returns the display message of this node.
    pub fn message(&self) -> (s: String)
        ensures
            s@ == self.spec_message(),
        decreases *self,
    {
        match self {
            ErrorNode::Plain(p) => p.msg.clone(),
            ErrorNode::Mock(m) => m.code.name().to_owned(),
            ErrorNode::Tagged(t) => t.message.clone(),
            ErrorNode::Boxed(b) => b.inner.message(),
        }
    }

    /// Returns the recorded source location of this node, `None` if
    /// none was recorded.
    pub fn location_opt(&self) -> (l: Option<SourceLocation>)
        ensures
            match (l, self.spec_location()) {
                (Some(a), Some(b)) => a.spec_file() == b.spec_file() && a.spec_line()
                    == b.spec_line() && a.spec_column() == b.spec_column(),
                (None, None) => true,
                _ => false,
            },
        decreases *self,
    {
        match self {
            ErrorNode::Plain(_) => None,
            ErrorNode::Mock(_) => None,
            ErrorNode::Tagged(t) => match &t.location {
                Option::Some(l) => Some(l.clone()),
                Option::None => None,
            },
            ErrorNode::Boxed(b) => b.inner.location_opt(),
        }
    }

    /// Returns the immediate cause of this node in the chain, if this
    /// node wraps one.
    pub fn next(&self) -> (r: Option<&ErrorNode>)
        ensures
            match r {
                Some(n) => self.spec_next() == Some(*n),
                None => self.spec_next() is None,
            },
        decreases *self,
    {
        match self {
            ErrorNode::Plain(_) => None,
            ErrorNode::Mock(_) => None,
            ErrorNode::Tagged(t) => match &t.cause {
                CauseLink::Internal(b) => Some(&**b),
                _ => None,
            },
            ErrorNode::Boxed(b) => b.inner.next(),
        }
    }

    /// Walks the chain to the root cause: the unique node of the chain
    /// with no next node.
    pub fn last(&self) -> (r: &ErrorNode)
        ensures
            *r == self.spec_last(),
            r.spec_next() is None,
    {
        proof {
            lemma_chain_structure(*self);
        }
        let mut cur: &ErrorNode = self;
        loop
            invariant
                cur.spec_last() == self.spec_last(),
            decreases cur.chain().len(),
        {
            proof {
                lemma_chain_unfold(*cur);
                lemma_chain_structure(*cur);
            }
            match cur.next() {
                Some(n) => {
                    proof {
                        assert(cur.chain_tail() =~= seq![*n] + n.chain_tail());
                        assert(cur.chain() =~= seq![*cur] + n.chain());
                        lemma_chain_structure(*n);
                        assert(cur.spec_last() == n.spec_last());
                    }
                    cur = n;
                },
                None => {
                    proof {
                        assert(cur.chain() =~= seq![*cur]);
                        assert(cur.spec_last() == *cur);
                    }
                    return cur;
                },
            }
        }
    }

    /// Appends this node's layer-numbered trace lines to `buf`: its own
    /// line first, then — where an internal cause exists — the cause's
    /// lines under the following layer. The contract speaks of every
    /// chain whose layer numbers fit the machine word.
    pub fn debug_fmt(&self, layer: usize, buf: &mut Vec<String>)
        ensures
            layer + self.chain_tail().len() <= usize::MAX ==> lines_view(final(buf)@)
                == lines_view(old(buf)@) + self.debug_lines(layer as nat),
        decreases *self,
    {
        match self {
            ErrorNode::Plain(p) => {
                let mut line = u64_to_decimal(layer as u64);
                line.append(": ");
                line.append(p.msg.as_str());
                proof {
                    assert(line@ =~= plain_line(*p, layer as nat));
                }
                let ghost entry = buf@;
                buf.push(line);
                proof {
                    assert(lines_view(buf@) =~= lines_view(entry) + self.debug_lines(
                        layer as nat,
                    ));
                }
            },
            ErrorNode::Mock(_) => {
                proof {
                    assert(lines_view(buf@) =~= lines_view(buf@) + self.debug_lines(
                        layer as nat,
                    ));
                }
            },
            ErrorNode::Tagged(t) => {
                let mut line = u64_to_decimal(layer as u64);
                line.append(": ");
                line.append(t.message.as_str());
                match &t.location {
                    Option::Some(l) => {
                        line.append(", at ");
                        line.append(l.render().as_str());
                    },
                    Option::None => {},
                }
                proof {
                    assert(line@ =~= tagged_line(*t, layer as nat));
                }
                let ghost entry = buf@;
                buf.push(line);
                let ghost mid = buf@;
                match &t.cause {
                    CauseLink::Internal(b) => {
                        if layer < usize::MAX {
                            b.debug_fmt(layer + 1, buf);
                            proof {
                                if layer + self.chain_tail().len() <= usize::MAX {
                                    assert(self.chain_tail() =~= seq![**b] + b.chain_tail());
                                    assert(lines_view(buf@) =~= lines_view(entry)
                                        + self.debug_lines(layer as nat));
                                }
                            }
                        } else {
                            // A chain this deep cannot exist in memory;
                            // the contract holds vacuously.
                            b.debug_fmt(layer, buf);
                            proof {
                                assert(self.chain_tail().len() >= 1) by {
                                    assert(self.chain_tail() =~= seq![**b] + b.chain_tail());
                                }
                            }
                        }
                    },
                    _ => {
                        proof {
                            assert(lines_view(buf@) =~= lines_view(entry) + self.debug_lines(
                                layer as nat,
                            ));
                        }
                    },
                }
            },
            ErrorNode::Boxed(b) => {
                b.inner.debug_fmt(layer, buf);
            },
        }
    }

    /// Whether every node of this chain is a plain error or a
    /// tagged-union node: the kinds whose layer-numbered trace holds
    /// exactly one line per node.
    pub open spec fn stacked(self) -> bool
        decreases self,
    {
        match self {
            ErrorNode::Plain(_) => true,
            ErrorNode::Tagged(t) => match t.cause {
                CauseLink::Internal(b) => (*b).stacked(),
                _ => true,
            },
            _ => false,
        }
    }

    /// Returns the plain error this node is, if it is one.
    pub fn as_plain(&self) -> (r: Option<&PlainError>)
        ensures
            match r {
                Some(p) => *self == ErrorNode::Plain(*p),
                None => !(self is Plain),
            },
    {
        match self {
            ErrorNode::Plain(p) => Some(p),
            _ => None,
        }
    }

    /// Returns the mock error this node is, if it is one.
    pub fn as_mock(&self) -> (r: Option<&MockError>)
        ensures
            match r {
                Some(m) => *self == ErrorNode::Mock(*m),
                None => !(self is Mock),
            },
    {
        match self {
            ErrorNode::Mock(m) => Some(m),
            _ => None,
        }
    }

    /// Returns the tagged-union node this node is, if it is one.
    pub fn as_tagged(&self) -> (r: Option<&TaggedError>)
        ensures
            match r {
                Some(t) => *self == ErrorNode::Tagged(*t),
                None => !(self is Tagged),
            },
    {
        match self {
            ErrorNode::Tagged(t) => Some(t),
            _ => None,
        }
    }

    /// Returns the boxed error this node is, if it is one.
    pub fn as_boxed(&self) -> (r: Option<&BoxedError>)
        ensures
            match r {
                Some(b) => *self == ErrorNode::Boxed(*b),
                None => !(self is Boxed),
            },
    {
        match self {
            ErrorNode::Boxed(b) => Some(b),
            _ => None,
        }
    }
}

} // verus!
