//! The renderer: a masked, user-safe summary and a full debug trace.

use vstd::prelude::*;

use crate::decimal::u64_to_decimal;
use crate::node::CauseLink;
use crate::node::ErrorNode;
use crate::node::masked_text;
use crate::status_code::StatusCode;

verus! {

/// Renders the masked message of a classification: the literal prefix
/// and the numeric status code, nothing else.
pub fn masked_message(c: StatusCode) -> (s: String)
    ensures
        s@ == masked_text(c),
{
    let mut s = "Internal error: ".to_owned();
    s.append(u64_to_decimal(c.as_u32() as u64).as_str());
    assert(s@ =~= masked_text(c));
    s
}

/// Returns the message of the deepest failure reachable from `n`
/// through language-level causes.
fn node_lang_root(n: &ErrorNode) -> (s: String)
    ensures
        s@ == n.lang_root_msg(),
    decreases *n,
{
    match n {
        ErrorNode::Plain(p) => p.msg.clone(),
        ErrorNode::Mock(m) => m.root_code().name().to_owned(),
        ErrorNode::Tagged(t) => match &t.cause {
            CauseLink::Root => t.message.clone(),
            CauseLink::Internal(b) => node_lang_root(b),
            CauseLink::External(e) => e.root_message(),
        },
        ErrorNode::Boxed(b) => node_lang_root(&b.inner),
    }
}

/// Joins a root node's own message with the message of its external
/// root: the own message alone without a cause, the cause's text alone
/// under an empty own message, and both joined by `": "` otherwise.
fn root_user_part(root: &ErrorNode) -> (s: String)
    ensures
        s@ == if root.has_lang_cause() {
            if root.spec_message().len() == 0 {
                root.cause_root_text()
            } else {
                root.spec_message() + ": "@ + root.cause_root_text()
            }
        } else {
            root.spec_message()
        },
    decreases *root,
{
    match root {
        ErrorNode::Plain(p) => p.msg.clone(),
        ErrorNode::Mock(m) => match &m.source {
            Option::None => m.code.name().to_owned(),
            Option::Some(src) => {
                proof {
                    crate::status_code::lemma_name_nonempty(m.code);
                }
                let mut s = m.code.name().to_owned();
                s.append(": ");
                s.append(src.root_code().name());
                assert(s@ =~= root.spec_message() + ": "@ + root.cause_root_text());
                s
            },
        },
        ErrorNode::Tagged(t) => match &t.cause {
            CauseLink::Root => t.message.clone(),
            CauseLink::Internal(b) => {
                if t.message.as_str().is_empty() {
                    node_lang_root(b)
                } else {
                    let mut s = t.message.clone();
                    s.append(": ");
                    s.append(node_lang_root(b).as_str());
                    assert(s@ =~= root.spec_message() + ": "@ + root.cause_root_text());
                    s
                }
            },
            CauseLink::External(e) => {
                if t.message.as_str().is_empty() {
                    e.root_message()
                } else {
                    let mut s = t.message.clone();
                    s.append(": ");
                    s.append(e.root_message().as_str());
                    assert(s@ =~= root.spec_message() + ": "@ + root.cause_root_text());
                    s
                }
            },
        },
        ErrorNode::Boxed(b) => root_user_part(&b.inner),
    }
}

/// Renders the user-safe message of a node: the masked numeric-only
/// text for `Unknown` and `Internal` classifications, the root cause's
/// text for every other classification. Safe to return to an untrusted
/// client.
pub fn render_user_message(n: &ErrorNode) -> (s: String)
    ensures
        s@ == n.user_message(),
{
    let code = n.status_code();
    if code.is_masked() {
        masked_message(code)
    } else {
        let root = n.last();
        root_user_part(root)
    }
}

/// Renders the full debug trace of a node: its message, its
/// language-level cause recursively, and its recorded location.
/// Intended for diagnostic logs, never for untrusted clients.
pub fn render_debug_trace(n: &ErrorNode) -> (s: String)
    ensures
        s@ == n.trace_seq(),
    decreases *n,
{
    match n {
        ErrorNode::Plain(p) => {
            let mut s = p.msg.clone();
            s.append(".");
            s
        },
        ErrorNode::Mock(m) => m.trace(),
        ErrorNode::Tagged(t) => {
            let mut s = t.message.clone();
            s.append(".");
            match &t.cause {
                CauseLink::Root => {},
                CauseLink::Internal(b) => {
                    s.append(" Caused by: ");
                    s.append(render_debug_trace(b).as_str());
                },
                CauseLink::External(e) => {
                    s.append(" Caused by: ");
                    s.append(e.trace().as_str());
                },
            }
            match &t.location {
                Option::Some(l) => {
                    s.append(" at: ");
                    s.append(l.render().as_str());
                },
                Option::None => {},
            }
            assert(s@ =~= n.trace_seq());
            s
        },
        ErrorNode::Boxed(b) => render_debug_trace(&b.inner),
    }
}

/// Pretty debug format for an error node; renders the node's full
/// debug trace.
pub struct DebugFormat<'a> {
    /// The node to render.
    pub err: &'a ErrorNode,
}

impl<'a> DebugFormat<'a> {
    /// Creates a new format value from `err`.
    pub fn new(err: &'a ErrorNode) -> (f: DebugFormat<'a>)
        ensures
            *f.err == *err,
    {
        DebugFormat { err }
    }

    /// Renders the full debug trace of the wrapped node.
    pub fn format(&self) -> (s: String)
        ensures
            s@ == self.err.trace_seq(),
    {
        render_debug_trace(self.err)
    }
}

/// For every node classified `Unknown` or `Internal`, the user-safe
/// message is exactly the literal prefix and the numeric status code:
/// nothing of the underlying messages appears in it.
pub proof fn lemma_masked_user_message(n: ErrorNode)
    requires
        n.spec_status().spec_is_masked(),
    ensures
        n.user_message() == masked_text(n.spec_status()),
{
}

/// For every node classified otherwise whose root cause has no
/// language-level cause, the user-safe message equals the root cause's
/// own display text; in particular, a node with neither chain nor
/// cause surfaces its own display text.
pub proof fn lemma_unmasked_user_message_no_cause(n: ErrorNode)
    requires
        !n.spec_status().spec_is_masked(),
        !n.spec_last().has_lang_cause(),
    ensures
        n.user_message() == n.spec_last().spec_message(),
        n.spec_next() is None ==> n.user_message() == n.spec_message(),
{
    if n.spec_next() is None {
        crate::node::lemma_chain_unfold(n);
        assert(n.chain() =~= seq![n]);
    }
}

/// For every node classified otherwise whose root cause carries a
/// language-level cause: with a non-empty own message the user-safe
/// message is `"<own message>: <external root message>"`, and with an
/// empty own message it is the external root message alone.
pub proof fn lemma_unmasked_user_message_with_cause(n: ErrorNode)
    requires
        !n.spec_status().spec_is_masked(),
        n.spec_last().has_lang_cause(),
    ensures
        n.spec_last().spec_message().len() > 0 ==> n.user_message() == n.spec_last().spec_message()
            + ": "@ + n.spec_last().cause_root_text(),
        n.spec_last().spec_message().len() == 0 ==> n.user_message()
            == n.spec_last().cause_root_text(),
{
}

} // verus!
