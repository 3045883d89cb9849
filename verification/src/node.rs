//! The frozen list node and its shared-ownership link.
//!
//! A list is a node whose successors end at a node without one. Nodes are
//! held through `Arc`: a node lives as long as somebody holds it, and two
//! lists may end in the same nodes.

use std::sync::Arc;
use vstd::prelude::*;

verus! {

/// One cell of a list: a value and an optional shared link to the successor.
///
/// Both fields are private and no method changes them, so a node that has been
/// built stays as it is for as long as anyone holds it.
pub struct RustNode {
    value: i64,
    next: Option<Arc<RustNode>>,
}

/// The values that a traversal starting at `link` meets, in order: none where
/// the link is absent.
pub open spec fn link_values(link: Option<Arc<RustNode>>) -> Seq<i64> {
    match link {
        Some(n) => n@,
        None => Seq::empty(),
    }
}

impl View for RustNode {
    type V = Seq<i64>;

    /// The values of the chain that starts at this node, in traversal order.
    closed spec fn view(&self) -> Seq<i64> {
        self.chain()
    }
}

impl RustNode {
    spec fn chain(&self) -> Seq<i64>
        decreases self,
    {
        match self.next {
            Some(n) => seq![self.value] + n.chain(),
            None => seq![self.value],
        }
    }

    /// The value stored in this node.
    pub closed spec fn spec_value(&self) -> i64 {
        self.value
    }

    /// The link to the successor of this node.
    pub closed spec fn spec_next(&self) -> Option<Arc<RustNode>> {
        self.next
    }

    /// A chain is its head's value followed by what its link leads to. In
    /// particular it is never empty.
    pub proof fn lemma_view(&self)
        ensures
            self@ == seq![self.spec_value()] + link_values(self.spec_next()),
            self@.len() == 1 + link_values(self.spec_next()).len(),
            self@[0] == self.spec_value(),
    {
        reveal_with_fuel(RustNode::chain, 2);
        assert(self.chain() == seq![self.value] + link_values(self.next));
    }

    /// Builds a node from its value and its successor. A node handed in as
    /// `next` is kept alive by the new node from then on.
    pub fn new(value: i64, next: Option<Arc<RustNode>>) -> (node: RustNode)
        ensures
            node.spec_value() == value,
            node.spec_next() == next,
            node@ == seq![value] + link_values(next),
    {
        let node = RustNode { value, next };
        proof {
            node.lemma_view();
        }
        node
    }

    /// Reads the value.
    #[verifier::when_used_as_spec(spec_value)]
    pub fn value(&self) -> (value: i64)
        ensures
            value == self.spec_value(),
    {
        self.value
    }

    /// Hands out a further shared handle on the successor, or `None` at the
    /// end of the chain.
    pub fn next(&self) -> (link: Option<Arc<RustNode>>)
        ensures
            link == self.spec_next(),
    {
        match &self.next {
            Some(n) => Some(share(n)),
            None => None,
        }
    }
}

/// `Arc::clone`: the new handle points to the very allocation that `handle`
/// points to, so it stands for the same node.
#[verifier::external_body]
pub(crate) fn share(handle: &Arc<RustNode>) -> (shared: Arc<RustNode>)
    ensures
        shared == *handle,
{
    Arc::clone(handle)
}

/// `Arc::into_inner`: gives up `handle`. Where a node comes back, it is the
/// node that the handle pointed to. `None` comes back while other handles on
/// the node remain.
#[verifier::external_body]
fn reclaim(handle: Arc<RustNode>) -> (owned: Option<RustNode>)
    ensures
        owned matches Some(node) ==> node == *handle,
    opens_invariants none
    no_unwind
{
    Arc::into_inner(handle)
}

impl Drop for RustNode {
    /// Unlinks the successor and releases the chain behind it in a loop, so
    /// that freeing a node never recurses into the rest of its chain.
    fn drop(&mut self)
        opens_invariants none
        no_unwind
    {
        let mut link: Option<Arc<RustNode>> = None;
        core::mem::swap(&mut link, &mut self.next);
        release(link);
    }
}

/// Gives up a link and, node by node, the chain behind it: each successor that
/// nobody else holds is taken out of its `Arc` and unlinked before it is freed.
/// The walk ends at the first node that someone else still holds.
///
/// The loop is verified in the context of the function, not on its own, so
/// that the promise not to unwind is checked across it.
#[verifier::loop_isolation(false)]
fn release(link: Option<Arc<RustNode>>)
    opens_invariants none
    no_unwind
{
    let mut cursor: Option<Arc<RustNode>> = link;
    loop
        decreases link_values(cursor).len(),
    {
        match cursor {
            None => {
                break ;
            },
            Some(handle) => {
                match reclaim(handle) {
                    None => {
                        cursor = None;
                    },
                    Some(mut node) => {
                        proof {
                            node.lemma_view();
                        }
                        let mut tail: Option<Arc<RustNode>> = None;
                        core::mem::swap(&mut tail, &mut node.next);
                        cursor = tail;
                    },
                }
            },
        }
    }
}

} // verus!
