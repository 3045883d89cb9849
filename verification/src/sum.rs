//! The summing traversal and the arithmetic it is stated in.

use crate::node::{link_values, share, RustNode};
use std::sync::Arc;
use vstd::prelude::*;

verus! {

/// The sum of a sequence of values as a mathematical integer.
pub open spec fn total(values: Seq<i64>) -> int
    decreases values.len(),
{
    if values.len() == 0 {
        0
    } else {
        values[0] + total(values.drop_first())
    }
}

/// The 64-bit two's-complement number that differs from `x` by a multiple of
/// 2^64.
pub open spec fn wrap(x: int) -> i64 {
    let r = x % 0x1_0000_0000_0000_0000;
    if r >= 0x8000_0000_0000_0000 {
        (r - 0x1_0000_0000_0000_0000) as i64
    } else {
        r as i64
    }
}

/// What a caller hands to the traversal as the head of a list.
pub enum Head {
    /// No list at all: the empty list.
    Absent,
    /// The first node of a chain.
    Node(Arc<RustNode>),
    /// A value that is present but is no node.
    Foreign,
}

/// Why a traversal was refused.
#[derive(Clone, Copy, Debug, PartialEq, Eq)]
pub enum SumError {
    /// The head was present but was not a node.
    TypeMismatch,
}

/// Wrapping changes a number by a multiple of 2^64 and by nothing else.
pub proof fn lemma_wrap_congruent(x: int)
    ensures
        (x - wrap(x)) % 0x1_0000_0000_0000_0000 == 0,
{
}

/// A number in the 64-bit range wraps to itself.
pub proof fn lemma_wrap_in_range(x: int)
    requires
        i64::MIN <= x <= i64::MAX,
    ensures
        wrap(x) == x,
{
}

/// Wrapping may be done at each step or once at the end: the result is the
/// same.
pub proof fn lemma_wrap_step(a: int, b: int)
    ensures
        wrap(wrap(a) + b) == wrap(a + b),
{
}

/// Adding with wraparound to a wrapped sum gives the wrapped longer sum.
pub proof fn lemma_wrapping_add(a: int, v: i64)
    ensures
        vstd::wrapping::i64_specs::wrapping_add(wrap(a), v) == wrap(a + v),
{
}

/// The sum of a value followed by a sequence.
pub proof fn lemma_total_prepend(v: i64, rest: Seq<i64>)
    ensures
        total(seq![v] + rest) == v + total(rest),
{
    assert((seq![v] + rest).drop_first() =~= rest);
}

/// The sum of two sequences laid end to end is the sum of their sums. So the
/// sum of a list with a shared tail is the sum of its own nodes plus the sum of
/// the tail, whoever else holds that tail.
pub proof fn lemma_total_concat(front: Seq<i64>, back: Seq<i64>)
    ensures
        total(front + back) == total(front) + total(back),
    decreases front.len(),
{
    if front.len() == 0 {
        assert(front + back =~= back);
    } else {
        assert((front + back).drop_first() =~= front.drop_first() + back);
        lemma_total_concat(front.drop_first(), back);
    }
}

/// The sum of a chain is its head's value, with its sign, plus the sum of what
/// its link leads to. Two nodes with the same link therefore differ in their
/// sums by the difference of their values, and neither sum depends on who else
/// holds the tail.
pub proof fn lemma_total_node(node: &RustNode)
    ensures
        total(node@) == node.value() + total(link_values(node.spec_next())),
{
    node.lemma_view();
    lemma_total_prepend(node.value(), link_values(node.spec_next()));
}

/// Sums the values of the chain that starts at `first`, with wraparound.
///
/// The walk holds one shared handle at a time: stepping on takes a handle on
/// the successor and gives up the one on the node just read.
pub fn sum_chain(first: &Arc<RustNode>) -> (sum: i64)
    ensures
        sum == wrap(total(first@)),
{
    let mut acc: i64 = 0;
    let mut current: Arc<RustNode> = share(first);
    loop
        invariant_except_break
            wrap(acc + total(current@)) == wrap(total(first@)),
        ensures
            acc == wrap(total(first@)),
        decreases current@.len(),
    {
        let node: &RustNode = &*current;
        proof {
            node.lemma_view();
            lemma_total_node(node);
            lemma_wrapping_add(acc as int, node.value());
            lemma_wrap_step(acc + node.value(), total(link_values(node.spec_next())));
        }
        acc = acc.wrapping_add(node.value());
        match node.next() {
            Some(next_owned) => {
                current = next_owned;
            },
            None => {
                break ;
            },
        }
    }
    acc
}

/// Sums a list given by its head.
///
/// An absent head is the empty list, whose sum is 0. A head that is no node is
/// refused, before any node is read.
pub fn rust_sum_list(head: &Head) -> (result: Result<i64, SumError>)
    ensures
        result == match *head {
            Head::Absent => Ok::<i64, SumError>(0i64),
            Head::Node(first) => Ok(wrap(total(first@))),
            Head::Foreign => Err(SumError::TypeMismatch),
        },
{
    match head {
        Head::Absent => Ok(0),
        Head::Node(first) => Ok(sum_chain(first)),
        Head::Foreign => Err(SumError::TypeMismatch),
    }
}

} // verus!
