//! The list itself: a chain of nodes, each owning its tail, plus the
//! builder that fills a fresh list with consecutive values.

use vstd::prelude::*;

verus! {

/// One element of the list. A node holds its value and exclusively owns
/// the remainder of the chain; there is no sharing and no cycle.
pub struct Node {
    pub val: i64,
    pub tail: LinkedList,
}

/// A list is either empty or a handle to its owned head node.
pub type LinkedList = Option<Box<Node>>;

/// The sequence of values stored in the list, head first.
pub open spec fn values(l: LinkedList) -> Seq<i64>
    decreases l,
{
    match l {
        None => Seq::empty(),
        Some(node) => seq![node.val] + values(node.tail),
    }
}

/// The values a freshly built list of length `n` starting at `start`
/// holds: `start, start + 1, ...`, one per position.
pub open spec fn construct_values(n: nat, start: int) -> Seq<i64> {
    Seq::new(n, |i: int| (start + i) as i64)
}

/// Builds a list of exactly `n` nodes holding `x, x + 1, ..., x + n - 1`
/// from head to tail; `n == 0` yields the empty list.
pub fn construct_list(n: u64, x: i64) -> (r: LinkedList)
    requires
        n > 0 ==> x + n - 1 <= i64::MAX,
    ensures
        values(r) == construct_values(n as nat, x as int),
        values(r).len() == n,
        forall|i: int| 0 <= i < n ==> values(r)[i] == x + i,
    decreases n,
{
    if n == 0 {
        assert(values(None::<Box<Node>>) =~= construct_values(0, x as int));
        None
    } else {
        let tail: LinkedList = if n > 1 {
            construct_list(n - 1, x + 1)
        } else {
            None
        };
        proof {
            if n == 1 {
                assert(values(tail) =~= construct_values((n - 1) as nat, x + 1));
            }
            assert(seq![x] + values(tail) =~= construct_values(n as nat, x as int));
        }
        Some(Box::new(Node { val: x, tail }))
    }
}

} // verus!
