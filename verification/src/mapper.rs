//! The concurrent map operation: one independently scheduled unit of
//! work per node computes the new value for that node, the recursion
//! fans out into the tail before waiting on the current node's unit,
//! and results are recombined in the original order.

use vstd::prelude::*;
use vstd::*;
use crate::list::{LinkedList, Node, values};

verus! {

/// A unit of work failed before delivering its result, so the whole
/// map operation failed with it.
#[derive(Clone, Copy, Debug, PartialEq, Eq, Structural)]
pub struct MapError;

/// Replaces every value `v` of the list by an `f(v)`, computing each
/// node's new value in its own concurrently scheduled unit of work.
///
/// On success the returned list has the same length and order as the
/// input, and each position holds a result `f` can return for the old
/// value at that position. If any unit of work fails, the whole call
/// reports failure instead of a partially transformed list; the empty
/// list spawns no unit at all, so mapping it always succeeds.
pub fn map_concurrent<F>(list: LinkedList, f: F) -> (r: Result<LinkedList, MapError>) where
    F: Fn(i64) -> i64 + Copy + Send + 'static,

    requires
        forall|i: int| 0 <= i < values(list).len() ==> call_requires(f, (values(list)[i],)),
    ensures
        list is None ==> (r matches Ok(mapped) && mapped is None),
        r matches Ok(mapped) ==> {
            &&& values(mapped).len() == values(list).len()
            &&& forall|i: int|
                0 <= i < values(list).len() ==> call_ensures(
                    f,
                    (values(list)[i],),
                    #[trigger] values(mapped)[i],
                )
        },
    decreases list,
{
    match list {
        None => Ok(None),
        Some(node) => {
            let node = *node;
            let v = node.val;
            let unit = (move || -> (res: i64)
                requires
                    call_requires(f, (v,)),
                ensures
                    call_ensures(f, (v,), res),
                {
                    f(v)
                });
            assert(call_requires(f, (v,))) by {
                assert(v == values(list)[0]);
            }
            let handle = thread::spawn(unit);
            assert forall|i: int| 0 <= i < values(node.tail).len() implies call_requires(
                f,
                (values(node.tail)[i],),
            ) by {
                assert(values(node.tail)[i] == values(list)[i + 1]);
            }
            let tail_result = map_concurrent(node.tail, f);
            let joined = handle.join();
            match (joined, tail_result) {
                (Ok(new_val), Ok(tail)) => {
                    let mapped: LinkedList = Some(Box::new(Node { val: new_val, tail }));
                    proof {
                        assert forall|i: int| 0 <= i < values(list).len() implies call_ensures(
                            f,
                            (values(list)[i],),
                            #[trigger] values(mapped)[i],
                        ) by {
                            if i > 0 {
                                assert(values(list)[i] == values(node.tail)[i - 1]);
                            }
                        }
                    }
                    Ok(mapped)
                },
                _ => Err(MapError),
            }
        },
    }
}

/// A map through a function that can only hand every value back
/// unchanged leaves the whole value sequence unchanged: if each
/// position of `after` is a possible result of `f` on the same
/// position of `before`, and every result of `f` equals its argument,
/// the two sequences are equal.
pub proof fn lemma_identity_map_preserves_values<F: Fn(i64) -> i64>(
    f: F,
    before: Seq<i64>,
    after: Seq<i64>,
)
    requires
        forall|x: i64, y: i64| #[trigger] call_ensures(f, (x,), y) ==> y == x,
        after.len() == before.len(),
        forall|i: int| 0 <= i < before.len() ==> call_ensures(f, (before[i],), #[trigger] after[i]),
    ensures
        after == before,
{
    assert forall|i: int| 0 <= i < before.len() implies after[i] == before[i] by {
        assert(call_ensures(f, (before[i],), after[i]));
    }
    assert(after =~= before);
}

} // verus!
