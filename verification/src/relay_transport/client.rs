//! The client side of JSON-RPC over relays: waiting for the first event that decodes to a
//! response, until the timeout.
use vstd::prelude::*;

use crate::nip_46::present;

verus! {

broadcast use vstd::std_specs::vec::group_vec_axioms;

/// The first item that is present, if any.
pub open spec fn first_present<T>(items: Seq<Option<T>>) -> Option<T> {
    if present(items).len() > 0 {
        Some(present(items)[0])
    } else {
        None
    }
}

/// `present` keeps an item that is present and skips one that is not.
proof fn lemma_present_push<T>(items: Seq<Option<T>>, x: Option<T>)
    ensures
        present(items.push(x)) == match x {
            Some(v) => present(items).push(v),
            None => present(items),
        },
{
    assert(items.push(x).drop_last() =~= items);
}

/// The first of the decoded events, in the order they were fetched.
pub fn first_decoded<T>(candidates: Vec<Option<T>>) -> (r: Option<T>)
    ensures
        r == first_present(candidates@),
{
    assert(candidates@.len() == candidates.len());
    let ghost cs = candidates@;
    let mut rest = candidates;
    let mut i: usize = 0;
    assert(cs.take(0) =~= Seq::<Option<T>>::empty());
    while rest.len() > 0
        invariant
            i + rest.len() == cs.len(),
            cs == candidates@,
            cs.len() <= usize::MAX,
            rest@ == cs.subrange(i as int, cs.len() as int),
            present(cs.take(i as int)).len() == 0,
        decreases rest.len(),
    {
        let c = rest.remove(0);
        assert(c == cs[i as int]);
        assert(cs.take(i + 1) =~= cs.take(i as int).push(c));
        proof {
            lemma_present_push(cs.take(i as int), c);
        }
        match c {
            Some(x) => {
                proof {
                    lemma_present_prefix(cs, i + 1);
                    assert(present(cs.take(i + 1))[0] == x);
                }
                return Some(x);
            },
            None => {},
        }
        i = i + 1;
        assert(rest@ =~= cs.subrange(i as int, cs.len() as int));
    }
    assert(cs.take(cs.len() as int) =~= cs);
    None
}

/// The items present in a prefix come first among the items present in the whole.
proof fn lemma_present_prefix<T>(items: Seq<Option<T>>, n: int)
    requires
        0 <= n <= items.len(),
    ensures
        present(items).len() >= present(items.take(n)).len(),
        forall|k: int| 0 <= k < present(items.take(n)).len() ==> present(items)[k] == #[trigger] present(items.take(n))[k],
    decreases items.len() - n,
{
    if n < items.len() {
        lemma_present_prefix(items, n + 1);
        assert(items.take(n + 1) =~= items.take(n).push(items[n]));
        lemma_present_push(items.take(n), items[n]);
        assert forall|k: int| 0 <= k < present(items.take(n)).len() implies present(items)[k] == #[trigger] present(
            items.take(n),
        )[k] by {
            assert(present(items.take(n + 1))[k] == present(items.take(n))[k]);
        }
    } else {
        assert(items.take(n) =~= items);
    }
}

/// Whether to keep waiting for a response: only while less time than the timeout has
/// passed since the request was sent (both in nanoseconds).
pub fn keep_waiting(elapsed_nanos: u128, timeout_nanos: u128) -> (r: bool)
    ensures
        r == (elapsed_nanos < timeout_nanos),
{
    elapsed_nanos < timeout_nanos
}

} // verus!
