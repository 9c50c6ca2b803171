use vstd::prelude::*;

use std::cmp::Ordering;
use vstd::std_specs::cmp::PartialOrdSpec;

verus! {

/// The largest number in `list`, or `None` when `list` is empty.
pub fn largest(list: &[i32]) -> (r: Option<&i32>)
    ensures
        r is None <==> list@.len() == 0,
        r matches Some(m) ==> exists|i: int| 0 <= i < list@.len() && list@[i] == *m,
        r matches Some(m) ==> forall|i: int| 0 <= i < list@.len() ==> list@[i] <= *m,
{
    if list.len() == 0 {
        return None;
    }
    let mut best: usize = 0;
    let mut i: usize = 1;
    while i < list.len()
        invariant
            best < i <= list@.len(),
            forall|k: int| 0 <= k < i ==> list@[k] <= list@[best as int],
        decreases list.len() - i,
    {
        if list[i] > list[best] {
            best = i;
        }
        i += 1;
    }
    Some(&list[best])
}

/// `a` compares greater than `b` in the order that `T`'s `PartialOrd` states.
pub open spec fn greater<T: PartialOrd>(a: T, b: T) -> bool {
    a.partial_cmp_spec(&b) == Some(Ordering::Greater)
}

/// `T`'s `PartialOrd` follows its specification, and "greater than" in it is
/// irreflexive and transitive.
pub open spec fn orders_strictly<T: PartialOrd>() -> bool {
    &&& T::obeys_partial_cmp_spec()
    &&& forall|a: T| !#[trigger] greater(a, a)
    &&& forall|a: T, b: T, c: T| #[trigger] greater(a, b) && #[trigger] greater(b, c) ==> greater(a, c)
}

/// A largest item of `list`, or `None` when `list` is empty: an item of
/// `list` than which no item is greater, when `T` is ordered strictly.
pub fn generic_largest<T: PartialOrd>(list: &[T]) -> (r: Option<&T>)
    ensures
        r is None <==> list@.len() == 0,
        r matches Some(m) ==> exists|i: int| 0 <= i < list@.len() && list@[i] == *m,
        r matches Some(m) ==> (orders_strictly::<T>() ==> forall|i: int|
            0 <= i < list@.len() ==> !greater(list@[i], *m)),
{
    if list.len() == 0 {
        return None;
    }
    let mut best: usize = 0;
    let mut i: usize = 1;
    while i < list.len()
        invariant
            best < i <= list@.len(),
            orders_strictly::<T>() ==> forall|k: int|
                0 <= k < i ==> !greater(list@[k], list@[best as int]),
        decreases list.len() - i,
    {
        if list[i] > list[best] {
            proof {
                if orders_strictly::<T>() {
                    assert forall|k: int| 0 <= k <= i implies !greater(
                        list@[k],
                        list@[i as int],
                    ) by {
                        if k < i && greater(list@[k], list@[i as int]) {
                            assert(greater(list@[i as int], list@[best as int]));
                        }
                    }
                }
            }
            best = i;
        }
        i += 1;
    }
    Some(&list[best])
}

} // verus!
