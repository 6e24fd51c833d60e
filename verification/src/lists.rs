//! Interpolation and distance of two lists of values, item by item.

use crate::capability::{Animate, ComputeSquaredDistance, Distance};
use vstd::prelude::*;

verus! {

/// What the items of a list stand for, one by one.
pub open spec fn views<T: View>(items: Seq<T>) -> Seq<T::V> {
    Seq::new(items.len(), |i: int| items[i]@)
}

/// Whether the two lists are of one length and every item of `left` can be interpolated
/// with the item of `right` at its place.
pub open spec fn items_animate<Pr, T: Animate<Pr>>(
    left: Seq<T>,
    right: Seq<T>,
    procedure: Pr,
) -> bool {
    &&& left.len() == right.len()
    &&& forall|i: int|
        0 <= i < left.len() ==> (#[trigger] left[i].animated(&right[i], procedure)) is Some
}

/// The list of the interpolated items, in the order of the lists, or `None` where the
/// lengths differ or an item fails.
pub open spec fn animated_list<Pr, T: Animate<Pr>>(
    left: Seq<T>,
    right: Seq<T>,
    procedure: Pr,
) -> Option<Seq<T::V>> {
    if items_animate(left, right, procedure) {
        Some(Seq::new(left.len(), |i: int| left[i].animated(&right[i], procedure).unwrap()))
    } else {
        None
    }
}

/// Interpolates two lists item by item.
pub fn animate<Pr: Copy, T: Animate<Pr>>(left: &Vec<T>, right: &Vec<T>, procedure: Pr) -> (r:
    Result<Vec<T>, ()>)
    ensures
        match r {
            Ok(items) => animated_list(left@, right@, procedure) == Some(views(items@)),
            Err(_) => animated_list(left@, right@, procedure) is None,
        },
{
    if left.len() != right.len() {
        return Err(());
    }
    let mut items: Vec<T> = Vec::new();
    let mut i: usize = 0;
    while i < left.len()
        invariant
            i <= left.len(),
            left.len() == right.len(),
            items.len() == i,
            forall|j: int|
                0 <= j < i ==> (#[trigger] left@[j].animated(&right@[j], procedure)) == Some(
                    items@[j]@,
                ),
        decreases left.len() - i,
    {
        match left[i].animate(&right[i], procedure) {
            Ok(item) => {
                items.push(item);
            },
            Err(_) => {
                assert(left@[i as int].animated(&right@[i as int], procedure) is None);
                return Err(());
            },
        }
        i += 1;
    }
    proof {
        assert(items_animate(left@, right@, procedure));
        assert(views(items@) =~= animated_list(left@, right@, procedure).unwrap());
    }
    Ok(items)
}

/// The squared distances of a list added up, one after the other, starting from zero.
pub open spec fn total<D: Distance>(terms: Seq<D>) -> D
    decreases terms.len(),
{
    if terms.len() == 0 {
        D::zero_spec()
    } else {
        total(terms.drop_last()).plus_spec(terms.last())
    }
}

/// Whether the two lists are of one length and every item of `left` has a distance to
/// the item of `right` at its place.
pub open spec fn items_have_distance<D, T: ComputeSquaredDistance<D>>(
    left: Seq<T>,
    right: Seq<T>,
) -> bool {
    &&& left.len() == right.len()
    &&& forall|i: int|
        0 <= i < left.len() ==> (#[trigger] left[i].squared_distance(&right[i])) is Some
}

/// The distances of the first `n` pairs of items.
pub open spec fn item_distances<D, T: ComputeSquaredDistance<D>>(
    left: Seq<T>,
    right: Seq<T>,
    n: int,
) -> Seq<D> {
    Seq::new(n as nat, |i: int| left[i].squared_distance(&right[i]).unwrap())
}

/// The sum of the distances of the items, or `None` where the lengths differ or a pair
/// of items has no distance.
pub open spec fn list_distance<D: Distance, T: ComputeSquaredDistance<D>>(
    left: Seq<T>,
    right: Seq<T>,
) -> Option<D> {
    if items_have_distance::<D, T>(left, right) {
        Some(total(item_distances(left, right, left.len() as int)))
    } else {
        None
    }
}

/// The squared distance between two lists: the sum of the distances of their items.
pub fn squared_distance<D: Distance, T: ComputeSquaredDistance<D>>(
    left: &Vec<T>,
    right: &Vec<T>,
) -> (r: Result<D, ()>)
    ensures
        match r {
            Ok(d) => list_distance(left@, right@) == Some(d),
            Err(_) => list_distance::<D, T>(left@, right@) is None,
        },
{
    if left.len() != right.len() {
        return Err(());
    }
    let mut sum = D::zero();
    let mut i: usize = 0;
    while i < left.len()
        invariant
            i <= left.len(),
            left.len() == right.len(),
            forall|j: int|
                0 <= j < i ==> (#[trigger] left@[j].squared_distance(&right@[j])) is Some,
            sum == total(item_distances::<D, T>(left@, right@, i as int)),
        decreases left.len() - i,
    {
        match left[i].compute_squared_distance(&right[i]) {
            Ok(d) => {
                proof {
                    let next = item_distances::<D, T>(left@, right@, i + 1);
                    assert(next.drop_last() =~= item_distances::<D, T>(left@, right@, i as int));
                    assert(next.last() == d);
                }
                sum = sum.plus(d);
            },
            Err(_) => {
                assert(left@[i as int].squared_distance(&right@[i as int]) is None);
                return Err(());
            },
        }
        i += 1;
    }
    Ok(sum)
}

} // verus!
