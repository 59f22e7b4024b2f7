//! Moving the items of vectors about: reversing, and pairing.

use vstd::prelude::*;

verus! {

/// The items of `items` in the opposite order.
pub fn reverse<T>(items: Vec<T>) -> (reversed: Vec<T>)
    ensures
        reversed@ == items@.reverse(),
{
    let ghost given = items@;
    let mut rest = items;
    let mut reversed: Vec<T> = Vec::new();
    while rest.len() > 0
        invariant
            rest@ == given.take(rest@.len() as int),
            rest@.len() <= given.len(),
            reversed@.len() == given.len() - rest@.len(),
            forall|i: int|
                0 <= i < reversed@.len() ==> #[trigger] reversed@[i] == given[given.len() - 1
                    - i],
        decreases rest.len(),
    {
        let item = rest.pop().unwrap();
        reversed.push(item);
    }
    assert(reversed@ =~= given.reverse());
    reversed
}

/// Pairs the items of `left` with those of `right`, the first with the
/// first and so on, as far as both reach.
pub fn zip<A, B>(left: Vec<A>, right: Vec<B>) -> (pairs: Vec<(A, B)>)
    ensures
        pairs@.len() == if left@.len() <= right@.len() {
            left@.len()
        } else {
            right@.len()
        },
        forall|i: int| 0 <= i < pairs@.len() ==> #[trigger] pairs@[i] == (left@[i], right@[i]),
{
    let ghost all_left = left@;
    let ghost all_right = right@;
    let mut left = reverse(left);
    let mut right = reverse(right);
    let mut pairs: Vec<(A, B)> = Vec::new();
    while left.len() > 0 && right.len() > 0
        invariant
            left@ == all_left.reverse().take(left@.len() as int),
            right@ == all_right.reverse().take(right@.len() as int),
            left@.len() <= all_left.len(),
            right@.len() <= all_right.len(),
            pairs@.len() == all_left.len() - left@.len(),
            pairs@.len() == all_right.len() - right@.len(),
            forall|i: int|
                0 <= i < pairs@.len() ==> #[trigger] pairs@[i] == (all_left[i], all_right[i]),
        decreases left.len(),
    {
        let a = left.pop().unwrap();
        let b = right.pop().unwrap();
        pairs.push((a, b));
    }
    pairs
}

} // verus!
