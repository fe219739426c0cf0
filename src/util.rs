use vstd::prelude::*;

verus! {

/// Two independent mutable views into distinct slots of one slice.
/// Asking for the same slot twice is ruled out by the precondition.
pub fn mut_two<T>(items: &mut [T], first_index: usize, second_index: usize) -> (r: (&mut T, &mut T))
    requires
        first_index != second_index,
        first_index < old(items)@.len(),
        second_index < old(items)@.len(),
    ensures
        *r.0 == old(items)@[first_index as int],
        *r.1 == old(items)@[second_index as int],
        final(items)@ == old(items)@.update(first_index as int, *final(r.0)).update(
            second_index as int,
            *final(r.1),
        ),
{
    if first_index < second_index {
        let (left, right) = items.split_at_mut(second_index);
        let a = &mut left[first_index];
        let b = &mut right[0];
        (a, b)
    } else {
        let (left, right) = items.split_at_mut(first_index);
        let b = &mut left[second_index];
        let a = &mut right[0];
        (a, b)
    }
}

} // verus!
