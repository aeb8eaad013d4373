//! Copies of lists.

use vstd::prelude::*;

verus! {

/// Appends a copy of every element of `source` to `target`.
pub fn append_copy<T: Copy>(target: &mut Vec<T>, source: &Vec<T>)
    ensures
        final(target)@ == old(target)@ + source@,
{
    let mut i: usize = 0;
    while i < source.len()
        invariant
            i <= source.len(),
            target@ == old(target)@ + source@.take(i as int),
        decreases source.len() - i,
    {
        target.push(source[i]);
        assert(old(target)@ + source@.take(i + 1) =~= (old(target)@ + source@.take(
            i as int,
        )).push(source@[i as int]));
        i += 1;
    }
    assert(source@.take(source.len() as int) =~= source@);
}

/// A copy of a list.
pub fn copy_of<T: Copy>(source: &Vec<T>) -> (copy: Vec<T>)
    ensures
        copy@ == source@,
{
    let mut copy: Vec<T> = Vec::new();
    append_copy(&mut copy, source);
    assert(Seq::<T>::empty() + source@ =~= source@);
    copy
}

} // verus!
