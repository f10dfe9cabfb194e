use vstd::prelude::*;

use vstd::std_specs::iter::IteratorSpec;

verus! {

/// Advances an iterator by one step.
pub fn advance<I: Iterator>(it: &mut I) -> (r: Option<I::Item>)
    ensures
        (*final(it)).obeys_prophetic_iter_laws() == (*old(it)).obeys_prophetic_iter_laws(),
        (*old(it)).obeys_prophetic_iter_laws() ==> if (*old(it)).remaining().len() > 0 {
            &&& (*final(it)).remaining() == (*old(it)).remaining().drop_first()
            &&& r == Some((*old(it)).remaining()[0])
        } else {
            &&& (*final(it)).remaining() == (*old(it)).remaining()
            &&& r is None
        },
{
    it.next()
}

} // verus!
