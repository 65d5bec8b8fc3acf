//! Comparing names character by character.
use vstd::prelude::*;

use vstd::std_specs::iter::IteratorSpec;

verus! {

broadcast use
    vstd::string::axiom_spec_iter,
    vstd::string::next_postcondition,
;

/// Whether two strings hold the same characters.
#[verifier::loop_isolation(false)]
pub fn str_chars_eq(a: &str, b: &str) -> (equal: bool)
    ensures
        equal == (a@ == b@),
{
    let mut a_chars = a.chars();
    let mut b_chars = b.chars();
    let ghost mut i: int = 0;
    loop
        invariant
            0 <= i <= a@.len(),
            i <= b@.len(),
            a_chars.remaining() == a@.skip(i),
            b_chars.remaining() == b@.skip(i),
            forall|j: int| 0 <= j < i ==> a@[j] == b@[j],
        decreases a@.len() - i,
    {
        let a_next = a_chars.next();
        let b_next = b_chars.next();
        match (a_next, b_next) {
            (Some(x), Some(y)) => {
                if x != y {
                    proof {
                        assert(a@[i] != b@[i]);
                    }
                    return false;
                }
                proof {
                    assert(a@.skip(i).drop_first() =~= a@.skip(i + 1));
                    assert(b@.skip(i).drop_first() =~= b@.skip(i + 1));
                    i = i + 1;
                }
            },
            (None, None) => {
                proof {
                    assert(i == a@.len() && i == b@.len());
                    assert(a@ =~= b@);
                }
                return true;
            },
            _ => {
                proof {
                    assert(a@.len() != b@.len());
                }
                return false;
            },
        }
    }
}

} // verus!
