use vstd::prelude::*;
use vstd::std_specs::iter::IteratorSpec;

verus! {

/// Whether `text` begins with `prefix`, character for character.
pub fn starts_with(text: &str, prefix: &str) -> (found: bool)
    ensures
        found == prefix@.is_prefix_of(text@),
{
    let mut rest = text.chars();
    let mut wanted = prefix.chars();
    let ghost mut matched: nat = 0;
    loop
        invariant
            matched <= prefix@.len(),
            matched <= text@.len(),
            rest.remaining() == text@.skip(matched as int),
            wanted.remaining() == prefix@.skip(matched as int),
            text@.subrange(0, matched as int) == prefix@.subrange(0, matched as int),
        decreases prefix@.len() - matched,
    {
        match wanted.next() {
            None => {
                return true;
            },
            Some(expected) => {
                match rest.next() {
                    None => {
                        return false;
                    },
                    Some(actual) => {
                        if actual != expected {
                            return false;
                        }
                    },
                }
            },
        }
        proof {
            matched = matched + 1;
        }
    }
}

} // verus!
