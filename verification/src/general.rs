//! Small value-level helpers.

use vstd::prelude::*;

verus! {

/// Unwrap a whole list of optional values at once: all of them, in order,
/// when every entry is present, and nothing when any entry is absent.
#[verifier::loop_isolation(false)]
pub fn unwrap_all_option<T>(options: Vec<Option<T>>) -> (r: Option<Vec<T>>)
    ensures
        (r is Some) <==> (forall|i: int| 0 <= i < options@.len() ==> options@[i] is Some),
        r matches Some(v) ==> v@.len() == options@.len() && (forall|i: int|
            0 <= i < options@.len() ==> v@[i] == options@[i].unwrap()),
{
    let ghost orig: Seq<Option<T>> = options@;
    let mut rest = options;
    let mut result: Vec<T> = Vec::new();
    while rest.len() > 0
        invariant
            result@.len() + rest@.len() == orig.len(),
            rest@ =~= orig.skip(result@.len() as int),
            forall|i: int| 0 <= i < result@.len() ==> orig[i] == Some(result@[i]),
        decreases rest@.len(),
    {
        let ghost k: int = result@.len() as int;
        let option = rest.remove(0);
        proof {
            assert(option == orig.skip(k)[0]);
            assert(option == orig[k]);
            assert(rest@ =~= orig.skip(k + 1));
        }
        match option {
            Some(value) => result.push(value),
            None => {
                proof {
                    assert(orig[k] is None);
                }
                return None;
            },
        }
    }
    Some(result)
}

} // verus!
