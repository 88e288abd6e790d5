//! Lines held in a plain vector.

use vstd::prelude::*;

verus! {

/// The lines as owned strings, and an empty line behind them.
pub fn from(lines: Vec<&str>) -> (vec: Vec<String>)
    ensures
        vec@.len() == lines@.len() + 1,
        forall|i: int| 0 <= i < lines@.len() ==> (#[trigger] vec@[i])@ == lines@[i]@,
        vec@.last()@ == Seq::<char>::empty(),
{
    let mut vec: Vec<String> = Vec::new();
    let n = lines.len();
    let mut i: usize = 0;
    while i < n
        invariant
            n == lines@.len(),
            i <= n,
            vec@.len() == i,
            forall|k: int| 0 <= k < i ==> (#[trigger] vec@[k])@ == lines@[k]@,
        decreases n - i,
    {
        vec.push(lines[i].to_string());
        i = i + 1;
    }
    // every buffer ends in an empty line
    vec.push(String::new());
    vec
}

} // verus!
