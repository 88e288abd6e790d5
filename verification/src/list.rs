//! Lines held in a queue that grows at both ends.

use std::collections::VecDeque;
use vstd::prelude::*;

verus! {

/// The lines as owned strings, in their order.
pub fn from(lines: &VecDeque<&str>) -> (list: VecDeque<String>)
    ensures
        list@.len() == lines@.len(),
        forall|i: int| 0 <= i < lines@.len() ==> (#[trigger] list@[i])@ == lines@[i]@,
{
    let mut list: VecDeque<String> = VecDeque::new();
    let n = lines.len();
    let mut i: usize = 0;
    while i < n
        invariant
            n == lines@.len(),
            i <= n,
            list@.len() == i,
            forall|k: int| 0 <= k < i ==> (#[trigger] list@[k])@ == lines@[k]@,
        decreases n - i,
    {
        list.push_back(lines[i].to_string());
        i = i + 1;
    }
    list
}

} // verus!
