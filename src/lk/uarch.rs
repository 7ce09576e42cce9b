//! The decision of a timing side channel: which probed slot answered
//! fastest on average.
use vstd::prelude::*;

verus! {

/// The average of a summed timing over `iterations` rounds.
pub open spec fn average(total: u64, iterations: u64) -> u64
    recommends
        iterations > 0,
{
    total / iterations
}

/// The slot whose average timing is the least, the first such slot when
/// several tie; none when every average is `u64::MAX` (or there is no slot).
pub fn fastest_slot(timings: &Vec<u64>, iterations: u64) -> (r: Option<usize>)
    requires
        iterations > 0,
    ensures
        match r {
            Some(k) => {
                &&& k < timings@.len()
                &&& average(timings@[k as int], iterations) < u64::MAX
                &&& forall|j: int| 0 <= j < timings@.len() ==> average(timings@[k as int], iterations) <= average(timings@[j], iterations)
                &&& forall|j: int| 0 <= j < k ==> average(timings@[k as int], iterations) < average(timings@[j], iterations)
            },
            None => forall|j: int| 0 <= j < timings@.len() ==> average(timings@[j], iterations) == u64::MAX,
        },
{
    let mut min: u64 = u64::MAX;
    let mut best: Option<usize> = None;
    let mut i: usize = 0;
    while i < timings.len()
        invariant
            0 <= i <= timings@.len(),
            iterations > 0,
            match best {
                Some(k) => {
                    &&& k < i
                    &&& min == average(timings@[k as int], iterations)
                    &&& min < u64::MAX
                    &&& forall|j: int| 0 <= j < k ==> min < average(timings@[j], iterations)
                },
                None => min == u64::MAX,
            },
            forall|j: int| 0 <= j < i ==> min <= average(timings@[j], iterations),
        decreases timings@.len() - i,
    {
        let avg = timings[i] / iterations;
        if avg < min {
            min = avg;
            best = Some(i);
        }
        i = i + 1;
    }
    proof {
        if best is None {
            assert forall|j: int| 0 <= j < timings@.len() implies average(timings@[j], iterations) == u64::MAX by {
                assert(min <= average(timings@[j], iterations));
            }
        }
    }
    best
}

} // verus!
