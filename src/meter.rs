use vstd::prelude::*;

verus! {

/// Magnitude of a signed 16-bit sample.
pub open spec fn magnitude(s: i16) -> int {
    if s < 0 {
        -(s as int)
    } else {
        s as int
    }
}

/// The largest magnitude among `samples`, or zero when there are none.
pub fn peak_amplitude(samples: &[i16]) -> (r: u16)
    ensures
        forall|i: int| 0 <= i < samples@.len() ==> magnitude(samples@[i]) <= r as int,
        samples@.len() == 0 ==> r == 0,
        samples@.len() > 0 ==> exists|i: int|
            0 <= i < samples@.len() && magnitude(samples@[i]) == r as int,
{
    let mut peak: u16 = 0;
    let mut i: usize = 0;
    while i < samples.len()
        invariant
            i <= samples@.len(),
            forall|j: int| 0 <= j < i ==> magnitude(samples@[j]) <= peak as int,
            i == 0 ==> peak == 0,
            i > 0 ==> exists|j: int| 0 <= j < i && magnitude(samples@[j]) == peak as int,
        decreases samples@.len() - i,
    {
        let s = samples[i];
        let m: u16 = if s < 0 {
            (-(s as i32)) as u16
        } else {
            s as u16
        };
        if i == 0 || m > peak {
            peak = m;
            assert(magnitude(samples@[i as int]) == peak as int);
        }
        i = i + 1;
    }
    peak
}

} // verus!
