//! Mesh index helpers.
use vstd::prelude::*;

verus! {

/// Widens each 16-bit mesh index to 32 bits, keeping the order.
pub fn vec_u32_from_vec_u16(input: &Vec<u16>) -> (r: Vec<u32>)
    ensures
        r@.len() == input@.len(),
        forall|i: int| 0 <= i < input@.len() ==> r@[i] == input@[i] as u32,
{
    let mut retval: Vec<u32> = Vec::new();
    let mut k: usize = 0;
    while k < input.len()
        invariant
            k <= input@.len(),
            retval@.len() == k,
            forall|i: int| 0 <= i < k ==> retval@[i] == input@[i] as u32,
        decreases input@.len() - k,
    {
        retval.push(input[k] as u32);
        k = k + 1;
    }
    retval
}

} // verus!
