use vstd::prelude::*;

verus! {

/// Once a byte is zero, every byte after it is zero too: a text followed by padding.
pub open spec fn zero_padded(buf: Seq<u8>) -> bool {
    forall|i: int, j: int| 0 <= i <= j < buf.len() && buf[i] == 0 ==> buf[j] == 0
}

/// The length of the text at the start of a zero-padded buffer, found by bisection. There is
/// none where the buffer is empty or starts with a zero.
pub fn terminated_len(buf: &Vec<u8>) -> (r: Option<usize>)
    ensures
        r is None <==> (buf@.len() == 0 || buf@[0] == 0),
        r matches Some(n) ==> {
            &&& 1 <= n <= buf@.len()
            &&& buf@[n - 1] != 0
            &&& (n == buf@.len() || buf@[n as int] == 0)
            &&& zero_padded(buf@) ==> forall|k: int| 0 <= k < n ==> buf@[k] != 0
        },
{
    if buf.len() == 0 || buf[0] == 0 {
        return None;
    }
    let mut from: usize = 0;
    let mut to: usize = buf.len();
    while to != from + 1
        invariant
            from < to <= buf@.len(),
            buf@[from as int] != 0,
            to == buf@.len() || buf@[to as int] == 0,
        decreases to - from,
    {
        let i = from + (to - from) / 2;
        if buf[i] == 0 {
            to = i;
        } else {
            from = i;
        }
    }
    Some(to)
}

} // verus!
