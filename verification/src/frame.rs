use vstd::prelude::*;

verus! {

/// Paints every pixel of a frame buffer with `color`.
pub fn fill_frame(frame: &mut [u32], color: u32)
    ensures
        final(frame)@.len() == old(frame)@.len(),
        forall|i: int| 0 <= i < final(frame)@.len() ==> #[trigger] final(frame)@[i] == color,
{
    let len = frame.len();
    let mut i: usize = 0;
    while i < len
        invariant
            len == frame@.len(),
            len == old(frame)@.len(),
            i <= len,
            forall|j: int| 0 <= j < i ==> #[trigger] frame@[j] == color,
        decreases len - i,
    {
        frame[i] = color;
        i = i + 1;
    }
}

} // verus!
