//! The pixel FIFOs: fixed-capacity ring buffers of sixteen 2-bpp colour
//! values, kept in `fixed_vec_deque::FixedVecDeque`.
//!
//! The queue is held in a struct the verifier treats as opaque;
//! `fifo_pixels` names its contents front to back, and the wrappers state
//! over that name what the crate's source shows each call does.

use vstd::prelude::*;

verus! {

/// A 16-slot pixel queue backed by `FixedVecDeque<[u8; 16]>`.
#[verifier::external_body]
pub struct PixelFifo {
    inner: fixed_vec_deque::FixedVecDeque<[u8; 16]>,
}

/// The pixels a FIFO holds, front first.
pub uninterp spec fn fifo_pixels(queue: PixelFifo) -> Seq<u8>;

impl PixelFifo {
    /// Relies on FixedVecDeque::new: a queue constructed with no
    /// elements.
    #[verifier::external_body]
    pub fn new() -> (result: PixelFifo)
        ensures
            fifo_pixels(result) == Seq::<u8>::empty(),
    {
        PixelFifo { inner: fixed_vec_deque::FixedVecDeque::new() }
    }

    /// Relies on FixedVecDeque::len: the number of elements held.
    #[verifier::external_body]
    pub fn len(&self) -> (result: usize)
        ensures
            result == fifo_pixels(*self).len(),
    {
        self.inner.len()
    }

    /// Relies on FixedVecDeque::push_back: the value joins the back; with
    /// all sixteen slots in use the front element is overwritten and
    /// drops out.
    #[verifier::external_body]
    pub fn push_back(&mut self, value: u8)
        ensures
            fifo_pixels(*final(self)) == if fifo_pixels(*old(self)).len() < 16 {
                fifo_pixels(*old(self)).push(value)
            } else {
                fifo_pixels(*old(self)).subrange(1, 16).push(value)
            },
    {
        *self.inner.push_back() = value;
    }

    /// Relies on FixedVecDeque::pop_front: the front element leaves the
    /// queue, or nothing happens when it is empty.
    #[verifier::external_body]
    pub fn pop_front(&mut self) -> (result: Option<u8>)
        ensures
            fifo_pixels(*old(self)).len() == 0 ==> result is None && fifo_pixels(*final(self))
                == fifo_pixels(*old(self)),
            fifo_pixels(*old(self)).len() > 0 ==> result == Some(fifo_pixels(*old(self))[0])
                && fifo_pixels(*final(self)) == fifo_pixels(*old(self)).subrange(
                1,
                fifo_pixels(*old(self)).len() as int,
            ),
    {
        match self.inner.pop_front() {
            Some(value) => Some(*value),
            None => None,
        }
    }
}

} // verus!
