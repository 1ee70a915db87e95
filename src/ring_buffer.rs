use vstd::prelude::*;

verus! {

/// A fixed-capacity circular history of samples.
pub struct RingBuffer {
    buffer: Vec<i16>,
    index: usize,
}

/// The history as plain values: the slots and the slot that the next push
/// fills.
pub ghost struct RingView {
    pub slots: Seq<i16>,
    pub next: int,
}

impl View for RingBuffer {
    type V = RingView;

    closed spec fn view(&self) -> RingView {
        RingView { slots: self.buffer@, next: self.index as int }
    }
}

/// The history after pushing `sample`.
pub open spec fn pushed(v: RingView, sample: i16) -> RingView {
    RingView { slots: v.slots.update(v.next, sample), next: (v.next + 1) % (v.slots.len() as int) }
}

impl RingBuffer {
    pub open spec fn wf(&self) -> bool {
        self@.slots.len() > 0 && 0 <= self@.next < self@.slots.len()
    }

    /// A history of `size` zero samples.
    pub fn new(size: usize) -> (r: RingBuffer)
        requires
            size > 0,
        ensures
            r.wf(),
            r@.slots == Seq::new(size as nat, |_i: int| 0i16),
            r@.next == 0,
    {
        let mut buffer: Vec<i16> = Vec::with_capacity(size);
        let mut i: usize = 0;
        while i < size
            invariant
                i <= size,
                buffer@ == Seq::new(i as nat, |_i: int| 0i16),
            decreases size - i,
        {
            buffer.push(0i16);
            i = i + 1;
            proof {
                assert(buffer@ =~= Seq::new(i as nat, |_i: int| 0i16));
            }
        }
        RingBuffer { buffer, index: 0 }
    }

    /// Stores `sample` in the next slot, overwriting the oldest.
    pub fn push(&mut self, sample: i16)
        requires
            old(self).wf(),
        ensures
            final(self).wf(),
            final(self)@ == pushed(old(self)@, sample),
    {
        let len = self.buffer.len();
        self.buffer.set(self.index, sample);
        self.index = (self.index + 1) % len;
    }

    /// The slots, as a copy.
    pub fn buffer(&self) -> (r: Vec<i16>)
        ensures
            r@ == self@.slots,
    {
        self.buffer.clone()
    }

    /// The slot that the next push fills.
    pub fn index(&self) -> (r: usize)
        ensures
            r == self@.next,
    {
        self.index
    }
}

} // verus!
