//! A bounded double-ended buffer for consumers that show a sliding window of
//! recent plays.

use vstd::prelude::*;

verus! {

/// A buffer that holds at most `max_size` elements: pushing onto a full
/// buffer evicts the element at the other end and hands it back.
#[derive(Clone, Debug)]
pub struct RingBuffer<T> {
    buffer: Vec<T>,
    max_size: usize,
}

impl<T> RingBuffer<T> {
    /// The elements, front to back.
    pub closed spec fn view(&self) -> Seq<T> {
        self.buffer@
    }

    /// The bound the buffer was made with.
    pub closed spec fn spec_max_size(&self) -> usize {
        self.max_size
    }

    /// The buffer never holds more than its bound, once anything was pushed.
    pub closed spec fn wf(&self) -> bool {
        self.max_size > 0 ==> self.buffer@.len() <= self.max_size
    }

    /// An empty buffer that will hold at most `max_size` elements.
    pub fn new(max_size: usize) -> (r: RingBuffer<T>)
        ensures
            r@ =~= Seq::<T>::empty(),
            r.spec_max_size() == max_size,
            r.wf(),
    {
        RingBuffer { buffer: Vec::new(), max_size }
    }

    /// Adds an element at the back; a full buffer gives up its front element
    /// and returns it.
    pub fn push_back(&mut self, elt: T) -> (evicted: Option<T>)
        requires
            old(self).wf(),
            old(self).spec_max_size() > 0,
        ensures
            final(self).wf(),
            final(self).spec_max_size() == old(self).spec_max_size(),
            old(self)@.len() < old(self).spec_max_size() ==> final(self)@ =~= old(self)@.push(elt)
                && evicted is None,
            old(self)@.len() >= old(self).spec_max_size() ==> final(self)@ =~= old(self)@.push(
                elt,
            ).drop_first() && evicted == Some(old(self)@.push(elt)[0]),
    {
        self.buffer.push(elt);

        if self.buffer.len() > self.max_size {
            Some(self.buffer.remove(0))
        } else {
            None
        }
    }

    /// Adds an element at the front; a full buffer gives up its back element
    /// and returns it.
    pub fn push_front(&mut self, elt: T) -> (evicted: Option<T>)
        requires
            old(self).wf(),
            old(self).spec_max_size() > 0,
        ensures
            final(self).wf(),
            final(self).spec_max_size() == old(self).spec_max_size(),
            old(self)@.len() < old(self).spec_max_size() ==> final(self)@ =~= seq![elt] + old(
                self,
            )@ && evicted is None,
            old(self)@.len() >= old(self).spec_max_size() ==> final(self)@ =~= (seq![elt] + old(
                self,
            )@).drop_last() && evicted == Some(old(self)@.last()),
    {
        self.buffer.insert(0, elt);

        if self.buffer.len() > self.max_size {
            let last = self.buffer.len() - 1;
            Some(self.buffer.remove(last))
        } else {
            None
        }
    }

    /// The buffered elements, front to back.
    pub fn iter(&self) -> (r: &Vec<T>)
        ensures
            r@ == self@,
    {
        &self.buffer
    }
}

} // verus!
