//! The one scratch buffer that a session serializes into.

use vstd::prelude::*;

verus! {

/// A pool of exactly one buffer. Serializing takes the buffer out; it comes
/// back once the framing layer has let go of what was serialized into it.
pub struct BufferPool<B> {
    slot: Option<B>,
}

impl<B> View for BufferPool<B> {
    type V = Option<B>;

    closed spec fn view(&self) -> Option<B> {
        self.slot
    }
}

impl<B> BufferPool<B> {
    /// A pool that holds `buffer`.
    pub fn new(buffer: B) -> (pool: Self)
        ensures
            pool@ == Some(buffer),
    {
        BufferPool { slot: Some(buffer) }
    }

    /// Whether the buffer is in the pool.
    pub fn is_available(&self) -> (available: bool)
        ensures
            available == (self@ is Some),
    {
        self.slot.is_some()
    }

    /// Takes the buffer out for one serialization, if it is there.
    pub fn take(&mut self) -> (buffer: Option<B>)
        ensures
            buffer == old(self)@,
            final(self)@ is None,
    {
        self.slot.take()
    }

    /// Puts the buffer back. A pool that still holds its buffer refuses a
    /// second one and hands it back.
    pub fn reclaim(&mut self, buffer: B) -> (refused: Option<B>)
        ensures
            old(self)@ is None ==> final(self)@ == Some(buffer) && refused is None,
            old(self)@ is Some ==> final(self)@ == old(self)@ && refused == Some(buffer),
    {
        if self.slot.is_some() {
            Some(buffer)
        } else {
            self.slot = Some(buffer);
            None
        }
    }
}

} // verus!
