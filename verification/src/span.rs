//! Byte buffers that cross the boundary: the caller fixes the capacity, and
//! nothing is ever written past it.
use vstd::prelude::*;
use crate::error::Error;

verus! {

/// A byte range with a fixed capacity. The bytes in it are its contents
/// (its view); a write appends to them as long as the capacity allows.
pub struct Span {
    data: Vec<u8>,
    cap: usize,
}

impl View for Span {
    type V = Seq<u8>;

    closed spec fn view(&self) -> Seq<u8> {
        self.data@
    }
}

impl Span {
    /// The number of bytes that the buffer can hold at most.
    pub closed spec fn capacity(&self) -> nat {
        self.cap as nat
    }

    /// The contents never exceed the capacity.
    pub open spec fn wf(&self) -> bool {
        self@.len() <= self.capacity()
    }

    /// What a write of `data` leaves in a buffer that holds `held` and has
    /// room for `capacity` bytes: both, if they fit; else `held` alone.
    pub open spec fn written(held: Seq<u8>, capacity: nat, data: Seq<u8>) -> Seq<u8> {
        if held.len() + data.len() <= capacity {
            held + data
        } else {
            held
        }
    }

    /// An empty buffer to be filled, with room for `cap` bytes.
    pub fn with_capacity(cap: usize) -> (s: Span)
        ensures
            s.wf(),
            s@ == Seq::<u8>::empty(),
            s.capacity() == cap,
    {
        Span { data: Vec::new(), cap }
    }

    /// A full buffer to be read: it holds `bytes` and has no room left.
    pub fn from_bytes(bytes: Vec<u8>) -> (s: Span)
        ensures
            s.wf(),
            s@ == bytes@,
            s.capacity() == bytes@.len(),
    {
        let cap: usize = bytes.len();
        Span { data: bytes, cap }
    }

    /// The number of bytes held.
    pub fn len(&self) -> (n: usize)
        ensures
            n == self@.len(),
    {
        self.data.len()
    }

    /// The number of bytes that the buffer can hold at most.
    pub fn cap(&self) -> (n: usize)
        ensures
            n == self.capacity(),
    {
        self.cap
    }

    /// The bytes held. Reading changes nothing.
    pub fn read(&self) -> (bytes: &[u8])
        ensures
            bytes@ == self@,
    {
        self.data.as_slice()
    }

    /// Appends `data` if it fits in the room that is left, and says
    /// `SpanTooSmallError` otherwise, leaving the buffer as it was.
    pub fn write(&mut self, data: &[u8]) -> (e: Error)
        requires
            old(self).wf(),
        ensures
            final(self).wf(),
            final(self).capacity() == old(self).capacity(),
            final(self)@ == Span::written(old(self)@, old(self).capacity(), data@),
            e == if old(self)@.len() + data@.len() <= old(self).capacity() {
                Error::NoError
            } else {
                Error::SpanTooSmallError
            },
    {
        let held: usize = self.data.len();
        if data.len() > self.cap - held {
            return Error::SpanTooSmallError;
        }
        let ghost before = self.data@;
        self.data.extend_from_slice(data);
        proof {
            assert(self.data@ =~= before + data@);
        }
        Error::NoError
    }
}

} // verus!
