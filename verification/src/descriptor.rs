//! Bounded sinks for descriptor bytes.
//!
//! While the device is enumerated each class writes its own descriptors
//! into a writer of fixed capacity. A write that does not fit fails, writes
//! nothing and marks the writer, so that a set of descriptors that lost
//! bytes is never taken for a complete one.

use vstd::prelude::*;

use crate::error::UsbError;

verus! {

/// A sink of fixed capacity for the descriptors of a configuration.
pub struct DescriptorWriter {
    buf: Vec<u8>,
    remaining: usize,
    overflowed: bool,
}

impl View for DescriptorWriter {
    type V = Seq<u8>;

    /// The bytes written so far.
    closed spec fn view(&self) -> Seq<u8> {
        self.buf@
    }
}

impl DescriptorWriter {
    /// How many more bytes fit.
    pub closed spec fn spec_remaining(&self) -> nat {
        self.remaining as nat
    }

    /// Whether some write was refused since the writer was made.
    pub closed spec fn spec_overflowed(&self) -> bool {
        self.overflowed
    }

    /// An empty writer that takes `capacity` bytes.
    pub fn new(capacity: usize) -> (writer: DescriptorWriter)
        ensures
            writer@ == Seq::<u8>::empty(),
            writer.spec_remaining() == capacity,
            !writer.spec_overflowed(),
    {
        DescriptorWriter { buf: Vec::new(), remaining: capacity, overflowed: false }
    }

    /// Appends `bytes` if they fit. If they do not, nothing is written, the
    /// writer is marked as overflowed and the error is `BufferOverflow`.
    pub fn write(&mut self, bytes: &[u8]) -> (r: Result<(), UsbError>)
        ensures
            bytes@.len() <= old(self).spec_remaining() ==> {
                &&& r is Ok
                &&& final(self)@ == old(self)@ + bytes@
                &&& final(self).spec_remaining() == old(self).spec_remaining() - bytes@.len()
                &&& final(self).spec_overflowed() == old(self).spec_overflowed()
            },
            bytes@.len() > old(self).spec_remaining() ==> {
                &&& r == Err::<(), UsbError>(UsbError::BufferOverflow)
                &&& final(self)@ == old(self)@
                &&& final(self).spec_remaining() == old(self).spec_remaining()
                &&& final(self).spec_overflowed()
            },
    {
        if bytes.len() > self.remaining {
            self.overflowed = true;
            return Err(UsbError::BufferOverflow);
        }
        let mut i: usize = 0;
        while i < bytes.len()
            invariant
                i <= bytes@.len(),
                self.buf@ == old(self).buf@ + bytes@.take(i as int),
                self.remaining == old(self).remaining,
                self.overflowed == old(self).overflowed,
            decreases bytes@.len() - i,
        {
            self.buf.push(bytes[i]);
            i += 1;
            assert(bytes@.take(i as int) =~= bytes@.take(i - 1).push(bytes@[i - 1]));
        }
        assert(bytes@.take(bytes@.len() as int) =~= bytes@);
        self.remaining = self.remaining - bytes.len();
        Ok(())
    }

    /// The bytes written so far.
    pub fn as_bytes(&self) -> (bytes: &[u8])
        ensures
            bytes@ == self@,
    {
        self.buf.as_slice()
    }

    /// The number of bytes written so far.
    pub fn position(&self) -> (n: usize)
        ensures
            n == self@.len(),
    {
        self.buf.len()
    }

    /// How many more bytes fit.
    pub fn remaining(&self) -> (n: usize)
        ensures
            n == self.spec_remaining(),
    {
        self.remaining
    }

    /// Whether some write was refused since the writer was made.
    pub fn overflowed(&self) -> (b: bool)
        ensures
            b == self.spec_overflowed(),
    {
        self.overflowed
    }
}

/// The sink for the device capabilities of a binary object store
/// descriptor. It is a [`DescriptorWriter`] of its own, so that a class
/// cannot write capabilities among the descriptors of a configuration.
pub struct BosWriter {
    writer: DescriptorWriter,
}

impl View for BosWriter {
    type V = Seq<u8>;

    /// The bytes written so far.
    closed spec fn view(&self) -> Seq<u8> {
        self.writer@
    }
}

impl BosWriter {
    /// How many more bytes fit.
    pub closed spec fn spec_remaining(&self) -> nat {
        self.writer.spec_remaining()
    }

    /// Whether some write was refused since the writer was made.
    pub closed spec fn spec_overflowed(&self) -> bool {
        self.writer.spec_overflowed()
    }

    /// An empty writer that takes `capacity` bytes.
    pub fn new(capacity: usize) -> (writer: BosWriter)
        ensures
            writer@ == Seq::<u8>::empty(),
            writer.spec_remaining() == capacity,
            !writer.spec_overflowed(),
    {
        BosWriter { writer: DescriptorWriter::new(capacity) }
    }

    /// Appends one capability blob if it fits. If it does not, nothing is
    /// written, the writer is marked as overflowed and the error is
    /// `BufferOverflow`.
    pub fn write(&mut self, bytes: &[u8]) -> (r: Result<(), UsbError>)
        ensures
            bytes@.len() <= old(self).spec_remaining() ==> {
                &&& r is Ok
                &&& final(self)@ == old(self)@ + bytes@
                &&& final(self).spec_remaining() == old(self).spec_remaining() - bytes@.len()
                &&& final(self).spec_overflowed() == old(self).spec_overflowed()
            },
            bytes@.len() > old(self).spec_remaining() ==> {
                &&& r == Err::<(), UsbError>(UsbError::BufferOverflow)
                &&& final(self)@ == old(self)@
                &&& final(self).spec_remaining() == old(self).spec_remaining()
                &&& final(self).spec_overflowed()
            },
    {
        self.writer.write(bytes)
    }

    /// The bytes written so far.
    pub fn as_bytes(&self) -> (bytes: &[u8])
        ensures
            bytes@ == self@,
    {
        self.writer.as_bytes()
    }

    /// Whether some write was refused since the writer was made.
    pub fn overflowed(&self) -> (b: bool)
        ensures
            b == self.spec_overflowed(),
    {
        self.writer.overflowed()
    }
}

} // verus!
