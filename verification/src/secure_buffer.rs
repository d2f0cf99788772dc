//! The buffer type and its accessors.

use vstd::prelude::*;
use crate::erase::{fill_bytes, store_barrier, wipe};
use crate::model::{replaced, zeros};

verus! {

/// A heap-allocated byte buffer of fixed length for sensitive data.
///
/// The buffer owns its bytes exclusively. Its length is set when it is
/// created and no operation changes it. When the buffer is dropped, every
/// byte is overwritten with zero before the memory is released.
///
/// Every byte is reached through an index below the length, or through a
/// window whose range lies within the buffer. An index or a range outside the
/// buffer is an error of the caller: the preconditions of the accessors admit
/// exactly the valid ones, and compiled code that passes another panics at
/// the access instead of reaching memory outside the buffer.
pub struct SecureBuffer {
    data: Vec<u8>,
}

impl View for SecureBuffer {
    type V = Seq<u8>;

    /// The bytes of the buffer, in order.
    closed spec fn view(&self) -> Seq<u8> {
        self.data@
    }
}

impl SecureBuffer {
    /// Allocates a buffer of `length` zero bytes.
    ///
    /// A length of zero gives an empty buffer. If the memory cannot be had,
    /// the call does not return: the allocation failure ends the thread or
    /// the process, and no buffer comes into being.
    pub fn new(length: usize) -> (buffer: SecureBuffer)
        ensures
            buffer@ == zeros(length as nat),
    {
        let data: Vec<u8> = vec![0u8; length];
        assert(data@ =~= zeros(length as nat));
        SecureBuffer { data }
    }

    /// Overwrites every byte of the buffer with zero, whatever it held.
    pub fn zero(&mut self)
        ensures
            final(self)@ == zeros(old(self)@.len()),
            final(self)@.len() == old(self)@.len(),
    {
        wipe(self.data.as_mut_slice());
    }

    /// The number of bytes in the buffer.
    pub fn len(&self) -> (length: usize)
        ensures
            length == self@.len(),
    {
        self.data.len()
    }

    /// Reads the byte at `index`.
    pub fn get(&self, index: usize) -> (byte: u8)
        requires
            index < self@.len(),
        ensures
            byte == self@[index as int],
    {
        self.data[index]
    }

    /// Writes `value` at `index` and leaves every other byte as it was.
    pub fn set(&mut self, index: usize, value: u8)
        requires
            index < old(self)@.len(),
        ensures
            final(self)@ == old(self)@.update(index as int, value),
            final(self)@.len() == old(self)@.len(),
    {
        self.data[index] = value;
    }

    /// Borrows the bytes from `start` up to, but not including, `end`.
    pub fn slice(&self, start: usize, end: usize) -> (window: &[u8])
        requires
            start <= end <= self@.len(),
        ensures
            window@ == self@.subrange(start as int, end as int),
    {
        let whole: &[u8] = self.data.as_slice();
        &whole[start..end]
    }

    /// Borrows the bytes before `end`.
    pub fn slice_to(&self, end: usize) -> (window: &[u8])
        requires
            end <= self@.len(),
        ensures
            window@ == self@.subrange(0, end as int),
    {
        self.slice(0, end)
    }

    /// Borrows the bytes from `start` to the end of the buffer.
    pub fn slice_from(&self, start: usize) -> (window: &[u8])
        requires
            start <= self@.len(),
        ensures
            window@ == self@.subrange(start as int, self@.len() as int),
    {
        self.slice(start, self.data.len())
    }

    /// Borrows the whole buffer.
    pub fn as_slice(&self) -> (window: &[u8])
        ensures
            window@ == self@,
    {
        self.data.as_slice()
    }

    /// Borrows the bytes from `start` up to, but not including, `end`, for
    /// writing. Whatever the borrower leaves in the window takes the place of
    /// those bytes; the bytes outside the window stay as they were.
    pub fn slice_mut(&mut self, start: usize, end: usize) -> (window: &mut [u8])
        requires
            start <= end <= old(self)@.len(),
        ensures
            window@ == old(self)@.subrange(start as int, end as int),
            final(self)@ == replaced(old(self)@, start as int, end as int, final(window)@),
    {
        let whole: &mut [u8] = self.data.as_mut_slice();
        let (_, tail) = whole.split_at_mut(start);
        let (window, _) = tail.split_at_mut(end - start);
        window
    }

    /// Borrows the bytes before `end` for writing.
    pub fn slice_to_mut(&mut self, end: usize) -> (window: &mut [u8])
        requires
            end <= old(self)@.len(),
        ensures
            window@ == old(self)@.subrange(0, end as int),
            final(self)@ == replaced(old(self)@, 0, end as int, final(window)@),
    {
        self.slice_mut(0, end)
    }

    /// Borrows the bytes from `start` to the end of the buffer for writing.
    pub fn slice_from_mut(&mut self, start: usize) -> (window: &mut [u8])
        requires
            start <= old(self)@.len(),
        ensures
            window@ == old(self)@.subrange(start as int, old(self)@.len() as int),
            final(self)@ == replaced(
                old(self)@,
                start as int,
                old(self)@.len() as int,
                final(window)@,
            ),
    {
        let end: usize = self.data.len();
        self.slice_mut(start, end)
    }

    /// Borrows the whole buffer for writing.
    pub fn as_mut_slice(&mut self) -> (window: &mut [u8])
        ensures
            window@ == old(self)@,
            final(self)@ == final(window)@,
    {
        self.data.as_mut_slice()
    }
}

impl std::ops::Deref for SecureBuffer {
    type Target = [u8];

    /// The whole buffer as a slice.
    fn deref(&self) -> (window: &[u8])
        ensures
            window@ == self@,
    {
        self.data.as_slice()
    }
}

impl std::ops::DerefMut for SecureBuffer {
    /// The whole buffer as a slice that can be written.
    fn deref_mut(&mut self) -> (window: &mut [u8])
        ensures
            window@ == old(self)@,
            final(self)@ == final(window)@,
    {
        self.data.as_mut_slice()
    }
}

impl Drop for SecureBuffer {
    /// Wipes the buffer. The memory is released only after this returns, so
    /// the allocator never gets back bytes that still hold a secret.
    ///
    /// A destructor may neither unwind nor open an invariant, which the
    /// vector operations behind [`SecureBuffer::zero`] do not promise; the
    /// bytes are therefore overwritten in one call of `fill`.
    fn drop(&mut self)
        ensures
            final(self)@ == zeros(old(self)@.len()),
        opens_invariants none
        no_unwind
    {
        fill_bytes(&mut self.data, 0);
        store_barrier();
        assert(self.data@ =~= zeros(old(self).data@.len()));
    }
}

} // verus!
