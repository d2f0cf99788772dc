//! The mathematical model of a buffer: its contents as a sequence of bytes,
//! and what wiping, writing and windowing do to that sequence.

use vstd::prelude::*;

verus! {

/// The contents of a fresh or wiped region of `n` bytes: `n` zero bytes.
pub open spec fn zeros(n: nat) -> Seq<u8> {
    Seq::new(n, |i: int| 0u8)
}

/// The contents after the bytes from `start` up to `end` have given way to
/// `window`: what came before `start`, then `window`, then what came from
/// `end` on.
pub open spec fn replaced(contents: Seq<u8>, start: int, end: int, window: Seq<u8>) -> Seq<u8> {
    contents.subrange(0, start) + window + contents.subrange(end, contents.len() as int)
}

/// A new buffer of `n` bytes has length `n` and gives zero at every index.
pub proof fn lemma_zeros(n: nat)
    ensures
        zeros(n).len() == n,
        forall|i: int| 0 <= i < n ==> zeros(n)[i] == 0u8,
{
}

/// A byte written at `index` is the byte read there afterwards; the length
/// and the bytes at all other indices are as before the write.
pub proof fn lemma_write_then_read(contents: Seq<u8>, index: int, value: u8)
    requires
        0 <= index < contents.len(),
    ensures
        contents.update(index, value).len() == contents.len(),
        contents.update(index, value)[index] == value,
        forall|other: int|
            0 <= other < contents.len() && other != index ==> contents.update(index, value)[other]
                == contents[other],
{
}

/// Wiping leaves zeros whatever the region held before, and wiping a wiped
/// region changes nothing.
pub proof fn lemma_wipe_idempotent(contents: Seq<u8>)
    ensures
        zeros(contents.len()).len() == contents.len(),
        forall|i: int| 0 <= i < contents.len() ==> zeros(contents.len())[i] == 0u8,
        zeros(zeros(contents.len()).len()) == zeros(contents.len()),
{
}

/// The window over the whole buffer is the buffer itself: it has the same
/// length and, at each index, the byte that a read at that index gives.
pub proof fn lemma_whole_window(contents: Seq<u8>)
    ensures
        contents.subrange(0, contents.len() as int) == contents,
        forall|i: int|
            0 <= i < contents.len() ==> contents.subrange(0, contents.len() as int)[i]
                == contents[i],
{
    assert(contents.subrange(0, contents.len() as int) =~= contents);
}

/// A window holds the bytes of its range, in order.
pub proof fn lemma_window_bytes(contents: Seq<u8>, start: int, end: int)
    requires
        0 <= start <= end <= contents.len(),
    ensures
        contents.subrange(start, end).len() == end - start,
        forall|i: int|
            0 <= i < end - start ==> contents.subrange(start, end)[i] == contents[start + i],
{
}

/// Writing through a window of unchanged length changes the bytes of its
/// range and nothing else: the length is kept, positions inside the range
/// hold the window's bytes, and positions outside hold what they held.
pub proof fn lemma_replaced_bytes(contents: Seq<u8>, start: int, end: int, window: Seq<u8>)
    requires
        0 <= start <= end <= contents.len(),
        window.len() == end - start,
    ensures
        replaced(contents, start, end, window).len() == contents.len(),
        forall|i: int|
            start <= i < end ==> replaced(contents, start, end, window)[i] == window[i - start],
        forall|i: int|
            0 <= i < start || end <= i < contents.len() ==> replaced(contents, start, end, window)[i]
                == contents[i],
{
}

/// Giving a window back as it was handed out leaves the region as it was.
pub proof fn lemma_replaced_unchanged(contents: Seq<u8>, start: int, end: int)
    requires
        0 <= start <= end <= contents.len(),
    ensures
        replaced(contents, start, end, contents.subrange(start, end)) == contents,
{
    assert(replaced(contents, start, end, contents.subrange(start, end)) =~= contents);
}

} // verus!
