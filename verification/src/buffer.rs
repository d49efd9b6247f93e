//! Bounded line buffer: a fixed-capacity byte accumulator with push and clear,
//! where exceeding the capacity is reported as an error carrying the rejected
//! byte. The storage is a `heapless::Vec`, so the buffer never allocates.

use vstd::prelude::*;

verus! {

/// Number of bytes one command line may hold.
pub const LINE_CAPACITY: usize = 16;

/// Declares `heapless::Vec` — a fixed-capacity vector on the stack — so that
/// it can stand in fields and signatures; its contents are named below.
#[verifier::external_type_specification]
#[verifier::external_body]
#[verifier::reject_recursive_types(T)]
pub struct ExHeaplessVec<T, const N: usize>(heapless::Vec<T, N>);

/// The bytes a fixed-capacity vector holds, oldest first.
pub uninterp spec fn buffer_bytes(v: heapless::Vec<u8, LINE_CAPACITY>) -> Seq<u8>;

/// Relies on `heapless::Vec::new`: a fresh vector is empty.
#[verifier::external_body]
fn hv_new() -> (v: heapless::Vec<u8, LINE_CAPACITY>)
    ensures
        buffer_bytes(v) == Seq::<u8>::empty(),
{
    heapless::Vec::new()
}

/// Relies on `heapless::Vec::clear`: every element is removed.
#[verifier::external_body]
fn hv_clear(v: &mut heapless::Vec<u8, LINE_CAPACITY>)
    ensures
        buffer_bytes(*final(v)) == Seq::<u8>::empty(),
{
    v.clear()
}

/// Relies on `heapless::Vec::push`: below capacity the item is appended and
/// `Ok` returned; at capacity the vector is unchanged and the item comes back
/// in `Err`.
#[verifier::external_body]
fn hv_push(v: &mut heapless::Vec<u8, LINE_CAPACITY>, byte: u8) -> (r: Result<(), u8>)
    ensures
        r == (if buffer_bytes(*old(v)).len() < LINE_CAPACITY {
            Ok::<(), u8>(())
        } else {
            Err::<(), u8>(byte)
        }),
        buffer_bytes(*final(v)) == (if buffer_bytes(*old(v)).len() < LINE_CAPACITY {
            buffer_bytes(*old(v)).push(byte)
        } else {
            buffer_bytes(*old(v))
        }),
{
    v.push(byte)
}

/// Relies on `heapless::Vec::as_slice`: the slice views exactly the vector's
/// contents.
#[verifier::external_body]
fn hv_as_slice(v: &heapless::Vec<u8, LINE_CAPACITY>) -> (s: &[u8])
    ensures
        s@ == buffer_bytes(*v),
{
    v.as_slice()
}

/// Fixed-capacity accumulator for the bytes of one command line.
pub struct LineBuffer {
    data: heapless::Vec<u8, LINE_CAPACITY>,
}

impl View for LineBuffer {
    type V = Seq<u8>;

    closed spec fn view(&self) -> Seq<u8> {
        buffer_bytes(self.data)
    }
}

impl LineBuffer {
    /// A fresh, empty buffer.
    pub fn new() -> (b: LineBuffer)
        ensures
            b@ == Seq::<u8>::empty(),
    {
        LineBuffer { data: hv_new() }
    }

    /// Empties the buffer unconditionally.
    pub fn clear(&mut self)
        ensures
            final(self)@ == Seq::<u8>::empty(),
    {
        hv_clear(&mut self.data)
    }

    /// Appends one byte, or rejects it when the buffer is already full; the
    /// rejected byte is carried in the error.
    pub fn push(&mut self, byte: u8) -> (r: Result<(), u8>)
        ensures
            old(self)@.len() < LINE_CAPACITY ==> r is Ok && final(self)@ == old(self)@.push(byte),
            old(self)@.len() >= LINE_CAPACITY ==> r == Err::<(), u8>(byte) && final(self)@ == old(
                self,
            )@,
    {
        hv_push(&mut self.data, byte)
    }

    /// The current contents, read-only.
    pub fn as_slice(&self) -> (s: &[u8])
        ensures
            s@ == self@,
    {
        hv_as_slice(&self.data)
    }

    /// How many bytes the buffer currently holds.
    pub fn len(&self) -> (n: usize)
        ensures
            n == self@.len(),
    {
        self.as_slice().len()
    }
}

/// Number of bytes the plain echo loop's word buffer may hold; that loop
/// accepts longer words than the command path does.
pub const WORD_CAPACITY: usize = 32;

/// The bytes a fixed-capacity word vector holds, oldest first.
pub uninterp spec fn word_bytes(v: heapless::Vec<u8, WORD_CAPACITY>) -> Seq<u8>;

/// Relies on `heapless::Vec::new`: a fresh vector is empty.
#[verifier::external_body]
fn hw_new() -> (v: heapless::Vec<u8, WORD_CAPACITY>)
    ensures
        word_bytes(v) == Seq::<u8>::empty(),
{
    heapless::Vec::new()
}

/// Relies on `heapless::Vec::clear`: every element is removed.
#[verifier::external_body]
fn hw_clear(v: &mut heapless::Vec<u8, WORD_CAPACITY>)
    ensures
        word_bytes(*final(v)) == Seq::<u8>::empty(),
{
    v.clear()
}

/// Relies on `heapless::Vec::push`: below capacity the item is appended and
/// `Ok` returned; at capacity the vector is unchanged and the item comes back
/// in `Err`.
#[verifier::external_body]
fn hw_push(v: &mut heapless::Vec<u8, WORD_CAPACITY>, byte: u8) -> (r: Result<(), u8>)
    ensures
        r == (if word_bytes(*old(v)).len() < WORD_CAPACITY {
            Ok::<(), u8>(())
        } else {
            Err::<(), u8>(byte)
        }),
        word_bytes(*final(v)) == (if word_bytes(*old(v)).len() < WORD_CAPACITY {
            word_bytes(*old(v)).push(byte)
        } else {
            word_bytes(*old(v))
        }),
{
    v.push(byte)
}

/// Relies on `heapless::Vec::as_slice`: the slice views exactly the vector's
/// contents.
#[verifier::external_body]
fn hw_as_slice(v: &heapless::Vec<u8, WORD_CAPACITY>) -> (s: &[u8])
    ensures
        s@ == word_bytes(*v),
{
    v.as_slice()
}

/// Fixed-capacity accumulator for the bytes of one echoed word.
pub struct WordBuffer {
    data: heapless::Vec<u8, WORD_CAPACITY>,
}

impl View for WordBuffer {
    type V = Seq<u8>;

    closed spec fn view(&self) -> Seq<u8> {
        word_bytes(self.data)
    }
}

impl WordBuffer {
    /// A fresh, empty buffer.
    pub fn new() -> (b: WordBuffer)
        ensures
            b@ == Seq::<u8>::empty(),
    {
        WordBuffer { data: hw_new() }
    }

    /// Empties the buffer unconditionally.
    pub fn clear(&mut self)
        ensures
            final(self)@ == Seq::<u8>::empty(),
    {
        hw_clear(&mut self.data)
    }

    /// Appends one byte, or rejects it when the buffer is already full; the
    /// rejected byte is carried in the error.
    pub fn push(&mut self, byte: u8) -> (r: Result<(), u8>)
        ensures
            old(self)@.len() < WORD_CAPACITY ==> r is Ok && final(self)@ == old(self)@.push(byte),
            old(self)@.len() >= WORD_CAPACITY ==> r == Err::<(), u8>(byte) && final(self)@ == old(
                self,
            )@,
    {
        hw_push(&mut self.data, byte)
    }

    /// The current contents, read-only.
    pub fn as_slice(&self) -> (s: &[u8])
        ensures
            s@ == self@,
    {
        hw_as_slice(&self.data)
    }

    /// How many bytes the buffer currently holds.
    pub fn len(&self) -> (n: usize)
        ensures
            n == self@.len(),
    {
        self.as_slice().len()
    }
}

} // verus!
