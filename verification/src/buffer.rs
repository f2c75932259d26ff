//! Buffers handed out by the allocator under test.

use vstd::prelude::*;

verus! {

/// A buffer shorter than this is left untouched.
pub const TOUCH_MIN: usize = 8;

/// The byte written at offset 0 of a touched buffer.
pub const FIRST_MARK: u8 = 1;

/// The byte written at the last offset of a touched buffer.
pub const LAST_MARK: u8 = 2;

/// The largest buffer that can be asked for.
pub open spec fn max_len() -> nat {
    isize::MAX as nat
}

/// A buffer of `len` zero bytes.
pub open spec fn zeroed(len: nat) -> Seq<u8> {
    Seq::new(len, |i: int| 0u8)
}

/// `bytes` after its two ends were touched: the first byte holds
/// `FIRST_MARK` and the last one `LAST_MARK`, where there are at least
/// `TOUCH_MIN` bytes. A shorter buffer stays as it is.
pub open spec fn touched(bytes: Seq<u8>) -> Seq<u8> {
    if bytes.len() >= TOUCH_MIN {
        bytes.update(0, FIRST_MARK).update(bytes.len() - 1, LAST_MARK)
    } else {
        bytes
    }
}

/// `Vec::into_boxed_slice`: the same bytes, owned as a boxed slice.
#[verifier::external_body]
fn boxed(bytes: Vec<u8>) -> (b: Box<[u8]>)
    ensures
        b@ == bytes@,
{
    bytes.into_boxed_slice()
}

/// One contiguous allocation, owned until it is dropped.
pub struct Buffer {
    bytes: Box<[u8]>,
}

impl View for Buffer {
    type V = Seq<u8>;

    closed spec fn view(&self) -> Seq<u8> {
        self.bytes@
    }
}

impl Buffer {
    /// Allocates `len` zero bytes.
    pub fn allocate(len: usize) -> (buf: Buffer)
        requires
            len <= max_len(),
        ensures
            buf@ == zeroed(len as nat),
    {
        Buffer { bytes: boxed(vec![0u8; len]) }
    }

    pub fn len(&self) -> (len: usize)
        ensures
            len == self@.len(),
    {
        self.bytes.len()
    }

    /// Writes to the first and to the last byte of a buffer of at least
    /// `TOUCH_MIN` bytes, and to no byte of a shorter one, and says whether
    /// it wrote. Every write lies inside the buffer.
    pub fn touch(&mut self) -> (wrote: bool)
        ensures
            final(self)@ == touched(old(self)@),
            final(self)@.len() == old(self)@.len(),
            wrote == (old(self)@.len() >= TOUCH_MIN),
    {
        let len = self.bytes.len();
        if len >= TOUCH_MIN {
            let last = len - 1;
            self.bytes[0] = FIRST_MARK;
            self.bytes[last] = LAST_MARK;
            true
        } else {
            false
        }
    }

    /// The bytes of the buffer.
    pub fn as_slice(&self) -> (bytes: &[u8])
        ensures
            bytes@ == self@,
    {
        &self.bytes
    }
}

} // verus!
