//! Fixed-capacity text buffer for the rendered snapshot.
//!
//! The buffer wraps a `heapless::String`, so the rendered text lives in
//! one statically-sized allocation that is cleared and rewritten on every
//! render and never reallocated. The buffer's contents and its used byte
//! count are named by two spec functions; the wrappers below state how
//! each operation affects them.

use vstd::prelude::*;

verus! {

/// Byte capacity of the render buffer.
pub const BUF_CAP: usize = 1024;

/// Render buffer: a fixed-capacity byte-backed string.
#[verifier::external_body]
pub struct OutBuf {
    inner: heapless::String<1024>,
}

/// The characters the buffer holds.
pub uninterp spec fn buf_text(b: OutBuf) -> Seq<char>;

/// The bytes of storage the buffer has used, out of `BUF_CAP`.
pub uninterp spec fn buf_used(b: OutBuf) -> nat;

/// Relies on heapless::String::new: a fresh string is empty.
#[verifier::external_body]
pub fn buf_new() -> (r: OutBuf)
    ensures
        buf_text(r) == Seq::<char>::empty(),
        buf_used(r) == 0,
{
    OutBuf { inner: heapless::String::new() }
}

/// Relies on heapless::String::clear: empties the string, keeping capacity.
#[verifier::external_body]
pub fn buf_clear(b: &mut OutBuf)
    ensures
        buf_text(*final(b)) == Seq::<char>::empty(),
        buf_used(*final(b)) == 0,
{
    b.inner.clear();
}

/// Relies on heapless::String::push_str: appends the text when its bytes
/// fit in the remaining capacity; ASCII text takes one byte per character.
#[verifier::external_body]
pub fn buf_push_str(b: &mut OutBuf, s: &str)
    requires
        s.is_ascii(),
        buf_used(*old(b)) + s@.len() <= BUF_CAP,
    ensures
        buf_text(*final(b)) == buf_text(*old(b)) + s@,
        buf_used(*final(b)) == buf_used(*old(b)) + s@.len(),
{
    let _ = b.inner.push_str(s);
}

/// Relies on heapless::String::as_str: views the stored bytes as text.
#[verifier::external_body]
pub fn buf_as_str(b: &OutBuf) -> (r: &str)
    ensures
        r@ == buf_text(*b),
{
    b.inner.as_str()
}

} // verus!
