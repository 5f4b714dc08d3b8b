//! The inline-first vectors of the `smallvec` crate, as the library uses them: short
//! buffers of actor keys.
use vstd::prelude::*;

use smallvec::SmallVec;

use crate::common::ActorKey;

verus! {

/// A `SmallVec<[ActorKey; 8]>` (Verus cannot name the crate's `Array` bound, so the
/// buffer is held in a private field).
#[verifier::external_body]
pub struct KeyBuffer {
    buf: SmallVec<[ActorKey; 8]>,
}

/// The keys a buffer holds, in order.
pub uninterp spec fn key_buffer_entries(v: KeyBuffer) -> Seq<ActorKey>;

/// `SmallVec::new`: an empty buffer.
#[verifier::external_body]
pub(crate) fn key_buffer_new() -> (v: KeyBuffer)
    ensures
        key_buffer_entries(v) == Seq::<ActorKey>::empty(),
{
    KeyBuffer { buf: SmallVec::new() }
}

/// `SmallVec::push`: appends a key.
#[verifier::external_body]
pub(crate) fn key_buffer_push(v: &mut KeyBuffer, k: ActorKey)
    ensures
        key_buffer_entries(*final(v)) == key_buffer_entries(*old(v)).push(k),
{
    v.buf.push(k)
}

/// `SmallVec::len`: the number of keys.
#[verifier::external_body]
pub(crate) fn key_buffer_len(v: &KeyBuffer) -> (n: usize)
    ensures
        n == key_buffer_entries(*v).len(),
{
    v.buf.len()
}

/// Indexing (`v[i]`): the key at a position.
#[verifier::external_body]
pub(crate) fn key_buffer_get(v: &KeyBuffer, i: usize) -> (k: ActorKey)
    requires
        (i as int) < key_buffer_entries(*v).len(),
    ensures
        k == key_buffer_entries(*v)[i as int],
{
    v.buf[i]
}

} // verus!
