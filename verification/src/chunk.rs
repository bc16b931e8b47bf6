//! Body chunks: one immutable unit of streamed body data, represented by
//! `bytes::Bytes`, together with the specification-level view of its
//! contents.

use vstd::prelude::*;

verus! {

/// Declares `bytes::Bytes`, the reference-counted immutable byte buffer
/// that carries one body chunk, so it can stand in signatures and fields.
/// Its value is opaque here; contracts speak of it through [`bytes_view`].
#[verifier::external_type_specification]
#[verifier::external_body]
pub struct ExBytes(bytes::Bytes);

/// The byte contents of a chunk, as a mathematical sequence. A `Bytes`
/// value is an immutable view into a byte buffer, so its contents are a
/// function of the value alone.
pub uninterp spec fn bytes_view(b: bytes::Bytes) -> Seq<u8>;

/// Relies on bytes::Bytes::len: returns the number of bytes the chunk
/// contains.
pub assume_specification[ bytes::Bytes::len ](b: &bytes::Bytes) -> (r: usize)
    ensures
        r == bytes_view(*b).len(),
;

} // verus!
