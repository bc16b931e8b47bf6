//! Message decomposition: taking a message apart into its metadata parts
//! and its body, and rebuilding it from separately-obtained parts and body,
//! without copying body bytes.

use vstd::prelude::*;

use crate::headers::BorrowHeaderMap;

verus! {

/// Capability: build `Self` from independently-obtained metadata parts and
/// a body. Construction moves both in; it validates no cross-consistency
/// between them (that is a transport concern).
pub trait FromParts<P, B = bytes::Bytes>: Sized {
    /// The metadata parts the built value carries.
    spec fn parts_of(&self) -> P;

    /// The body the built value carries.
    spec fn body_of(&self) -> B;

    /// Build a message-like value that carries exactly `parts` and `body`.
    fn from_parts(parts: P, body: B) -> (r: Self)
        ensures
            r.parts_of() == parts,
            r.body_of() == body,
    ;
}

/// Capability: take `Self` apart into its metadata parts and its body,
/// consuming it, so that no half-moved value remains usable.
pub trait IntoParts: Sized {
    /// The metadata parts type.
    type Parts;

    /// The body type.
    type Body;

    /// The metadata parts the value carries.
    spec fn spec_parts(&self) -> Self::Parts;

    /// The body the value carries.
    spec fn spec_body(&self) -> Self::Body;

    /// Decompose into exactly the carried parts and body, moving both out.
    fn into_parts(self) -> (r: (Self::Parts, Self::Body))
        ensures
            r.0 == self.spec_parts(),
            r.1 == self.spec_body(),
    ;
}

/// A whole message: its metadata parts (method/URI/version/headers for a
/// request, status/version/headers for a response) together with its body.
/// Parts and body are independently movable; decomposing and rebuilding is
/// lossless.
pub struct Message<P, B> {
    parts: P,
    body: B,
}

impl<P, B> FromParts<P, B> for Message<P, B> {
    open spec fn parts_of(&self) -> P {
        self.spec_parts()
    }

    open spec fn body_of(&self) -> B {
        self.spec_body()
    }

    fn from_parts(parts: P, body: B) -> (r: Self) {
        Message { parts, body }
    }
}

impl<P, B> IntoParts for Message<P, B> {
    type Parts = P;

    type Body = B;

    closed spec fn spec_parts(&self) -> P {
        self.parts
    }

    closed spec fn spec_body(&self) -> B {
        self.body
    }

    fn into_parts(self) -> (r: (P, B)) {
        (self.parts, self.body)
    }
}

impl<P, B> Message<P, B> {
    /// Borrow the metadata parts.
    pub fn parts(&self) -> (r: &P)
        ensures
            *r == self.spec_parts(),
    {
        &self.parts
    }

    /// Borrow the body.
    pub fn body(&self) -> (r: &B)
        ensures
            *r == self.spec_body(),
    {
        &self.body
    }
}

/// A message exposes the header map its parts carry.
impl<P: BorrowHeaderMap, B> BorrowHeaderMap for Message<P, B> {
    open spec fn spec_header_map(&self) -> http::HeaderMap {
        self.spec_parts().spec_header_map()
    }

    fn header_map(&self) -> (r: &http::HeaderMap) {
        self.parts.header_map()
    }
}

/// Round-trip law: a message rebuilt from the parts and body obtained by
/// decomposing `m` is identical to `m` — same metadata, and the same body,
/// which therefore yields the same chunk sequence when drained.
///
/// `from_parts` ensures that `rebuilt` carries exactly the parts and body
/// handed to it, and `into_parts` ensures those are exactly what `m`
/// carried; this lemma closes the loop.
pub proof fn lemma_message_round_trip<P, B>(m: Message<P, B>, rebuilt: Message<P, B>)
    requires
        rebuilt.parts_of() == m.spec_parts(),
        rebuilt.body_of() == m.spec_body(),
    ensures
        rebuilt == m,
{
}

} // verus!
