//! Header maps: the "exposes a header map" capability, satisfied by a
//! concrete `http::HeaderMap` and propagated through one layer of reference
//! wrapping.

use vstd::prelude::*;

verus! {

/// Declares `http::HeaderMap`, the ordered-insertion, case-insensitive
/// multimap of header names to values, so it can stand in signatures and
/// fields. Its value is opaque here: this crate only moves and borrows
/// whole maps, never reads inside one.
#[verifier::external_type_specification]
#[verifier::external_body]
#[verifier::reject_recursive_types(T)]
pub struct ExHeaderMap<T>(http::HeaderMap<T>);

/// Declares `http::HeaderValue`, the value type a header map carries by
/// default.
#[verifier::external_type_specification]
#[verifier::external_body]
pub struct ExHeaderValue(http::HeaderValue);

/// Capability: a type that carries a header map and can hand out a
/// reference to it without copying. Delegation (the `&T` implementation)
/// forwards to the wrapped value, so a wrapper reports exactly the map the
/// wrapped value carries.
pub trait BorrowHeaderMap {
    /// The header map the value carries, at the specification level.
    spec fn spec_header_map(&self) -> http::HeaderMap;

    /// Borrow the carried header map. The result is exactly the map this
    /// value carries: no copy, no translation.
    fn header_map(&self) -> (r: &http::HeaderMap)
        ensures
            *r == self.spec_header_map(),
    ;
}

impl<T: BorrowHeaderMap> BorrowHeaderMap for &T {
    open spec fn spec_header_map(&self) -> http::HeaderMap {
        (**self).spec_header_map()
    }

    fn header_map(&self) -> (r: &http::HeaderMap) {
        (**self).header_map()
    }
}

impl BorrowHeaderMap for http::HeaderMap<http::HeaderValue> {
    open spec fn spec_header_map(&self) -> http::HeaderMap {
        *self
    }

    fn header_map(&self) -> (r: &http::HeaderMap) {
        self
    }
}

} // verus!
