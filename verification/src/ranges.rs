//! The half-open and full range types of the standard library, made known to
//! the verifier so that `start..`, `..end` and `..` can be passed around.
//!
//! `core::ops::Range` needs no declaration here: the verifier's own library
//! already knows it.

use vstd::prelude::*;

verus! {

/// `core::ops::RangeFrom`, the type of `start..`: a struct with the one
/// public field `start`.
#[verifier::external_type_specification]
#[verifier::reject_recursive_types(Idx)]
pub struct ExRangeFrom<Idx>(core::ops::RangeFrom<Idx>);

/// `core::ops::RangeTo`, the type of `..end`: a struct with the one public
/// field `end`.
#[verifier::external_type_specification]
#[verifier::reject_recursive_types(Idx)]
pub struct ExRangeTo<Idx>(core::ops::RangeTo<Idx>);

/// `core::ops::RangeFull`, the type of `..`: a struct without fields.
#[verifier::external_type_specification]
pub struct ExRangeFull(core::ops::RangeFull);

} // verus!
