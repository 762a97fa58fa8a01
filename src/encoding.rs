use vstd::prelude::*;

use move_core_types::language_storage::StructTag;

verus! {

/// The `n` lowest bytes of `v`, least significant first.
pub open spec fn le_bytes(v: nat, n: nat) -> Seq<u8>
    decreases n,
{
    if n == 0 {
        seq![]
    } else {
        seq![(v % 256) as u8] + le_bytes(v / 256, (n - 1) as nat)
    }
}

/// Relies on bcs::to_bytes: a `u64` is written as its eight little-endian
/// bytes, and writing into a `Vec` cannot fail.
#[verifier::external_body]
pub(crate) fn encode_u64(v: u64) -> (r: Vec<u8>)
    ensures
        r@ == le_bytes(v as nat, 8),
{
    bcs::to_bytes(&v).unwrap()
}

/// Relies on bcs::to_bytes: a `u128` is written as its sixteen
/// little-endian bytes, and writing into a `Vec` cannot fail.
#[verifier::external_body]
pub(crate) fn encode_u128(v: u128) -> (r: Vec<u8>)
    ensures
        r@ == le_bytes(v as nat, 16),
{
    bcs::to_bytes(&v).unwrap()
}

#[verifier::external_type_specification]
#[verifier::external_body]
pub struct ExStructTag(StructTag);

/// Relies on bcs::serialized_size: the length of a tag's encoding, or an
/// error where the tag cannot be encoded.
#[verifier::external_body]
pub(crate) fn tag_serialized_size(tag: &StructTag) -> (r: Result<u64, ()>)
{
    bcs::serialized_size(tag).map(|n| n as u64).map_err(|_| ())
}

} // verus!
