//! What the ledger takes from `frame_support`: its bounded vector, as the type
//! of every byte string the ledger stores, and as the judge of how many
//! entries an index may hold.

use frame_support::traits::ConstU32;
use frame_support::BoundedVec;
use vstd::prelude::*;

verus! {

/// `frame_support::BoundedVec` (defined in `bounded_collections`), carried
/// through the ledger without looking inside.
#[verifier::external_type_specification]
#[verifier::external_body]
#[verifier::reject_recursive_types(T)]
#[verifier::reject_recursive_types(S)]
pub struct ExBoundedVec<T, S>(BoundedVec<T, S>);

/// `frame_support::traits::ConstU32`, the bound of a `BoundedVec` given as a
/// constant.
#[verifier::external_type_specification]
#[verifier::external_body]
pub struct ExConstU32<const T: u32>(ConstU32<T>);

/// The bytes that a `BoundedVec<u8, ConstU32<63>>` holds, in order.
pub uninterp spec fn bytes_63(text: BoundedVec<u8, ConstU32<63>>) -> Seq<u8>;

/// The bytes that a `BoundedVec<u8, ConstU32<255>>` holds, in order.
pub uninterp spec fn bytes_255(text: BoundedVec<u8, ConstU32<255>>) -> Seq<u8>;

/// The bytes that a `BoundedVec<u8, ConstU32<2048>>` holds, in order.
pub uninterp spec fn bytes_2048(text: BoundedVec<u8, ConstU32<2048>>) -> Seq<u8>;

/// `<BoundedVec<u8, ConstU32<63>> as PartialEq>::eq`, which compares the two
/// inner vectors: true exactly when both hold the same bytes.
#[verifier::external_body]
pub(crate) fn same_bytes_63(
    a: &BoundedVec<u8, ConstU32<63>>,
    b: &BoundedVec<u8, ConstU32<63>>,
) -> (same: bool)
    ensures
        same == (bytes_63(*a) == bytes_63(*b)),
{
    a == b
}

/// `<BoundedVec<u8, ConstU32<63>> as Clone>::clone`, which clones the inner
/// vector: the copy holds the same bytes.
#[verifier::external_body]
pub(crate) fn clone_bytes_63(text: &BoundedVec<u8, ConstU32<63>>) -> (copy: BoundedVec<
    u8,
    ConstU32<63>,
>)
    ensures
        bytes_63(copy) == bytes_63(*text),
{
    text.clone()
}

/// `<BoundedVec<u8, ConstU32<255>> as Clone>::clone`, which clones the inner
/// vector: the copy holds the same bytes.
#[verifier::external_body]
pub(crate) fn clone_bytes_255(text: &BoundedVec<u8, ConstU32<255>>) -> (copy: BoundedVec<
    u8,
    ConstU32<255>,
>)
    ensures
        bytes_255(copy) == bytes_255(*text),
{
    text.clone()
}

/// `<BoundedVec<u8, ConstU32<2048>> as Clone>::clone`, which clones the
/// inner vector: the copy holds the same bytes.
#[verifier::external_body]
pub(crate) fn clone_bytes_2048(text: &BoundedVec<u8, ConstU32<2048>>) -> (copy: BoundedVec<
    u8,
    ConstU32<2048>,
>)
    ensures
        bytes_2048(copy) == bytes_2048(*text),
{
    text.clone()
}

/// `BoundedVec::try_push` on a `BoundedVec<T, ConstU32<LIMIT>>` that is
/// made of `items` by `BoundedVec::truncate_from` and turned back by
/// `BoundedVec::into_inner`.  With fewer than `LIMIT` items the item is
/// appended; with `LIMIT` items nothing changes and the item comes back as
/// the error.
#[verifier::external_body]
pub(crate) fn try_push_bounded<T, const LIMIT: u32>(items: Vec<T>, item: T) -> (pushed: (
    Vec<T>,
    Result<(), T>,
))
    requires
        items@.len() <= LIMIT,
    ensures
        pushed.1.is_ok() == (items@.len() < LIMIT),
        pushed.1.is_err() ==> pushed.1->Err_0 == item,
        pushed.0@ == if pushed.1.is_ok() { items@.push(item) } else { items@ },
{
    let mut bounded = BoundedVec::<T, ConstU32<LIMIT>>::truncate_from(items);
    let pushed = bounded.try_push(item);
    (bounded.into_inner(), pushed)
}

} // verus!
