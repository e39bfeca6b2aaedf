//! Boxes that are allocated first and filled later, from `copyless`.

use copyless::BoxAllocation;
use copyless::BoxHelper;
use vstd::prelude::*;

verus! {

/// `copyless::BoxAllocation`: storage for one `T` that holds no value yet.
#[verifier::external_type_specification]
#[verifier::external_body]
#[verifier::reject_recursive_types(T)]
pub struct ExBoxAllocation<T>(BoxAllocation<T>);

/// Calls `<Box<T> as copyless::BoxHelper<T>>::alloc`, which reserves storage
/// for one `T` and writes nothing to it. Nothing is claimed of that storage.
#[verifier::external_body]
pub(crate) fn reserve<T>() -> BoxAllocation<T> {
    Box::<T>::alloc()
}

/// Calls `copyless::BoxAllocation::init`, which writes `value` into the
/// reserved storage and hands the storage out as a box. The claim is that the
/// box holds `value`.
#[verifier::external_body]
pub(crate) fn fill<T>(storage: BoxAllocation<T>, value: T) -> (object: Box<T>)
    ensures
        *object == value,
{
    storage.init(value)
}

} // verus!
