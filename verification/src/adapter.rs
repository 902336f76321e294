//! Choosing the graphics adapter by its number.
use vstd::prelude::*;

verus! {

/// Why an adapter cannot be chosen.
#[derive(Clone, Copy, Debug, PartialEq, Eq, Structural)]
pub enum AdapterError {
    /// There is no adapter at all.
    NoneVisible,
    /// There are fewer adapters than the number asks for.
    OutOfRange { count: usize, index: usize },
}

/// The position of the adapter with a given number among `count` of them.
pub fn choose_adapter(count: usize, index: usize) -> (r: Result<usize, AdapterError>)
    ensures
        r == if count == 0 {
            Err::<usize, AdapterError>(AdapterError::NoneVisible)
        } else if index >= count {
            Err::<usize, AdapterError>(AdapterError::OutOfRange { count, index })
        } else {
            Ok::<usize, AdapterError>(index)
        },
{
    if count == 0 {
        Err(AdapterError::NoneVisible)
    } else if index >= count {
        Err(AdapterError::OutOfRange { count, index })
    } else {
        Ok(index)
    }
}

/// An adapter is chosen exactly where there is one of that number.
pub proof fn law_adapter_by_number(count: usize, index: usize, r: Result<usize, AdapterError>)
    requires
        call_ensures(choose_adapter, (count, index), r),
    ensures
        index < count ==> r == Ok::<usize, AdapterError>(index),
        count == 0 ==> r == Err::<usize, AdapterError>(AdapterError::NoneVisible),
        index >= count && count > 0 ==> r == Err::<usize, AdapterError>(
            (AdapterError::OutOfRange { count, index }),
        ),
{
}

} // verus!
