//! Why a call into the store was rejected.

use vstd::prelude::*;

verus! {

/// The reasons for which the store rejects a call.
#[derive(Clone, Copy, Debug, PartialEq, Eq, Structural)]
pub enum Error {
    /// A value was required and none was there. Reserved: no operation reports it.
    NoneValue,
    /// The store is full. Reserved: no operation reports it.
    StorageOverflow,
    /// The caller has no stored number to remove.
    NoneKey,
}

} // verus!
