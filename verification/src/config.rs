//! What a host supplies to the pallet.

use vstd::prelude::*;

verus! {

/// The host's side of the pallet: the type by which it identifies callers.
pub trait Config {
    /// Identifies an account. The pallet never makes one up: every
    /// identifier it holds was handed to it by a caller.
    type AccountId: Ord + Clone;
}

/// What the pallet relies on for the account identifiers of `T`: their order
/// is a total order that agrees with equality, and a clone of an identifier
/// is that identifier.
///
/// The pallet keys its storage by account identifiers and copies them into
/// the events it deposits. Its contracts hold for a host whose identifiers
/// keep these laws, and a pallet can only be made for such a host.
pub open spec fn account_ids_are_keys<T: Config>() -> bool {
    &&& vstd::laws_cmp::obeys_cmp::<T::AccountId>()
    &&& forall|a: T::AccountId, b: T::AccountId| #[trigger]
        cloned::<T::AccountId>(a, b) ==> a == b
}

/// A host that identifies its accounts by `u64` keeps the laws.
pub proof fn lemma_u64_account_ids_are_keys<T: Config<AccountId = u64>>()
    ensures
        account_ids_are_keys::<T>(),
{
}

} // verus!
