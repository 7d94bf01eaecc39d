//! What holds of the calls taken together, stated over the model.

use vstd::prelude::*;
use crate::config::Config;
use crate::error::Error;
use crate::event::Event;
use crate::state::State;

verus! {

/// An account is in the ledger exactly where it holds a number: there is no
/// entry that stands for "no number".
pub proof fn lemma_present_iff_held<T: Config>(state: State<T>, who: T::AccountId)
    ensures
        state.contains(who) <==> state.get(who) is Some,
        state.contains(who) <==> state.removed(who) is Ok,
        state.get(who) matches Some(value) ==> state.removed(who) == Ok::<u32, Error>(value),
{
}

/// The log only grows: whatever a call does, the events deposited before it
/// are still there, in their places.
pub proof fn lemma_log_only_grows<T: Config>(state: State<T>, who: T::AccountId, value: u32)
    ensures
        state.events.is_prefix_of(state.put(who, value).events),
        state.events.is_prefix_of(state.remove(who).events),
{
}

/// Storing twice for one account leaves the second number. The ledger is
/// what it would be had the first number never been stored, and the log has
/// grown by exactly the two `ValueStored` events, in the order of the calls.
pub proof fn lemma_put_overwrites<T: Config>(
    state: State<T>,
    who: T::AccountId,
    first: u32,
    second: u32,
)
    ensures
        state.put(who, first).put(who, second).get(who) == Some(second),
        state.put(who, first).put(who, second).ledger == state.put(who, second).ledger,
        state.put(who, first).put(who, second).events == state.events.push(
            Event::ValueStored(first, who),
        ).push(Event::ValueStored(second, who)),
{
    assert(state.put(who, first).put(who, second).ledger =~= state.put(who, second).ledger);
}

/// An account for which the log holds no `ValueStored` holds no number: a
/// removal by it fails with `NoneKey` and changes neither ledger nor log.
pub proof fn lemma_remove_needs_put<T: Config>(state: State<T>, who: T::AccountId)
    requires
        state.consistent(),
        Event::<T>::never_stored(state.events, who),
    ensures
        state.get(who) is None,
        state.removed(who) == Err::<u32, Error>(Error::NoneKey),
        state.remove(who) == state,
{
    Event::<T>::lemma_never_stored_leaves_nothing(state.events, who);
    assert(state.get(who) == Event::<T>::standing(state.events, who));
}

/// A removal right after a store returns the number stored and leaves the
/// account without a number.
pub proof fn lemma_put_then_remove<T: Config>(state: State<T>, who: T::AccountId, value: u32)
    ensures
        state.put(who, value).removed(who) == Ok::<u32, Error>(value),
        state.put(who, value).remove(who).get(who) is None,
        state.put(who, value).remove(who).events == state.events.push(
            Event::ValueStored(value, who),
        ).push(Event::ValueRemoved(value, who)),
{
}

/// A call by one account changes nothing for another: neither a store nor a
/// removal by `who` changes what `other` holds.
pub proof fn lemma_accounts_are_isolated<T: Config>(
    state: State<T>,
    who: T::AccountId,
    other: T::AccountId,
    value: u32,
)
    requires
        who != other,
    ensures
        state.put(who, value).get(other) == state.get(other),
        state.remove(who).get(other) == state.get(other),
{
}

/// The number that a removal returns and reports in its event is the one
/// most recently stored for the account: the log holds a `ValueStored` of
/// that number for the account, with no later event about the account.
pub proof fn lemma_removal_reports_latest_store<T: Config>(state: State<T>, who: T::AccountId)
    requires
        state.consistent(),
        state.contains(who),
    ensures
        state.removed(who) == Ok::<u32, Error>(state.ledger[who]),
        state.remove(who).events == state.events.push(
            Event::ValueRemoved(state.ledger[who], who),
        ),
        exists|at: int| Event::<T>::latest_store(state.events, who, state.ledger[who], at),
{
    assert(state.get(who) == Event::<T>::standing(state.events, who));
    Event::<T>::lemma_standing_is_latest_store(state.events, who, state.ledger[who]);
}

} // verus!
