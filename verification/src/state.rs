//! The mathematical model of the pallet: a ledger and an event log.

use vstd::prelude::*;
use crate::config::Config;
use crate::error::Error;
use crate::event::Event;

verus! {

/// What a pallet is, to its contracts: the number that each account holds,
/// and every event deposited so far, oldest first.
pub struct State<T: Config> {
    /// The accounts that hold a number, each with its number. An account
    /// without a number is absent from the map.
    pub ledger: Map<T::AccountId, u32>,
    /// The events deposited so far, in the order of the calls.
    pub events: Seq<Event<T>>,
}

impl<T: Config> State<T> {
    /// The state of a new pallet: no account holds a number, no event was deposited.
    pub open spec fn empty() -> Self {
        State { ledger: Map::empty(), events: Seq::empty() }
    }

    /// Whether `who` holds a number.
    pub open spec fn contains(self, who: T::AccountId) -> bool {
        self.ledger.contains_key(who)
    }

    /// The number that `who` holds, if any.
    pub open spec fn get(self, who: T::AccountId) -> Option<u32> {
        if self.ledger.contains_key(who) {
            Some(self.ledger[who])
        } else {
            None
        }
    }

    /// The state after `who` has stored `value`: the ledger holds `value`
    /// for `who`, whatever it held before, and one `ValueStored` event is
    /// appended.
    pub open spec fn put(self, who: T::AccountId, value: u32) -> Self {
        State {
            ledger: self.ledger.insert(who, value),
            events: self.events.push(Event::ValueStored(value, who)),
        }
    }

    /// What a removal by `who` answers: the number that `who` holds, or
    /// `NoneKey` where it holds none.
    pub open spec fn removed(self, who: T::AccountId) -> Result<u32, Error> {
        if self.ledger.contains_key(who) {
            Ok(self.ledger[who])
        } else {
            Err(Error::NoneKey)
        }
    }

    /// The state after a removal by `who`. Where `who` holds a number, its
    /// entry leaves the ledger and one `ValueRemoved` event with that number
    /// is appended; where it holds none, nothing changes.
    pub open spec fn remove(self, who: T::AccountId) -> Self {
        if self.ledger.contains_key(who) {
            State {
                ledger: self.ledger.remove(who),
                events: self.events.push(Event::ValueRemoved(self.ledger[who], who)),
            }
        } else {
            self
        }
    }

    /// The ledger and the log tell one story: each account holds what the
    /// log leaves it with, and each `ValueRemoved` in the log carries the
    /// number that its account held when the removal was made.
    pub open spec fn consistent(self) -> bool {
        &&& forall|who: T::AccountId| #[trigger]
            self.get(who) == Event::<T>::standing(self.events, who)
        &&& Event::<T>::faithful(self.events)
    }

    /// A new pallet's state is consistent.
    pub proof fn lemma_empty_consistent()
        ensures
            Self::empty().consistent(),
    {
    }

    /// Storing a number keeps the state consistent.
    pub proof fn lemma_put_consistent(self, who: T::AccountId, value: u32)
        requires
            self.consistent(),
        ensures
            self.put(who, value).consistent(),
    {
        let event = Event::<T>::ValueStored(value, who);
        let next = self.put(who, value);
        assert forall|other: T::AccountId| #[trigger]
            next.get(other) == Event::<T>::standing(next.events, other) by {
            Event::<T>::lemma_standing_push(self.events, event, other);
            assert(self.get(other) == Event::<T>::standing(self.events, other));
        }
        Event::<T>::lemma_faithful_push(self.events, event);
    }

    /// A removal keeps the state consistent, whether or not it finds a number.
    pub proof fn lemma_remove_consistent(self, who: T::AccountId)
        requires
            self.consistent(),
        ensures
            self.remove(who).consistent(),
    {
        if self.ledger.contains_key(who) {
            let event = Event::<T>::ValueRemoved(self.ledger[who], who);
            let next = self.remove(who);
            assert forall|other: T::AccountId| #[trigger]
                next.get(other) == Event::<T>::standing(next.events, other) by {
                Event::<T>::lemma_standing_push(self.events, event, other);
                assert(self.get(other) == Event::<T>::standing(self.events, other));
            }
            assert(self.get(who) == Event::<T>::standing(self.events, who));
            Event::<T>::lemma_faithful_push(self.events, event);
        }
    }
}

} // verus!
