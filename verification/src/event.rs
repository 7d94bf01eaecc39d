//! The events that the pallet deposits, and what a log of them says.

use vstd::prelude::*;
use crate::config::Config;

verus! {

/// A completed change to the storage, with the number and the account concerned.
///
/// Events compare and print where `T` itself does: a host that wants to
/// compare them derives `PartialEq` and `Debug` for its `Config` type.
#[derive(Debug, PartialEq, Eq)]
pub enum Event<T: Config> {
    /// The account stored the number.
    ValueStored(u32, T::AccountId),
    /// The account removed its number, which was this one.
    ValueRemoved(u32, T::AccountId),
}

impl<T: Config> Clone for Event<T> {
    /// A copy of the event: the same event, where the account identifiers
    /// of `T` keep their laws.
    fn clone(&self) -> (copy: Self)
        ensures
            crate::config::account_ids_are_keys::<T>() ==> copy == *self,
    {
        match self {
            Event::ValueStored(value, who) => {
                let account = who.clone();
                assert(cloned::<T::AccountId>(*who, account));
                Event::ValueStored(*value, account)
            },
            Event::ValueRemoved(value, who) => {
                let account = who.clone();
                assert(cloned::<T::AccountId>(*who, account));
                Event::ValueRemoved(*value, account)
            },
        }
    }
}

impl<T: Config> Event<T> {
    /// The account that the event is about.
    pub open spec fn who(self) -> T::AccountId {
        match self {
            Event::ValueStored(_, who) => who,
            Event::ValueRemoved(_, who) => who,
        }
    }

    /// What the event leaves its account with: the number stored, or nothing
    /// after a removal.
    pub open spec fn leaves(self) -> Option<u32> {
        match self {
            Event::ValueStored(value, _) => Some(value),
            Event::ValueRemoved(_, _) => None,
        }
    }

    /// The event at `at` is a `ValueStored` of `value` for `who`, and no event
    /// after it is about `who`.
    pub open spec fn latest_store(
        log: Seq<Event<T>>,
        who: T::AccountId,
        value: u32,
        at: int,
    ) -> bool {
        &&& 0 <= at < log.len()
        &&& log[at] == Event::<T>::ValueStored(value, who)
        &&& forall|j: int| at < j < log.len() ==> (#[trigger] log[j]).who() != who
    }

    /// What a log of events leaves `who` with: what the latest event about
    /// `who` leaves, and nothing where the log holds no event about `who`.
    pub open spec fn standing(log: Seq<Event<T>>, who: T::AccountId) -> Option<u32>
        decreases log.len(),
    {
        if log.len() == 0 {
            None
        } else if log.last().who() == who {
            log.last().leaves()
        } else {
            Self::standing(log.drop_last(), who)
        }
    }

    /// One more event changes what the log leaves its own account with,
    /// and nothing for any other account.
    pub proof fn lemma_standing_push(log: Seq<Event<T>>, event: Event<T>, who: T::AccountId)
        ensures
            Self::standing(log.push(event), who) == if event.who() == who {
                event.leaves()
            } else {
                Self::standing(log, who)
            },
    {
        assert(log.push(event).last() == event);
        assert(log.push(event).drop_last() =~= log);
    }

    /// A log leaves `who` with `value` exactly where it holds a
    /// `ValueStored` of `value` for `who` with no later event about `who`.
    pub proof fn lemma_standing_is_latest_store(log: Seq<Event<T>>, who: T::AccountId, value: u32)
        ensures
            Self::standing(log, who) == Some(value) <==> exists|i: int|
                Self::latest_store(log, who, value, i),
        decreases log.len(),
    {
        if log.len() == 0 {
        } else if log.last().who() == who {
            let at = log.len() - 1;
            if Self::standing(log, who) == Some(value) {
                assert(Self::latest_store(log, who, value, at));
            }
            if exists|i: int| Self::latest_store(log, who, value, i) {
                let i = choose|i: int| Self::latest_store(log, who, value, i);
                assert(i == at) by {
                    if i < at {
                        assert(log[at].who() != who);
                    }
                }
            }
        } else {
            let front = log.drop_last();
            Self::lemma_standing_is_latest_store(front, who, value);
            if exists|i: int| Self::latest_store(front, who, value, i) {
                let i = choose|i: int| Self::latest_store(front, who, value, i);
                assert(Self::latest_store(log, who, value, i)) by {
                    assert forall|j: int| i < j < log.len() implies (#[trigger] log[j]).who()
                        != who by {
                        if j < front.len() {
                            assert(front[j] == log[j]);
                        }
                    }
                }
            }
            if exists|i: int| Self::latest_store(log, who, value, i) {
                let i = choose|i: int| Self::latest_store(log, who, value, i);
                assert(i < front.len());
                assert(Self::latest_store(front, who, value, i)) by {
                    assert forall|j: int| i < j < front.len() implies (#[trigger] front[j]).who()
                        != who by {
                        assert(front[j] == log[j]);
                    }
                }
            }
        }
    }

    /// The log holds no `ValueStored` for `who`.
    pub open spec fn never_stored(log: Seq<Event<T>>, who: T::AccountId) -> bool {
        forall|i: int|
            0 <= i < log.len() && (#[trigger] log[i]).who() == who ==> log[i] is ValueRemoved
    }

    /// A log without a `ValueStored` for `who` leaves `who` with nothing.
    pub proof fn lemma_never_stored_leaves_nothing(log: Seq<Event<T>>, who: T::AccountId)
        requires
            Self::never_stored(log, who),
        ensures
            Self::standing(log, who) is None,
        decreases log.len(),
    {
        if log.len() == 0 {
        } else if log.last().who() == who {
            assert(log[log.len() - 1] is ValueRemoved);
        } else {
            let front = log.drop_last();
            assert forall|i: int| 0 <= i < front.len() && (#[trigger] front[i]).who()
                == who implies front[i] is ValueRemoved by {
                assert(front[i] == log[i]);
            }
            Self::lemma_never_stored_leaves_nothing(front, who);
        }
    }

    /// The event may follow the log: a `ValueStored` always may, a
    /// `ValueRemoved` where it carries the number that the log leaves its
    /// account with.
    pub open spec fn follows(self, log: Seq<Event<T>>) -> bool {
        self matches Event::ValueRemoved(value, who) ==> Self::standing(log, who) == Some(value)
    }

    /// Each event of the log may follow the events before it: every removal
    /// in the log took out what its account held at that point.
    pub open spec fn faithful(log: Seq<Event<T>>) -> bool {
        forall|i: int| 0 <= i < log.len() ==> (#[trigger] log[i]).follows(log.take(i))
    }

    /// A faithful log stays faithful when an event that may follow it is appended.
    pub proof fn lemma_faithful_push(log: Seq<Event<T>>, event: Event<T>)
        requires
            Self::faithful(log),
            event.follows(log),
        ensures
            Self::faithful(log.push(event)),
    {
        let longer = log.push(event);
        assert forall|i: int| 0 <= i < longer.len() implies (#[trigger] longer[i]).follows(
            longer.take(i),
        ) by {
            if i < log.len() {
                assert(longer[i] == log[i]);
                assert(longer.take(i) =~= log.take(i));
            } else {
                assert(longer.take(i) =~= log);
            }
        }
    }
}

} // verus!
