//! The pallet: the ledger, the event log, and the calls that change them.

use std::collections::BTreeMap;
use vstd::prelude::*;
use crate::config::Config;
use crate::error::Error;
use crate::event::Event;
use crate::state::State;

verus! {

/// A number per account, with a log of every change.
pub struct Pallet<T: Config> {
    num_storage: BTreeMap<T::AccountId, u32>,
    deposited: Vec<Event<T>>,
}

impl<T: Config> View for Pallet<T> {
    type V = State<T>;

    closed spec fn view(&self) -> State<T> {
        State { ledger: self.num_storage@, events: self.deposited@ }
    }
}

impl<T: Config> Pallet<T> {
    /// The pallet is in a state that its own calls can have led to.
    pub open spec fn wf(&self) -> bool {
        &&& crate::config::account_ids_are_keys::<T>()
        &&& self@.consistent()
    }

    /// A pallet in which no account holds a number and no event was deposited.
    pub fn new() -> (pallet: Self)
        requires
            crate::config::account_ids_are_keys::<T>(),
        ensures
            pallet.wf(),
            pallet@ == State::<T>::empty(),
    {
        Pallet { num_storage: BTreeMap::new(), deposited: Vec::new() }
    }

    /// Whether `account` holds a number.
    pub fn contains(&self, account: &T::AccountId) -> (held: bool)
        requires
            self.wf(),
        ensures
            held == self@.contains(*account),
    {
        broadcast use vstd::std_specs::btree::group_btree_axioms;

        self.num_storage.contains_key(account)
    }

    /// The number that `account` holds, if any.
    pub fn get(&self, account: &T::AccountId) -> (number: Option<u32>)
        requires
            self.wf(),
        ensures
            number == self@.get(*account),
    {
        broadcast use vstd::std_specs::btree::group_btree_axioms;

        match self.num_storage.get(account) {
            Some(number) => Some(*number),
            None => None,
        }
    }

    /// Every event deposited so far, oldest first.
    pub fn events(&self) -> (log: &[Event<T>])
        ensures
            log@ == self@.events,
    {
        self.deposited.as_slice()
    }

    /// Stores `input_number` for `who`, in place of any number that `who`
    /// held, and deposits `ValueStored`. Never fails.
    pub fn put_number(&mut self, who: T::AccountId, input_number: u32) -> (result: Result<
        (),
        Error,
    >)
        requires
            old(self).wf(),
        ensures
            final(self).wf(),
            result == Ok::<(), Error>(()),
            final(self)@ == old(self)@.put(who, input_number),
    {
        let key = who.clone();
        assert(cloned::<T::AccountId>(who, key));
        self.num_storage.insert(key, input_number);
        self.deposited.push(Event::ValueStored(input_number, who));
        proof {
            assert(self@ =~= old(self)@.put(who, input_number));
            old(self)@.lemma_put_consistent(who, input_number);
        }
        Ok(())
    }

    /// Takes the number that `who` holds out of the storage and returns it,
    /// and deposits `ValueRemoved` with it. Where `who` holds no number the
    /// call fails with `NoneKey`, and neither the storage nor the log changes.
    pub fn remove_number(&mut self, who: T::AccountId) -> (result: Result<u32, Error>)
        requires
            old(self).wf(),
        ensures
            final(self).wf(),
            result == old(self)@.removed(who),
            final(self)@ == old(self)@.remove(who),
    {
        broadcast use vstd::std_specs::btree::group_btree_axioms;

        proof {
            old(self)@.lemma_remove_consistent(who);
        }
        match self.num_storage.remove(&who) {
            Some(entry) => {
                self.deposited.push(Event::ValueRemoved(entry, who));
                proof {
                    assert(self@ =~= old(self)@.remove(who));
                }
                Ok(entry)
            },
            None => {
                proof {
                    assert(old(self)@.ledger.remove(who) =~= old(self)@.ledger);
                }
                Err(Error::NoneKey)
            },
        }
    }
}

} // verus!
