//! The store: named text values, and what each operation does to them.
//!
//! A store that was never written to, or that was purged, does not exist.
//! Reading from it finds nothing; writing to it creates it; only purging
//! it is an error. Removing a name that the store lacks is an error too,
//! as reading it is.

use crate::error::{BriefcaseError, Fault};
use crate::table::{as_map, keys_distinct, pairs_of, Table};
use crate::validate::{is_valid_entry, is_valid_name};
use vstd::prelude::*;

verus! {

/// What a store holds, as contracts speak of it.
pub struct StoreState {
    /// The store has been created and not purged since.
    pub exists: bool,
    /// The value of each name.
    pub entries: Map<Seq<char>, Seq<char>>,
}

/// The state of a store that does not exist.
pub open spec fn absent() -> StoreState {
    StoreState { exists: false, entries: Map::empty() }
}

/// A state that a store can be in: one that does not exist holds nothing,
/// there are finitely many names, and each is well-formed.
pub open spec fn well_formed(state: StoreState) -> bool {
    &&& !state.exists ==> state.entries == Map::<Seq<char>, Seq<char>>::empty()
    &&& state.entries.dom().finite()
    &&& forall|name: Seq<char>| #[trigger]
        state.entries.contains_key(name) ==> is_valid_name(name)
}

/// The state after `ensure_open`.
pub open spec fn after_ensure_open(state: StoreState) -> StoreState {
    StoreState { exists: true, entries: state.entries }
}

/// What `set` returns.
pub open spec fn set_result(state: StoreState, name: Seq<char>) -> Result<(), Fault> {
    if is_valid_name(name) {
        Ok(())
    } else {
        Err(Fault::InvalidEntry(name))
    }
}

/// The state after `set`.
pub open spec fn after_set(state: StoreState, name: Seq<char>, value: Seq<char>) -> StoreState {
    if is_valid_name(name) {
        StoreState { exists: true, entries: state.entries.insert(name, value) }
    } else {
        state
    }
}

/// What `get` returns.
pub open spec fn get_result(state: StoreState, name: Seq<char>) -> Result<Seq<char>, Fault> {
    if !is_valid_name(name) {
        Err(Fault::InvalidEntry(name))
    } else if state.entries.contains_key(name) {
        Ok(state.entries[name])
    } else {
        Err(Fault::EntryNotFound(name))
    }
}

/// What `remove` returns.
pub open spec fn remove_result(state: StoreState, name: Seq<char>) -> Result<(), Fault> {
    if !is_valid_name(name) {
        Err(Fault::InvalidEntry(name))
    } else if state.entries.contains_key(name) {
        Ok(())
    } else {
        Err(Fault::EntryNotFound(name))
    }
}

/// The state after `remove`.
pub open spec fn after_remove(state: StoreState, name: Seq<char>) -> StoreState {
    StoreState { exists: state.exists, entries: state.entries.remove(name) }
}

/// What `purge` returns.
pub open spec fn purge_result(state: StoreState) -> Result<(), Fault> {
    if state.exists {
        Ok(())
    } else {
        Err(Fault::StoreNotFound)
    }
}

/// The state after `purge`.
pub open spec fn after_purge(state: StoreState) -> StoreState {
    absent()
}

/// A result whose error is taken by its view.
pub open spec fn unit_outcome(result: Result<(), BriefcaseError>) -> Result<(), Fault> {
    match result {
        Ok(_) => Ok(()),
        Err(error) => Err(error@),
    }
}

/// A result whose text and error are taken by their views.
pub open spec fn text_outcome(result: Result<String, BriefcaseError>) -> Result<Seq<char>, Fault> {
    match result {
        Ok(text) => Ok(text@),
        Err(error) => Err(error@),
    }
}

/// A store held in memory.
pub struct Store {
    open: bool,
    entries: Table,
}

impl View for Store {
    type V = StoreState;

    closed spec fn view(&self) -> StoreState {
        StoreState { exists: self.open, entries: self.entries@ }
    }
}

impl Store {
    #[verifier::type_invariant]
    spec fn state_is_well_formed(&self) -> bool {
        well_formed(self@)
    }

    /// A store that does not exist yet.
    pub fn new() -> (store: Store)
        ensures
            store@ == absent(),
    {
        Store { open: false, entries: Table::new() }
    }

    /// Creates the store if it does not exist; its entries stay.
    pub fn ensure_open(&mut self)
        ensures
            final(self)@ == after_ensure_open(old(self)@),
    {
        proof {
            use_type_invariant(&*self);
        }
        self.open = true;
    }

    /// Gives `name` the value `value`, creating the store if need be.
    /// An ill-formed name is refused and nothing changes.
    pub fn set(&mut self, name: &str, value: &str) -> (result: Result<(), BriefcaseError>)
        ensures
            unit_outcome(result) == set_result(old(self)@, name@),
            final(self)@ == after_set(old(self)@, name@, value@),
    {
        proof {
            use_type_invariant(&*self);
        }
        if !is_valid_entry(name) {
            return Err(BriefcaseError::InvalidEntry(name.to_owned()));
        }
        let mut entries = Table::new();
        core::mem::swap(&mut self.entries, &mut entries);
        entries.insert(name, value);
        self.open = true;
        self.entries = entries;
        Ok(())
    }

    /// The value of `name`.
    pub fn get(&self, name: &str) -> (result: Result<String, BriefcaseError>)
        ensures
            text_outcome(result) == get_result(self@, name@),
    {
        if !is_valid_entry(name) {
            return Err(BriefcaseError::InvalidEntry(name.to_owned()));
        }
        match self.entries.get(name) {
            Some(value) => Ok(value),
            None => Err(BriefcaseError::EntryNotFound(name.to_owned())),
        }
    }

    /// Deletes the entry `name`. Where the name is ill-formed or the store
    /// has no such entry, nothing changes.
    pub fn remove(&mut self, name: &str) -> (result: Result<(), BriefcaseError>)
        ensures
            unit_outcome(result) == remove_result(old(self)@, name@),
            result is Ok ==> final(self)@ == after_remove(old(self)@, name@),
            result is Err ==> final(self)@ == old(self)@,
    {
        proof {
            use_type_invariant(&*self);
        }
        if !is_valid_entry(name) {
            return Err(BriefcaseError::InvalidEntry(name.to_owned()));
        }
        let ghost before = self.entries@;
        let mut entries = Table::new();
        core::mem::swap(&mut self.entries, &mut entries);
        let removed = entries.remove(name);
        proof {
            if !removed {
                assert(before.remove(name@) =~= before);
            }
        }
        self.entries = entries;
        if removed {
            Ok(())
        } else {
            Err(BriefcaseError::EntryNotFound(name.to_owned()))
        }
    }

    /// The entries, each name once with its value, in no promised order.
    pub fn list(&self) -> (pairs: Vec<(String, String)>)
        ensures
            keys_distinct(pairs_of(pairs@)),
            as_map(pairs_of(pairs@)) == self@.entries,
            pairs@.len() == self@.entries.len(),
            forall|i: int| 0 <= i < pairs@.len() ==> is_valid_name(#[trigger] pairs@[i].0@),
    {
        let pairs = self.entries.to_pairs();
        proof {
            use_type_invariant(self);
            let texts = pairs_of(pairs@);
            assert forall|i: int| 0 <= i < pairs@.len() implies is_valid_name(
                #[trigger] pairs@[i].0@,
            ) by {
                crate::table::lemma_as_map_at(texts, i);
                assert(texts[i].0 == pairs@[i].0@);
                assert(self@.entries.contains_key(texts[i].0));
            }
        }
        pairs
    }

    /// The number of entries.
    pub fn count(&self) -> (n: usize)
        ensures
            n == self@.entries.len(),
    {
        self.entries.len()
    }

    /// Destroys the store with all its entries. A store that does not
    /// exist cannot be purged.
    pub fn purge(&mut self) -> (result: Result<(), BriefcaseError>)
        ensures
            unit_outcome(result) == purge_result(old(self)@),
            final(self)@ == after_purge(old(self)@),
    {
        proof {
            use_type_invariant(&*self);
        }
        if !self.open {
            return Err(BriefcaseError::StoreNotFound);
        }
        self.entries = Table::new();
        self.open = false;
        Ok(())
    }
}

} // verus!
