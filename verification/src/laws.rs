//! What holds of the store's operations taken together.

use crate::command::{plan_of, CommandView, RequestView};
use crate::error::Fault;
use crate::store::{
    absent, after_ensure_open, after_purge, after_remove, after_set, get_result, purge_result,
    remove_result, set_result, well_formed, StoreState,
};
use crate::validate::is_valid_name;
use vstd::prelude::*;

verus! {

/// A value that was set under a well-formed name is the value that is got
/// under that name, unchanged.
pub proof fn law_set_then_get(state: StoreState, name: Seq<char>, value: Seq<char>)
    requires
        is_valid_name(name),
    ensures
        set_result(state, name) == Ok::<(), Fault>(()),
        get_result(after_set(state, name, value), name) == Ok::<Seq<char>, Fault>(value),
{
}

/// Setting a name twice leaves what setting it the second time alone would
/// have left: the second value is the one that is got, and the name is
/// held once.
pub proof fn law_set_overwrites(
    state: StoreState,
    name: Seq<char>,
    first: Seq<char>,
    second: Seq<char>,
)
    requires
        well_formed(state),
        is_valid_name(name),
    ensures
        after_set(after_set(state, name, first), name, second) == after_set(state, name, second),
        get_result(after_set(after_set(state, name, first), name, second), name) == Ok::<
            Seq<char>,
            Fault,
        >(second),
        after_set(after_set(state, name, first), name, second).entries.len() == after_set(
            state,
            name,
            first,
        ).entries.len(),
{
    let once = after_set(state, name, first);
    let twice = after_set(once, name, second);
    assert(twice.entries =~= after_set(state, name, second).entries);
    assert(twice.entries.dom() =~= once.entries.dom());
}

/// Setting a name changes the value of no other name.
pub proof fn law_set_keeps_others(
    state: StoreState,
    name: Seq<char>,
    value: Seq<char>,
    other: Seq<char>,
)
    requires
        other != name,
    ensures
        get_result(after_set(state, name, value), other) == get_result(state, other),
{
}

/// A name that was removed is not found afterwards.
pub proof fn law_remove_then_get(state: StoreState, name: Seq<char>)
    requires
        is_valid_name(name),
    ensures
        get_result(after_remove(state, name), name) == Err::<Seq<char>, Fault>(
            Fault::EntryNotFound(name),
        ),
        remove_result(after_remove(state, name), name) == Err::<(), Fault>(
            Fault::EntryNotFound(name),
        ),
{
}

/// Removing a name changes the value of no other name.
pub proof fn law_remove_keeps_others(state: StoreState, name: Seq<char>, other: Seq<char>)
    requires
        other != name,
    ensures
        get_result(after_remove(state, name), other) == get_result(state, other),
{
}

/// After a purge the store is as one that never existed: it holds
/// nothing, no well-formed name is found in it, and it cannot be purged
/// again.
pub proof fn law_purge_leaves_nothing(state: StoreState, name: Seq<char>)
    ensures
        after_purge(state) == absent(),
        after_purge(state).entries.len() == 0,
        is_valid_name(name) ==> get_result(after_purge(state), name) == Err::<Seq<char>, Fault>(
            Fault::EntryNotFound(name),
        ),
        purge_result(after_purge(state)) == Err::<(), Fault>(Fault::StoreNotFound),
{
}

/// A purged store that is written to exists again, and can be purged.
pub proof fn law_set_after_purge(state: StoreState, name: Seq<char>, value: Seq<char>)
    requires
        is_valid_name(name),
    ensures
        after_set(after_purge(state), name, value).entries == Map::<
            Seq<char>,
            Seq<char>,
        >::empty().insert(name, value),
        purge_result(after_set(after_purge(state), name, value)) == Ok::<(), Fault>(()),
{
}

/// An ill-formed name is refused by every operation that takes a name, and
/// the refused `set` leaves the store as it was.
pub proof fn law_invalid_name_is_refused(state: StoreState, name: Seq<char>, value: Seq<char>)
    requires
        !is_valid_name(name),
    ensures
        set_result(state, name) == Err::<(), Fault>(Fault::InvalidEntry(name)),
        get_result(state, name) == Err::<Seq<char>, Fault>(Fault::InvalidEntry(name)),
        remove_result(state, name) == Err::<(), Fault>(Fault::InvalidEntry(name)),
        after_set(state, name, value) == state,
{
}

/// A command that names an entry by an ill-formed name ends with that
/// refusal and leads to no request: the storage is not touched.
pub proof fn law_invalid_name_makes_no_request(
    env: Map<Seq<char>, Seq<char>>,
    name: Seq<char>,
    value: Seq<char>,
)
    requires
        !is_valid_name(name),
    ensures
        plan_of(CommandView::SetEntry { name, value }, env) == Err::<RequestView, Fault>(
            Fault::InvalidEntry(name),
        ),
        plan_of(CommandView::GetEntry { name }, env) == Err::<RequestView, Fault>(
            Fault::InvalidEntry(name),
        ),
        plan_of(CommandView::RemoveEntry { name }, env) == Err::<RequestView, Fault>(
            Fault::InvalidEntry(name),
        ),
{
}

/// Opening a store twice is opening it once, and opening it keeps what it
/// holds.
pub proof fn law_ensure_open_is_idempotent(state: StoreState, name: Seq<char>)
    ensures
        after_ensure_open(after_ensure_open(state)) == after_ensure_open(state),
        get_result(after_ensure_open(state), name) == get_result(state, name),
        purge_result(after_ensure_open(state)) == Ok::<(), Fault>(()),
{
}

/// Every operation leaves a store in a state that a store can be in.
pub proof fn law_states_stay_well_formed(state: StoreState, name: Seq<char>, value: Seq<char>)
    requires
        well_formed(state),
    ensures
        well_formed(absent()),
        well_formed(after_ensure_open(state)),
        well_formed(after_set(state, name, value)),
        well_formed(after_remove(state, name)),
        well_formed(after_purge(state)),
{
    if !state.exists {
        assert(after_remove(state, name).entries =~= state.entries);
    }
}

} // verus!
