//! How saving and taking undo each other.
use vstd::prelude::*;
use vstd::string::*;

use crate::env_guard::EnvGuard;

verus! {

/// A new guard has nothing to put back.
pub proof fn law_new_guards_hold_nothing<V>(guard: EnvGuard<V>)
    requires
        call_ensures(EnvGuard::<V>::new, (), guard),
    ensures
        guard.saved@.len() == 0,
{
    assert(guard@.len() == guard.saved@.len());
}

/// A saved value stands behind all that were saved before, and those are kept.
pub proof fn law_saved_values_stand_last<V>(
    guard: &mut EnvGuard<V>,
    key: &str,
    value: Option<V>,
    i: int,
)
    requires
        call_ensures(EnvGuard::<V>::save, (guard, key, value), ()),
    ensures
        final(guard).saved@.len() == old(guard).saved@.len() + 1,
        final(guard).saved@.last().0@ == key@,
        final(guard).saved@.last().1 == value,
        0 <= i < old(guard).saved@.len() ==> final(guard).saved@[i].0@ == old(guard).saved@[i].0@
            && final(guard).saved@[i].1 == old(guard).saved@[i].1,
{
    let before = old(guard)@;
    let after = final(guard)@;
    assert(before.len() == old(guard).saved@.len());
    assert(after.len() == final(guard).saved@.len());
    assert(after.last() == (key@, value));
    if 0 <= i < before.len() {
        assert(after[i] == before[i]);
    }
}

/// What is taken was saved last, and all that was saved before it is kept; there
/// is something to take exactly if something is saved.
pub proof fn law_the_last_saved_value_is_taken<V>(
    guard: &mut EnvGuard<V>,
    entry: Option<(String, Option<V>)>,
    i: int,
)
    requires
        call_ensures(EnvGuard::<V>::take, (guard,), entry),
    ensures
        entry is Some <==> old(guard).saved@.len() > 0,
        entry matches Some(taken) ==> {
            &&& final(guard).saved@.len() + 1 == old(guard).saved@.len()
            &&& taken.0@ == old(guard).saved@.last().0@
            &&& taken.1 == old(guard).saved@.last().1
            &&& 0 <= i < final(guard).saved@.len() ==> final(guard).saved@[i].0@ == old(
                guard,
            ).saved@[i].0@ && final(guard).saved@[i].1 == old(guard).saved@[i].1
        },
        entry is None ==> final(guard).saved@.len() == 0,
{
    let before = old(guard)@;
    let after = final(guard)@;
    assert(before.len() == old(guard).saved@.len());
    assert(after.len() == final(guard).saved@.len());
    if entry is Some {
        assert(before.last() == before[before.len() - 1]);
        if 0 <= i < after.len() {
            assert(after[i] == before.drop_last()[i]);
            assert(before.drop_last()[i] == before[i]);
        }
    }
}

} // verus!
