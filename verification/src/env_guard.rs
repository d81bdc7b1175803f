//! Changes to the environment that are undone afterwards.
use vstd::prelude::*;
use vstd::string::*;

verus! {

/// The values that variables had before they were changed, in the order of the
/// changes.
#[derive(Debug)]
pub struct EnvGuard<V> {
    pub saved: Vec<(String, Option<V>)>,
}

/// The environment with one variable set, or removed.
pub open spec fn changed<V>(
    env: Map<Seq<char>, V>,
    key: Seq<char>,
    value: Option<V>,
) -> Map<Seq<char>, V> {
    match value {
        Some(v) => env.insert(key, v),
        None => env.remove(key),
    }
}

/// The value of a variable.
pub open spec fn value_of<V>(env: Map<Seq<char>, V>, key: Seq<char>) -> Option<V> {
    if env.contains_key(key) {
        Some(env[key])
    } else {
        None
    }
}

/// The environment after all changes, in their order.
pub open spec fn all_changed<V>(
    env: Map<Seq<char>, V>,
    changes: Seq<(Seq<char>, Option<V>)>,
) -> Map<Seq<char>, V>
    decreases changes.len(),
{
    if changes.len() == 0 {
        env
    } else {
        changed(all_changed(env, changes.drop_last()), changes.last().0, changes.last().1)
    }
}

/// The value that each changed variable had right before its change.
pub open spec fn values_before<V>(
    env: Map<Seq<char>, V>,
    changes: Seq<(Seq<char>, Option<V>)>,
) -> Seq<(Seq<char>, Option<V>)> {
    Seq::new(
        changes.len(),
        |i: int| (changes[i].0, value_of(all_changed(env, changes.take(i)), changes[i].0)),
    )
}

/// The environment after the saved values were put back, the last one first.
pub open spec fn restored<V>(
    env: Map<Seq<char>, V>,
    saved: Seq<(Seq<char>, Option<V>)>,
) -> Map<Seq<char>, V>
    decreases saved.len(),
{
    if saved.len() == 0 {
        env
    } else {
        restored(changed(env, saved.last().0, saved.last().1), saved.drop_last())
    }
}

impl<V> View for EnvGuard<V> {
    type V = Seq<(Seq<char>, Option<V>)>;

    open spec fn view(&self) -> Seq<(Seq<char>, Option<V>)> {
        Seq::new(self.saved@.len(), |i: int| (self.saved@[i].0@, self.saved@[i].1))
    }
}

impl<V> EnvGuard<V> {
    /// A guard that has nothing to put back.
    pub fn new() -> (guard: EnvGuard<V>)
        ensures
            guard@ == Seq::<(Seq<char>, Option<V>)>::empty(),
    {
        EnvGuard { saved: Vec::new() }
    }

    /// Notes the value that a variable has before it is changed.
    pub fn save(&mut self, key: &str, value: Option<V>)
        ensures
            final(self)@ == old(self)@.push((key@, value)),
    {
        self.saved.push((String::from_str(key), value));
        proof {
            assert(self@ =~= old(self)@.push((key@, value)));
        }
    }

    /// Takes the next value to put back: the one that was saved last.
    pub fn take(&mut self) -> (entry: Option<(String, Option<V>)>)
        ensures
            match entry {
                Some(saved) => {
                    &&& old(self)@.len() > 0
                    &&& (saved.0@, saved.1) == old(self)@.last()
                    &&& final(self)@ == old(self)@.drop_last()
                },
                None => old(self)@.len() == 0 && final(self)@ == old(self)@,
            },
    {
        let entry: Option<(String, Option<V>)> = self.saved.pop();
        proof {
            if entry is Some {
                assert(self@ =~= old(self)@.drop_last());
            } else {
                assert(self@ =~= old(self)@);
            }
        }
        entry
    }
}

proof fn lemma_values_before_push<V>(
    env: Map<Seq<char>, V>,
    changes: Seq<(Seq<char>, Option<V>)>,
)
    requires
        changes.len() > 0,
    ensures
        values_before(env, changes).drop_last() == values_before(env, changes.drop_last()),
{
    let before = changes.drop_last();
    assert forall|i: int| 0 <= i < before.len() implies values_before(env, changes)[i]
        == values_before(env, before)[i] by {
        assert(changes.take(i) =~= before.take(i));
    }
    assert(values_before(env, changes).drop_last() =~= values_before(env, before));
}

/// One of the changes is to this variable.
pub open spec fn names<V>(changes: Seq<(Seq<char>, Option<V>)>, key: Seq<char>) -> bool {
    exists|i: int| 0 <= i < changes.len() && (#[trigger] changes[i]).0 == key
}

proof fn lemma_names_push<V>(changes: Seq<(Seq<char>, Option<V>)>, key: Seq<char>)
    requires
        changes.len() > 0,
    ensures
        names(changes, key) <==> names(changes.drop_last(), key) || changes.last().0 == key,
{
    let before = changes.drop_last();
    if names(before, key) {
        let i = choose|i: int| 0 <= i < before.len() && (#[trigger] before[i]).0 == key;
        assert(changes[i].0 == key);
    }
    if names(changes, key) {
        let i = choose|i: int| 0 <= i < changes.len() && (#[trigger] changes[i]).0 == key;
        if i < before.len() {
            assert(before[i].0 == key);
        }
    }
    if changes.last().0 == key {
        assert(changes[changes.len() - 1].0 == key);
    }
}

proof fn lemma_other_variables_are_kept<V>(
    env: Map<Seq<char>, V>,
    changes: Seq<(Seq<char>, Option<V>)>,
    key: Seq<char>,
)
    requires
        !names(changes, key),
    ensures
        value_of(all_changed(env, changes), key) == value_of(env, key),
    decreases changes.len(),
{
    if changes.len() > 0 {
        lemma_names_push(changes, key);
        lemma_other_variables_are_kept(env, changes.drop_last(), key);
    }
}

/// Whatever has become of the environment since the changes were made, putting
/// back the saved values gives every changed variable the value that it had
/// before the first change, and touches no other variable.
pub proof fn law_restoring_gives_back_the_first_values<V>(
    env: Map<Seq<char>, V>,
    changes: Seq<(Seq<char>, Option<V>)>,
    later: Map<Seq<char>, V>,
    key: Seq<char>,
)
    ensures
        value_of(restored(later, values_before(env, changes)), key) == if names(changes, key) {
            value_of(env, key)
        } else {
            value_of(later, key)
        },
    decreases changes.len(),
{
    let saved = values_before(env, changes);
    if changes.len() > 0 {
        let before = changes.drop_last();
        lemma_names_push(changes, key);
        lemma_values_before_push(env, changes);
        assert(changes.take(changes.len() - 1) =~= before);
        let undone = changed(later, saved.last().0, saved.last().1);
        law_restoring_gives_back_the_first_values(env, before, undone, key);
        if !names(before, key) {
            lemma_other_variables_are_kept(env, before, key);
        }
    } else {
        assert(saved.len() == 0);
    }
}

/// Putting back the saved values right after the changes undoes all of them,
/// also when a variable was changed more than once.
pub proof fn law_restoring_undoes_the_changes<V>(
    env: Map<Seq<char>, V>,
    changes: Seq<(Seq<char>, Option<V>)>,
)
    ensures
        restored(all_changed(env, changes), values_before(env, changes)) == env,
{
    let back = restored(all_changed(env, changes), values_before(env, changes));
    assert forall|key: Seq<char>| value_of(back, key) == #[trigger] value_of(env, key) by {
        law_restoring_gives_back_the_first_values(env, changes, all_changed(env, changes), key);
        if !names(changes, key) {
            lemma_other_variables_are_kept(env, changes, key);
        }
    }
    assert forall|key: Seq<char>| back.contains_key(key) == #[trigger] env.contains_key(key) by {
        assert(value_of(back, key) == value_of(env, key));
    }
    assert forall|key: Seq<char>| env.contains_key(key) implies back[key] == #[trigger] env[key] by {
        assert(value_of(back, key) == value_of(env, key));
    }
    assert(back =~= env);
}

} // verus!
