//! What holds of every difference between bundles.
use vstd::prelude::*;
use vstd::string::*;

use crate::abi::{agent_named, ownership_text, AbiAgent, AbiParam};
use crate::diff::{
    agent_changes, change_at, change_views, is_diff, ownership_changes, param_changes,
    shared_params, BundleDiff, BundleSide, ChangeView,
};
use crate::digest::file_views;
use crate::text::decimal;

verus! {

/// No two agents have one name.
pub open spec fn names_differ(agents: Seq<AbiAgent>) -> bool {
    forall|i: int, j: int|
        0 <= i < j < agents.len() ==> (#[trigger] agents[i]).name@ != (#[trigger] agents[j]).name@
}

proof fn lemma_found_by_name(agents: Seq<AbiAgent>, i: int)
    requires
        names_differ(agents),
        0 <= i < agents.len(),
    ensures
        agent_named(agents, agents[i].name@) == Some(agents[i]),
    decreases i,
{
    if i > 0 {
        assert(agents[0].name@ != agents[i].name@);
        let rest = agents.skip(1);
        assert forall|a: int, b: int| 0 <= a < b < rest.len() implies (#[trigger] rest[a]).name@
            != (#[trigger] rest[b]).name@ by {
            assert(agents[a + 1].name@ != agents[b + 1].name@);
        }
        lemma_found_by_name(rest, i - 1);
    }
}

proof fn lemma_no_param_changes(agent: Seq<char>, params: Seq<AbiParam>, n: nat)
    ensures
        param_changes(agent, params, params, n) == Seq::<ChangeView>::empty(),
    decreases n,
{
    if n > 0 {
        lemma_no_param_changes(agent, params, (n - 1) as nat);
        assert(param_changes(agent, params, params, n) =~= Seq::<ChangeView>::empty());
    }
}

proof fn lemma_no_changes(old_agents: Seq<AbiAgent>, agents: Seq<AbiAgent>, n: int)
    requires
        names_differ(agents),
        0 <= n <= agents.len(),
        old_agents == agents.take(n),
    ensures
        ownership_changes(old_agents, agents) == Seq::<ChangeView>::empty(),
    decreases n,
{
    if n > 0 {
        assert(old_agents.drop_last() =~= agents.take(n - 1));
        lemma_no_changes(old_agents.drop_last(), agents, n - 1);
        let last = old_agents.last();
        assert(last == agents[n - 1]);
        lemma_found_by_name(agents, n - 1);
        lemma_no_param_changes(last.name@, last.params@, shared_params(last, last));
        assert(ownership_changes(old_agents, agents) =~= Seq::<ChangeView>::empty());
    }
}

/// A bundle does not differ from itself, provided that its agents have
/// different names.
pub proof fn law_a_bundle_does_not_differ_from_itself(side: BundleSide, diff: BundleDiff)
    requires
        is_diff(side, side, diff),
        names_differ(side.abi.agents@),
    ensures
        diff.old_name@ == diff.new_name@,
        !diff.target_changed,
        !diff.descriptor_hash_changed,
        !diff.library_hash_changed,
        !diff.rust_bindings_hash_changed,
        !diff.python_bindings_hash_changed,
        diff.trace_count_delta == 0,
        diff.ownership_changes@.len() == 0,
{
    let agents = side.abi.agents@;
    assert(agents.take(agents.len() as int) =~= agents);
    lemma_no_changes(agents, agents, agents.len() as int);
    assert(change_views(diff.ownership_changes@).len() == diff.ownership_changes@.len());
}

/// The change seen from the other side.
pub open spec fn exchanged(change: ChangeView) -> ChangeView {
    ChangeView { from: change.to, to: change.from, ..change }
}

/// The changes seen from the other side, in the same order.
pub open spec fn all_exchanged(changes: Seq<ChangeView>) -> Seq<ChangeView> {
    Seq::new(changes.len(), |i: int| exchanged(changes[i]))
}

proof fn lemma_exchanged_concat(left: Seq<ChangeView>, right: Seq<ChangeView>)
    ensures
        all_exchanged(left + right) == all_exchanged(left) + all_exchanged(right),
{
    assert(all_exchanged(left + right) =~= all_exchanged(left) + all_exchanged(right));
}

proof fn lemma_exchanged_change(
    agent: Seq<char>,
    position: Seq<char>,
    from: Seq<char>,
    to: Seq<char>,
)
    ensures
        all_exchanged(change_at(agent, position, from, to)) == change_at(agent, position, to, from),
{
    assert(all_exchanged(change_at(agent, position, from, to)) =~= change_at(
        agent,
        position,
        to,
        from,
    ));
}

proof fn lemma_exchanged_params(
    agent: Seq<char>,
    old_params: Seq<AbiParam>,
    new_params: Seq<AbiParam>,
    n: nat,
)
    ensures
        all_exchanged(param_changes(agent, old_params, new_params, n)) == param_changes(
            agent,
            new_params,
            old_params,
            n,
        ),
    decreases n,
{
    if n == 0 {
        assert(all_exchanged(param_changes(agent, old_params, new_params, n)) =~= Seq::empty());
    } else {
        let from = ownership_text(old_params[n - 1].ownership);
        let to = ownership_text(new_params[n - 1].ownership);
        let position = "arg["@ + decimal((n - 1) as nat) + "]"@;
        lemma_exchanged_params(agent, old_params, new_params, (n - 1) as nat);
        lemma_exchanged_change(agent, position, from, to);
        lemma_exchanged_concat(
            param_changes(agent, old_params, new_params, (n - 1) as nat),
            change_at(agent, position, from, to),
        );
    }
}

proof fn lemma_exchanged_agent(old_agent: AbiAgent, new_agent: AbiAgent)
    requires
        old_agent.name@ == new_agent.name@,
    ensures
        all_exchanged(agent_changes(old_agent, new_agent)) == agent_changes(new_agent, old_agent),
{
    let agent = old_agent.name@;
    let from = ownership_text(old_agent.return_ownership);
    let to = ownership_text(new_agent.return_ownership);
    let n = shared_params(old_agent, new_agent);
    lemma_exchanged_change(agent, "return"@, from, to);
    lemma_exchanged_params(agent, old_agent.params@, new_agent.params@, n);
    lemma_exchanged_concat(
        change_at(agent, "return"@, from, to),
        param_changes(agent, old_agent.params@, new_agent.params@, n),
    );
}

/// A change occurs as often as its exchange does among the exchanged.
proof fn lemma_exchanged_count(changes: Seq<ChangeView>, change: ChangeView)
    ensures
        all_exchanged(changes).to_multiset().count(change) == changes.to_multiset().count(
            exchanged(change),
        ),
    decreases changes.len(),
{
    broadcast use vstd::seq_lib::group_to_multiset_ensures;
    broadcast use vstd::multiset::group_multiset_axioms;

    if changes.len() > 0 {
        let before = changes.drop_last();
        let last = changes.last();
        lemma_exchanged_count(before, change);
        assert(changes =~= before.push(last));
        assert(all_exchanged(changes) =~= all_exchanged(before).push(exchanged(last)));
        assert(exchanged(exchanged(change)) == change);
        assert(exchanged(exchanged(last)) == last);
    }
}

/// All changes of an agent carry its name.
proof fn lemma_changes_carry_the_name(
    agent: Seq<char>,
    old_params: Seq<AbiParam>,
    new_params: Seq<AbiParam>,
    n: nat,
    i: int,
)
    requires
        0 <= i < param_changes(agent, old_params, new_params, n).len(),
    ensures
        param_changes(agent, old_params, new_params, n)[i].agent == agent,
    decreases n,
{
    let before = param_changes(agent, old_params, new_params, (n - 1) as nat);
    if i < before.len() {
        lemma_changes_carry_the_name(agent, old_params, new_params, (n - 1) as nat, i);
    }
}

proof fn lemma_no_changes_of_others(old_agent: AbiAgent, new_agent: AbiAgent, change: ChangeView)
    requires
        change.agent != old_agent.name@,
    ensures
        agent_changes(old_agent, new_agent).to_multiset().count(change) == 0,
{
    broadcast use vstd::seq_lib::group_to_multiset_ensures;

    let changes = agent_changes(old_agent, new_agent);
    let n = shared_params(old_agent, new_agent);
    assert forall|i: int| 0 <= i < changes.len() implies (#[trigger] changes[i]).agent
        == old_agent.name@ by {
        let first = changes.len() - param_changes(
            old_agent.name@,
            old_agent.params@,
            new_agent.params@,
            n,
        ).len();
        if i >= first {
            lemma_changes_carry_the_name(
                old_agent.name@,
                old_agent.params@,
                new_agent.params@,
                n,
                i - first,
            );
        }
    }
    assert(!changes.contains(change));
}

proof fn lemma_named_before_last(agents: Seq<AbiAgent>, name: Seq<char>)
    requires
        agents.len() > 0,
    ensures
        agent_named(agents, name) == match agent_named(agents.drop_last(), name) {
            Some(agent) => Some(agent),
            None => if agents.last().name@ == name {
                Some(agents.last())
            } else {
                None
            },
        },
    decreases agents.len(),
{
    let before = agents.drop_last();
    if agents.len() == 1 {
        assert(agents.skip(1).len() == 0);
    } else if agents[0].name@ != name {
        lemma_named_before_last(agents.skip(1), name);
        assert(agents.skip(1).drop_last() =~= before.skip(1));
        assert(before[0] == agents[0]);
    } else {
        assert(before[0] == agents[0]);
    }
}

proof fn lemma_found_has_the_name(agents: Seq<AbiAgent>, name: Seq<char>)
    ensures
        agent_named(agents, name) matches Some(agent) ==> agent.name@ == name && exists|i: int|
            0 <= i < agents.len() && #[trigger] agents[i] == agent,
    decreases agents.len(),
{
    if agents.len() > 0 {
        if agents[0].name@ != name {
            lemma_found_has_the_name(agents.skip(1), name);
            if let Some(agent) = agent_named(agents.skip(1), name) {
                let i = choose|i: int|
                    0 <= i < agents.skip(1).len() && #[trigger] agents.skip(1)[i] == agent;
                assert(agents[i + 1] == agent);
            }
        }
    }
}

/// How often a change occurs is decided by the agents of its name.
proof fn lemma_change_count(
    old_agents: Seq<AbiAgent>,
    new_agents: Seq<AbiAgent>,
    change: ChangeView,
)
    requires
        names_differ(old_agents),
    ensures
        ownership_changes(old_agents, new_agents).to_multiset().count(change) == match (
            agent_named(old_agents, change.agent),
            agent_named(new_agents, change.agent),
        ) {
            (Some(old_agent), Some(new_agent)) => agent_changes(
                old_agent,
                new_agent,
            ).to_multiset().count(change),
            _ => 0,
        },
    decreases old_agents.len(),
{
    broadcast use vstd::seq_lib::group_to_multiset_ensures;
    broadcast use vstd::multiset::group_multiset_axioms;

    if old_agents.len() > 0 {
        let before = old_agents.drop_last();
        let last = old_agents.last();
        assert forall|i: int, j: int| 0 <= i < j < before.len() implies (
        #[trigger] before[i]).name@ != (#[trigger] before[j]).name@ by {
            assert(old_agents[i].name@ != old_agents[j].name@);
        }
        lemma_change_count(before, new_agents, change);
        lemma_named_before_last(old_agents, change.agent);
        let of_last = match agent_named(new_agents, last.name@) {
            Some(new_agent) => agent_changes(last, new_agent),
            None => Seq::empty(),
        };
        vstd::seq_lib::lemma_multiset_commutative(ownership_changes(before, new_agents), of_last);
        if last.name@ == change.agent {
            lemma_found_has_the_name(before, change.agent);
            if let Some(agent) = agent_named(before, change.agent) {
                let i = choose|i: int| 0 <= i < before.len() && #[trigger] before[i] == agent;
                assert(old_agents[i].name@ != old_agents[old_agents.len() - 1].name@);
            }
        } else if let Some(new_agent) = agent_named(new_agents, last.name@) {
            lemma_no_changes_of_others(last, new_agent, change);
        }
    }
}

proof fn lemma_changes_are_exchanged(old_agents: Seq<AbiAgent>, new_agents: Seq<AbiAgent>)
    requires
        names_differ(old_agents),
        names_differ(new_agents),
    ensures
        ownership_changes(new_agents, old_agents).to_multiset() == all_exchanged(
            ownership_changes(old_agents, new_agents),
        ).to_multiset(),
{
    broadcast use vstd::multiset::group_multiset_axioms;

    let changes = ownership_changes(old_agents, new_agents);
    let reverse = ownership_changes(new_agents, old_agents);
    assert forall|change: ChangeView| reverse.to_multiset().count(change) == all_exchanged(
        changes,
    ).to_multiset().count(change) by {
        let name = change.agent;
        lemma_change_count(new_agents, old_agents, change);
        lemma_change_count(old_agents, new_agents, exchanged(change));
        lemma_exchanged_count(changes, change);
        lemma_found_has_the_name(old_agents, name);
        lemma_found_has_the_name(new_agents, name);
        match (agent_named(old_agents, name), agent_named(new_agents, name)) {
            (Some(old_agent), Some(new_agent)) => {
                lemma_exchanged_agent(old_agent, new_agent);
                lemma_exchanged_count(agent_changes(old_agent, new_agent), change);
            },
            _ => {},
        }
    }
    assert(reverse.to_multiset() =~= all_exchanged(changes).to_multiset());
}

/// Seen from the other side, the names are exchanged, the same hashes differ,
/// the number of traces changes by as much in the other direction, and, where
/// agents have different names, the same annotations have changed, the other
/// way round and perhaps in another order.
pub proof fn law_the_reverse_diff_mirrors(
    old_side: BundleSide,
    new_side: BundleSide,
    diff: BundleDiff,
    reverse: BundleDiff,
)
    requires
        is_diff(old_side, new_side, diff),
        is_diff(new_side, old_side, reverse),
    ensures
        reverse.old_name@ == diff.new_name@,
        reverse.new_name@ == diff.old_name@,
        reverse.target_changed == diff.target_changed,
        reverse.descriptor_hash_changed == diff.descriptor_hash_changed,
        reverse.library_hash_changed == diff.library_hash_changed,
        reverse.rust_bindings_hash_changed == diff.rust_bindings_hash_changed,
        reverse.python_bindings_hash_changed == diff.python_bindings_hash_changed,
        reverse.trace_count_delta == -diff.trace_count_delta,
        names_differ(old_side.abi.agents@) && names_differ(new_side.abi.agents@) ==> change_views(
            reverse.ownership_changes@,
        ).to_multiset() == all_exchanged(change_views(diff.ownership_changes@)).to_multiset(),
{
    if names_differ(old_side.abi.agents@) && names_differ(new_side.abi.agents@) {
        lemma_changes_are_exchanged(old_side.abi.agents@, new_side.abi.agents@);
    }
}

/// Equal files have equal hashes.
pub proof fn law_equal_contents_have_equal_hashes(
    old_side: BundleSide,
    new_side: BundleSide,
    diff: BundleDiff,
)
    requires
        is_diff(old_side, new_side, diff),
    ensures
        old_side.descriptor@ == new_side.descriptor@ ==> !diff.descriptor_hash_changed,
        old_side.library@ == new_side.library@ ==> !diff.library_hash_changed,
        file_views(old_side.bindings_rust@) == file_views(new_side.bindings_rust@)
            ==> !diff.rust_bindings_hash_changed,
        file_views(old_side.bindings_python@) == file_views(new_side.bindings_python@)
            ==> !diff.python_bindings_hash_changed,
{
}

} // verus!
