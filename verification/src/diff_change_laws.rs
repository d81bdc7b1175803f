//! Which changes a difference lists, position by position, and how it is
//! written.
use vstd::prelude::*;
use vstd::string::*;

use crate::abi::{agent_named, ownership_text, AbiAgent, AbiParam};
use crate::diff::{
    agent_changes, change_at, change_line, change_lines, change_views, diff_bundles, diff_lines,
    ownership_changes, param_changes, shared_params, BundleDiff, BundleSide, ChangeView,
    OwnershipChange,
};
use crate::digest::{dir_digest, file_views, hex_text, sha256};
use crate::text::{decimal, signed_decimal, texts};

verus! {

/// Agent `j` is the first of the name.
pub open spec fn is_first_named(agents: Seq<AbiAgent>, name: Seq<char>, j: int) -> bool {
    &&& 0 <= j < agents.len()
    &&& agents[j].name@ == name
    &&& forall|k: int| 0 <= k < j ==> (#[trigger] agents[k]).name@ != name
}

/// The agent that is found under a name is the first that has it.
pub proof fn lemma_first_named(agents: Seq<AbiAgent>, name: Seq<char>)
    ensures
        match agent_named(agents, name) {
            Some(agent) => exists|j: int| #[trigger]
                is_first_named(agents, name, j) && agents[j] == agent,
            None => forall|j: int| 0 <= j < agents.len() ==> (#[trigger] agents[j]).name@ != name,
        },
    decreases agents.len(),
{
    if agents.len() > 0 {
        if agents[0].name@ == name {
            assert(is_first_named(agents, name, 0));
        } else {
            let rest = agents.skip(1);
            lemma_first_named(rest, name);
            if let Some(agent) = agent_named(rest, name) {
                let j = choose|j: int| #[trigger]
                    is_first_named(rest, name, j) && rest[j] == agent;
                assert forall|k: int| 0 <= k < j + 1 implies (#[trigger] agents[k]).name@ != name by {
                    if k > 0 {
                        assert(rest[k - 1].name@ != name);
                    }
                }
                assert(is_first_named(agents, name, j + 1));
            } else {
                assert forall|j: int| 0 <= j < agents.len() implies (#[trigger] agents[j]).name@
                    != name by {
                    if j > 0 {
                        assert(rest[j - 1].name@ != name);
                    }
                }
            }
        }
    }
}

/// There is at most one first agent of a name.
pub proof fn lemma_first_named_is_unique(agents: Seq<AbiAgent>, name: Seq<char>, j: int, k: int)
    requires
        is_first_named(agents, name, j),
        is_first_named(agents, name, k),
    ensures
        j == k,
{
    if j < k {
        assert(agents[j].name@ != name);
    }
    if k < j {
        assert(agents[k].name@ != name);
    }
}

/// The list has a change of this agent, position and annotations.
pub open spec fn is_listed(
    changes: Seq<OwnershipChange>,
    agent: Seq<char>,
    position: Seq<char>,
    from: Seq<char>,
    to: Seq<char>,
) -> bool {
    exists|k: int|
        0 <= k < changes.len() && (#[trigger] changes[k]).agent@ == agent && changes[k].position@
            == position && changes[k].from@ == from && changes[k].to@ == to
}

proof fn lemma_listed(
    changes: Seq<OwnershipChange>,
    agent: Seq<char>,
    position: Seq<char>,
    from: Seq<char>,
    to: Seq<char>,
)
    ensures
        is_listed(changes, agent, position, from, to) <==> change_views(changes).contains(
            ChangeView { agent, position, from, to },
        ),
{
    let view = ChangeView { agent, position, from, to };
    if change_views(changes).contains(view) {
        let k = choose|k: int|
            0 <= k < change_views(changes).len() && change_views(changes)[k] == view;
        assert(changes[k]@ == view);
    }
    if is_listed(changes, agent, position, from, to) {
        let k = choose|k: int|
            0 <= k < changes.len() && (#[trigger] changes[k]).agent@ == agent
                && changes[k].position@ == position && changes[k].from@ == from && changes[k].to@
                == to;
        assert(changes[k]@ == view);
        assert(change_views(changes)[k] == view);
    }
}

proof fn lemma_in_concat(left: Seq<ChangeView>, right: Seq<ChangeView>, view: ChangeView)
    ensures
        (left + right).contains(view) <==> left.contains(view) || right.contains(view),
{
    if left.contains(view) {
        let k = choose|k: int| 0 <= k < left.len() && left[k] == view;
        assert((left + right)[k] == view);
    }
    if right.contains(view) {
        let k = choose|k: int| 0 <= k < right.len() && right[k] == view;
        assert((left + right)[left.len() + k] == view);
    }
    if (left + right).contains(view) {
        let k = choose|k: int| 0 <= k < (left + right).len() && (left + right)[k] == view;
        if k < left.len() {
            assert(left[k] == view);
        } else {
            assert(right[k - left.len()] == view);
        }
    }
}

proof fn lemma_changed_param_is_listed(
    agent: Seq<char>,
    old_params: Seq<AbiParam>,
    new_params: Seq<AbiParam>,
    n: nat,
    p: int,
)
    requires
        0 <= p < n,
        ownership_text(old_params[p].ownership) != ownership_text(new_params[p].ownership),
    ensures
        param_changes(agent, old_params, new_params, n).contains(
            ChangeView {
                agent,
                position: "arg["@ + decimal(p as nat) + "]"@,
                from: ownership_text(old_params[p].ownership),
                to: ownership_text(new_params[p].ownership),
            },
        ),
    decreases n,
{
    let view = ChangeView {
        agent,
        position: "arg["@ + decimal(p as nat) + "]"@,
        from: ownership_text(old_params[p].ownership),
        to: ownership_text(new_params[p].ownership),
    };
    let before = param_changes(agent, old_params, new_params, (n - 1) as nat);
    let last = change_at(
        agent,
        "arg["@ + decimal((n - 1) as nat) + "]"@,
        ownership_text(old_params[n - 1].ownership),
        ownership_text(new_params[n - 1].ownership),
    );
    lemma_in_concat(before, last, view);
    if p < n - 1 {
        lemma_changed_param_is_listed(agent, old_params, new_params, (n - 1) as nat, p);
    } else {
        assert(last[0] == view);
    }
}

proof fn lemma_params_are_changes(
    agent: Seq<char>,
    old_params: Seq<AbiParam>,
    new_params: Seq<AbiParam>,
    n: nat,
    view: ChangeView,
)
    requires
        param_changes(agent, old_params, new_params, n).contains(view),
    ensures
        view.from != view.to,
    decreases n,
{
    if n > 0 {
        let before = param_changes(agent, old_params, new_params, (n - 1) as nat);
        let last = change_at(
            agent,
            "arg["@ + decimal((n - 1) as nat) + "]"@,
            ownership_text(old_params[n - 1].ownership),
            ownership_text(new_params[n - 1].ownership),
        );
        lemma_in_concat(before, last, view);
        if before.contains(view) {
            lemma_params_are_changes(agent, old_params, new_params, (n - 1) as nat, view);
        }
    }
}

proof fn lemma_all_are_changes(
    old_agents: Seq<AbiAgent>,
    new_agents: Seq<AbiAgent>,
    view: ChangeView,
)
    requires
        ownership_changes(old_agents, new_agents).contains(view),
    ensures
        view.from != view.to,
    decreases old_agents.len(),
{
    if old_agents.len() > 0 {
        let before = ownership_changes(old_agents.drop_last(), new_agents);
        let old_agent = old_agents.last();
        let last = match agent_named(new_agents, old_agent.name@) {
            Some(new_agent) => agent_changes(old_agent, new_agent),
            None => Seq::empty(),
        };
        lemma_in_concat(before, last, view);
        if before.contains(view) {
            lemma_all_are_changes(old_agents.drop_last(), new_agents, view);
        } else if let Some(new_agent) = agent_named(new_agents, old_agent.name@) {
            let returned = change_at(
                old_agent.name@,
                "return"@,
                ownership_text(old_agent.return_ownership),
                ownership_text(new_agent.return_ownership),
            );
            let params = param_changes(
                old_agent.name@,
                old_agent.params@,
                new_agent.params@,
                shared_params(old_agent, new_agent),
            );
            lemma_in_concat(returned, params, view);
            if params.contains(view) {
                lemma_params_are_changes(
                    old_agent.name@,
                    old_agent.params@,
                    new_agent.params@,
                    shared_params(old_agent, new_agent),
                    view,
                );
            }
        }
    }
}

proof fn lemma_agent_changes_are_listed(
    old_agents: Seq<AbiAgent>,
    new_agents: Seq<AbiAgent>,
    i: int,
    new_agent: AbiAgent,
    view: ChangeView,
)
    requires
        0 <= i < old_agents.len(),
        agent_named(new_agents, old_agents[i].name@) == Some(new_agent),
        agent_changes(old_agents[i], new_agent).contains(view),
    ensures
        ownership_changes(old_agents, new_agents).contains(view),
    decreases old_agents.len(),
{
    let before = ownership_changes(old_agents.drop_last(), new_agents);
    let last = match agent_named(new_agents, old_agents.last().name@) {
        Some(found) => agent_changes(old_agents.last(), found),
        None => Seq::empty(),
    };
    lemma_in_concat(before, last, view);
    if i < old_agents.len() - 1 {
        lemma_agent_changes_are_listed(old_agents.drop_last(), new_agents, i, new_agent, view);
    }
}

/// For each agent that both bundles have, and each position that it has in
/// both, the first parameter included, a change from the old annotation to the
/// new one is listed exactly if the two differ; and likewise for what the agent
/// returns.
pub proof fn law_changed_annotations_are_listed(
    old_side: BundleSide,
    new_side: BundleSide,
    diff: BundleDiff,
    i: int,
    j: int,
    p: int,
)
    requires
        call_ensures(diff_bundles, (&old_side, &new_side), diff),
        0 <= i < old_side.abi.agents@.len(),
        is_first_named(new_side.abi.agents@, old_side.abi.agents@[i].name@, j),
    ensures
        ({
            let old_agent = old_side.abi.agents@[i];
            let new_agent = new_side.abi.agents@[j];
            &&& is_listed(
                diff.ownership_changes@,
                old_agent.name@,
                "return"@,
                ownership_text(old_agent.return_ownership),
                ownership_text(new_agent.return_ownership),
            ) <==> ownership_text(old_agent.return_ownership) != ownership_text(
                new_agent.return_ownership,
            )
            &&& 0 <= p < old_agent.params@.len() && p < new_agent.params@.len() ==> (is_listed(
                diff.ownership_changes@,
                old_agent.name@,
                "arg["@ + decimal(p as nat) + "]"@,
                ownership_text(old_agent.params@[p].ownership),
                ownership_text(new_agent.params@[p].ownership),
            ) <==> ownership_text(old_agent.params@[p].ownership) != ownership_text(
                new_agent.params@[p].ownership,
            ))
        }),
{
    let old_agents = old_side.abi.agents@;
    let new_agents = new_side.abi.agents@;
    let old_agent = old_agents[i];
    let new_agent = new_agents[j];
    let name = old_agent.name@;
    lemma_first_named(new_agents, name);
    assert(agent_named(new_agents, name) == Some(new_agent)) by {
        let found = agent_named(new_agents, name);
        assert(new_agents[j].name@ == name);
        let k = choose|k: int| #[trigger]
            is_first_named(new_agents, name, k) && new_agents[k] == found->Some_0;
        lemma_first_named_is_unique(new_agents, name, j, k);
    }
    let returned = ChangeView {
        agent: name,
        position: "return"@,
        from: ownership_text(old_agent.return_ownership),
        to: ownership_text(new_agent.return_ownership),
    };
    let first = change_at(name, "return"@, returned.from, returned.to);
    let n = shared_params(old_agent, new_agent);
    let params = param_changes(name, old_agent.params@, new_agent.params@, n);
    lemma_listed(diff.ownership_changes@, name, "return"@, returned.from, returned.to);
    lemma_in_concat(first, params, returned);
    if returned.from != returned.to {
        assert(first[0] == returned);
        lemma_agent_changes_are_listed(old_agents, new_agents, i, new_agent, returned);
    } else if ownership_changes(old_agents, new_agents).contains(returned) {
        lemma_all_are_changes(old_agents, new_agents, returned);
    }
    if 0 <= p < old_agent.params@.len() && p < new_agent.params@.len() {
        let view = ChangeView {
            agent: name,
            position: "arg["@ + decimal(p as nat) + "]"@,
            from: ownership_text(old_agent.params@[p].ownership),
            to: ownership_text(new_agent.params@[p].ownership),
        };
        lemma_listed(diff.ownership_changes@, name, view.position, view.from, view.to);
        lemma_in_concat(first, params, view);
        if view.from != view.to {
            lemma_changed_param_is_listed(name, old_agent.params@, new_agent.params@, n, p);
            lemma_agent_changes_are_listed(old_agents, new_agents, i, new_agent, view);
        } else if ownership_changes(old_agents, new_agents).contains(view) {
            lemma_all_are_changes(old_agents, new_agents, view);
        }
    }
}

/// Where a listed change comes from: old agent `agent`, new agent `partner`,
/// and what is returned (place zero) or the parameter before `place`.
pub struct Origin {
    pub agent: int,
    pub partner: int,
    pub place: int,
}

/// The change is that at the origin.
pub open spec fn comes_from(
    change: OwnershipChange,
    old_agents: Seq<AbiAgent>,
    new_agents: Seq<AbiAgent>,
    origin: Origin,
) -> bool {
    let old_agent = old_agents[origin.agent];
    let new_agent = new_agents[origin.partner];
    &&& 0 <= origin.agent < old_agents.len()
    &&& is_first_named(new_agents, old_agent.name@, origin.partner)
    &&& change.agent@ == old_agent.name@
    &&& change.from@ != change.to@
    &&& if origin.place == 0 {
        &&& change.position@ == "return"@
        &&& change.from@ == ownership_text(old_agent.return_ownership)
        &&& change.to@ == ownership_text(new_agent.return_ownership)
    } else {
        &&& 0 < origin.place <= old_agent.params@.len()
        &&& origin.place <= new_agent.params@.len()
        &&& change.position@ == "arg["@ + decimal((origin.place - 1) as nat) + "]"@
        &&& change.from@ == ownership_text(old_agent.params@[origin.place - 1].ownership)
        &&& change.to@ == ownership_text(new_agent.params@[origin.place - 1].ownership)
    }
}

/// The same of a change as texts.
spec fn view_comes_from(
    view: ChangeView,
    old_agents: Seq<AbiAgent>,
    new_agents: Seq<AbiAgent>,
    origin: Origin,
) -> bool {
    let old_agent = old_agents[origin.agent];
    let new_agent = new_agents[origin.partner];
    &&& 0 <= origin.agent < old_agents.len()
    &&& is_first_named(new_agents, old_agent.name@, origin.partner)
    &&& view.agent == old_agent.name@
    &&& view.from != view.to
    &&& if origin.place == 0 {
        &&& view.position == "return"@
        &&& view.from == ownership_text(old_agent.return_ownership)
        &&& view.to == ownership_text(new_agent.return_ownership)
    } else {
        &&& 0 < origin.place <= old_agent.params@.len()
        &&& origin.place <= new_agent.params@.len()
        &&& view.position == "arg["@ + decimal((origin.place - 1) as nat) + "]"@
        &&& view.from == ownership_text(old_agent.params@[origin.place - 1].ownership)
        &&& view.to == ownership_text(new_agent.params@[origin.place - 1].ownership)
    }
}

/// `left` comes before `right`: by the agent, then by the place.
pub open spec fn comes_before(left: Origin, right: Origin) -> bool {
    left.agent < right.agent || (left.agent == right.agent && left.place < right.place)
}

/// The origins are those of the changes, one by one, in ascending order.
spec fn are_origins(
    views: Seq<ChangeView>,
    old_agents: Seq<AbiAgent>,
    new_agents: Seq<AbiAgent>,
    origins: Seq<Origin>,
) -> bool {
    &&& origins.len() == views.len()
    &&& forall|k: int|
        0 <= k < views.len() ==> view_comes_from(
            #[trigger] views[k],
            old_agents,
            new_agents,
            origins[k],
        )
    &&& forall|a: int, b: int|
        0 <= a < b < origins.len() ==> comes_before(#[trigger] origins[a], #[trigger] origins[b])
}

proof fn lemma_param_origins(
    old_agents: Seq<AbiAgent>,
    new_agents: Seq<AbiAgent>,
    i: int,
    j: int,
    n: nat,
) -> (origins: Seq<Origin>)
    requires
        0 <= i < old_agents.len(),
        is_first_named(new_agents, old_agents[i].name@, j),
        n <= old_agents[i].params@.len(),
        n <= new_agents[j].params@.len(),
    ensures
        are_origins(
            param_changes(
                old_agents[i].name@,
                old_agents[i].params@,
                new_agents[j].params@,
                n,
            ),
            old_agents,
            new_agents,
            origins,
        ),
        forall|k: int|
            0 <= k < origins.len() ==> (#[trigger] origins[k]).agent == i && 0 < origins[k].place
                <= n,
    decreases n,
{
    if n == 0 {
        Seq::empty()
    } else {
        let m = (n - 1) as nat;
        let before = lemma_param_origins(old_agents, new_agents, i, j, m);
        let from = ownership_text(old_agents[i].params@[m as int].ownership);
        let to = ownership_text(new_agents[j].params@[m as int].ownership);
        let views = param_changes(
            old_agents[i].name@,
            old_agents[i].params@,
            new_agents[j].params@,
            n,
        );
        let old_views = param_changes(
            old_agents[i].name@,
            old_agents[i].params@,
            new_agents[j].params@,
            m,
        );
        if from != to {
            let origins = before.push(Origin { agent: i, partner: j, place: n as int });
            assert forall|k: int| 0 <= k < views.len() implies view_comes_from(
                #[trigger] views[k],
                old_agents,
                new_agents,
                origins[k],
            ) by {
                if k < old_views.len() {
                    assert(views[k] == old_views[k]);
                }
            }
            origins
        } else {
            assert(views =~= old_views);
            before
        }
    }
}

proof fn lemma_concat_origins(
    left: Seq<ChangeView>,
    right: Seq<ChangeView>,
    old_agents: Seq<AbiAgent>,
    new_agents: Seq<AbiAgent>,
    first: Seq<Origin>,
    second: Seq<Origin>,
)
    requires
        are_origins(left, old_agents, new_agents, first),
        are_origins(right, old_agents, new_agents, second),
        forall|a: int, b: int|
            0 <= a < first.len() && 0 <= b < second.len() ==> comes_before(
                #[trigger] first[a],
                #[trigger] second[b],
            ),
    ensures
        are_origins(left + right, old_agents, new_agents, first + second),
{
    let views = left + right;
    let origins = first + second;
    assert forall|k: int| 0 <= k < views.len() implies view_comes_from(
        #[trigger] views[k],
        old_agents,
        new_agents,
        origins[k],
    ) by {
        if k < left.len() {
            assert(views[k] == left[k]);
        } else {
            assert(views[k] == right[k - left.len()]);
        }
    }
    assert forall|a: int, b: int| 0 <= a < b < origins.len() implies comes_before(
        #[trigger] origins[a],
        #[trigger] origins[b],
    ) by {
        if b < first.len() {
            assert(comes_before(first[a], first[b]));
        } else if a < first.len() {
            assert(comes_before(first[a], second[b - first.len()]));
        } else {
            assert(comes_before(second[a - first.len()], second[b - first.len()]));
        }
    }
}

proof fn lemma_origins(
    old_agents: Seq<AbiAgent>,
    new_agents: Seq<AbiAgent>,
    n: int,
) -> (origins: Seq<Origin>)
    requires
        0 <= n <= old_agents.len(),
    ensures
        are_origins(
            ownership_changes(old_agents.take(n), new_agents),
            old_agents,
            new_agents,
            origins,
        ),
        forall|k: int| 0 <= k < origins.len() ==> (#[trigger] origins[k]).agent < n,
    decreases n,
{
    if n == 0 {
        Seq::empty()
    } else {
        let taken = old_agents.take(n);
        assert(taken.drop_last() =~= old_agents.take(n - 1));
        let before = lemma_origins(old_agents, new_agents, n - 1);
        let old_agent = old_agents[n - 1];
        let before_views = ownership_changes(old_agents.take(n - 1), new_agents);
        lemma_first_named(new_agents, old_agent.name@);
        if let Some(new_agent) = agent_named(new_agents, old_agent.name@) {
            let j = choose|j: int| #[trigger]
                is_first_named(new_agents, old_agent.name@, j) && new_agents[j] == new_agent;
            let from = ownership_text(old_agent.return_ownership);
            let to = ownership_text(new_agent.return_ownership);
            let returned = change_at(old_agent.name@, "return"@, from, to);
            let first = if from != to {
                seq![Origin { agent: n - 1, partner: j, place: 0 }]
            } else {
                Seq::<Origin>::empty()
            };
            assert(are_origins(returned, old_agents, new_agents, first));
            let count = shared_params(old_agent, new_agent);
            let params = lemma_param_origins(old_agents, new_agents, n - 1, j, count);
            let param_views = param_changes(
                old_agent.name@,
                old_agent.params@,
                new_agent.params@,
                count,
            );
            lemma_concat_origins(returned, param_views, old_agents, new_agents, first, params);
            lemma_concat_origins(
                before_views,
                returned + param_views,
                old_agents,
                new_agents,
                before,
                first + params,
            );
            before + (first + params)
        } else {
            assert(ownership_changes(taken, new_agents) =~= before_views);
            before
        }
    }
}

/// Every listed change is one of an agent that both bundles have, at what it
/// returns or at a parameter that it has in both, from the old annotation to a
/// different new one. The list follows the order of the old agents, and for
/// each of them has the return before the parameters in their order; no change
/// is listed twice.
pub proof fn law_listed_changes_come_in_order(
    old_side: BundleSide,
    new_side: BundleSide,
    diff: BundleDiff,
) -> (origins: Seq<Origin>)
    requires
        call_ensures(diff_bundles, (&old_side, &new_side), diff),
    ensures
        origins.len() == diff.ownership_changes@.len(),
        forall|k: int|
            0 <= k < origins.len() ==> comes_from(
                #[trigger] diff.ownership_changes@[k],
                old_side.abi.agents@,
                new_side.abi.agents@,
                origins[k],
            ),
        forall|a: int, b: int|
            0 <= a < b < origins.len() ==> comes_before(
                #[trigger] origins[a],
                #[trigger] origins[b],
            ),
{
    let old_agents = old_side.abi.agents@;
    let new_agents = new_side.abi.agents@;
    let changes = diff.ownership_changes@;
    let origins = lemma_origins(old_agents, new_agents, old_agents.len() as int);
    assert(old_agents.take(old_agents.len() as int) =~= old_agents);
    assert(change_views(changes).len() == changes.len());
    assert forall|k: int| 0 <= k < origins.len() implies comes_from(
        #[trigger] changes[k],
        old_agents,
        new_agents,
        origins[k],
    ) by {
        let view = change_views(changes)[k];
        assert(view == changes[k]@);
        assert(view_comes_from(view, old_agents, new_agents, origins[k]));
    }
    origins
}

/// The rest of a difference: the names, whether the target is another, whether
/// descriptor, library, and the bindings of each language have another digest,
/// and how many more traces the new bundle has.
pub proof fn law_differences_compare_like_with_like(
    old_side: BundleSide,
    new_side: BundleSide,
    diff: BundleDiff,
)
    requires
        call_ensures(diff_bundles, (&old_side, &new_side), diff),
    ensures
        diff.old_name@ == old_side.loaded.manifest.name@,
        diff.new_name@ == new_side.loaded.manifest.name@,
        diff.target_changed <==> old_side.loaded.manifest.target_triple@
            != new_side.loaded.manifest.target_triple@,
        diff.descriptor_hash_changed <==> sha256(old_side.descriptor@) != sha256(
            new_side.descriptor@,
        ),
        diff.library_hash_changed <==> sha256(old_side.library@) != sha256(new_side.library@),
        diff.rust_bindings_hash_changed <==> dir_digest(file_views(old_side.bindings_rust@))
            != dir_digest(file_views(new_side.bindings_rust@)),
        diff.python_bindings_hash_changed <==> dir_digest(file_views(old_side.bindings_python@))
            != dir_digest(file_views(new_side.bindings_python@)),
        old_side.loaded.manifest.traces@.len() + diff.trace_count_delta
            == new_side.loaded.manifest.traces@.len(),
{
    if hex_text(sha256(old_side.descriptor@)) == hex_text(sha256(new_side.descriptor@)) {
        crate::digest::law_hex_is_injective(
            sha256(old_side.descriptor@),
            sha256(new_side.descriptor@),
        );
    }
    if hex_text(sha256(old_side.library@)) == hex_text(sha256(new_side.library@)) {
        crate::digest::law_hex_is_injective(sha256(old_side.library@), sha256(new_side.library@));
    }
}

/// `yes` or `no` as the words that a difference is written with.
pub open spec fn word(b: bool) -> Seq<char> {
    if b {
        "true"@
    } else {
        "false"@
    }
}

/// A difference is written as seven lines, one for each field in its order, and
/// one line for each ownership change behind a heading; without changes one
/// line says so.
pub proof fn law_differences_are_written_line_by_line(
    diff: BundleDiff,
    lines: Vec<String>,
    k: int,
)
    requires
        call_ensures(diff_lines, (&diff,), lines),
    ensures
        lines@[0]@ == "bundle diff: "@ + diff.old_name@ + " -> "@ + diff.new_name@,
        lines@[1]@ == "target_changed="@ + word(diff.target_changed),
        lines@[2]@ == "descriptor_hash_changed="@ + word(diff.descriptor_hash_changed),
        lines@[3]@ == "library_hash_changed="@ + word(diff.library_hash_changed),
        lines@[4]@ == "rust_bindings_hash_changed="@ + word(diff.rust_bindings_hash_changed),
        lines@[5]@ == "python_bindings_hash_changed="@ + word(diff.python_bindings_hash_changed),
        lines@[6]@ == "trace_count_delta="@ + signed_decimal(diff.trace_count_delta as int),
        lines@.len() == 8 + diff.ownership_changes@.len(),
        diff.ownership_changes@.len() == 0 ==> lines@[7]@ == "ownership_changes=none"@,
        diff.ownership_changes@.len() > 0 ==> lines@[7]@ == "ownership_changes:"@,
        0 <= k < diff.ownership_changes@.len() ==> {
            let change = diff.ownership_changes@[k];
            lines@[8 + k]@ == "  - "@ + change.agent@ + " "@ + change.position@ + ": "@
                + change.from@ + " -> "@ + change.to@
        },
{
    let all = texts(lines@);
    let views = change_views(diff.ownership_changes@);
    assert(all.len() == lines@.len());
    assert(views.len() == diff.ownership_changes@.len());
    assert(all[0] == lines@[0]@);
    assert(all[1] == lines@[1]@);
    assert(all[2] == lines@[2]@);
    assert(all[3] == lines@[3]@);
    assert(all[4] == lines@[4]@);
    assert(all[5] == lines@[5]@);
    assert(all[6] == lines@[6]@);
    assert(all[7] == lines@[7]@);
    assert(all[7] == change_lines(views)[0]);
    if 0 <= k < views.len() {
        assert(all[8 + k] == lines@[8 + k]@);
        assert(all[8 + k] == change_lines(views)[1 + k]);
        assert(change_lines(views)[1 + k] == change_line(views[k]));
        assert(views[k] == diff.ownership_changes@[k]@);
    }
}

} // verus!
