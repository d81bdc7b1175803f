//! What is found in a descriptor, in terms of its agents.
use vstd::prelude::*;
use vstd::string::*;

use crate::abi::{
    agent_named, find_agent, gated_names, is_gated, list_agents, list_gated,
    matches_grounded_string_signature, ownership_text, render_mode, render_ownership, AbiAgent,
    AbiOwnership, AbiOwnershipMode,
};
use crate::diff_change_laws::{is_first_named, lemma_first_named};
use crate::replay_laws::takes_and_grounds_a_string;
use crate::text::texts;

verus! {

/// The agent that is found under a name is the first that has it; without one
/// nothing is found.
pub proof fn law_the_first_agent_of_a_name_is_found(
    agents: Vec<AbiAgent>,
    name: &str,
    agent: Option<&AbiAgent>,
)
    requires
        call_ensures(find_agent, (&agents, name), agent),
    ensures
        match agent {
            Some(found) => exists|j: int| #[trigger]
                is_first_named(agents@, name@, j) && agents@[j] == *found,
            None => forall|j: int|
                0 <= j < agents@.len() ==> (#[trigger] agents@[j]).name@ != name@,
        },
{
    lemma_first_named(agents@, name@);
    if let Some(found) = agent_named(agents@, name@) {
        let j = choose|j: int| #[trigger]
            is_first_named(agents@, name@, j) && agents@[j] == found;
        assert(*agent->Some_0 == found);
        assert(is_first_named(agents@, name@, j) && agents@[j] == *agent->Some_0);
    }
}

/// All agents are listed by name, in their order.
pub proof fn law_all_agents_are_listed(agents: Vec<AbiAgent>, names: Vec<String>, i: int)
    requires
        call_ensures(list_agents, (&agents,), names),
    ensures
        names@.len() == agents@.len(),
        0 <= i < names@.len() ==> names@[i]@ == agents@[i].name@,
{
    assert(texts(names@).len() == names@.len());
    if 0 <= i < names@.len() {
        assert(texts(names@)[i] == names@[i]@);
    }
}

/// The numbers go up.
pub open spec fn ascend(numbers: Seq<int>) -> bool {
    forall|a: int, b: int|
        0 <= a < b < numbers.len() ==> #[trigger] numbers[a] < #[trigger] numbers[b]
}

proof fn lemma_gated(agents: Seq<AbiAgent>) -> (at: Seq<int>)
    ensures
        at.len() == gated_names(agents).len(),
        ascend(at),
        forall|k: int|
            0 <= k < at.len() ==> 0 <= #[trigger] at[k] < agents.len() && (agents[at[k]].dangerous
                || agents[at[k]].approval_required) && gated_names(agents)[k]
                == agents[at[k]].name@,
        forall|i: int|
            0 <= i < agents.len() && ((#[trigger] agents[i]).dangerous
                || agents[i].approval_required) ==> at.contains(i),
    decreases agents.len(),
{
    if agents.len() == 0 {
        Seq::empty()
    } else {
        let before = agents.drop_last();
        let old = lemma_gated(before);
        let last = agents.len() - 1;
        if is_gated(agents.last()) {
            let at = old.push(last);
            assert forall|i: int|
                0 <= i < agents.len() && ((#[trigger] agents[i]).dangerous
                    || agents[i].approval_required) implies at.contains(i) by {
                if i < last {
                    assert(before[i] == agents[i]);
                    assert(old.contains(i));
                    let k = choose|k: int| 0 <= k < old.len() && old[k] == i;
                    assert(at[k] == i);
                } else {
                    assert(at[old.len() as int] == i);
                }
            }
            assert forall|k: int| 0 <= k < at.len() implies 0 <= #[trigger] at[k] < agents.len() && (
            agents[at[k]].dangerous || agents[at[k]].approval_required) && gated_names(agents)[k]
                == agents[at[k]].name@ by {
                if k < old.len() {
                    assert(at[k] == old[k]);
                    assert(before[old[k]] == agents[old[k]]);
                }
            }
            at
        } else {
            assert forall|i: int|
                0 <= i < agents.len() && ((#[trigger] agents[i]).dangerous
                    || agents[i].approval_required) implies old.contains(i) by {
                assert(i < last);
                assert(before[i] == agents[i]);
            }
            assert forall|k: int| 0 <= k < old.len() implies 0 <= #[trigger] old[k] < agents.len()
                && (agents[old[k]].dangerous || agents[old[k]].approval_required) && gated_names(
                agents,
            )[k] == agents[old[k]].name@ by {
                assert(before[old[k]] == agents[old[k]]);
            }
            old
        }
    }
}

/// The agents that are dangerous or ask for approval are listed by name, each
/// once and in their order, and no others.
pub proof fn law_gated_agents_are_listed_in_order(
    agents: Vec<AbiAgent>,
    names: Vec<String>,
) -> (at: Seq<int>)
    requires
        call_ensures(list_gated, (&agents,), names),
    ensures
        at.len() == names@.len(),
        ascend(at),
        forall|k: int|
            0 <= k < at.len() ==> 0 <= #[trigger] at[k] < agents@.len() && (
            agents@[at[k]].dangerous || agents@[at[k]].approval_required) && names@[k]@
                == agents@[at[k]].name@,
        forall|i: int|
            0 <= i < agents@.len() && ((#[trigger] agents@[i]).dangerous
                || agents@[i].approval_required) ==> at.contains(i),
{
    let at = lemma_gated(agents@);
    assert(texts(names@).len() == names@.len());
    assert forall|k: int| 0 <= k < at.len() implies 0 <= #[trigger] at[k] < agents@.len() && (
    agents@[at[k]].dangerous || agents@[at[k]].approval_required) && names@[k]@
        == agents@[at[k]].name@ by {
        assert(texts(names@)[k] == names@[k]@);
    }
    at
}

/// The signature of a grounded string agent is one string parameter and a
/// grounded string.
pub proof fn law_grounded_string_agents_are_recognized(agent: AbiAgent, matched: bool)
    requires
        call_ensures(matches_grounded_string_signature, (&agent,), matched),
    ensures
        matched <==> takes_and_grounds_a_string(agent),
{
}

/// Each mode is written as its own annotation.
pub proof fn law_modes_are_written_as_annotations(mode: AbiOwnershipMode, text: &'static str)
    requires
        call_ensures(render_mode, (mode,), text),
    ensures
        mode == AbiOwnershipMode::Owned ==> text@ == "@owned"@,
        mode == AbiOwnershipMode::Borrowed ==> text@ == "@borrowed"@,
        mode == AbiOwnershipMode::Shared ==> text@ == "@shared"@,
        mode == AbiOwnershipMode::Static ==> text@ == "@static"@,
{
}

/// An annotation is written as its mode, with the lifetime of a borrow unless it
/// is that of the call; no annotation is written like that of an owner.
pub proof fn law_annotations_are_written_with_the_lifetime_of_borrows(
    ownership: Option<AbiOwnership>,
    text: String,
    mode: AbiOwnershipMode,
    mode_name: &'static str,
)
    requires
        call_ensures(render_ownership, (&ownership,), text),
        call_ensures(render_mode, (mode,), mode_name),
        match ownership {
            Some(given) => mode == given.mode,
            None => mode == AbiOwnershipMode::Owned,
        },
    ensures
        text@ == ownership_text(ownership),
        match ownership {
            Some(given) => if given.mode == AbiOwnershipMode::Borrowed && given.lifetime is Some
                && given.lifetime->Some_0@ != "call"@ {
                text@ == mode_name@ + "<'"@ + given.lifetime->Some_0@ + ">"@
            } else {
                text@ == mode_name@
            },
            None => text@ == mode_name@,
        },
{
    reveal_strlit("@borrowed");
    reveal_strlit("<'");
    reveal_strlit("@borrowed<'");
    assert("@borrowed"@ + "<'"@ =~= "@borrowed<'"@);
}

} // verus!
