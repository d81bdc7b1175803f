//! The ABI descriptor of a library, as far as the bundle tools look into it.
use vstd::prelude::*;
use vstd::string::*;

use crate::text::{same_text, texts};

verus! {

/// The agents that a library exports.
#[derive(Debug)]
pub struct CorvidAbi {
    pub agents: Vec<AbiAgent>,
}

/// An exported agent.
#[derive(Debug)]
pub struct AbiAgent {
    pub name: String,
    pub symbol: String,
    pub params: Vec<AbiParam>,
    pub return_type: TypeDescription,
    pub return_ownership: Option<AbiOwnership>,
    pub dangerous: bool,
    pub approval_required: bool,
}

/// A parameter of an exported agent.
#[derive(Debug)]
pub struct AbiParam {
    pub ty: TypeDescription,
    pub ownership: Option<AbiOwnership>,
}

/// Who owns a value that crosses the boundary, and for how long it lives.
#[derive(Debug)]
pub struct AbiOwnership {
    pub mode: AbiOwnershipMode,
    pub lifetime: Option<String>,
}

#[derive(Clone, Copy, Debug, PartialEq, Eq, Structural)]
pub enum AbiOwnershipMode {
    Owned,
    Borrowed,
    Shared,
    Static,
}

/// The scalar types, with all but strings taken together.
#[derive(Clone, Copy, Debug, PartialEq, Eq, Structural)]
pub enum ScalarTypeName {
    String,
    Other,
}

/// A type of the descriptor.
#[derive(Debug)]
pub enum TypeDescription {
    Scalar { scalar: ScalarTypeName },
    Grounded { inner: Box<TypeDescription> },
    Other,
}

// ---------------------------------------------------------------------------
// Agents
// ---------------------------------------------------------------------------
/// The first agent of the name.
pub open spec fn agent_named(agents: Seq<AbiAgent>, name: Seq<char>) -> Option<AbiAgent>
    decreases agents.len(),
{
    if agents.len() == 0 {
        None
    } else if agents[0].name@ == name {
        Some(agents[0])
    } else {
        agent_named(agents.skip(1), name)
    }
}

/// Finds the first agent of the name.
pub fn find_agent<'a>(agents: &'a Vec<AbiAgent>, name: &str) -> (agent: Option<&'a AbiAgent>)
    ensures
        match agent_named(agents@, name@) {
            Some(found) => agent == Some(&found),
            None => agent is None,
        },
{
    let mut i: usize = 0;
    proof {
        assert(agents@.skip(0) =~= agents@);
    }
    while i < agents.len()
        invariant
            i <= agents@.len(),
            agent_named(agents@, name@) == agent_named(agents@.skip(i as int), name@),
        decreases agents@.len() - i,
    {
        if same_text(agents[i].name.as_str(), name) {
            return Some(&agents[i]);
        }
        proof {
            assert(agents@.skip(i as int).skip(1) =~= agents@.skip(i + 1));
        }
        i = i + 1;
    }
    None
}

/// The names of the agents, in their order.
pub open spec fn agent_names(agents: Seq<AbiAgent>) -> Seq<Seq<char>> {
    Seq::new(agents.len(), |i: int| agents[i].name@)
}

/// Lists the names of the agents.
pub fn list_agents(agents: &Vec<AbiAgent>) -> (names: Vec<String>)
    ensures
        texts(names@) == agent_names(agents@),
{
    let mut names: Vec<String> = Vec::new();
    let mut i: usize = 0;
    while i < agents.len()
        invariant
            i <= agents@.len(),
            names@.len() == i,
            forall|k: int| 0 <= k < i ==> (#[trigger] names@[k])@ == agents@[k].name@,
        decreases agents@.len() - i,
    {
        names.push(agents[i].name.clone());
        i = i + 1;
    }
    proof {
        assert(texts(names@) =~= agent_names(agents@));
    }
    names
}

/// The agent is dangerous or asks for approval.
pub open spec fn is_gated(agent: AbiAgent) -> bool {
    agent.dangerous || agent.approval_required
}

/// The names of the gated agents, in their order.
pub open spec fn gated_names(agents: Seq<AbiAgent>) -> Seq<Seq<char>>
    decreases agents.len(),
{
    if agents.len() == 0 {
        Seq::empty()
    } else {
        let before = gated_names(agents.drop_last());
        if is_gated(agents.last()) {
            before.push(agents.last().name@)
        } else {
            before
        }
    }
}

/// Lists the names of the gated agents.
pub fn list_gated(agents: &Vec<AbiAgent>) -> (names: Vec<String>)
    ensures
        texts(names@) == gated_names(agents@),
{
    let mut names: Vec<String> = Vec::new();
    let mut i: usize = 0;
    while i < agents.len()
        invariant
            i <= agents@.len(),
            texts(names@) == gated_names(agents@.take(i as int)),
        decreases agents@.len() - i,
    {
        let ghost before = names@;
        proof {
            assert(agents@.take(i + 1).drop_last() =~= agents@.take(i as int));
        }
        if agents[i].dangerous || agents[i].approval_required {
            let name: String = agents[i].name.clone();
            proof {
                assert(texts(before.push(name)) =~= texts(before).push(name@));
            }
            names.push(name);
        }
        i = i + 1;
    }
    proof {
        assert(agents@.take(i as int) =~= agents@);
    }
    names
}

/// An agent is listed as gated exactly when an agent of its name is gated.
pub proof fn law_gated_agents_are_listed(agents: Seq<AbiAgent>, name: Seq<char>)
    ensures
        gated_names(agents).contains(name) <==> exists|i: int|
            0 <= i < agents.len() && is_gated(#[trigger] agents[i]) && agents[i].name@ == name,
    decreases agents.len(),
{
    if agents.len() > 0 {
        let before = agents.drop_last();
        law_gated_agents_are_listed(before, name);
        let names = gated_names(before);
        if exists|i: int|
            0 <= i < agents.len() && is_gated(#[trigger] agents[i]) && agents[i].name@ == name {
            let i = choose|i: int|
                0 <= i < agents.len() && is_gated(#[trigger] agents[i]) && agents[i].name@ == name;
            if i < before.len() {
                assert(before[i] == agents[i]);
                assert(names.contains(name));
                let k = choose|k: int| 0 <= k < names.len() && names[k] == name;
                assert(gated_names(agents)[k] == name);
            } else {
                assert(gated_names(agents)[names.len() as int] == name);
            }
        }
        if gated_names(agents).contains(name) {
            let k = choose|k: int|
                0 <= k < gated_names(agents).len() && gated_names(agents)[k] == name;
            if k < names.len() {
                assert(names[k] == name);
                let i = choose|i: int|
                    0 <= i < before.len() && is_gated(#[trigger] before[i]) && before[i].name@
                        == name;
                assert(is_gated(agents[i]));
            } else {
                assert(is_gated(agents[agents.len() - 1]));
            }
        }
    }
}

// ---------------------------------------------------------------------------
// Signatures and ownership
// ---------------------------------------------------------------------------
/// The type is the string type.
pub open spec fn is_string(ty: TypeDescription) -> bool {
    ty matches TypeDescription::Scalar { scalar } && scalar is String
}

/// The agent takes one string and gives a grounded string.
pub open spec fn is_grounded_string_agent(agent: AbiAgent) -> bool {
    &&& agent.params@.len() == 1
    &&& is_string(agent.params@[0].ty)
    &&& agent.return_type matches TypeDescription::Grounded { inner }
    &&& is_string(*inner)
}

fn is_string_type(ty: &TypeDescription) -> (found: bool)
    ensures
        found == is_string(*ty),
{
    match ty {
        TypeDescription::Scalar { scalar: ScalarTypeName::String } => true,
        _ => false,
    }
}

/// Tells whether the agent takes one string and gives a grounded string.
pub fn matches_grounded_string_signature(agent: &AbiAgent) -> (matched: bool)
    ensures
        matched == is_grounded_string_agent(*agent),
{
    if agent.params.len() != 1 {
        return false;
    }
    if !is_string_type(&agent.params[0].ty) {
        return false;
    }
    match &agent.return_type {
        TypeDescription::Grounded { inner } => is_string_type(inner),
        _ => false,
    }
}

/// The annotation of an ownership mode.
pub open spec fn mode_text(mode: AbiOwnershipMode) -> Seq<char> {
    match mode {
        AbiOwnershipMode::Owned => "@owned"@,
        AbiOwnershipMode::Borrowed => "@borrowed"@,
        AbiOwnershipMode::Shared => "@shared"@,
        AbiOwnershipMode::Static => "@static"@,
    }
}

/// The annotation of an ownership: what is not annotated is owned, and the
/// lifetime of a borrow is written unless it is that of the call.
pub open spec fn ownership_text(ownership: Option<AbiOwnership>) -> Seq<char> {
    match ownership {
        None => "@owned"@,
        Some(o) => match (o.mode, o.lifetime) {
            (AbiOwnershipMode::Borrowed, Some(lifetime)) => if lifetime@ == "call"@ {
                "@borrowed"@
            } else {
                "@borrowed<'"@ + lifetime@ + ">"@
            },
            (mode, _) => mode_text(mode),
        },
    }
}

/// Writes the annotation of an ownership mode.
pub fn render_mode(mode: AbiOwnershipMode) -> (text: &'static str)
    ensures
        text@ == mode_text(mode),
{
    match mode {
        AbiOwnershipMode::Owned => "@owned",
        AbiOwnershipMode::Borrowed => "@borrowed",
        AbiOwnershipMode::Shared => "@shared",
        AbiOwnershipMode::Static => "@static",
    }
}

/// Writes the annotation of an ownership.
pub fn render_ownership(ownership: &Option<AbiOwnership>) -> (text: String)
    ensures
        text@ == ownership_text(*ownership),
{
    match ownership {
        None => String::from_str("@owned"),
        Some(ownership) => match (ownership.mode, &ownership.lifetime) {
            (AbiOwnershipMode::Borrowed, Some(lifetime)) => {
                if same_text(lifetime.as_str(), "call") {
                    return String::from_str("@borrowed");
                }
                let mut text: String = String::from_str("@borrowed<'");
                text.append(lifetime.as_str());
                text.append(">");
                text
            },
            (mode, _) => String::from_str(render_mode(mode)),
        },
    }
}

} // verus!
