//! Agents as lowering sees them, their link symbols and their entry blocks.
use vstd::prelude::*;
use vstd::string::*;

use crate::lowering::types::{
    cl_type_for, native_type, not_supported_refusal, ClType, CodegenError, DefId, LocalId, Refusal,
    Shape, Span, Type,
};
use crate::text::{decimal, decimal_text, lemma_decimal_digits, lemma_decimal_injective};

verus! {

/// The calling convention that an agent is exported with.
#[derive(Clone, Copy, Debug, PartialEq, Eq, Structural)]
pub enum IrExternAbi {
    C,
}

/// Whether a parameter's reference is lent or handed over.
#[derive(Clone, Copy, Debug, PartialEq, Eq, Structural)]
pub enum ParamBorrow {
    Borrowed,
    Owned,
}

/// A parameter of an agent.
#[derive(Debug)]
pub struct IrParam {
    pub name: String,
    pub local_id: LocalId,
    pub ty: Type,
    pub span: Span,
}

/// What lowering reads of an agent. The cost budget is the bit pattern of the
/// budget's 64-bit float.
#[derive(Debug)]
pub struct IrAgent {
    pub name: String,
    pub params: Vec<IrParam>,
    pub return_ty: Type,
    pub extern_abi: Option<IrExternAbi>,
    pub cost_budget: Option<u64>,
    pub borrow_sig: Option<Vec<ParamBorrow>>,
    pub span: Span,
}

/// The link symbol of the agent `user_name` with definition number `id`.
pub open spec fn agent_symbol(user_name: Seq<char>, id: nat) -> Seq<char> {
    "corvid_agent_"@ + user_name + "_"@ + decimal(id)
}

/// Mangles an agent's name into a link-safe symbol. The definition number
/// keeps methods of the same name on different types apart.
pub fn mangle_agent_symbol(user_name: &str, def_id: DefId) -> (symbol: String)
    ensures
        symbol@ == agent_symbol(user_name@, def_id.0 as nat),
{
    let mut symbol: String = String::from_str("corvid_agent_");
    symbol.append(user_name);
    symbol.append("_");
    let id: String = decimal_text(def_id.0 as u64);
    symbol.append(id.as_str());
    symbol
}

/// Two agents share a symbol only if they have the same name and the same
/// definition number.
pub proof fn law_symbols_are_distinct(name1: Seq<char>, id1: nat, name2: Seq<char>, id2: nat)
    requires
        agent_symbol(name1, id1) == agent_symbol(name2, id2),
    ensures
        name1 == name2,
        id1 == id2,
{
    reveal_strlit("_");
    let prefix = "corvid_agent_"@;
    let s1 = agent_symbol(name1, id1);
    let s2 = agent_symbol(name2, id2);
    let d1 = decimal(id1);
    let d2 = decimal(id2);
    lemma_decimal_digits(id1);
    lemma_decimal_digits(id2);
    let bar1 = s1.len() - d1.len() - 1;
    let bar2 = s2.len() - d2.len() - 1;
    assert(s1[bar1] == '_');
    assert(s2[bar2] == '_');
    if d1.len() < d2.len() {
        assert(s2[bar1] == d2[bar1 - bar2 - 1]);
    }
    if d2.len() < d1.len() {
        assert(s1[bar2] == d1[bar2 - bar1 - 1]);
    }
    assert(bar1 == bar2);
    assert(s1.subrange(bar1 + 1, s1.len() as int) =~= d1);
    assert(s2.subrange(bar2 + 1, s2.len() as int) =~= d2);
    lemma_decimal_injective(id1, id2);
    assert(s1.subrange(prefix.len() as int, bar1) =~= name1);
    assert(s2.subrange(prefix.len() as int, bar2) =~= name2);
}

/// No agent's symbol is a name that lacks the prefix, such as one of the C
/// runtime.
pub proof fn law_symbols_avoid_other_names(user_name: Seq<char>, id: nat, other: Seq<char>)
    requires
        !"corvid_agent_"@.is_prefix_of(other),
    ensures
        agent_symbol(user_name, id) != other,
{
    let prefix = "corvid_agent_"@;
    let symbol = agent_symbol(user_name, id);
    assert(symbol.subrange(0, prefix.len() as int) =~= prefix);
}

/// Why parameter `p` cannot be lowered.
pub open spec fn parameter_refusal(p: IrParam) -> Refusal {
    not_supported_refusal(
        "parameter `"@ + p.name@ + ": "@ + p.ty.display_name@
            + "` — this native lowering path supports scalar and refcounted values here"@,
    )
}

/// Why the agent's return type cannot be lowered.
pub open spec fn return_refusal(agent: IrAgent) -> Refusal {
    not_supported_refusal(
        "agent `"@ + agent.name@ + "` returns `"@ + agent.return_ty.display_name@
            + "` — this native lowering path supports scalar and refcounted returns here"@,
    )
}

/// Every parameter of the first `n` has a native type.
pub open spec fn params_lower(agent: IrAgent, n: int) -> bool {
    forall|i: int| 0 <= i < n ==> native_type(#[trigger] agent.params@[i].ty) is Ok
}

/// The return type is `Nothing` or has a native type.
pub open spec fn return_lowers(agent: IrAgent) -> bool {
    agent.return_ty.shape is Nothing || native_type(agent.return_ty) is Ok
}

/// Accepts an agent all of whose parameter and return types can be lowered;
/// otherwise names the first parameter that cannot, or the return type.
pub fn reject_unsupported_types(agent: &IrAgent) -> (result: Result<(), CodegenError>)
    ensures
        result is Ok <==> params_lower(*agent, agent.params@.len() as int) && return_lowers(*agent),
        result matches Err(e) ==> {
            ||| exists|i: int|
                #![trigger agent.params@[i]]
                {
                    &&& 0 <= i < agent.params@.len()
                    &&& params_lower(*agent, i)
                    &&& native_type(agent.params@[i].ty) is Err
                    &&& e.reports(parameter_refusal(agent.params@[i]), agent.params@[i].span)
                }
            ||| {
                &&& params_lower(*agent, agent.params@.len() as int)
                &&& e.reports(return_refusal(*agent), agent.span)
            }
        },
{
    let mut i: usize = 0;
    while i < agent.params.len()
        invariant
            i <= agent.params@.len(),
            params_lower(*agent, i as int),
        decreases agent.params@.len() - i,
    {
        let p: &IrParam = &agent.params[i];
        if let Err(_) = cl_type_for(&p.ty, p.span) {
            let mut message: String = String::from_str("parameter `");
            message.append(p.name.as_str());
            message.append(": ");
            message.append(p.ty.display_name.as_str());
            message.append(
                "` — this native lowering path supports scalar and refcounted values here",
            );
            proof {
                assert(native_type(agent.params@[i as int].ty) is Err);
            }
            return Err(CodegenError::not_supported(message, p.span));
        }
        i = i + 1;
    }
    if let Shape::Nothing = agent.return_ty.shape {
        return Ok(());
    }
    if let Err(_) = cl_type_for(&agent.return_ty, agent.span) {
        let mut message: String = String::from_str("agent `");
        message.append(agent.name.as_str());
        message.append("` returns `");
        message.append(agent.return_ty.display_name.as_str());
        message.append("` — this native lowering path supports scalar and refcounted returns here");
        return Err(CodegenError::not_supported(message, agent.span));
    }
    Ok(())
}

/// How the entry block of an agent binds one parameter.
#[derive(Clone, Copy, Debug, PartialEq, Eq, Structural)]
pub struct ParamBinding {
    /// The local that the parameter is known by.
    pub local_id: LocalId,
    /// The number of the variable that holds it.
    pub variable: usize,
    /// The machine type of the variable.
    pub ty: ClType,
    /// The incoming value is a heap reference that stack maps must list.
    pub needs_stack_map: bool,
    /// The entry block takes a reference of its own.
    pub retain: bool,
    /// The agent's outermost scope releases the variable.
    pub scoped: bool,
}

/// Parameter `i` is lent to the agent by its caller.
pub open spec fn is_borrowed(agent: IrAgent, i: int) -> bool {
    agent.borrow_sig matches Some(borrows) && i < borrows@.len() && borrows@[i]
        == ParamBorrow::Borrowed
}

/// How parameter `i` is bound, where its machine type is `ty`.
pub open spec fn binding_of(agent: IrAgent, i: int, ty: ClType, dup_drop: bool) -> ParamBinding {
    let owned = agent.params@[i].ty.refcounted && !is_borrowed(agent, i);
    ParamBinding {
        local_id: agent.params@[i].local_id,
        variable: i as usize,
        ty,
        needs_stack_map: agent.params@[i].ty.refcounted,
        retain: owned && !dup_drop,
        scoped: owned,
    }
}

/// Plans the entry block of an agent: one variable per parameter, in order.
/// `dup_drop_enabled` tells whether reference counts are placed by a separate
/// pass. Fails on the first parameter without a native type.
pub fn define_agent(agent: &IrAgent, dup_drop_enabled: bool) -> (result: Result<
    Vec<ParamBinding>,
    CodegenError,
>)
    ensures
        result is Ok <==> params_lower(*agent, agent.params@.len() as int),
        result matches Ok(bindings) ==> {
            &&& bindings@.len() == agent.params@.len()
            &&& forall|i: int|
                #![trigger bindings@[i]]
                0 <= i < bindings@.len() ==> bindings@[i] == binding_of(
                    *agent,
                    i,
                    native_type(agent.params@[i].ty)->Ok_0,
                    dup_drop_enabled,
                )
        },
        result matches Err(e) ==> exists|i: int|
            #![trigger agent.params@[i]]
            {
                &&& 0 <= i < agent.params@.len()
                &&& params_lower(*agent, i)
                &&& native_type(agent.params@[i].ty) is Err
                &&& e.reports(native_type(agent.params@[i].ty)->Err_0, agent.params@[i].span)
            },
{
    let mut bindings: Vec<ParamBinding> = Vec::new();
    let mut i: usize = 0;
    while i < agent.params.len()
        invariant
            i <= agent.params@.len(),
            params_lower(*agent, i as int),
            bindings@.len() == i,
            forall|j: int|
                #![trigger bindings@[j]]
                0 <= j < i ==> bindings@[j] == binding_of(
                    *agent,
                    j,
                    native_type(agent.params@[j].ty)->Ok_0,
                    dup_drop_enabled,
                ),
        decreases agent.params@.len() - i,
    {
        let p: &IrParam = &agent.params[i];
        let ty: ClType = match cl_type_for(&p.ty, p.span) {
            Ok(ty) => ty,
            Err(e) => {
                proof {
                    assert(native_type(agent.params@[i as int].ty) is Err);
                }
                return Err(e);
            },
        };
        let borrowed: bool = match &agent.borrow_sig {
            Some(borrows) => i < borrows.len() && matches!(borrows[i], ParamBorrow::Borrowed),
            None => false,
        };
        let owned: bool = p.ty.refcounted && !borrowed;
        bindings.push(
            ParamBinding {
                local_id: p.local_id,
                variable: i,
                ty,
                needs_stack_map: p.ty.refcounted,
                retain: owned && !dup_drop_enabled,
                scoped: owned,
            },
        );
        i = i + 1;
    }
    Ok(bindings)
}

/// How lowering a block of statements ended.
#[derive(Clone, Copy, Debug, PartialEq, Eq, Structural)]
pub enum BlockOutcome {
    Normal,
    Terminated,
}

/// Whether the body needs a closing trap: control can run off its end.
/// `current_block` tells of the block being filled, if there is one, whether
/// its last instruction is a terminator.
pub fn needs_trap(lowered: BlockOutcome, current_block: Option<bool>) -> (trap: bool)
    ensures
        trap == (lowered == BlockOutcome::Normal && current_block == Some(false)),
{
    match (lowered, current_block) {
        (BlockOutcome::Normal, Some(terminated)) => !terminated,
        _ => false,
    }
}

} // verus!
