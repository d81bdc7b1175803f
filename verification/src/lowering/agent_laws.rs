//! What holds of link symbols, refused agents and entry blocks.
use vstd::prelude::*;
use vstd::string::*;

use crate::lowering::agent::{
    define_agent, mangle_agent_symbol, needs_trap, params_lower, reject_unsupported_types,
    BlockOutcome, IrAgent, ParamBinding,
};
use crate::lowering::type_laws::fails_with;
use crate::lowering::types::{
    cl_type_for, native_type, ClType, CodegenError, CodegenErrorKind, DefId,
};
use crate::text::decimal;

verus! {

/// An agent's symbol is its name between the common prefix and its number.
pub proof fn law_symbols_hold_name_and_number(user_name: &str, def_id: DefId, symbol: String)
    requires
        call_ensures(mangle_agent_symbol, (user_name, def_id), symbol),
    ensures
        symbol@ == "corvid_agent_"@ + user_name@ + "_"@ + decimal(def_id.0 as nat),
{
}

/// Parameter `i` is the first without a native type.
pub open spec fn is_first_unsupported(agent: IrAgent, i: int) -> bool {
    &&& 0 <= i < agent.params@.len()
    &&& native_type(agent.params@[i].ty) is Err
    &&& forall|k: int| 0 <= k < i ==> native_type((#[trigger] agent.params@[k]).ty) is Ok
}

/// An agent is rejected exactly if one of its parameters, or a return that is
/// not `Nothing`, has no native type. The first such parameter is named, at its
/// own place; if there is none, the return, at the place of the agent.
pub proof fn law_agents_without_native_types_are_rejected(
    agent: IrAgent,
    result: Result<(), CodegenError>,
    i: int,
)
    requires
        call_ensures(reject_unsupported_types, (&agent,), result),
    ensures
        is_first_unsupported(agent, i) ==> (result matches Err(e) && fails_with(
            e,
            CodegenErrorKind::NotSupported,
            "parameter `"@ + agent.params@[i].name@ + ": "@ + agent.params@[i].ty.display_name@
                + "` — this native lowering path supports scalar and refcounted values here"@,
            agent.params@[i].span,
        )),
        (forall|k: int|
            0 <= k < agent.params@.len() ==> native_type((#[trigger] agent.params@[k]).ty) is Ok)
            ==> if agent.return_ty.shape is Nothing || native_type(agent.return_ty) is Ok {
            result is Ok
        } else {
            result matches Err(e) && fails_with(
                e,
                CodegenErrorKind::NotSupported,
                "agent `"@ + agent.name@ + "` returns `"@ + agent.return_ty.display_name@
                    + "` — this native lowering path supports scalar and refcounted returns here"@,
                agent.span,
            )
        },
{
    if is_first_unsupported(agent, i) {
        assert(!params_lower(agent, agent.params@.len() as int)) by {
            assert(native_type(agent.params@[i].ty) is Err);
        }
        if let Err(e) = result {
            let n = choose|n: int|
                #![trigger agent.params@[n]]
                {
                    &&& 0 <= n < agent.params@.len()
                    &&& params_lower(agent, n)
                    &&& native_type(agent.params@[n].ty) is Err
                    &&& e.reports(
                        crate::lowering::agent::parameter_refusal(agent.params@[n]),
                        agent.params@[n].span,
                    )
                };
            if n < i {
                assert(native_type(agent.params@[n].ty) is Ok);
            }
            if i < n {
                assert(native_type(agent.params@[i].ty) is Ok);
            }
        }
    }
    if forall|k: int|
        0 <= k < agent.params@.len() ==> native_type((#[trigger] agent.params@[k]).ty) is Ok {
        assert(params_lower(agent, agent.params@.len() as int));
    }
}

/// The caller keeps its reference for parameter `i`.
pub open spec fn is_lent(agent: IrAgent, i: int) -> bool {
    match agent.borrow_sig {
        Some(borrows) => 0 <= i < borrows@.len() && borrows@[i] is Borrowed,
        None => false,
    }
}

/// Each parameter is bound to the variable of its own number, under its own
/// local and in its own machine type. A refcounted one is listed in stack maps.
/// The agent's scope releases exactly the refcounted ones that are not lent,
/// and the entry block takes a reference for exactly these, unless a separate
/// pass places reference counts.
pub proof fn law_parameters_are_bound_one_by_one(
    agent: IrAgent,
    dup_drop: bool,
    bindings: Vec<ParamBinding>,
    i: int,
)
    requires
        call_ensures(define_agent, (&agent, dup_drop), Ok(bindings)),
    ensures
        bindings@.len() == agent.params@.len(),
        0 <= i < agent.params@.len() ==> {
            let binding = bindings@[i];
            let param = agent.params@[i];
            &&& binding.local_id == param.local_id
            &&& binding.variable == i
            &&& native_type(param.ty) matches Ok(ty) && ty == binding.ty
            &&& binding.needs_stack_map <==> param.ty.refcounted
            &&& binding.scoped <==> param.ty.refcounted && !is_lent(agent, i)
            &&& binding.retain <==> param.ty.refcounted && !is_lent(agent, i) && !dup_drop
        },
{
    assert(agent.params@.len() == agent.params.len());
    if 0 <= i < agent.params@.len() {
        assert(native_type(agent.params@[i].ty) is Ok);
        let binding = bindings@[i];
        assert(binding.variable == i);
    }
}

/// The references that entry blocks take are released: without a separate pass
/// a variable is released exactly if a reference was taken for it.
pub proof fn law_taken_references_are_released(
    agent: IrAgent,
    bindings: Vec<ParamBinding>,
    passed: Vec<ParamBinding>,
    i: int,
)
    requires
        call_ensures(define_agent, (&agent, false), Ok(bindings)),
        call_ensures(define_agent, (&agent, true), Ok(passed)),
        0 <= i < bindings@.len(),
    ensures
        bindings@[i].retain == bindings@[i].scoped,
        !passed@[i].retain,
        passed@[i].scoped == bindings@[i].scoped,
{
    law_parameters_are_bound_one_by_one(agent, false, bindings, i);
    law_parameters_are_bound_one_by_one(agent, true, passed, i);
}

/// An entry block is planned exactly if every parameter has a native type; the
/// first that has none fails as its type does, at its own place.
pub proof fn law_entry_blocks_need_native_types(
    agent: IrAgent,
    dup_drop: bool,
    result: Result<Vec<ParamBinding>, CodegenError>,
    i: int,
    refused: Result<ClType, CodegenError>,
)
    requires
        call_ensures(define_agent, (&agent, dup_drop), result),
        is_first_unsupported(agent, i) ==> call_ensures(
            cl_type_for,
            (&agent.params@[i].ty, agent.params@[i].span),
            refused,
        ),
    ensures
        (forall|k: int|
            0 <= k < agent.params@.len() ==> native_type((#[trigger] agent.params@[k]).ty) is Ok)
            <==> result is Ok,
        is_first_unsupported(agent, i) ==> match (result, refused) {
            (Err(e), Err(f)) => fails_with(e, f.kind, f.message@, f.span),
            _ => false,
        },
{
    if forall|k: int|
        0 <= k < agent.params@.len() ==> native_type((#[trigger] agent.params@[k]).ty) is Ok {
        assert(params_lower(agent, agent.params@.len() as int));
    }
    if result is Ok {
        assert forall|k: int| 0 <= k < agent.params@.len() implies native_type(
            (#[trigger] agent.params@[k]).ty,
        ) is Ok by {}
    }
    if is_first_unsupported(agent, i) {
        assert(!params_lower(agent, agent.params@.len() as int)) by {
            assert(native_type(agent.params@[i].ty) is Err);
        }
        if let Err(e) = result {
            let n = choose|n: int|
                #![trigger agent.params@[n]]
                {
                    &&& 0 <= n < agent.params@.len()
                    &&& params_lower(agent, n)
                    &&& native_type(agent.params@[n].ty) is Err
                    &&& e.reports(native_type(agent.params@[n].ty)->Err_0, agent.params@[n].span)
                };
            if n < i {
                assert(native_type(agent.params@[n].ty) is Ok);
            }
            if i < n {
                assert(native_type(agent.params@[i].ty) is Ok);
            }
        }
    }
}

/// A closing trap is needed exactly where control can run off the end: the body
/// ended normally, and there is a block whose last instruction does not end it.
pub proof fn law_open_ends_are_trapped(
    lowered: BlockOutcome,
    current_block: Option<bool>,
    trap: bool,
)
    requires
        call_ensures(needs_trap, (lowered, current_block), trap),
    ensures
        lowered is Terminated ==> !trap,
        current_block is None ==> !trap,
        current_block == Some(true) ==> !trap,
        lowered is Normal && current_block == Some(false) ==> trap,
{
}

} // verus!
