//! What a wrapper does on every run, operation by operation.
use vstd::prelude::*;
use vstd::string::*;

use crate::lowering::agent::{IrAgent, IrParam};
use crate::lowering::type_laws::fails_with;
use crate::lowering::types::{
    extern_c_abi_type, extern_c_type, ClType, CodegenError, CodegenErrorKind, Shape, Span,
};
use crate::lowering::wrapper::{
    closing_ops, conversion_ops, define_extern_c_wrapper, emit_grounded_handle_store,
    is_crossing_error, is_finite_bits, opening_ops, params_cross, run_ops, Block, Op, RuntimeFn,
    Slot, Value, WrapperPlan,
};
use crate::lowering::wrapper_laws::{closing_path, law_every_run_takes_the_planned_path, path};
use crate::text::decimal;

verus! {

/// How many of the parameters are strings.
pub open spec fn strings(params: Seq<IrParam>) -> int
    decreases params.len(),
{
    if params.len() == 0 {
        0int
    } else {
        strings(params.drop_last()) + if params.last().ty.shape is String {
            1int
        } else {
            0int
        }
    }
}

proof fn lemma_strings_count(params: Seq<IrParam>)
    ensures
        strings(params) >= 0,
    decreases params.len(),
{
    if params.len() > 0 {
        lemma_strings_count(params.drop_last());
    }
}

proof fn lemma_strings_take(params: Seq<IrParam>, i: int)
    requires
        0 <= i < params.len(),
    ensures
        strings(params.take(i)) + (if params[i].ty.shape is String {
            1int
        } else {
            0int
        }) == strings(params.take(i + 1)),
        0 <= strings(params.take(i)) <= strings(params.take(i + 1)) <= strings(params),
    decreases params.len(),
{
    lemma_strings_count(params.take(i));
    assert(params.take(i + 1).drop_last() =~= params.take(i));
    if i + 1 == params.len() {
        assert(params.take(i + 1) =~= params);
    } else {
        lemma_strings_take(params.drop_last(), i);
        assert(params.drop_last().take(i + 1) =~= params.take(i + 1));
    }
}

proof fn lemma_conversion_at(agent: IrAgent, n: nat, i: int)
    requires
        n <= agent.params@.len(),
    ensures
        conversion_ops(agent, n).len() == strings(agent.params@.take(n as int)),
        0 <= i < n && agent.params@[i].ty.shape is String ==> 0 <= strings(agent.params@.take(i))
            < conversion_ops(agent, n).len() && conversion_ops(agent, n)[strings(
            agent.params@.take(i),
        )] == (Op::Call1 {
            func: RuntimeFn::StringFromCstr,
            arg: Value::Arg(i as usize),
            into: Some(Value::Converted(i as usize)),
        }),
    decreases n,
{
    assert(agent.params@.take(0).len() == 0);
    if n > 0 {
        let m = (n - 1) as nat;
        lemma_conversion_at(agent, m, i);
        lemma_strings_take(agent.params@, m as int);
        lemma_strings_count(agent.params@.take(i));
    }
}

/// The float is finite: its eleven exponent bits are not all set.
pub proof fn law_finite_floats_have_a_lower_exponent(bits: u64)
    ensures
        is_finite_bits(bits) <==> (bits >> 52) & 0x7ff != 0x7ff,
{
    assert((bits % 0x8000_0000_0000_0000 < 0x7ff0_0000_0000_0000) == ((bits >> 52) & 0x7ff
        != 0x7ff)) by (bit_vector);
}

/// Every run first starts the runtime, then begins an observation with the cost
/// budget of the agent, or without a bound where there is none or it is not
/// finite.
pub proof fn law_runs_begin_with_an_observation(
    agent: IrAgent,
    results: usize,
    plan: WrapperPlan,
    non_null: bool,
)
    requires
        call_ensures(define_extern_c_wrapper, (&agent, results), Ok(Some(plan))),
    ensures
        ({
            let run = path(plan.ops@, non_null, None);
            &&& run.len() > 3
            &&& run[0] == (Op::Call0 { func: RuntimeFn::RuntimeEmbedInit, into: None })
            &&& run[1] matches Op::FloatConst { bits, into }
            &&& into == Value::CostBound
            &&& match agent.cost_budget {
                Some(budget) => if (budget >> 52) & 0x7ff != 0x7ff {
                    bits == Some(budget)
                } else {
                    bits is None
                },
                None => bits is None,
            }
            &&& run[2] == (Op::Call1 {
                func: RuntimeFn::BeginDirectObservation,
                arg: Value::CostBound,
                into: None,
            })
        }),
{
    law_every_run_takes_the_planned_path(agent, plan, non_null);
    if let Some(budget) = agent.cost_budget {
        law_finite_floats_have_a_lower_exponent(budget);
    }
}

/// Then each string argument is converted, in order, and nothing else is; the
/// agent is called with the converted strings and with every other argument as
/// it came in.
pub proof fn law_strings_are_converted_for_the_call(
    agent: IrAgent,
    results: usize,
    plan: WrapperPlan,
    non_null: bool,
    i: int,
)
    requires
        call_ensures(define_extern_c_wrapper, (&agent, results), Ok(Some(plan))),
    ensures
        plan.call_args@.len() == agent.params@.len(),
        0 <= i < agent.params@.len() ==> if agent.params@[i].ty.shape is String {
            &&& plan.call_args@[i] == Value::Converted(i as usize)
            &&& path(plan.ops@, non_null, None)[3 + strings(agent.params@.take(i))] == (Op::Call1 {
                func: RuntimeFn::StringFromCstr,
                arg: Value::Arg(i as usize),
                into: Some(Value::Converted(i as usize)),
            })
        } else {
            plan.call_args@[i] == Value::Arg(i as usize)
        },
        path(plan.ops@, non_null, None)[3 + strings(agent.params@)] == (Op::NameConst {
            into: Value::EntryName,
        }),
{
    law_every_run_takes_the_planned_path(agent, plan, non_null);
    let n = agent.params@.len();
    assert(agent.params@.take(n as int) =~= agent.params@);
    lemma_conversion_at(agent, n, i);
    let run = path(plan.ops@, non_null, None);
    let conversions = conversion_ops(agent, n);
    assert(run[3 + strings(agent.params@)] == run_ops(agent)[0]);
    if 0 <= i < n && agent.params@[i].ty.shape is String {
        let at = strings(agent.params@.take(i));
        assert(run[3 + at] == conversions[at]);
    }
}

/// Then the start of the run is recorded under the agent's name with its
/// arguments, what that needed is released, the agent is called, and the
/// observation is ended at the caller's address for it.
pub proof fn law_the_agent_is_called_inside_the_observation(
    agent: IrAgent,
    results: usize,
    plan: WrapperPlan,
    non_null: bool,
)
    requires
        call_ensures(define_extern_c_wrapper, (&agent, results), Ok(Some(plan))),
    ensures
        ({
            let run = path(plan.ops@, non_null, None);
            let k = 3 + strings(agent.params@);
            &&& run.len() > k + 7
            &&& run[k] == (Op::NameConst { into: Value::EntryName })
            &&& run[k + 1] == (Op::TracePayload {
                tags: Value::TraceTags,
                count: Value::TraceCount,
                values: Value::TraceValues,
            })
            &&& run[k + 2] == (Op::RunStarted {
                name: Value::EntryName,
                tags: Value::TraceTags,
                count: Value::TraceCount,
                values: Value::TraceValues,
            })
            &&& run[k + 3] == (Op::Release { value: Value::TraceTags })
            &&& run[k + 4] == (Op::Release { value: Value::EntryName })
            &&& agent.return_ty.shape is Nothing ==> run[k + 5] == (Op::CallInner { into: None })
            &&& !(agent.return_ty.shape is Nothing) ==> run[k + 5] == (Op::CallInner {
                into: Some(Value::InnerResult),
            })
            &&& run[k + 6] == (Op::Call1 {
                func: RuntimeFn::FinishDirectObservation,
                arg: Value::ObservationOut,
                into: None,
            })
        }),
{
    law_every_run_takes_the_planned_path(agent, plan, non_null);
    let n = agent.params@.len();
    assert(agent.params@.take(n as int) =~= agent.params@);
    lemma_conversion_at(agent, n, 0);
    let run = path(plan.ops@, non_null, None);
    let k = 3 + strings(agent.params@);
    let middle = run_ops(agent);
    assert(closing_path(agent.return_ty, non_null).len() > 0);
    assert(run[k] == middle[0]);
    assert(run[k + 1] == middle[1]);
    assert(run[k + 2] == middle[2]);
    assert(run[k + 3] == middle[3]);
    assert(run[k + 4] == middle[4]);
    assert(run[k + 5] == middle[5]);
    assert(run[k + 6] == middle[6]);
}

/// What runs behind the end of the observation.
pub open spec fn ending(agent: IrAgent, plan: WrapperPlan, non_null: bool) -> Seq<Op> {
    path(plan.ops@, non_null, None).skip(10 + strings(agent.params@))
}

proof fn lemma_ending(agent: IrAgent, results: usize, plan: WrapperPlan, non_null: bool)
    requires
        call_ensures(define_extern_c_wrapper, (&agent, results), Ok(Some(plan))),
    ensures
        ending(agent, plan, non_null) == closing_path(agent.return_ty, non_null),
{
    law_every_run_takes_the_planned_path(agent, plan, non_null);
    let n = agent.params@.len();
    assert(agent.params@.take(n as int) =~= agent.params@);
    lemma_conversion_at(agent, n, 0);
    assert(ending(agent, plan, non_null) =~= closing_path(agent.return_ty, non_null));
}

/// The operation records a completed run.
pub open spec fn is_completion(op: Op) -> bool {
    op matches Op::Call1 { func, .. } && (func == RuntimeFn::TraceRunCompletedInt || func
        == RuntimeFn::TraceRunCompletedBool || func == RuntimeFn::TraceRunCompletedFloat || func
        == RuntimeFn::TraceRunCompletedString)
}

/// The type of the result, without its grounding.
pub open spec fn result_shape(agent: IrAgent) -> Shape {
    match agent.return_ty.shape {
        Shape::Grounded(inner) => inner.shape,
        shape => shape,
    }
}

/// A completed run is recorded by the function of the result's type, and by no
/// other: an integer by that for integers, a truth value by that for truth
/// values, a float by that for floats, a string by that for strings, grounded
/// or not. It is recorded once, with what the agent returned. Results of other
/// types are not recorded.
pub proof fn law_results_are_recorded_by_their_type(
    agent: IrAgent,
    results: usize,
    plan: WrapperPlan,
    non_null: bool,
    i: int,
)
    requires
        call_ensures(define_extern_c_wrapper, (&agent, results), Ok(Some(plan))),
    ensures
        ({
            let run = path(plan.ops@, non_null, None);
            let at = 10 + strings(agent.params@);
            &&& result_shape(agent) is Int ==> run[at] == (Op::Call1 {
                func: RuntimeFn::TraceRunCompletedInt,
                arg: Value::InnerResult,
                into: None,
            })
            &&& result_shape(agent) is Bool ==> run[at] == (Op::Call1 {
                func: RuntimeFn::TraceRunCompletedBool,
                arg: Value::InnerResult,
                into: None,
            })
            &&& result_shape(agent) is Float ==> run[at] == (Op::Call1 {
                func: RuntimeFn::TraceRunCompletedFloat,
                arg: Value::InnerResult,
                into: None,
            })
            &&& result_shape(agent) is String ==> run[at] == (Op::Call1 {
                func: RuntimeFn::TraceRunCompletedString,
                arg: Value::InnerResult,
                into: None,
            })
            &&& 0 <= i < run.len() && is_completion(run[i]) ==> i == at && (result_shape(
                agent,
            ) is Int || result_shape(agent) is Bool || result_shape(agent) is Float || result_shape(
                agent,
            ) is String)
        }),
{
    law_every_run_takes_the_planned_path(agent, plan, non_null);
    lemma_ending(agent, results, plan, non_null);
    let run = path(plan.ops@, non_null, None);
    let n = agent.params@.len();
    let at = 10 + strings(agent.params@);
    assert(agent.params@.take(n as int) =~= agent.params@);
    lemma_conversion_at(agent, n, 0);
    let end = ending(agent, plan, non_null);
    let opening = opening_ops(agent);
    let conversions = conversion_ops(agent, n);
    let middle = run_ops(agent);
    assert(run == opening + conversions + middle + end);
    assert(end.len() > 0);
    assert(run[at] == end[0]);
    if 0 <= i < run.len() && is_completion(run[i]) {
        if i < 3 {
            assert(run[i] == opening[i]);
        } else if i < 3 + conversions.len() {
            assert(run[i] == conversions[i - 3]);
            lemma_conversions_only_convert(agent, n, i - 3);
        } else if i < at {
            assert(run[i] == middle[i - 3 - conversions.len()]);
        } else {
            assert(run[i] == end[i - at]);
        }
    }
}

proof fn lemma_conversions_only_convert(agent: IrAgent, n: nat, j: int)
    requires
        0 <= j < conversion_ops(agent, n).len(),
    ensures
        conversion_ops(agent, n)[j] matches Op::Call1 { func, .. } && func
            == RuntimeFn::StringFromCstr,
    decreases n,
{
    if n > 0 {
        let before = conversion_ops(agent, (n - 1) as nat);
        if j < before.len() {
            lemma_conversions_only_convert(agent, (n - 1) as nat, j);
        }
    }
}

/// Every run ends with the return of the result: a string as the C string that
/// it is converted to right before, any other value as it is, and nothing where
/// the agent returns nothing.
pub proof fn law_runs_return_the_result(
    agent: IrAgent,
    results: usize,
    plan: WrapperPlan,
    non_null: bool,
)
    requires
        call_ensures(define_extern_c_wrapper, (&agent, results), Ok(Some(plan))),
    ensures
        ({
            let run = path(plan.ops@, non_null, None);
            &&& run.len() > 1
            &&& agent.return_ty.shape is Nothing ==> run.last() == (Op::Return { value: None })
            &&& result_shape(agent) is String ==> run.last() == (Op::Return {
                value: Some(Value::Text),
            }) && run[run.len() - 2] == (Op::Call1 {
                func: RuntimeFn::StringIntoCstr,
                arg: Value::InnerResult,
                into: Some(Value::Text),
            })
            &&& !(agent.return_ty.shape is Nothing) && !(result_shape(agent) is String)
                ==> run.last() == (Op::Return { value: Some(Value::InnerResult) })
        }),
{
    law_every_run_takes_the_planned_path(agent, plan, non_null);
    lemma_ending(agent, results, plan, non_null);
    let run = path(plan.ops@, non_null, None);
    let end = closing_path(agent.return_ty, non_null);
    assert(end.len() > 0);
    assert(run.last() == end.last());
    if result_shape(agent) is String {
        assert(end.len() > 1);
        assert(run[run.len() - 2] == end[end.len() - 2]);
    }
}

/// Where the return is grounded, the grounding of the result is captured before
/// it is returned: that of a string from the string, that of any other value
/// without it. The handle is stored at the caller's address exactly if that is
/// not null.
pub proof fn law_groundings_are_captured_and_handed_out(
    agent: IrAgent,
    results: usize,
    plan: WrapperPlan,
    non_null: bool,
    i: int,
)
    requires
        call_ensures(define_extern_c_wrapper, (&agent, results), Ok(Some(plan))),
    ensures
        ({
            let end = ending(agent, plan, non_null);
            let recorded = result_shape(agent) is Int || result_shape(agent) is Bool
                || result_shape(agent) is Float || result_shape(agent) is String;
            let k: int = if recorded {
                1
            } else {
                0
            };
            if agent.return_ty.shape is Grounded {
                &&& end[k] == if result_shape(agent) is String {
                    Op::Call1 {
                        func: RuntimeFn::GroundedCaptureStringHandle,
                        arg: Value::InnerResult,
                        into: Some(Value::Handle),
                    }
                } else {
                    Op::Call0 {
                        func: RuntimeFn::GroundedCaptureScalarHandle,
                        into: Some(Value::Handle),
                    }
                }
                &&& end[k + 1] == (Op::ZeroConst { into: Value::Zero })
                &&& end[k + 2] == (Op::NotEqual {
                    left: Value::GroundedOut,
                    right: Value::Zero,
                    into: Value::NonNull,
                })
                &&& non_null ==> end[k + 3] == (Op::Store {
                    value: Value::Handle,
                    address: Value::GroundedOut,
                })
                &&& 0 <= i < end.len() && end[i] is Store ==> non_null && i == k + 3
            } else {
                0 <= i < end.len() ==> !(end[i] is Store)
            }
        }),
{
    lemma_ending(agent, results, plan, non_null);
}

/// The only branch of a wrapper goes by whether the caller's address is not
/// null.
pub proof fn law_wrappers_branch_on_the_address_only(
    agent: IrAgent,
    results: usize,
    plan: WrapperPlan,
    i: int,
    stores: Vec<Op>,
)
    requires
        call_ensures(define_extern_c_wrapper, (&agent, results), Ok(Some(plan))),
        call_ensures(emit_grounded_handle_store, (), stores),
    ensures
        0 <= i < plan.ops@.len() && plan.ops@[i] is Branch ==> plan.ops@[i] == (Op::Branch {
            condition: Value::NonNull,
            yes: Block::Write,
            no: Block::Done,
        }) && agent.return_ty.shape is Grounded,
        stores@.len() == 7,
        stores@[0] == (Op::ZeroConst { into: Value::Zero }),
        stores@[1] == (Op::NotEqual {
            left: Value::GroundedOut,
            right: Value::Zero,
            into: Value::NonNull,
        }),
        stores@[2] == (Op::Branch {
            condition: Value::NonNull,
            yes: Block::Write,
            no: Block::Done,
        }),
        stores@[3] == (Op::Enter { block: Block::Write }),
        stores@[4] == (Op::Store { value: Value::Handle, address: Value::GroundedOut }),
        stores@[5] == (Op::Jump { block: Block::Done }),
        stores@[6] == (Op::Enter { block: Block::Done }),
{
    let n = agent.params@.len();
    let opening = opening_ops(agent);
    let conversions = conversion_ops(agent, n);
    let middle = run_ops(agent);
    let closing = closing_ops(agent.return_ty);
    let ops = plan.ops@;
    assert(ops == opening + conversions + middle + closing);
    if 0 <= i < ops.len() && ops[i] is Branch {
        if i < 3 {
            assert(ops[i] == opening[i]);
        } else if i < 3 + conversions.len() {
            assert(ops[i] == conversions[i - 3]);
            lemma_conversions_only_convert(agent, n, i - 3);
        } else if i < 10 + conversions.len() {
            assert(ops[i] == middle[i - 3 - conversions.len()]);
        } else {
            assert(ops[i] == closing[i - 10 - conversions.len()]);
        }
    }
}

/// The exported function has the agent's name. Its parameters are the agent's
/// own in their order and machine types, an address for the grounded handle
/// where the return is grounded, and an address for the observation handle. It
/// gives what the agent returns, in its machine type, or nothing.
pub proof fn law_exports_take_arguments_and_addresses(
    agent: IrAgent,
    results: usize,
    plan: WrapperPlan,
    i: int,
    span: Span,
    ty: Result<ClType, CodegenError>,
    given: Result<ClType, CodegenError>,
)
    requires
        call_ensures(define_extern_c_wrapper, (&agent, results), Ok(Some(plan))),
        0 <= i < agent.params@.len() ==> call_ensures(
            extern_c_abi_type,
            (&agent.params@[i].ty, span),
            ty,
        ),
        call_ensures(extern_c_abi_type, (&agent.return_ty, span), given),
    ensures
        plan.symbol@ == agent.name@,
        0 <= i < agent.params@.len() ==> (ty matches Ok(t) && plan.params@[i] == (Slot {
            ty: t,
            value: Value::Arg(i as usize),
        })),
        ({
            let n = agent.params@.len() as int;
            let address = |value: Value| Slot { ty: ClType::I64, value };
            if agent.return_ty.shape is Grounded {
                plan.params@.len() == n + 2 && plan.params@[n] == address(Value::GroundedOut)
                    && plan.params@[n + 1] == address(Value::ObservationOut)
            } else {
                plan.params@.len() == n + 1 && plan.params@[n] == address(Value::ObservationOut)
            }
        }),
        if agent.return_ty.shape is Nothing {
            plan.outputs@.len() == 0
        } else {
            given matches Ok(t) && plan.outputs@ == seq![t]
        },
{
    if 0 <= i < agent.params@.len() {
        assert(extern_c_type(agent.params@[i].ty) is Ok);
    }
}

/// An agent that is not exported has no wrapper. One that is has a wrapper
/// exactly if all its parameters cross the C boundary, its return does or is
/// `Nothing`, and its own function gives no result for `Nothing` and one or
/// more for everything else.
pub proof fn law_exported_agents_have_wrappers(
    agent: IrAgent,
    results: usize,
    result: Result<Option<WrapperPlan>, CodegenError>,
)
    requires
        call_ensures(define_extern_c_wrapper, (&agent, results), result),
    ensures
        agent.extern_abi is None ==> (result matches Ok(plan) && plan is None),
        agent.extern_abi is Some ==> {
            &&& result is Ok <==> {
                &&& forall|i: int|
                    0 <= i < agent.params@.len() ==> extern_c_type(
                        #[trigger] agent.params@[i].ty,
                    ) is Ok
                &&& agent.return_ty.shape is Nothing || extern_c_type(agent.return_ty) is Ok
                &&& agent.return_ty.shape is Nothing <==> results == 0
            }
            &&& result matches Ok(plan) ==> plan is Some
        },
{
    if params_cross(agent, agent.params@.len() as int) {
        assert forall|i: int| 0 <= i < agent.params@.len() implies extern_c_type(
            #[trigger] agent.params@[i].ty,
        ) is Ok by {}
    }
}

/// A wrapper that is refused for the number of results names the agent, what
/// was expected and what was got; one that is refused for a type names the
/// first type that does not cross, as that type is refused, parameters before
/// the return.
pub proof fn law_refused_wrappers_name_the_reason(
    agent: IrAgent,
    results: usize,
    e: CodegenError,
    i: int,
    refused: Result<ClType, CodegenError>,
    returned: Result<ClType, CodegenError>,
)
    requires
        agent.extern_abi is Some,
        call_ensures(define_extern_c_wrapper, (&agent, results), Err(e)),
        0 <= i < agent.params@.len() ==> call_ensures(
            extern_c_abi_type,
            (&agent.params@[i].ty, agent.params@[i].span),
            refused,
        ),
        call_ensures(extern_c_abi_type, (&agent.return_ty, agent.span), returned),
    ensures
        0 <= i < agent.params@.len() && extern_c_type(agent.params@[i].ty) is Err && (forall|k: int|
            0 <= k < i ==> extern_c_type(#[trigger] agent.params@[k].ty) is Ok) ==> (
        refused matches Err(f) && fails_with(e, f.kind, f.message@, f.span)),
        (forall|k: int|
            0 <= k < agent.params@.len() ==> extern_c_type(#[trigger] agent.params@[k].ty) is Ok)
            ==> if agent.return_ty.shape is Nothing {
            fails_with(
                e,
                CodegenErrorKind::Cranelift,
                "extern-c wrapper `"@ + agent.name@ + "` expected no result, got "@ + decimal(
                    results as nat,
                ) + " value(s)"@,
                agent.span,
            )
        } else if extern_c_type(agent.return_ty) is Err {
            returned matches Err(f) && fails_with(e, f.kind, f.message@, f.span)
        } else {
            fails_with(
                e,
                CodegenErrorKind::Cranelift,
                "extern-c wrapper `"@ + agent.name@ + "` expected "@ + (if agent.return_ty.shape is String {
                    "one String result"@
                } else if agent.return_ty.shape is Grounded && result_shape(agent) is String {
                    "one grounded String result"@
                } else if agent.return_ty.shape is Grounded {
                    "one grounded scalar result"@
                } else {
                    "one scalar result"@
                }) + ", got "@ + decimal(results as nat),
                agent.span,
            )
        },
{
    if 0 <= i < agent.params@.len() && extern_c_type(agent.params@[i].ty) is Err && (forall|k: int|
        0 <= k < i ==> extern_c_type(#[trigger] agent.params@[k].ty) is Ok) {
        assert(!params_cross(agent, agent.params@.len() as int)) by {
            assert(extern_c_type(agent.params@[i].ty) is Err);
        }
        assert(is_crossing_error(agent, e));
        let n = choose|n: int|
            #![trigger agent.params@[n]]
            {
                &&& 0 <= n < agent.params@.len()
                &&& params_cross(agent, n)
                &&& extern_c_type(agent.params@[n].ty) is Err
                &&& e.reports(extern_c_type(agent.params@[n].ty)->Err_0, agent.params@[n].span)
            };
        if n < i {
            assert(extern_c_type(agent.params@[n].ty) is Ok);
        }
        if i < n {
            assert(extern_c_type(agent.params@[i].ty) is Ok);
        }
    }
    if forall|k: int|
        0 <= k < agent.params@.len() ==> extern_c_type(#[trigger] agent.params@[k].ty) is Ok {
        assert(params_cross(agent, agent.params@.len() as int));
    }
}

} // verus!
