//! The C-callable wrapper around an exported agent.
//!
//! A wrapper is planned as a signature and a list of operations over named
//! values. Each name is written by one operation, so the plan can be emitted
//! operation by operation.
use vstd::prelude::*;
use vstd::string::*;

use crate::lowering::agent::{IrAgent, IrExternAbi, IrParam};
use crate::lowering::types::{
    cranelift_refusal, extern_c_abi_type, extern_c_type, grounded_extern_c_return_inner, ClType,
    CodegenError, Refusal, Shape, Type,
};
use crate::text::{decimal, decimal_text};

verus! {

/// A value of the wrapper.
#[derive(Clone, Copy, Debug, PartialEq, Eq, Structural)]
pub enum Value {
    /// The incoming argument for an agent parameter.
    Arg(usize),
    /// The incoming address for the grounded handle.
    GroundedOut,
    /// The incoming address for the observation handle.
    ObservationOut,
    /// The cost bound of the observation.
    CostBound,
    /// An incoming C string as a runtime string.
    Converted(usize),
    /// The agent's name.
    EntryName,
    /// The type tags of the recorded arguments.
    TraceTags,
    /// The number of recorded arguments.
    TraceCount,
    /// The address of the recorded arguments.
    TraceValues,
    /// What the agent returned.
    InnerResult,
    /// The handle of the captured grounding.
    Handle,
    /// The null address.
    Zero,
    /// Whether the address for the grounded handle is not null.
    NonNull,
    /// The returned string as a C string.
    Text,
}

/// The runtime functions that a wrapper calls.
#[derive(Clone, Copy, Debug, PartialEq, Eq, Structural)]
pub enum RuntimeFn {
    RuntimeEmbedInit,
    BeginDirectObservation,
    StringFromCstr,
    TraceRunStarted,
    FinishDirectObservation,
    TraceRunCompletedInt,
    TraceRunCompletedBool,
    TraceRunCompletedFloat,
    TraceRunCompletedString,
    StringIntoCstr,
    GroundedCaptureStringHandle,
    GroundedCaptureScalarHandle,
}

/// The blocks that follow the entry block.
#[derive(Clone, Copy, Debug, PartialEq, Eq, Structural)]
pub enum Block {
    Write,
    Done,
}

/// One operation of a wrapper.
#[allow(inconsistent_fields)]
#[derive(Clone, Copy, Debug, PartialEq, Eq, Structural)]
pub enum Op {
    /// A float constant given by its bits, or not-a-number.
    FloatConst { bits: Option<u64>, into: Value },
    /// A call without arguments.
    Call0 { func: RuntimeFn, into: Option<Value> },
    /// A call with one argument.
    Call1 { func: RuntimeFn, arg: Value, into: Option<Value> },
    /// The agent's name as a runtime string.
    NameConst { into: Value },
    /// The arguments of the agent call, packed for recording.
    TracePayload { tags: Value, count: Value, values: Value },
    /// The call that records the start of the run.
    RunStarted { name: Value, tags: Value, count: Value, values: Value },
    /// Gives up a reference.
    Release { value: Value },
    /// The call of the agent itself, with the plan's call arguments.
    CallInner { into: Option<Value> },
    /// The integer constant zero.
    ZeroConst { into: Value },
    /// Whether two integers differ.
    NotEqual { left: Value, right: Value, into: Value },
    /// A two-way jump.
    Branch { condition: Value, yes: Block, no: Block },
    /// The start of a block.
    Enter { block: Block },
    /// A 64-bit store.
    Store { value: Value, address: Value },
    /// A jump.
    Jump { block: Block },
    /// The return of at most one value.
    Return { value: Option<Value> },
}

/// One parameter of the exported function.
#[derive(Clone, Copy, Debug, PartialEq, Eq, Structural)]
pub struct Slot {
    pub ty: ClType,
    pub value: Value,
}

/// The plan of one exported function.
#[derive(Debug)]
pub struct WrapperPlan {
    /// The exported name.
    pub symbol: String,
    pub params: Vec<Slot>,
    pub outputs: Vec<ClType>,
    /// The arguments of the agent call, in order.
    pub call_args: Vec<Value>,
    pub ops: Vec<Op>,
}

// ---------------------------------------------------------------------------
// What a plan is
// ---------------------------------------------------------------------------
/// The type is grounded.
pub open spec fn is_grounded(ty: Type) -> bool {
    ty.shape is Grounded
}

/// Every parameter of the first `n` can cross the C boundary.
pub open spec fn params_cross(agent: IrAgent, n: int) -> bool {
    forall|i: int| 0 <= i < n ==> extern_c_type(#[trigger] agent.params@[i].ty) is Ok
}

/// The return type is `Nothing` or can cross the C boundary.
pub open spec fn return_crosses(agent: IrAgent) -> bool {
    agent.return_ty.shape is Nothing || extern_c_type(agent.return_ty) is Ok
}

/// The slots of the agent's own parameters.
pub open spec fn argument_slots(agent: IrAgent) -> Seq<Slot> {
    Seq::new(
        agent.params@.len(),
        |i: int|
            Slot { ty: extern_c_type(agent.params@[i].ty)->Ok_0, value: Value::Arg(i as usize) },
    )
}

/// The exported parameters: the agent's own, an address for the grounded
/// handle where the return is grounded, and one for the observation handle.
pub open spec fn wrapper_params(agent: IrAgent) -> Seq<Slot> {
    let own = argument_slots(agent);
    let with_handle = if is_grounded(agent.return_ty) {
        own.push(Slot { ty: ClType::I64, value: Value::GroundedOut })
    } else {
        own
    };
    with_handle.push(Slot { ty: ClType::I64, value: Value::ObservationOut })
}

/// The exported results.
pub open spec fn wrapper_outputs(agent: IrAgent) -> Seq<ClType> {
    if agent.return_ty.shape is Nothing {
        Seq::empty()
    } else {
        seq![extern_c_type(agent.return_ty)->Ok_0]
    }
}

/// What the agent call is given for parameter `i`: a string is converted
/// first, everything else is passed on.
pub open spec fn call_arg(agent: IrAgent, i: int) -> Value {
    if agent.params@[i].ty.shape is String {
        Value::Converted(i as usize)
    } else {
        Value::Arg(i as usize)
    }
}

pub open spec fn wrapper_call_args(agent: IrAgent) -> Seq<Value> {
    Seq::new(agent.params@.len(), |i: int| call_arg(agent, i))
}

/// A 64-bit float is finite: its exponent bits are not all set.
pub open spec fn is_finite_bits(bits: u64) -> bool {
    (bits as int) % 0x8000_0000_0000_0000 < 0x7ff0_0000_0000_0000
}

/// The cost bound that the observation starts with, if there is a finite one.
pub open spec fn cost_bound(agent: IrAgent) -> Option<u64> {
    match agent.cost_budget {
        Some(bits) => if is_finite_bits(bits) {
            Some(bits)
        } else {
            None
        },
        None => None,
    }
}

/// The runtime starts and the observation begins.
pub open spec fn opening_ops(agent: IrAgent) -> Seq<Op> {
    seq![
        Op::Call0 { func: RuntimeFn::RuntimeEmbedInit, into: None },
        Op::FloatConst { bits: cost_bound(agent), into: Value::CostBound },
        Op::Call1 { func: RuntimeFn::BeginDirectObservation, arg: Value::CostBound, into: None },
    ]
}

/// The C strings among the first `n` arguments become runtime strings.
pub open spec fn conversion_ops(agent: IrAgent, n: nat) -> Seq<Op>
    decreases n,
{
    if n == 0 {
        Seq::empty()
    } else {
        let before = conversion_ops(agent, (n - 1) as nat);
        if agent.params@[n - 1].ty.shape is String {
            before.push(
                Op::Call1 {
                    func: RuntimeFn::StringFromCstr,
                    arg: Value::Arg((n - 1) as usize),
                    into: Some(Value::Converted((n - 1) as usize)),
                },
            )
        } else {
            before
        }
    }
}

/// The value that the agent call defines.
pub open spec fn inner_value(agent: IrAgent) -> Option<Value> {
    if agent.return_ty.shape is Nothing {
        None
    } else {
        Some(Value::InnerResult)
    }
}

/// The run is recorded as started, the agent called, the observation ended.
pub open spec fn run_ops(agent: IrAgent) -> Seq<Op> {
    seq![
        Op::NameConst { into: Value::EntryName },
        Op::TracePayload {
            tags: Value::TraceTags,
            count: Value::TraceCount,
            values: Value::TraceValues,
        },
        Op::RunStarted {
            name: Value::EntryName,
            tags: Value::TraceTags,
            count: Value::TraceCount,
            values: Value::TraceValues,
        },
        Op::Release { value: Value::TraceTags },
        Op::Release { value: Value::EntryName },
        Op::CallInner { into: inner_value(agent) },
        Op::Call1 {
            func: RuntimeFn::FinishDirectObservation,
            arg: Value::ObservationOut,
            into: None,
        },
    ]
}

/// The function that records a completed run with a result of this type.
pub open spec fn completion_of(ty: Type) -> Option<RuntimeFn> {
    match ty.shape {
        Shape::Int => Some(RuntimeFn::TraceRunCompletedInt),
        Shape::Bool => Some(RuntimeFn::TraceRunCompletedBool),
        Shape::Float => Some(RuntimeFn::TraceRunCompletedFloat),
        Shape::String => Some(RuntimeFn::TraceRunCompletedString),
        _ => None,
    }
}

/// The run is recorded as completed, where a result of this type is recorded.
pub open spec fn completion_ops(ty: Type) -> Seq<Op> {
    match completion_of(ty) {
        Some(func) => seq![Op::Call1 { func, arg: Value::InnerResult, into: None }],
        None => Seq::empty(),
    }
}

/// The handle is stored at the caller's address, unless that is null.
pub open spec fn handle_store_ops() -> Seq<Op> {
    seq![
        Op::ZeroConst { into: Value::Zero },
        Op::NotEqual { left: Value::GroundedOut, right: Value::Zero, into: Value::NonNull },
        Op::Branch { condition: Value::NonNull, yes: Block::Write, no: Block::Done },
        Op::Enter { block: Block::Write },
        Op::Store { value: Value::Handle, address: Value::GroundedOut },
        Op::Jump { block: Block::Done },
        Op::Enter { block: Block::Done },
    ]
}

/// The grounding of the result is captured.
pub open spec fn capture_ops(inner: Type) -> Seq<Op> {
    if inner.shape is String {
        seq![
            Op::Call1 {
                func: RuntimeFn::GroundedCaptureStringHandle,
                arg: Value::InnerResult,
                into: Some(Value::Handle),
            },
        ]
    } else {
        seq![
            Op::Call0 {
                func: RuntimeFn::GroundedCaptureScalarHandle,
                into: Some(Value::Handle),
            },
        ]
    }
}

/// The result is handed to the caller, a string as a C string.
pub open spec fn return_ops(ty: Type) -> Seq<Op> {
    if ty.shape is String {
        seq![
            Op::Call1 {
                func: RuntimeFn::StringIntoCstr,
                arg: Value::InnerResult,
                into: Some(Value::Text),
            },
            Op::Return { value: Some(Value::Text) },
        ]
    } else {
        seq![Op::Return { value: Some(Value::InnerResult) }]
    }
}

/// What follows the agent call, by the agent's return type.
pub open spec fn closing_ops(return_ty: Type) -> Seq<Op> {
    match return_ty.shape {
        Shape::Nothing => seq![Op::Return { value: None }],
        Shape::Grounded(inner) => completion_ops(*inner) + capture_ops(*inner) + handle_store_ops()
            + return_ops(*inner),
        _ => completion_ops(return_ty) + return_ops(return_ty),
    }
}

/// All operations of the wrapper.
pub open spec fn wrapper_ops(agent: IrAgent) -> Seq<Op> {
    opening_ops(agent) + conversion_ops(agent, agent.params@.len()) + run_ops(agent) + closing_ops(
        agent.return_ty,
    )
}

/// What the wrapper expects the agent call to give, in words.
pub open spec fn expected_result(return_ty: Type) -> Seq<char> {
    match return_ty.shape {
        Shape::String => "one String result"@,
        Shape::Grounded(inner) => if inner.shape is String {
            "one grounded String result"@
        } else {
            "one grounded scalar result"@
        },
        _ => "one scalar result"@,
    }
}

/// Why an agent call with `results` results does not fit.
pub open spec fn result_refusal(agent: IrAgent, results: nat) -> Refusal {
    cranelift_refusal(
        if agent.return_ty.shape is Nothing {
            "extern-c wrapper `"@ + agent.name@ + "` expected no result, got "@ + decimal(results)
                + " value(s)"@
        } else {
            "extern-c wrapper `"@ + agent.name@ + "` expected "@ + expected_result(agent.return_ty)
                + ", got "@ + decimal(results)
        },
    )
}

/// An agent call with `results` results fits the agent's return type.
pub open spec fn results_fit(agent: IrAgent, results: nat) -> bool {
    if agent.return_ty.shape is Nothing {
        results == 0
    } else {
        results > 0
    }
}

/// The plan is the wrapper of the agent.
pub open spec fn is_wrapper_of(plan: WrapperPlan, agent: IrAgent) -> bool {
    &&& plan.symbol@ == agent.name@
    &&& plan.params@ == wrapper_params(agent)
    &&& plan.outputs@ == wrapper_outputs(agent)
    &&& plan.call_args@ == wrapper_call_args(agent)
    &&& plan.ops@ == wrapper_ops(agent)
}

// ---------------------------------------------------------------------------
// Planning
// ---------------------------------------------------------------------------
/// Appends operations to a list.
fn append_ops(ops: &mut Vec<Op>, more: Vec<Op>)
    ensures
        final(ops)@ == old(ops)@ + more@,
{
    let mut more: Vec<Op> = more;
    ops.append(&mut more);
}

/// Whether a 64-bit float is finite, by its bits.
fn finite_bits(bits: u64) -> (finite: bool)
    ensures
        finite == is_finite_bits(bits),
{
    bits % 0x8000_0000_0000_0000 < 0x7ff0_0000_0000_0000
}

/// The operations that store the grounded handle unless the caller passed a
/// null address.
pub fn emit_grounded_handle_store() -> (ops: Vec<Op>)
    ensures
        ops@ == handle_store_ops(),
{
    vec![
        Op::ZeroConst { into: Value::Zero },
        Op::NotEqual { left: Value::GroundedOut, right: Value::Zero, into: Value::NonNull },
        Op::Branch { condition: Value::NonNull, yes: Block::Write, no: Block::Done },
        Op::Enter { block: Block::Write },
        Op::Store { value: Value::Handle, address: Value::GroundedOut },
        Op::Jump { block: Block::Done },
        Op::Enter { block: Block::Done },
    ]
}

/// The operations that record a completed run, where the type is recorded.
fn completion(ty: &Type) -> (ops: Vec<Op>)
    ensures
        ops@ == completion_ops(*ty),
{
    let func: RuntimeFn = match &ty.shape {
        Shape::Int => RuntimeFn::TraceRunCompletedInt,
        Shape::Bool => RuntimeFn::TraceRunCompletedBool,
        Shape::Float => RuntimeFn::TraceRunCompletedFloat,
        Shape::String => RuntimeFn::TraceRunCompletedString,
        _ => {
            return Vec::new();
        },
    };
    vec![Op::Call1 { func, arg: Value::InnerResult, into: None }]
}

/// The operations that hand the result to the caller.
fn hand_over(ty: &Type) -> (ops: Vec<Op>)
    ensures
        ops@ == return_ops(*ty),
{
    if let Shape::String = ty.shape {
        vec![
            Op::Call1 {
                func: RuntimeFn::StringIntoCstr,
                arg: Value::InnerResult,
                into: Some(Value::Text),
            },
            Op::Return { value: Some(Value::Text) },
        ]
    } else {
        vec![Op::Return { value: Some(Value::InnerResult) }]
    }
}

/// The operations that capture the grounding of the result.
fn capture(inner: &Type) -> (ops: Vec<Op>)
    ensures
        ops@ == capture_ops(*inner),
{
    if let Shape::String = inner.shape {
        vec![
            Op::Call1 {
                func: RuntimeFn::GroundedCaptureStringHandle,
                arg: Value::InnerResult,
                into: Some(Value::Handle),
            },
        ]
    } else {
        vec![
            Op::Call0 {
                func: RuntimeFn::GroundedCaptureScalarHandle,
                into: Some(Value::Handle),
            },
        ]
    }
}

/// The operations that follow the agent call.
fn closing(return_ty: &Type) -> (ops: Vec<Op>)
    ensures
        ops@ == closing_ops(*return_ty),
{
    if let Shape::Nothing = return_ty.shape {
        return vec![Op::Return { value: None }];
    }
    match grounded_extern_c_return_inner(return_ty) {
        Some(inner) => {
            let mut ops: Vec<Op> = completion(inner);
            append_ops(&mut ops, capture(inner));
            append_ops(&mut ops, emit_grounded_handle_store());
            append_ops(&mut ops, hand_over(inner));
            ops
        },
        None => {
            let mut ops: Vec<Op> = completion(return_ty);
            append_ops(&mut ops, hand_over(return_ty));
            ops
        },
    }
}

/// Fails where the agent call does not give what the return type calls for.
fn check_results(agent: &IrAgent, results: usize) -> (checked: Result<(), CodegenError>)
    ensures
        checked is Ok <==> results_fit(*agent, results as nat),
        checked matches Err(e) ==> e.reports(result_refusal(*agent, results as nat), agent.span),
{
    let got: String = decimal_text(results as u64);
    let mut message: String = String::from_str("extern-c wrapper `");
    message.append(agent.name.as_str());
    let wanted: &'static str = match &agent.return_ty.shape {
        Shape::Nothing => {
            if results == 0 {
                return Ok(());
            }
            message.append("` expected no result, got ");
            message.append(got.as_str());
            message.append(" value(s)");
            return Err(CodegenError::cranelift(message, agent.span));
        },
        Shape::String => "one String result",
        Shape::Grounded(inner) => if let Shape::String = inner.shape {
            "one grounded String result"
        } else {
            "one grounded scalar result"
        },
        _ => "one scalar result",
    };
    if results > 0 {
        return Ok(());
    }
    message.append("` expected ");
    message.append(wanted);
    message.append(", got ");
    message.append(got.as_str());
    Err(CodegenError::cranelift(message, agent.span))
}

/// The exported parameters and results, or the first type that cannot cross.
fn signature(agent: &IrAgent) -> (result: Result<(Vec<Slot>, Vec<ClType>), CodegenError>)
    ensures
        result is Ok <==> params_cross(*agent, agent.params@.len() as int) && return_crosses(
            *agent,
        ),
        result matches Ok(parts) ==> parts.0@ == wrapper_params(*agent) && parts.1@
            == wrapper_outputs(*agent),
        result matches Err(e) ==> is_crossing_error(*agent, e),
{
    let mut params: Vec<Slot> = Vec::new();
    let mut i: usize = 0;
    while i < agent.params.len()
        invariant
            i <= agent.params@.len(),
            params_cross(*agent, i as int),
            params@ == argument_slots(*agent).take(i as int),
        decreases agent.params@.len() - i,
    {
        let p: &IrParam = &agent.params[i];
        match extern_c_abi_type(&p.ty, p.span) {
            Ok(ty) => {
                proof {
                    assert(argument_slots(*agent).take(i + 1) =~= argument_slots(*agent).take(
                        i as int,
                    ).push(argument_slots(*agent)[i as int]));
                }
                params.push(Slot { ty, value: Value::Arg(i) });
            },
            Err(e) => {
                proof {
                    assert(extern_c_type(agent.params@[i as int].ty) is Err);
                }
                return Err(e);
            },
        }
        i = i + 1;
    }
    proof {
        assert(argument_slots(*agent).take(agent.params@.len() as int) =~= argument_slots(*agent));
    }
    if grounded_extern_c_return_inner(&agent.return_ty).is_some() {
        params.push(Slot { ty: ClType::I64, value: Value::GroundedOut });
    }
    params.push(Slot { ty: ClType::I64, value: Value::ObservationOut });
    let mut outputs: Vec<ClType> = Vec::new();
    if let Shape::Nothing = agent.return_ty.shape {
        return Ok((params, outputs));
    }
    match extern_c_abi_type(&agent.return_ty, agent.span) {
        Ok(ty) => {
            outputs.push(ty);
            proof {
                assert(outputs@ =~= wrapper_outputs(*agent));
            }
            Ok((params, outputs))
        },
        Err(e) => Err(e),
    }
}

/// Converts the C strings among the arguments.
fn convert_args(agent: &IrAgent) -> (parts: (Vec<Op>, Vec<Value>))
    ensures
        parts.0@ == conversion_ops(*agent, agent.params@.len()),
        parts.1@ == wrapper_call_args(*agent),
{
    let mut ops: Vec<Op> = Vec::new();
    let mut args: Vec<Value> = Vec::new();
    let mut i: usize = 0;
    while i < agent.params.len()
        invariant
            i <= agent.params@.len(),
            ops@ == conversion_ops(*agent, i as nat),
            args@ == wrapper_call_args(*agent).take(i as int),
        decreases agent.params@.len() - i,
    {
        proof {
            assert(wrapper_call_args(*agent).take(i + 1) =~= wrapper_call_args(*agent).take(
                i as int,
            ).push(call_arg(*agent, i as int)));
        }
        if let Shape::String = agent.params[i].ty.shape {
            ops.push(
                Op::Call1 {
                    func: RuntimeFn::StringFromCstr,
                    arg: Value::Arg(i),
                    into: Some(Value::Converted(i)),
                },
            );
            args.push(Value::Converted(i));
        } else {
            args.push(Value::Arg(i));
        }
        i = i + 1;
    }
    proof {
        assert(wrapper_call_args(*agent).take(agent.params@.len() as int)
            =~= wrapper_call_args(*agent));
    }
    (ops, args)
}

/// The error names the first type of the agent that cannot cross the C
/// boundary.
pub open spec fn is_crossing_error(agent: IrAgent, e: CodegenError) -> bool {
    ||| exists|i: int|
        #![trigger agent.params@[i]]
        {
            &&& 0 <= i < agent.params@.len()
            &&& params_cross(agent, i)
            &&& extern_c_type(agent.params@[i].ty) is Err
            &&& e.reports(extern_c_type(agent.params@[i].ty)->Err_0, agent.params@[i].span)
        }
    ||| {
        &&& params_cross(agent, agent.params@.len() as int)
        &&& !return_crosses(agent)
        &&& e.reports(extern_c_type(agent.return_ty)->Err_0, agent.span)
    }
}

/// Plans the C-callable wrapper of an exported agent. `inner_results` is the
/// number of results that the agent's own function is declared with. An agent
/// without an export has no wrapper.
pub fn define_extern_c_wrapper(agent: &IrAgent, inner_results: usize) -> (result: Result<
    Option<WrapperPlan>,
    CodegenError,
>)
    ensures
        agent.extern_abi is None ==> result == Ok::<Option<WrapperPlan>, CodegenError>(None),
        agent.extern_abi is Some ==> {
            let crosses = params_cross(*agent, agent.params@.len() as int) && return_crosses(
                *agent,
            );
            &&& result is Ok <==> crosses && results_fit(*agent, inner_results as nat)
            &&& result matches Ok(plan) ==> plan matches Some(plan) && is_wrapper_of(plan, *agent)
            &&& result matches Err(e) ==> if crosses {
                e.reports(result_refusal(*agent, inner_results as nat), agent.span)
            } else {
                is_crossing_error(*agent, e)
            }
        },
{
    match agent.extern_abi {
        Some(IrExternAbi::C) => {},
        None => {
            return Ok(None);
        },
    }
    let (params, outputs) = match signature(agent) {
        Ok(parts) => parts,
        Err(e) => {
            return Err(e);
        },
    };
    let bound: Option<u64> = match agent.cost_budget {
        Some(bits) => if finite_bits(bits) {
            Some(bits)
        } else {
            None
        },
        None => None,
    };
    let mut ops: Vec<Op> =
        vec![
        Op::Call0 { func: RuntimeFn::RuntimeEmbedInit, into: None },
        Op::FloatConst { bits: bound, into: Value::CostBound },
        Op::Call1 { func: RuntimeFn::BeginDirectObservation, arg: Value::CostBound, into: None },
    ];
    let (conversions, call_args) = convert_args(agent);
    append_ops(&mut ops, conversions);
    let inner: Option<Value> = match &agent.return_ty.shape {
        Shape::Nothing => None,
        _ => Some(Value::InnerResult),
    };
    append_ops(
        &mut ops,
        vec![
            Op::NameConst { into: Value::EntryName },
            Op::TracePayload {
                tags: Value::TraceTags,
                count: Value::TraceCount,
                values: Value::TraceValues,
            },
            Op::RunStarted {
                name: Value::EntryName,
                tags: Value::TraceTags,
                count: Value::TraceCount,
                values: Value::TraceValues,
            },
            Op::Release { value: Value::TraceTags },
            Op::Release { value: Value::EntryName },
            Op::CallInner { into: inner },
            Op::Call1 {
                func: RuntimeFn::FinishDirectObservation,
                arg: Value::ObservationOut,
                into: None,
            },
        ],
    );
    if let Err(e) = check_results(agent, inner_results) {
        return Err(e);
    }
    append_ops(&mut ops, closing(&agent.return_ty));
    Ok(Some(WrapperPlan { symbol: agent.name.clone(), params, outputs, call_args, ops }))
}

} // verus!
