//! What holds of every exported wrapper.
use vstd::prelude::*;

use crate::lowering::agent::{params_lower, return_lowers, IrAgent};
use crate::lowering::types::{
    extern_c_type, law_the_boundary_keeps_machine_types, native_type, ClType, Refusal, Shape, Type,
};
use crate::lowering::wrapper::{
    argument_slots, call_arg, capture_ops, closing_ops, completion_ops, conversion_ops,
    handle_store_ops, inner_value, is_grounded, is_wrapper_of, opening_ops, params_cross,
    return_crosses, return_ops, run_ops, wrapper_params, Block, Op, RuntimeFn, Slot, Value,
    WrapperPlan,
};

verus! {

// ---------------------------------------------------------------------------
// Values
// ---------------------------------------------------------------------------
/// The value is read by the operation, where the agent call gets `args`.
pub open spec fn reads(op: Op, args: Seq<Value>, value: Value) -> bool {
    match op {
        Op::Call1 { arg, .. } => value == arg,
        Op::TracePayload { .. } | Op::CallInner { .. } => args.contains(value),
        Op::RunStarted { name, tags, count, values } => value == name || value == tags || value
            == count || value == values,
        Op::Release { value: released } => value == released,
        Op::NotEqual { left, right, .. } => value == left || value == right,
        Op::Branch { condition, .. } => value == condition,
        Op::Store { value: stored, address } => value == stored || value == address,
        Op::Return { value: returned } => returned == Some(value),
        _ => false,
    }
}

/// The value is written by the operation.
pub open spec fn writes(op: Op, value: Value) -> bool {
    match op {
        Op::FloatConst { into, .. } | Op::NameConst { into } | Op::ZeroConst { into }
        | Op::NotEqual { into, .. } => value == into,
        Op::Call0 { into, .. } | Op::Call1 { into, .. } | Op::CallInner { into } => into == Some(
            value,
        ),
        Op::TracePayload { tags, count, values } => value == tags || value == count || value
            == values,
        _ => false,
    }
}

/// The value is an exported parameter or is written by one of the first `k`
/// operations.
pub open spec fn known_at(slots: Seq<Slot>, ops: Seq<Op>, k: int, value: Value) -> bool {
    ||| exists|s: int| 0 <= s < slots.len() && (#[trigger] slots[s]).value == value
    ||| exists|j: int| 0 <= j < k && writes(#[trigger] ops[j], value)
}

/// Every value that an operation reads is known by then, and none that it
/// writes is.
pub open spec fn well_scoped(slots: Seq<Slot>, ops: Seq<Op>, args: Seq<Value>) -> bool {
    forall|k: int, value: Value|
        #![trigger reads(ops[k], args, value)]
        #![trigger writes(ops[k], value)]
        0 <= k < ops.len() ==> {
            &&& reads(ops[k], args, value) ==> known_at(slots, ops, k, value)
            &&& writes(ops[k], value) ==> !known_at(slots, ops, k, value)
        }
}

/// The known values after the operation.
spec fn grown(known: Set<Value>, op: Op) -> Set<Value> {
    Set::new(|v: Value| known.contains(v) || writes(op, v))
}

/// The same, starting from a set of known values.
spec fn scoped_from(ops: Seq<Op>, args: Seq<Value>, known: Set<Value>) -> bool
    decreases ops.len(),
{
    if ops.len() == 0 {
        true
    } else {
        &&& forall|v: Value| #[trigger] reads(ops[0], args, v) ==> known.contains(v)
        &&& forall|v: Value| #[trigger] writes(ops[0], v) ==> !known.contains(v)
        &&& scoped_from(ops.drop_first(), args, grown(known, ops[0]))
    }
}

/// The value is known at first or written by one of the operations.
spec fn known_after(ops: Seq<Op>, known: Set<Value>) -> Set<Value> {
    Set::new(
        |v: Value|
            known.contains(v) || exists|j: int| 0 <= j < ops.len() && writes(#[trigger] ops[j], v),
    )
}

proof fn lemma_known_step(ops: Seq<Op>, known: Set<Value>)
    requires
        ops.len() > 0,
    ensures
        known_after(ops.drop_first(), grown(known, ops[0])) =~= known_after(
            ops,
            known,
        ),
{
    let step = grown(known, ops[0]);
    let after = known_after(ops, known);
    assert forall|v: Value| known_after(ops.drop_first(), step).contains(v) == #[trigger] after.contains(v) by {
        if exists|j: int| 0 <= j < ops.len() && writes(#[trigger] ops[j], v) {
            let j = choose|j: int| 0 <= j < ops.len() && writes(#[trigger] ops[j], v);
            if j > 0 {
                assert(ops.drop_first()[j - 1] == ops[j]);
            }
        }
        if exists|j: int|
            0 <= j < ops.drop_first().len() && writes(#[trigger] ops.drop_first()[j], v) {
            let j = choose|j: int|
                0 <= j < ops.drop_first().len() && writes(#[trigger] ops.drop_first()[j], v);
            assert(ops.drop_first()[j] == ops[j + 1]);
        }
        if writes(ops[0], v) {
            assert(after.contains(v));
        }
    }
}

/// Scoping of a list follows from scoping of its two parts.
proof fn lemma_scoped_concat(
    left: Seq<Op>,
    right: Seq<Op>,
    args: Seq<Value>,
    known: Set<Value>,
)
    requires
        scoped_from(left, args, known),
        scoped_from(right, args, known_after(left, known)),
    ensures
        scoped_from(left + right, args, known),
    decreases left.len(),
{
    if left.len() == 0 {
        assert(left + right =~= right);
        assert(known_after(left, known) =~= known);
    } else {
        let step = grown(known, left[0]);
        lemma_known_step(left, known);
        lemma_scoped_concat(left.drop_first(), right, args, step);
        assert((left + right).drop_first() =~= left.drop_first() + right);
    }
}

/// Scoping from a set of known values is scoping from the slots that hold it.
proof fn lemma_scoped_index(
    ops: Seq<Op>,
    args: Seq<Value>,
    known: Set<Value>,
    k: int,
    value: Value,
)
    requires
        scoped_from(ops, args, known),
        0 <= k < ops.len(),
    ensures
        reads(ops[k], args, value) ==> known_after(ops.take(k), known).contains(value),
        writes(ops[k], value) ==> !known_after(ops.take(k), known).contains(value),
    decreases k,
{
    if k > 0 {
        let step = grown(known, ops[0]);
        lemma_scoped_index(ops.drop_first(), args, step, k - 1, value);
        assert(ops.drop_first()[k - 1] == ops[k]);
        assert(ops.drop_first().take(k - 1) =~= ops.take(k).drop_first());
        assert(ops.take(k)[0] == ops[0]);
        lemma_known_step(ops.take(k), known);
    }
}

/// The values of the exported parameters.
spec fn slot_values(slots: Seq<Slot>) -> Set<Value> {
    Set::new(|v: Value| exists|s: int| 0 <= s < slots.len() && (#[trigger] slots[s]).value == v)
}

proof fn lemma_slot_values(agent: IrAgent)
    ensures
        forall|i: int|
            0 <= i < agent.params@.len() ==> #[trigger] slot_values(
                wrapper_params(agent),
            ).contains(Value::Arg(i as usize)),
        slot_values(wrapper_params(agent)).contains(Value::ObservationOut),
        is_grounded(agent.return_ty) ==> slot_values(wrapper_params(agent)).contains(
            Value::GroundedOut,
        ),
        forall|v: Value| #[trigger]
            slot_values(wrapper_params(agent)).contains(v) ==> v is Arg || v is GroundedOut
                || v is ObservationOut,
{
    let slots = wrapper_params(agent);
    let n = agent.params@.len() as int;
    assert forall|i: int| 0 <= i < n implies #[trigger] slot_values(slots).contains(
        Value::Arg(i as usize),
    ) by {
        assert(slots[i].value == Value::Arg(i as usize));
    }
    assert(slots[slots.len() - 1].value == Value::ObservationOut);
    if is_grounded(agent.return_ty) {
        assert(slots[n].value == Value::GroundedOut);
    }
    assert forall|v: Value| #[trigger] slot_values(slots).contains(v) implies v is Arg
        || v is GroundedOut || v is ObservationOut by {
        let s = choose|s: int| 0 <= s < slots.len() && (#[trigger] slots[s]).value == v;
        assert(slots[s].value == v);
    }
}

/// What the string conversions write.
proof fn lemma_conversion_writes(agent: IrAgent, n: nat)
    requires
        n <= agent.params@.len(),
    ensures
        forall|j: int, v: Value|
            0 <= j < conversion_ops(agent, n).len() && #[trigger] writes(
                conversion_ops(agent, n)[j],
                v,
            ) ==> v is Converted && v->Converted_0 < n,
        forall|i: int|
            #![trigger agent.params@[i]]
            0 <= i < n && agent.params@[i].ty.shape is String ==> exists|j: int|
                0 <= j < conversion_ops(agent, n).len() && writes(
                    #[trigger] conversion_ops(agent, n)[j],
                    Value::Converted(i as usize),
                ),
    decreases n,
{
    assert(agent.params.len() == agent.params@.len());
    if n > 0 {
        let m = (n - 1) as nat;
        lemma_conversion_writes(agent, m);
        let before = conversion_ops(agent, m);
        let after = conversion_ops(agent, n);
        assert forall|j: int, v: Value|
            0 <= j < after.len() && #[trigger] writes(after[j], v) implies v is Converted
            && v->Converted_0 < n by {
            if j < before.len() {
                assert(after[j] == before[j]);
            }
        }
        assert forall|i: int|
            #![trigger agent.params@[i]]
            0 <= i < n && agent.params@[i].ty.shape is String implies exists|j: int|
            0 <= j < after.len() && writes(#[trigger] after[j], Value::Converted(i as usize)) by {
            if i < m {
                let j = choose|j: int|
                    0 <= j < before.len() && writes(
                        #[trigger] before[j],
                        Value::Converted(i as usize),
                    );
                assert(after[j] == before[j]);
            } else {
                assert(writes(after[after.len() - 1], Value::Converted(i as usize)));
            }
        }
    }
}

proof fn lemma_conversions_scoped(agent: IrAgent, n: nat, args: Seq<Value>, known: Set<Value>)
    requires
        n <= agent.params@.len(),
        forall|i: int|
            0 <= i < agent.params@.len() ==> #[trigger] known.contains(Value::Arg(i as usize)),
        forall|v: Value| #[trigger] known.contains(v) ==> !(v is Converted),
    ensures
        scoped_from(conversion_ops(agent, n), args, known),
    decreases n,
{
    if n > 0 {
        let m = (n - 1) as nat;
        lemma_conversions_scoped(agent, m, args, known);
        lemma_conversion_writes(agent, m);
        assert(agent.params.len() == agent.params@.len());
        if agent.params@[m as int].ty.shape is String {
            let op = Op::Call1 {
                func: RuntimeFn::StringFromCstr,
                arg: Value::Arg(m as usize),
                into: Some(Value::Converted(m as usize)),
            };
            let between = known_after(conversion_ops(agent, m), known);
            assert(known.contains(Value::Arg(m as usize)));
            assert(between.contains(Value::Arg(m as usize)));
            assert(!between.contains(Value::Converted(m as usize)));
            assert(seq![op].drop_first() =~= Seq::<Op>::empty());
            assert(scoped_from(seq![op], args, between)) by {
                reveal_with_fuel(scoped_from, 2);
            }
            lemma_scoped_concat(conversion_ops(agent, m), seq![op], args, known);
            assert(conversion_ops(agent, m) + seq![op] =~= conversion_ops(agent, n));
        }
    }
}

/// What the opening and the run part need and write.
proof fn lemma_run_scoped(agent: IrAgent, args: Seq<Value>, known: Set<Value>)
    requires
        known.contains(Value::ObservationOut),
        forall|v: Value| #[trigger] args.contains(v) ==> known.contains(v),
        forall|v: Value| #[trigger]
            known.contains(v) ==> v is Arg || v is GroundedOut || v is ObservationOut
                || v is CostBound || v is Converted,
    ensures
        scoped_from(run_ops(agent), args, known),
{
    reveal_with_fuel(scoped_from, 8);
}

proof fn lemma_opening_scoped(agent: IrAgent, args: Seq<Value>, known: Set<Value>)
    requires
        !known.contains(Value::CostBound),
    ensures
        scoped_from(opening_ops(agent), args, known),
{
    reveal_with_fuel(scoped_from, 4);
}

proof fn lemma_closing_scoped(ty: Type, args: Seq<Value>, known: Set<Value>)
    requires
        is_grounded(ty) ==> known.contains(Value::GroundedOut),
        !(ty.shape is Nothing) ==> known.contains(Value::InnerResult),
        !known.contains(Value::Handle),
        !known.contains(Value::Zero),
        !known.contains(Value::NonNull),
        !known.contains(Value::Text),
    ensures
        scoped_from(closing_ops(ty), args, known),
{
    reveal_with_fuel(scoped_from, 12);
}

/// In every wrapper, each value that an operation reads is an exported
/// parameter or was written by an earlier operation, and no value is written
/// twice.
pub proof fn law_values_are_written_once_before_use(agent: IrAgent, plan: WrapperPlan)
    requires
        is_wrapper_of(plan, agent),
    ensures
        well_scoped(plan.params@, plan.ops@, plan.call_args@),
{
    let slots = plan.params@;
    let ops = plan.ops@;
    let args = plan.call_args@;
    let n = agent.params@.len();
    let base = slot_values(slots);
    assert(agent.params.len() == agent.params@.len());
    lemma_slot_values(agent);
    let opening = opening_ops(agent);
    lemma_opening_scoped(agent, args, base);
    let k1 = known_after(opening, base);
    assert forall|v: Value| #[trigger] k1.contains(v) implies base.contains(v)
        || v is CostBound by {}
    assert forall|i: int| 0 <= i < n implies #[trigger] k1.contains(Value::Arg(i as usize)) by {
        assert(base.contains(Value::Arg(i as usize)));
    }
    let conversions = conversion_ops(agent, n);
    lemma_conversions_scoped(agent, n, args, k1);
    lemma_conversion_writes(agent, n);
    let k2 = known_after(conversions, k1);
    assert forall|v: Value| #[trigger] args.contains(v) implies k2.contains(v) by {
        let i = choose|i: int| 0 <= i < args.len() && args[i] == v;
        assert(v == call_arg(agent, i));
        if agent.params@[i].ty.shape is String {
            assert(exists|j: int|
                0 <= j < conversions.len() && writes(#[trigger] conversions[j], v));
        } else {
            assert(k1.contains(Value::Arg(i as usize)));
        }
    }
    lemma_run_scoped(agent, args, k2);
    let run = run_ops(agent);
    let k3 = known_after(run, k2);
    if !(agent.return_ty.shape is Nothing) {
        assert(writes(run[5], Value::InnerResult));
    }
    lemma_closing_scoped(agent.return_ty, args, k3);
    let closing = closing_ops(agent.return_ty);
    lemma_scoped_concat(run, closing, args, k2);
    lemma_scoped_concat(conversions, run + closing, args, k1);
    lemma_scoped_concat(opening, conversions + (run + closing), args, base);
    assert(opening + (conversions + (run + closing)) =~= ops);
    assert forall|k: int, value: Value|
        #![trigger reads(ops[k], args, value)]
        #![trigger writes(ops[k], value)]
        0 <= k < ops.len() implies {
        &&& reads(ops[k], args, value) ==> known_at(slots, ops, k, value)
        &&& writes(ops[k], value) ==> !known_at(slots, ops, k, value)
    } by {
        lemma_scoped_index(ops, args, base, k, value);
        let before = ops.take(k);
        if known_after(before, base).contains(value) && !base.contains(value) {
            let j = choose|j: int| 0 <= j < before.len() && writes(#[trigger] before[j], value);
            assert(ops[j] == before[j]);
        }
        if exists|j: int| 0 <= j < k && writes(#[trigger] ops[j], value) {
            let j = choose|j: int| 0 <= j < k && writes(#[trigger] ops[j], value);
            assert(before[j] == ops[j]);
        }
    }
}

// ---------------------------------------------------------------------------
// Control flow
// ---------------------------------------------------------------------------
/// The operations that run, in order, when the condition of every branch is
/// `condition`. After a jump, operations are passed over up to the start of
/// the block `sought`. All jumps of a wrapper go forward.
pub open spec fn path(ops: Seq<Op>, condition: bool, sought: Option<Block>) -> Seq<Op>
    decreases ops.len(),
{
    if ops.len() == 0 {
        Seq::empty()
    } else {
        let rest = ops.drop_first();
        match sought {
            Some(block) => if ops[0] == (Op::Enter { block }) {
                path(rest, condition, None)
            } else {
                path(rest, condition, sought)
            },
            None => match ops[0] {
                Op::Branch { yes, no, .. } => path(
                    rest,
                    condition,
                    Some(
                        if condition {
                            yes
                        } else {
                            no
                        },
                    ),
                ),
                Op::Jump { block } => path(rest, condition, Some(block)),
                Op::Enter { .. } => path(rest, condition, None),
                Op::Return { .. } => seq![ops[0]],
                _ => seq![ops[0]] + path(rest, condition, None),
            },
        }
    }
}

/// The operation neither jumps nor returns nor starts a block.
pub open spec fn is_plain(op: Op) -> bool {
    !(op is Branch || op is Jump || op is Enter || op is Return)
}

/// What runs after the agent call: the handle is stored exactly when the
/// caller's address is not null.
pub open spec fn closing_path(return_ty: Type, non_null: bool) -> Seq<Op> {
    match return_ty.shape {
        Shape::Grounded(inner) => completion_ops(*inner) + capture_ops(*inner) + seq![
            Op::ZeroConst { into: Value::Zero },
            Op::NotEqual { left: Value::GroundedOut, right: Value::Zero, into: Value::NonNull },
        ] + (if non_null {
            seq![Op::Store { value: Value::Handle, address: Value::GroundedOut }]
        } else {
            Seq::empty()
        }) + return_ops(*inner),
        _ => closing_ops(return_ty),
    }
}

proof fn lemma_plain_prefix(left: Seq<Op>, right: Seq<Op>, condition: bool)
    requires
        forall|i: int| 0 <= i < left.len() ==> is_plain(#[trigger] left[i]),
    ensures
        path(left + right, condition, None) == left + path(right, condition, None),
    decreases left.len(),
{
    if left.len() == 0 {
        assert(left + right =~= right);
        assert(left + path(right, condition, None) =~= path(right, condition, None));
    } else {
        assert((left + right).drop_first() =~= left.drop_first() + right);
        assert(is_plain(left[0]));
        lemma_plain_prefix(left.drop_first(), right, condition);
        assert(seq![left[0]] + (left.drop_first() + path(right, condition, None)) =~= left + path(
            right,
            condition,
            None,
        ));
    }
}

proof fn lemma_conversions_plain(agent: IrAgent, n: nat)
    ensures
        forall|i: int|
            0 <= i < conversion_ops(agent, n).len() ==> is_plain(
                #[trigger] conversion_ops(agent, n)[i],
            ),
    decreases n,
{
    if n > 0 {
        let before = conversion_ops(agent, (n - 1) as nat);
        let after = conversion_ops(agent, n);
        lemma_conversions_plain(agent, (n - 1) as nat);
        assert forall|i: int| 0 <= i < after.len() implies is_plain(#[trigger] after[i]) by {
            if i < before.len() {
                assert(after[i] == before[i]);
            }
        }
    }
}

proof fn lemma_store_path(rest: Seq<Op>, non_null: bool)
    ensures
        path(handle_store_ops() + rest, non_null, None) == seq![
            Op::ZeroConst { into: Value::Zero },
            Op::NotEqual { left: Value::GroundedOut, right: Value::Zero, into: Value::NonNull },
        ] + (if non_null {
            seq![Op::Store { value: Value::Handle, address: Value::GroundedOut }]
        } else {
            Seq::empty()
        }) + path(rest, non_null, None),
{
    let ops = handle_store_ops() + rest;
    let t1 = ops.drop_first();
    let t2 = t1.drop_first();
    let t3 = t2.drop_first();
    let t4 = t3.drop_first();
    let t5 = t4.drop_first();
    let t6 = t5.drop_first();
    let t7 = t6.drop_first();
    assert(t7 =~= rest);
    assert(path(t6, non_null, Some(Block::Done)) == path(rest, non_null, None));
    assert(path(t5, non_null, None) == path(rest, non_null, None));
    if non_null {
        assert(path(t4, non_null, None) =~= seq![t4[0]] + path(rest, non_null, None));
        assert(path(t3, non_null, Some(Block::Write)) == path(t4, non_null, None));
    } else {
        assert(path(t5, non_null, Some(Block::Done)) == path(rest, non_null, None));
        assert(path(t4, non_null, Some(Block::Done)) == path(rest, non_null, None));
        assert(path(t3, non_null, Some(Block::Done)) == path(rest, non_null, None));
    }
    assert(path(t2, non_null, None) == if non_null {
        seq![t4[0]] + path(rest, non_null, None)
    } else {
        path(rest, non_null, None)
    });
    assert(path(t1, non_null, None) == seq![t1[0]] + path(t2, non_null, None));
    assert(path(ops, non_null, None) == seq![ops[0]] + path(t1, non_null, None));
    assert(path(ops, non_null, None) =~= seq![
        Op::ZeroConst { into: Value::Zero },
        Op::NotEqual { left: Value::GroundedOut, right: Value::Zero, into: Value::NonNull },
    ] + (if non_null {
        seq![Op::Store { value: Value::Handle, address: Value::GroundedOut }]
    } else {
        Seq::empty()
    }) + path(rest, non_null, None));
}

proof fn lemma_return_path(ty: Type, condition: bool)
    ensures
        path(return_ops(ty), condition, None) == return_ops(ty),
{
    reveal_with_fuel(path, 3);
    assert(path(return_ops(ty), condition, None) =~= return_ops(ty));
}

/// When a wrapper runs, everything up to the agent call and the end of the
/// observation runs once and in order; then the result is recorded, the
/// grounding stored exactly when the caller gave an address for it, and the
/// result returned.
pub proof fn law_every_run_takes_the_planned_path(agent: IrAgent, plan: WrapperPlan, non_null: bool)
    requires
        is_wrapper_of(plan, agent),
    ensures
        path(plan.ops@, non_null, None) == opening_ops(agent) + conversion_ops(
            agent,
            agent.params@.len(),
        ) + run_ops(agent) + closing_path(agent.return_ty, non_null),
{
    let before = opening_ops(agent) + conversion_ops(agent, agent.params@.len()) + run_ops(agent);
    let closing = closing_ops(agent.return_ty);
    lemma_conversions_plain(agent, agent.params@.len());
    assert forall|i: int| 0 <= i < before.len() implies is_plain(#[trigger] before[i]) by {
        let a = opening_ops(agent);
        let b = conversion_ops(agent, agent.params@.len());
        if i < a.len() {
            assert(before[i] == a[i]);
        } else if i < a.len() + b.len() {
            assert(before[i] == b[i - a.len()]);
        } else {
            assert(before[i] == run_ops(agent)[i - a.len() - b.len()]);
        }
    }
    lemma_plain_prefix(before, closing, non_null);
    match agent.return_ty.shape {
        Shape::Grounded(inner) => {
            let head = completion_ops(*inner) + capture_ops(*inner);
            let tail = handle_store_ops() + return_ops(*inner);
            assert(closing =~= head + tail);
            lemma_plain_prefix(head, tail, non_null);
            lemma_store_path(return_ops(*inner), non_null);
            lemma_return_path(*inner, non_null);
            assert(path(closing, non_null, None) =~= closing_path(agent.return_ty, non_null));
        },
        Shape::Nothing => {
            reveal_with_fuel(path, 2);
        },
        _ => {
            let head = completion_ops(agent.return_ty);
            lemma_plain_prefix(head, return_ops(agent.return_ty), non_null);
            lemma_return_path(agent.return_ty, non_null);
        },
    }
}

// ---------------------------------------------------------------------------
// Recorded events
// ---------------------------------------------------------------------------
/// The operation records the start or the end of the run, or is the run.
pub open spec fn is_run_event(op: Op) -> bool {
    match op {
        Op::RunStarted { .. } | Op::CallInner { .. } => true,
        Op::Call1 { func, .. } => func == RuntimeFn::TraceRunCompletedInt || func
            == RuntimeFn::TraceRunCompletedBool || func == RuntimeFn::TraceRunCompletedFloat
            || func == RuntimeFn::TraceRunCompletedString,
        _ => false,
    }
}

/// The run events among the operations, in order.
pub open spec fn run_events(ops: Seq<Op>) -> Seq<Op>
    decreases ops.len(),
{
    if ops.len() == 0 {
        Seq::empty()
    } else if is_run_event(ops[0]) {
        seq![ops[0]] + run_events(ops.drop_first())
    } else {
        run_events(ops.drop_first())
    }
}

/// The type of the value that a run with this return type yields.
pub open spec fn value_type(return_ty: Type) -> Type {
    match return_ty.shape {
        Shape::Grounded(inner) => *inner,
        _ => return_ty,
    }
}

proof fn lemma_run_events_concat(left: Seq<Op>, right: Seq<Op>)
    ensures
        run_events(left + right) == run_events(left) + run_events(right),
    decreases left.len(),
{
    if left.len() == 0 {
        assert(left + right =~= right);
        assert(run_events(left) + run_events(right) =~= run_events(right));
    } else {
        assert((left + right).drop_first() =~= left.drop_first() + right);
        lemma_run_events_concat(left.drop_first(), right);
        assert(run_events(left + right) =~= run_events(left) + run_events(right));
    }
}

proof fn lemma_conversions_record_nothing(agent: IrAgent, n: nat)
    ensures
        run_events(conversion_ops(agent, n)) == Seq::<Op>::empty(),
    decreases n,
{
    if n > 0 {
        let before = conversion_ops(agent, (n - 1) as nat);
        lemma_conversions_record_nothing(agent, (n - 1) as nat);
        if agent.params@[n - 1].ty.shape is String {
            let last = conversion_ops(agent, n).last();
            reveal_with_fuel(run_events, 2);
            lemma_run_events_concat(before, seq![last]);
            assert(before + seq![last] =~= conversion_ops(agent, n));
            assert(run_events(seq![last]) =~= Seq::<Op>::empty());
        }
    }
}

proof fn lemma_opening_events(agent: IrAgent)
    ensures
        run_events(opening_ops(agent)) == Seq::<Op>::empty(),
{
    reveal_with_fuel(run_events, 4);
    assert(run_events(opening_ops(agent)) =~= Seq::<Op>::empty());
}

proof fn lemma_middle_events(agent: IrAgent)
    ensures
        run_events(run_ops(agent)) == seq![run_ops(agent)[2], run_ops(agent)[5]],
{
    let run = run_ops(agent);
    reveal_with_fuel(run_events, 8);
    assert(run_events(run) =~= seq![run[2], run[5]]);
}

proof fn lemma_short_events(ops: Seq<Op>)
    requires
        ops.len() <= 2,
        forall|i: int| 0 <= i < ops.len() ==> !is_run_event(#[trigger] ops[i]),
    ensures
        run_events(ops) == Seq::<Op>::empty(),
{
    reveal_with_fuel(run_events, 3);
}

proof fn lemma_completion_events(ty: Type)
    ensures
        run_events(completion_ops(ty)) == completion_ops(ty),
{
    reveal_with_fuel(run_events, 2);
    assert(run_events(completion_ops(ty)) =~= completion_ops(ty));
}

proof fn lemma_closing_events(ty: Type, non_null: bool)
    ensures
        run_events(closing_path(ty, non_null)) == completion_ops(value_type(ty)),
{
    match ty.shape {
        Shape::Grounded(inner) => {
            let a = completion_ops(*inner);
            let b = capture_ops(*inner);
            let c = seq![
                Op::ZeroConst { into: Value::Zero },
                Op::NotEqual { left: Value::GroundedOut, right: Value::Zero, into: Value::NonNull },
            ];
            let d = if non_null {
                seq![Op::Store { value: Value::Handle, address: Value::GroundedOut }]
            } else {
                Seq::empty()
            };
            let e = return_ops(*inner);
            lemma_completion_events(*inner);
            lemma_short_events(b);
            lemma_short_events(c);
            lemma_short_events(d);
            lemma_short_events(e);
            lemma_run_events_concat(a, b);
            lemma_run_events_concat(a + b, c);
            lemma_run_events_concat(a + b + c, d);
            lemma_run_events_concat(a + b + c + d, e);
            assert(run_events(closing_path(ty, non_null)) =~= a);
        },
        Shape::Nothing => {
            lemma_short_events(closing_ops(ty));
        },
        _ => {
            lemma_completion_events(ty);
            lemma_short_events(return_ops(ty));
            lemma_run_events_concat(completion_ops(ty), return_ops(ty));
            assert(run_events(closing_path(ty, non_null)) =~= completion_ops(ty));
        },
    }
}

/// Whatever address the caller gives for a grounded handle, a run is recorded
/// as started once, before the agent is called; the agent is called once; and
/// then a result of a recorded type is recorded as completed once.
pub proof fn law_runs_are_recorded(agent: IrAgent, plan: WrapperPlan, non_null: bool)
    requires
        is_wrapper_of(plan, agent),
    ensures
        run_events(path(plan.ops@, non_null, None)) == seq![
            Op::RunStarted {
                name: Value::EntryName,
                tags: Value::TraceTags,
                count: Value::TraceCount,
                values: Value::TraceValues,
            },
            Op::CallInner { into: inner_value(agent) },
        ] + completion_ops(value_type(agent.return_ty)),
{
    law_every_run_takes_the_planned_path(agent, plan, non_null);
    let n = agent.params@.len();
    let opening = opening_ops(agent);
    let conversions = conversion_ops(agent, n);
    let run = run_ops(agent);
    let closing = closing_path(agent.return_ty, non_null);
    lemma_run_events_concat(opening + conversions + run, closing);
    lemma_run_events_concat(opening + conversions, run);
    lemma_run_events_concat(opening, conversions);
    lemma_conversions_record_nothing(agent, n);
    lemma_opening_events(agent);
    lemma_middle_events(agent);
    lemma_closing_events(agent.return_ty, non_null);
    assert(run_events(path(plan.ops@, non_null, None)) =~= seq![run[2], run[5]] + completion_ops(
        value_type(agent.return_ty),
    ));
}

/// An agent whose types can all cross the C boundary can also be lowered, and
/// every argument reaches it in the machine type that its parameter has.
pub proof fn law_exportable_agents_lower(agent: IrAgent)
    requires
        params_cross(agent, agent.params@.len() as int),
        return_crosses(agent),
    ensures
        params_lower(agent, agent.params@.len() as int),
        return_lowers(agent),
        forall|i: int|
            0 <= i < agent.params@.len() ==> native_type(#[trigger] agent.params@[i].ty) == Ok::<
                ClType,
                Refusal,
            >(argument_slots(agent)[i].ty),
{
    assert forall|i: int| 0 <= i < agent.params@.len() implies native_type(
        #[trigger] agent.params@[i].ty,
    ) == Ok::<ClType, Refusal>(argument_slots(agent)[i].ty) by {
        assert(extern_c_type(agent.params@[i].ty) is Ok);
        law_the_boundary_keeps_machine_types(agent.params@[i].ty);
    }
    if !(agent.return_ty.shape is Nothing) {
        law_the_boundary_keeps_machine_types(agent.return_ty);
    }
}

} // verus!
