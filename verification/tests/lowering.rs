use corvid_bundle::lowering::agent::{
    define_agent, mangle_agent_symbol, needs_trap, reject_unsupported_types, BlockOutcome,
    IrAgent, IrExternAbi, IrParam, ParamBorrow,
};
use corvid_bundle::lowering::types::{
    cl_type_for, extern_c_abi_type, grounded_extern_c_return_inner, ClType, CodegenErrorKind,
    DefId, LocalId, Shape, Span, Type, FUNCTION_UNSUPPORTED, NOTHING_AT_BOUNDARY,
    NOTHING_UNSUPPORTED, OPTION_UNSUPPORTED, RESULT_UNSUPPORTED, STREAM_UNSUPPORTED,
    TRACE_ID_UNSUPPORTED, UNKNOWN_TYPE,
};
use corvid_bundle::lowering::wrapper::{
    define_extern_c_wrapper, emit_grounded_handle_store, Block, Op, RuntimeFn, Slot, Value,
};

const SPAN: Span = Span { start: 3, end: 9 };

fn ty(name: &str, shape: Shape) -> Type {
    let refcounted = matches!(shape, Shape::String | Shape::Struct | Shape::List | Shape::Weak);
    Type { display_name: name.to_string(), refcounted, shape }
}

fn grounded(inner: Type) -> Type {
    let refcounted = inner.refcounted;
    Type {
        display_name: format!("Grounded<{}>", inner.display_name),
        refcounted,
        shape: Shape::Grounded(Box::new(inner)),
    }
}

fn param(i: u32, name: &str, ty: Type) -> IrParam {
    IrParam {
        name: name.to_string(),
        local_id: LocalId(i),
        ty,
        span: Span { start: i as usize, end: i as usize + 1 },
    }
}

fn agent(params: Vec<IrParam>, return_ty: Type) -> IrAgent {
    IrAgent {
        name: "classify".to_string(),
        params,
        return_ty,
        extern_abi: Some(IrExternAbi::C),
        cost_budget: None,
        borrow_sig: None,
        span: SPAN,
    }
}

#[test]
fn symbols_carry_name_and_number() {
    assert_eq!(mangle_agent_symbol("total", DefId(12)), "corvid_agent_total_12");
    assert_ne!(mangle_agent_symbol("total", DefId(1)), mangle_agent_symbol("total", DefId(2)));
    assert_ne!(mangle_agent_symbol("a_1", DefId(2)), mangle_agent_symbol("a", DefId(12)));
    assert_ne!(mangle_agent_symbol("main", DefId(0)), "main");
}

#[test]
fn native_types_have_machine_types() {
    let of = |shape: Shape| cl_type_for(&ty("T", shape), SPAN).unwrap();
    assert_eq!(of(Shape::Int), ClType::I64);
    assert_eq!(of(Shape::Bool), ClType::I8);
    assert_eq!(of(Shape::Float), ClType::F64);
    assert_eq!(of(Shape::String), ClType::I64);
    assert_eq!(of(Shape::Struct), ClType::I64);
    assert_eq!(of(Shape::List), ClType::I64);
    assert_eq!(of(Shape::Weak), ClType::I64);
    assert_eq!(of(Shape::Result { native: true }), ClType::I64);
    assert_eq!(of(Shape::Option { inner_refcounted: true, wide: false }), ClType::I64);
    assert_eq!(of(Shape::Option { inner_refcounted: false, wide: true }), ClType::I64);
    assert_eq!(cl_type_for(&grounded(ty("Bool", Shape::Bool)), SPAN).unwrap(), ClType::I8);
}

#[test]
fn other_types_are_refused_by_name() {
    let refusal = |shape: Shape| {
        let e = cl_type_for(&grounded(ty("T", shape)), SPAN).unwrap_err();
        assert_eq!(e.span, SPAN);
        (e.kind, e.message)
    };
    let unsupported = CodegenErrorKind::NotSupported;
    assert_eq!(refusal(Shape::Stream), (unsupported, STREAM_UNSUPPORTED.to_string()));
    assert_eq!(refusal(Shape::Nothing), (unsupported, NOTHING_UNSUPPORTED.to_string()));
    assert_eq!(refusal(Shape::Function), (unsupported, FUNCTION_UNSUPPORTED.to_string()));
    assert_eq!(
        refusal(Shape::Result { native: false }),
        (unsupported, RESULT_UNSUPPORTED.to_string())
    );
    assert_eq!(
        refusal(Shape::Option { inner_refcounted: false, wide: false }),
        (unsupported, OPTION_UNSUPPORTED.to_string())
    );
    assert_eq!(refusal(Shape::TraceId), (unsupported, TRACE_ID_UNSUPPORTED.to_string()));
    assert_eq!(
        refusal(Shape::Unknown),
        (CodegenErrorKind::Cranelift, UNKNOWN_TYPE.to_string())
    );
}

#[test]
fn the_c_boundary_takes_scalars_and_strings() {
    let of = |ty: &Type| extern_c_abi_type(ty, SPAN);
    assert_eq!(of(&ty("Int", Shape::Int)).unwrap(), ClType::I64);
    assert_eq!(of(&ty("Float", Shape::Float)).unwrap(), ClType::F64);
    assert_eq!(of(&ty("Bool", Shape::Bool)).unwrap(), ClType::I8);
    assert_eq!(of(&grounded(ty("String", Shape::String))).unwrap(), ClType::I64);
    let e = of(&ty("Nothing", Shape::Nothing)).unwrap_err();
    assert_eq!(e.kind, CodegenErrorKind::Cranelift);
    assert_eq!(e.message, NOTHING_AT_BOUNDARY);
    let e = of(&ty("Order", Shape::Struct)).unwrap_err();
    assert_eq!(e.kind, CodegenErrorKind::NotSupported);
    assert_eq!(
        e.message,
        "extern-c wrapper lowering does not support `Order` at this ABI boundary"
    );
}

#[test]
fn grounded_types_have_an_inner_type() {
    let g = grounded(ty("Int", Shape::Int));
    assert_eq!(grounded_extern_c_return_inner(&g).unwrap().display_name, "Int");
    assert!(grounded_extern_c_return_inner(&ty("Int", Shape::Int)).is_none());
}

#[test]
fn unsupported_agents_are_rejected() {
    let fine = agent(vec![param(0, "text", ty("String", Shape::String))], ty("Nothing", Shape::Nothing));
    assert!(reject_unsupported_types(&fine).is_ok());
    assert!(define_agent(&fine, false).is_ok());
    let bad_param = agent(
        vec![
            param(0, "text", ty("String", Shape::String)),
            param(1, "events", ty("Stream<Int>", Shape::Stream)),
        ],
        ty("Unknown", Shape::Unknown),
    );
    let e = reject_unsupported_types(&bad_param).unwrap_err();
    assert_eq!(e.kind, CodegenErrorKind::NotSupported);
    assert_eq!(
        e.message,
        "parameter `events: Stream<Int>` — this native lowering path supports scalar and refcounted values here"
    );
    assert_eq!(e.span, Span { start: 1, end: 2 });
    assert_eq!(define_agent(&bad_param, false).unwrap_err().message, STREAM_UNSUPPORTED);
    let e = reject_unsupported_types(&agent(vec![], ty("TraceId", Shape::TraceId))).unwrap_err();
    assert_eq!(
        e.message,
        "agent `classify` returns `TraceId` — this native lowering path supports scalar and refcounted returns here"
    );
    assert_eq!(e.span, SPAN);
}

#[test]
fn owned_references_are_retained_and_scoped() {
    let mut a = agent(
        vec![
            param(4, "n", ty("Int", Shape::Int)),
            param(5, "lent", ty("String", Shape::String)),
            param(6, "own", ty("String", Shape::String)),
            param(7, "rest", ty("List<Int>", Shape::List)),
        ],
        ty("Int", Shape::Int),
    );
    a.borrow_sig = Some(vec![ParamBorrow::Borrowed, ParamBorrow::Borrowed, ParamBorrow::Owned]);
    let bindings = define_agent(&a, false).unwrap();
    let seen: Vec<(u32, usize, bool, bool, bool)> = bindings
        .iter()
        .map(|b| (b.local_id.0, b.variable, b.needs_stack_map, b.retain, b.scoped))
        .collect();
    assert_eq!(
        seen,
        vec![
            (4, 0, false, false, false),
            (5, 1, true, false, false),
            (6, 2, true, true, true),
            (7, 3, true, true, true),
        ]
    );
    assert!(define_agent(&a, true).unwrap().iter().all(|b| !b.retain));
    assert!(define_agent(&a, true).unwrap()[2].scoped);
}

#[test]
fn bodies_that_run_off_their_end_trap() {
    assert!(needs_trap(BlockOutcome::Normal, Some(false)));
    assert!(!needs_trap(BlockOutcome::Normal, Some(true)));
    assert!(!needs_trap(BlockOutcome::Normal, None));
    assert!(!needs_trap(BlockOutcome::Terminated, Some(false)));
}

#[test]
fn agents_without_export_have_no_wrapper() {
    let mut a = agent(vec![], ty("Unknown", Shape::Unknown));
    a.extern_abi = None;
    assert!(define_extern_c_wrapper(&a, 7).unwrap().is_none());
}

#[test]
fn string_agents_are_wrapped() {
    let a = agent(
        vec![param(0, "n", ty("Int", Shape::Int)), param(1, "text", ty("String", Shape::String))],
        ty("String", Shape::String),
    );
    let plan = define_extern_c_wrapper(&a, 1).unwrap().unwrap();
    assert_eq!(plan.symbol, "classify");
    assert_eq!(
        plan.params,
        vec![
            Slot { ty: ClType::I64, value: Value::Arg(0) },
            Slot { ty: ClType::I64, value: Value::Arg(1) },
            Slot { ty: ClType::I64, value: Value::ObservationOut },
        ]
    );
    assert_eq!(plan.outputs, vec![ClType::I64]);
    assert_eq!(plan.call_args, vec![Value::Arg(0), Value::Converted(1)]);
    assert_eq!(
        plan.ops,
        vec![
            Op::Call0 { func: RuntimeFn::RuntimeEmbedInit, into: None },
            Op::FloatConst { bits: None, into: Value::CostBound },
            Op::Call1 { func: RuntimeFn::BeginDirectObservation, arg: Value::CostBound, into: None },
            Op::Call1 {
                func: RuntimeFn::StringFromCstr,
                arg: Value::Arg(1),
                into: Some(Value::Converted(1)),
            },
            Op::NameConst { into: Value::EntryName },
            Op::TracePayload {
                tags: Value::TraceTags,
                count: Value::TraceCount,
                values: Value::TraceValues,
            },
            Op::RunStarted {
                name: Value::EntryName,
                tags: Value::TraceTags,
                count: Value::TraceCount,
                values: Value::TraceValues,
            },
            Op::Release { value: Value::TraceTags },
            Op::Release { value: Value::EntryName },
            Op::CallInner { into: Some(Value::InnerResult) },
            Op::Call1 {
                func: RuntimeFn::FinishDirectObservation,
                arg: Value::ObservationOut,
                into: None,
            },
            Op::Call1 {
                func: RuntimeFn::TraceRunCompletedString,
                arg: Value::InnerResult,
                into: None,
            },
            Op::Call1 {
                func: RuntimeFn::StringIntoCstr,
                arg: Value::InnerResult,
                into: Some(Value::Text),
            },
            Op::Return { value: Some(Value::Text) },
        ]
    );
}

#[test]
fn grounded_agents_hand_out_a_handle() {
    let a = agent(vec![], grounded(ty("Bool", Shape::Bool)));
    let plan = define_extern_c_wrapper(&a, 1).unwrap().unwrap();
    assert_eq!(
        plan.params,
        vec![
            Slot { ty: ClType::I64, value: Value::GroundedOut },
            Slot { ty: ClType::I64, value: Value::ObservationOut },
        ]
    );
    assert_eq!(plan.outputs, vec![ClType::I8]);
    let mut tail = vec![
        Op::Call1 { func: RuntimeFn::TraceRunCompletedBool, arg: Value::InnerResult, into: None },
        Op::Call0 {
            func: RuntimeFn::GroundedCaptureScalarHandle,
            into: Some(Value::Handle),
        },
    ];
    tail.extend(emit_grounded_handle_store());
    tail.push(Op::Return { value: Some(Value::InnerResult) });
    assert!(plan.ops.ends_with(&tail));

    let text = agent(vec![], grounded(ty("String", Shape::String)));
    let plan = define_extern_c_wrapper(&text, 1).unwrap().unwrap();
    assert!(plan.ops.contains(&Op::Call1 {
        func: RuntimeFn::GroundedCaptureStringHandle,
        arg: Value::InnerResult,
        into: Some(Value::Handle),
    }));
    assert!(plan.ops.contains(&Op::Branch {
        condition: Value::NonNull,
        yes: Block::Write,
        no: Block::Done,
    }));
    assert_eq!(plan.ops.last(), Some(&Op::Return { value: Some(Value::Text) }));
}

#[test]
fn agents_without_result_return_nothing() {
    let a = agent(vec![], ty("Nothing", Shape::Nothing));
    let plan = define_extern_c_wrapper(&a, 0).unwrap().unwrap();
    assert!(plan.outputs.is_empty());
    assert!(plan.ops.contains(&Op::CallInner { into: None }));
    assert_eq!(plan.ops.last(), Some(&Op::Return { value: None }));
}

#[test]
fn cost_bounds_are_finite_or_left_out() {
    let bound = |budget: Option<f64>| {
        let mut a = agent(vec![], ty("Int", Shape::Int));
        a.cost_budget = budget.map(f64::to_bits);
        define_extern_c_wrapper(&a, 1).unwrap().unwrap().ops[1]
    };
    let constant = |bits: Option<u64>| Op::FloatConst { bits, into: Value::CostBound };
    assert_eq!(bound(Some(0.25)), constant(Some(0.25f64.to_bits())));
    assert_eq!(bound(Some(-f64::MAX)), constant(Some((-f64::MAX).to_bits())));
    assert_eq!(bound(Some(f64::INFINITY)), constant(None));
    assert_eq!(bound(Some(f64::NEG_INFINITY)), constant(None));
    assert_eq!(bound(Some(f64::NAN)), constant(None));
    assert_eq!(bound(None), constant(None));
}

#[test]
fn results_must_fit_the_return_type() {
    let message = |return_ty: Type, results: usize| {
        let e = define_extern_c_wrapper(&agent(vec![], return_ty), results).unwrap_err();
        assert_eq!(e.kind, CodegenErrorKind::Cranelift);
        assert_eq!(e.span, SPAN);
        e.message
    };
    assert_eq!(
        message(ty("Nothing", Shape::Nothing), 2),
        "extern-c wrapper `classify` expected no result, got 2 value(s)"
    );
    assert_eq!(
        message(ty("String", Shape::String), 0),
        "extern-c wrapper `classify` expected one String result, got 0"
    );
    assert_eq!(
        message(grounded(ty("String", Shape::String)), 0),
        "extern-c wrapper `classify` expected one grounded String result, got 0"
    );
    assert_eq!(
        message(grounded(ty("Int", Shape::Int)), 0),
        "extern-c wrapper `classify` expected one grounded scalar result, got 0"
    );
    assert_eq!(
        message(ty("Int", Shape::Int), 0),
        "extern-c wrapper `classify` expected one scalar result, got 0"
    );
}

#[test]
fn types_that_cannot_cross_are_named() {
    let a = agent(
        vec![param(0, "n", ty("Int", Shape::Int)), param(1, "order", ty("Order", Shape::Struct))],
        ty("Line", Shape::Struct),
    );
    let e = define_extern_c_wrapper(&a, 0).unwrap_err();
    assert_eq!(
        e.message,
        "extern-c wrapper lowering does not support `Order` at this ABI boundary"
    );
    assert_eq!(e.span, Span { start: 1, end: 2 });
    let e = define_extern_c_wrapper(&agent(vec![], ty("Line", Shape::Struct)), 0).unwrap_err();
    assert_eq!(
        e.message,
        "extern-c wrapper lowering does not support `Line` at this ABI boundary"
    );
}

fn exported_agents() -> Vec<IrAgent> {
    let text = || param(0, "text", ty("String", Shape::String));
    vec![
        agent(vec![text()], ty("String", Shape::String)),
        agent(vec![text()], grounded(ty("String", Shape::String))),
        agent(vec![param(0, "n", ty("Int", Shape::Int)), text()], grounded(ty("Float", Shape::Float))),
        agent(vec![], ty("Bool", Shape::Bool)),
        agent(vec![], ty("Nothing", Shape::Nothing)),
    ]
}

fn results_of(agent: &IrAgent) -> usize {
    if matches!(agent.return_ty.shape, Shape::Nothing) { 0 } else { 1 }
}

#[test]
fn values_are_written_once_before_they_are_read() {
    for a in exported_agents() {
        let plan = define_extern_c_wrapper(&a, results_of(&a)).unwrap().unwrap();
        let mut known: Vec<Value> = plan.params.iter().map(|slot| slot.value).collect();
        for op in &plan.ops {
            let (read, written): (Vec<Value>, Vec<Value>) = match *op {
                Op::FloatConst { into, .. } | Op::NameConst { into } | Op::ZeroConst { into } => {
                    (vec![], vec![into])
                }
                Op::Call0 { into, .. } => (vec![], into.into_iter().collect()),
                Op::Call1 { arg, into, .. } => (vec![arg], into.into_iter().collect()),
                Op::TracePayload { tags, count, values } => {
                    (plan.call_args.clone(), vec![tags, count, values])
                }
                Op::RunStarted { name, tags, count, values } => {
                    (vec![name, tags, count, values], vec![])
                }
                Op::Release { value } => (vec![value], vec![]),
                Op::CallInner { into } => (plan.call_args.clone(), into.into_iter().collect()),
                Op::NotEqual { left, right, into } => (vec![left, right], vec![into]),
                Op::Branch { condition, .. } => (vec![condition], vec![]),
                Op::Store { value, address } => (vec![value, address], vec![]),
                Op::Return { value } => (value.into_iter().collect(), vec![]),
                Op::Enter { .. } | Op::Jump { .. } => (vec![], vec![]),
            };
            assert!(read.iter().all(|value| known.contains(value)), "{op:?}");
            assert!(written.iter().all(|value| !known.contains(value)), "{op:?}");
            known.extend(written);
        }
    }
}

#[test]
fn runs_are_recorded_around_the_agent_call() {
    for a in exported_agents() {
        let plan = define_extern_c_wrapper(&a, results_of(&a)).unwrap().unwrap();
        let at = |wanted: &dyn Fn(&Op) -> bool| {
            plan.ops
                .iter()
                .enumerate()
                .filter(|(_, op)| wanted(op))
                .map(|(i, _)| i)
                .collect::<Vec<usize>>()
        };
        let started = at(&|op| matches!(op, Op::RunStarted { .. }));
        let called = at(&|op| matches!(op, Op::CallInner { .. }));
        let completed = at(&|op| {
            matches!(
                op,
                Op::Call1 {
                    func: RuntimeFn::TraceRunCompletedInt
                        | RuntimeFn::TraceRunCompletedBool
                        | RuntimeFn::TraceRunCompletedFloat
                        | RuntimeFn::TraceRunCompletedString,
                    ..
                }
            )
        });
        assert_eq!(started.len(), 1);
        assert_eq!(called.len(), 1);
        assert!(started[0] < called[0]);
        assert_eq!(completed.len(), results_of(&a));
        assert!(completed.iter().all(|i| *i > called[0]));
    }
}

#[test]
fn exportable_agents_can_be_lowered() {
    for a in exported_agents() {
        assert!(define_extern_c_wrapper(&a, results_of(&a)).is_ok());
        assert!(reject_unsupported_types(&a).is_ok());
        for p in &a.params {
            assert_eq!(
                cl_type_for(&p.ty, p.span).unwrap(),
                extern_c_abi_type(&p.ty, p.span).unwrap()
            );
        }
    }
}
