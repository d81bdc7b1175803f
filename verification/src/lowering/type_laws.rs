//! Which machine types carry which types, shape by shape.
use vstd::prelude::*;
use vstd::string::*;

use crate::lowering::types::{
    cl_type_for, extern_c_abi_type, grounded_extern_c_return_inner, ClType, CodegenError,
    CodegenErrorKind, Shape, Span, Type,
};

verus! {

/// The failure is of the kind, says the message, and points at the place.
pub open spec fn fails_with(
    e: CodegenError,
    kind: CodegenErrorKind,
    message: Seq<char>,
    span: Span,
) -> bool {
    e.kind == kind && e.message@ == message && e.span == span
}

/// Integers and everything that is a pointer are carried in 64-bit integers,
/// floats in 64-bit floats, truth values in bytes. Options and results are
/// pointers where they have a native form.
pub proof fn law_native_types_follow_the_shape(
    ty: Type,
    span: Span,
    result: Result<ClType, CodegenError>,
)
    requires
        call_ensures(cl_type_for, (&ty, span), result),
    ensures
        match ty.shape {
            Shape::Int | Shape::String | Shape::Struct | Shape::List | Shape::Weak => result
                == Ok::<ClType, CodegenError>(ClType::I64),
            Shape::Float => result == Ok::<ClType, CodegenError>(ClType::F64),
            Shape::Bool => result == Ok::<ClType, CodegenError>(ClType::I8),
            Shape::Result { native } => if native {
                result == Ok::<ClType, CodegenError>(ClType::I64)
            } else {
                result is Err
            },
            Shape::Option { inner_refcounted, wide } => if inner_refcounted || wide {
                result == Ok::<ClType, CodegenError>(ClType::I64)
            } else {
                result is Err
            },
            Shape::Grounded(_) => true,
            Shape::Stream | Shape::Function | Shape::TraceId | Shape::Nothing
            | Shape::Unknown => result is Err,
        },
{
}

/// A grounded value is carried like the value.
pub proof fn law_grounding_keeps_the_machine_type(
    ty: Type,
    inner: Type,
    span: Span,
    native: Result<ClType, CodegenError>,
    inner_native: Result<ClType, CodegenError>,
    boundary: Result<ClType, CodegenError>,
    inner_boundary: Result<ClType, CodegenError>,
)
    requires
        ty.shape == Shape::Grounded(Box::new(inner)),
        call_ensures(cl_type_for, (&ty, span), native),
        call_ensures(cl_type_for, (&inner, span), inner_native),
        call_ensures(extern_c_abi_type, (&ty, span), boundary),
        call_ensures(extern_c_abi_type, (&inner, span), inner_boundary),
    ensures
        match (native, inner_native) {
            (Ok(t), Ok(u)) => t == u,
            (Err(e), Err(f)) => e.kind == f.kind && e.message@ == f.message@ && e.span == f.span,
            _ => false,
        },
        match (boundary, inner_boundary) {
            (Ok(t), Ok(u)) => t == u,
            (Err(e), Err(f)) => e.kind == f.kind && e.message@ == f.message@ && e.span == f.span,
            _ => false,
        },
{
}

/// What has no native type is refused at its place and by its name; an unknown
/// type is a fault of an earlier stage.
pub proof fn law_types_without_native_form_are_refused(
    ty: Type,
    span: Span,
    e: CodegenError,
)
    requires
        call_ensures(cl_type_for, (&ty, span), Err(e)),
        !(ty.shape is Grounded),
    ensures
        e.span == span,
        ty.shape is Unknown <==> e.kind == CodegenErrorKind::Cranelift,
        match ty.shape {
            Shape::Stream => e.message@
                == "`Stream<T>` - Stream lowering is not yet implemented"@,
            Shape::Nothing => e.message@ == "`Nothing` — use a bare `return` instead"@,
            Shape::Function => e.message@
                == "function types as values — first-class callables are not implemented in native codegen yet"@,
            Shape::Result { .. } => e.message@
                == "`Result<T, E>` — native tagged-union lowering is not implemented yet; use the interpreter tier (`corvid run --tier interp`) until then"@,
            Shape::Option { .. } => e.message@
                == "`Option<T>` — native codegen currently supports nullable-pointer `Option<T>` when `T` is refcounted plus wide scalar `Option<Int|Bool|Float>`; other payload shapes still need the interpreter tier"@,
            Shape::TraceId => e.message@
                == "`TraceId` - native codegen for replay expressions lands in Phase 21 slice 21-inv-E-4; use the interpreter tier (`corvid run --tier interp`) until then"@,
            Shape::Unknown => e.message@
                == "encountered `Unknown` type at codegen — typecheck should have caught this"@,
            _ => false,
        },
{
}

/// Integers, strings, floats and truth values cross the C boundary, each in its
/// own machine type. Nothing else that is not grounded does.
pub proof fn law_scalars_and_strings_cross_the_boundary(
    ty: Type,
    span: Span,
    result: Result<ClType, CodegenError>,
)
    requires
        call_ensures(extern_c_abi_type, (&ty, span), result),
    ensures
        match ty.shape {
            Shape::Int | Shape::String => result == Ok::<ClType, CodegenError>(ClType::I64),
            Shape::Float => result == Ok::<ClType, CodegenError>(ClType::F64),
            Shape::Bool => result == Ok::<ClType, CodegenError>(ClType::I8),
            Shape::Grounded(_) => true,
            Shape::Nothing => result matches Err(e) && fails_with(
                e,
                CodegenErrorKind::Cranelift,
                "`Nothing` is only valid as an extern-c return type"@,
                span,
            ),
            _ => result matches Err(e) && fails_with(
                e,
                CodegenErrorKind::NotSupported,
                "extern-c wrapper lowering does not support `"@ + ty.display_name@
                    + "` at this ABI boundary"@,
                span,
            ),
        },
{
}

/// The value inside a grounded type is found, and in nothing else.
pub proof fn law_only_grounded_types_hold_a_value_type(ty: Type, inner: Option<&Type>)
    requires
        call_ensures(grounded_extern_c_return_inner, (&ty,), inner),
    ensures
        inner is Some <==> ty.shape is Grounded,
        inner matches Some(found) ==> ty.shape == Shape::Grounded(Box::new(*found)),
{
}

/// A failure keeps its message and its place, and is of the kind it is made as.
pub proof fn law_failures_keep_message_and_place(
    message: String,
    span: Span,
    refused: CodegenError,
    broken: CodegenError,
)
    requires
        call_ensures(CodegenError::not_supported, (message, span), refused),
        call_ensures(CodegenError::cranelift, (message, span), broken),
    ensures
        fails_with(refused, CodegenErrorKind::NotSupported, message@, span),
        fails_with(broken, CodegenErrorKind::Cranelift, message@, span),
{
}

} // verus!
