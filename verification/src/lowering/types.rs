//! Types of agents and how native code carries them.
use vstd::prelude::*;
use vstd::string::*;

verus! {

/// A definition of the program, by number.
#[derive(Clone, Copy, Debug, PartialEq, Eq, Hash, Structural)]
pub struct DefId(pub u32);

/// A local of an agent, by number.
#[derive(Clone, Copy, Debug, PartialEq, Eq, Hash, Structural)]
pub struct LocalId(pub u32);

/// A stretch of source text.
#[derive(Clone, Copy, Debug, PartialEq, Eq, Structural)]
pub struct Span {
    pub start: usize,
    pub end: usize,
}

/// The machine types that values are lowered to.
#[derive(Clone, Copy, Debug, PartialEq, Eq, Structural)]
pub enum ClType {
    I64,
    F64,
    I8,
}

/// What lowering reads of a type's structure.
#[derive(Debug)]
pub enum Shape {
    Int,
    Float,
    Bool,
    String,
    Struct,
    List,
    Weak,
    /// `native` tells whether the tagged union has a native representation.
    Result { native: bool },
    /// `inner_refcounted` tells whether the payload is a refcounted pointer,
    /// `wide` whether the option is a wide scalar.
    Option { inner_refcounted: bool, wide: bool },
    Grounded(Box<Type>),
    Stream,
    Function,
    TraceId,
    Nothing,
    Unknown,
}

/// A type of the program: how the compiler displays it, whether its values
/// are refcounted, and its shape.
#[derive(Debug)]
pub struct Type {
    pub display_name: String,
    pub refcounted: bool,
    pub shape: Shape,
}

/// The two ways in which lowering fails.
#[derive(Clone, Copy, Debug, PartialEq, Eq, Structural)]
pub enum CodegenErrorKind {
    Cranelift,
    NotSupported,
}

/// A lowering failure at a place of the source.
#[derive(Debug)]
pub struct CodegenError {
    pub kind: CodegenErrorKind,
    pub message: String,
    pub span: Span,
}

/// The content of a lowering failure, apart from its place.
pub struct Refusal {
    pub kind: CodegenErrorKind,
    pub message: Seq<char>,
}

impl CodegenError {
    /// What the error says.
    pub open spec fn refusal(self) -> Refusal {
        Refusal { kind: self.kind, message: self.message@ }
    }

    /// The error says `refusal` and points at `span`.
    pub open spec fn reports(self, refusal: Refusal, span: Span) -> bool {
        self.refusal() == refusal && self.span == span
    }

    /// A failure on a feature that is not lowered.
    pub fn not_supported(message: String, span: Span) -> (error: CodegenError)
        ensures
            error.reports(not_supported_refusal(message@), span),
    {
        CodegenError { kind: CodegenErrorKind::NotSupported, message, span }
    }

    /// A failure inside lowering itself.
    pub fn cranelift(message: String, span: Span) -> (error: CodegenError)
        ensures
            error.reports(cranelift_refusal(message@), span),
    {
        CodegenError { kind: CodegenErrorKind::Cranelift, message, span }
    }
}

/// The refusal of a feature that is not lowered.
pub open spec fn not_supported_refusal(message: Seq<char>) -> Refusal {
    Refusal { kind: CodegenErrorKind::NotSupported, message }
}

/// The refusal of what lowering cannot go on with.
pub open spec fn cranelift_refusal(message: Seq<char>) -> Refusal {
    Refusal { kind: CodegenErrorKind::Cranelift, message }
}

/// The machine type that carries `ty` inside native code, or why there is none.
pub open spec fn native_type(ty: Type) -> Result<ClType, Refusal>
    decreases ty,
{
    match ty.shape {
        Shape::Int | Shape::String | Shape::Struct | Shape::List | Shape::Weak => Ok(ClType::I64),
        Shape::Bool => Ok(ClType::I8),
        Shape::Float => Ok(ClType::F64),
        Shape::Result { native } => if native {
            Ok(ClType::I64)
        } else {
            Err(not_supported_refusal(RESULT_UNSUPPORTED@))
        },
        Shape::Option { inner_refcounted, wide } => if inner_refcounted || wide {
            Ok(ClType::I64)
        } else {
            Err(not_supported_refusal(OPTION_UNSUPPORTED@))
        },
        Shape::Grounded(inner) => native_type(*inner),
        Shape::Stream => Err(not_supported_refusal(STREAM_UNSUPPORTED@)),
        Shape::Nothing => Err(not_supported_refusal(NOTHING_UNSUPPORTED@)),
        Shape::Function => Err(not_supported_refusal(FUNCTION_UNSUPPORTED@)),
        Shape::TraceId => Err(not_supported_refusal(TRACE_ID_UNSUPPORTED@)),
        Shape::Unknown => Err(cranelift_refusal(UNKNOWN_TYPE@)),
    }
}

/// The machine type that carries `ty` across the C boundary, or why there is
/// none.
pub open spec fn extern_c_type(ty: Type) -> Result<ClType, Refusal>
    decreases ty,
{
    match ty.shape {
        Shape::Int | Shape::String => Ok(ClType::I64),
        Shape::Float => Ok(ClType::F64),
        Shape::Bool => Ok(ClType::I8),
        Shape::Grounded(inner) => extern_c_type(*inner),
        Shape::Nothing => Err(cranelift_refusal(NOTHING_AT_BOUNDARY@)),
        _ => Err(
            not_supported_refusal(
                "extern-c wrapper lowering does not support `"@ + ty.display_name@
                    + "` at this ABI boundary"@,
            ),
        ),
    }
}

pub const STREAM_UNSUPPORTED: &'static str = "`Stream<T>` - Stream lowering is not yet implemented";

pub const NOTHING_UNSUPPORTED: &'static str = "`Nothing` — use a bare `return` instead";

pub const FUNCTION_UNSUPPORTED: &'static str = "function types as values — first-class callables are not implemented in native codegen yet";

pub const RESULT_UNSUPPORTED: &'static str = "`Result<T, E>` — native tagged-union lowering is not implemented yet; use the interpreter tier (`corvid run --tier interp`) until then";

pub const OPTION_UNSUPPORTED: &'static str = "`Option<T>` — native codegen currently supports nullable-pointer `Option<T>` when `T` is refcounted plus wide scalar `Option<Int|Bool|Float>`; other payload shapes still need the interpreter tier";

pub const TRACE_ID_UNSUPPORTED: &'static str = "`TraceId` - native codegen for replay expressions lands in Phase 21 slice 21-inv-E-4; use the interpreter tier (`corvid run --tier interp`) until then";

pub const UNKNOWN_TYPE: &'static str = "encountered `Unknown` type at codegen — typecheck should have caught this";

pub const NOTHING_AT_BOUNDARY: &'static str = "`Nothing` is only valid as an extern-c return type";

/// Maps a type to the machine type it is compiled to.
pub fn cl_type_for(ty: &Type, span: Span) -> (result: Result<ClType, CodegenError>)
    ensures
        match native_type(*ty) {
            Ok(t) => result == Ok::<ClType, CodegenError>(t),
            Err(refusal) => result matches Err(e) && e.reports(refusal, span),
        },
    decreases ty,
{
    let refused: &'static str = match &ty.shape {
        Shape::Int | Shape::String | Shape::Struct | Shape::List | Shape::Weak => {
            return Ok(ClType::I64);
        },
        Shape::Bool => {
            return Ok(ClType::I8);
        },
        Shape::Float => {
            return Ok(ClType::F64);
        },
        Shape::Result { native } => {
            if *native {
                return Ok(ClType::I64);
            }
            RESULT_UNSUPPORTED
        },
        Shape::Option { inner_refcounted, wide } => {
            if *inner_refcounted || *wide {
                return Ok(ClType::I64);
            }
            OPTION_UNSUPPORTED
        },
        Shape::Grounded(inner) => {
            return cl_type_for(inner, span);
        },
        Shape::Stream => STREAM_UNSUPPORTED,
        Shape::Nothing => NOTHING_UNSUPPORTED,
        Shape::Function => FUNCTION_UNSUPPORTED,
        Shape::TraceId => TRACE_ID_UNSUPPORTED,
        Shape::Unknown => {
            return Err(CodegenError::cranelift(String::from_str(UNKNOWN_TYPE), span));
        },
    };
    Err(CodegenError::not_supported(String::from_str(refused), span))
}

/// Maps a type to the machine type it has at the C boundary.
pub fn extern_c_abi_type(ty: &Type, span: Span) -> (result: Result<ClType, CodegenError>)
    ensures
        match extern_c_type(*ty) {
            Ok(t) => result == Ok::<ClType, CodegenError>(t),
            Err(refusal) => result matches Err(e) && e.reports(refusal, span),
        },
    decreases ty,
{
    match &ty.shape {
        Shape::Int | Shape::String => Ok(ClType::I64),
        Shape::Float => Ok(ClType::F64),
        Shape::Bool => Ok(ClType::I8),
        Shape::Grounded(inner) => extern_c_abi_type(inner, span),
        Shape::Nothing => Err(
            CodegenError::cranelift(String::from_str(NOTHING_AT_BOUNDARY), span),
        ),
        _ => {
            let mut message: String = String::from_str(
                "extern-c wrapper lowering does not support `",
            );
            message.append(ty.display_name.as_str());
            message.append("` at this ABI boundary");
            Err(CodegenError::not_supported(message, span))
        },
    }
}

/// The value type inside a grounded type.
pub fn grounded_extern_c_return_inner(ty: &Type) -> (inner: Option<&Type>)
    ensures
        match ty.shape {
            Shape::Grounded(t) => inner == Some(&*t),
            _ => inner is None,
        },
{
    match &ty.shape {
        Shape::Grounded(inner) => Some(inner),
        _ => None,
    }
}

/// What can cross the C boundary has the same machine type on both sides.
pub proof fn law_the_boundary_keeps_machine_types(ty: Type)
    requires
        extern_c_type(ty) is Ok,
    ensures
        native_type(ty) == extern_c_type(ty),
    decreases ty,
{
    if let Shape::Grounded(inner) = ty.shape {
        law_the_boundary_keeps_machine_types(*inner);
    }
}

} // verus!
