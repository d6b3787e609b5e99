//! The gatekeeper of Wasm compilation: which proposals (extensions) of Wasm
//! a contract's operators may come from, and whether floating point
//! operators are allowed.
//!
//! The compiler hands every operator over, by the name of its variant in
//! the Wasm parser, with the proposal it belongs to; the gatekeeper knows
//! which operators work on floating point numbers, and accepts the
//! operator or names why not.

use vstd::prelude::*;

verus! {

/// The name under which the gatekeeper reports errors.
pub const MIDDLEWARE_NAME: &'static str = "Gatekeeper";

/// The message of a rejected floating point operator.
pub const FLOATING_POINTS_NOT_ALLOWED: &'static str = "Floating point opcodes are not allowed";

/// A proposal (extension) of Wasm that operators come from.
#[derive(Copy, Clone, Debug, PartialEq, Eq, Structural)]
pub enum Proposal {
    BulkMemory,
    Exceptions,
    FunctionReferences,
    Gc,
    LegacyExceptions,
    MemoryControl,
    Mvp,
    ReferenceTypes,
    RelaxedSimd,
    SaturatingFloatToInt,
    SharedEverythingThreads,
    SignExtension,
    Simd,
    StackSwitching,
    TailCall,
    Threads,
    WideArithmetic,
}

impl Proposal {
    /// The proposal's name in error messages.
    pub open spec fn spec_name(self) -> &'static str {
        match self {
            Proposal::BulkMemory => "bulk_memory",
            Proposal::Exceptions => "exceptions",
            Proposal::FunctionReferences => "function_references",
            Proposal::Gc => "gc",
            Proposal::LegacyExceptions => "legacy_exceptions",
            Proposal::MemoryControl => "memory_control",
            Proposal::Mvp => "mvp",
            Proposal::ReferenceTypes => "reference_types",
            Proposal::RelaxedSimd => "relaxed_simd",
            Proposal::SaturatingFloatToInt => "saturating_float_to_int",
            Proposal::SharedEverythingThreads => "shared_everything_threads",
            Proposal::SignExtension => "sign_extension",
            Proposal::Simd => "simd",
            Proposal::StackSwitching => "stack_switching",
            Proposal::TailCall => "tail_call",
            Proposal::Threads => "threads",
            Proposal::WideArithmetic => "wide_arithmetic",
        }
    }

    /// The proposal's name in error messages.
    pub fn name(&self) -> (r: &'static str)
        ensures
            r == self.spec_name(),
    {
        match self {
            Proposal::BulkMemory => "bulk_memory",
            Proposal::Exceptions => "exceptions",
            Proposal::FunctionReferences => "function_references",
            Proposal::Gc => "gc",
            Proposal::LegacyExceptions => "legacy_exceptions",
            Proposal::MemoryControl => "memory_control",
            Proposal::Mvp => "mvp",
            Proposal::ReferenceTypes => "reference_types",
            Proposal::RelaxedSimd => "relaxed_simd",
            Proposal::SaturatingFloatToInt => "saturating_float_to_int",
            Proposal::SharedEverythingThreads => "shared_everything_threads",
            Proposal::SignExtension => "sign_extension",
            Proposal::Simd => "simd",
            Proposal::StackSwitching => "stack_switching",
            Proposal::TailCall => "tail_call",
            Proposal::Threads => "threads",
            Proposal::WideArithmetic => "wide_arithmetic",
        }
    }
}

/// Which proposals are allowed, and whether floating point operators are.
#[derive(Copy, Clone, Debug, PartialEq, Eq, Structural)]
pub struct GatekeeperConfig {
    pub bulk_memory: bool,
    pub exceptions: bool,
    pub function_references: bool,
    pub gc: bool,
    pub legacy_exceptions: bool,
    pub memory_control: bool,
    pub mvp: bool,
    pub reference_types: bool,
    pub relaxed_simd: bool,
    /// This requires canonicalized NaNs in the compiler's configuration.
    pub saturating_float_to_int: bool,
    pub shared_everything_threads: bool,
    pub sign_extension: bool,
    pub simd: bool,
    pub stack_switching: bool,
    pub tail_call: bool,
    pub threads: bool,
    pub wide_arithmetic: bool,
    /// Allow the floating point operators of the `mvp` proposal. This
    /// requires canonicalized NaNs in the compiler's configuration.
    pub allow_floating_points: bool,
}

impl GatekeeperConfig {
    /// Whether the configuration allows the proposal.
    pub open spec fn allows(self, p: Proposal) -> bool {
        match p {
            Proposal::BulkMemory => self.bulk_memory,
            Proposal::Exceptions => self.exceptions,
            Proposal::FunctionReferences => self.function_references,
            Proposal::Gc => self.gc,
            Proposal::LegacyExceptions => self.legacy_exceptions,
            Proposal::MemoryControl => self.memory_control,
            Proposal::Mvp => self.mvp,
            Proposal::ReferenceTypes => self.reference_types,
            Proposal::RelaxedSimd => self.relaxed_simd,
            Proposal::SaturatingFloatToInt => self.saturating_float_to_int,
            Proposal::SharedEverythingThreads => self.shared_everything_threads,
            Proposal::SignExtension => self.sign_extension,
            Proposal::Simd => self.simd,
            Proposal::StackSwitching => self.stack_switching,
            Proposal::TailCall => self.tail_call,
            Proposal::Threads => self.threads,
            Proposal::WideArithmetic => self.wide_arithmetic,
        }
    }

    /// Whether the configuration allows the proposal.
    pub fn is_allowed(&self, p: Proposal) -> (r: bool)
        ensures
            r == self.allows(p),
    {
        match p {
            Proposal::BulkMemory => self.bulk_memory,
            Proposal::Exceptions => self.exceptions,
            Proposal::FunctionReferences => self.function_references,
            Proposal::Gc => self.gc,
            Proposal::LegacyExceptions => self.legacy_exceptions,
            Proposal::MemoryControl => self.memory_control,
            Proposal::Mvp => self.mvp,
            Proposal::ReferenceTypes => self.reference_types,
            Proposal::RelaxedSimd => self.relaxed_simd,
            Proposal::SaturatingFloatToInt => self.saturating_float_to_int,
            Proposal::SharedEverythingThreads => self.shared_everything_threads,
            Proposal::SignExtension => self.sign_extension,
            Proposal::Simd => self.simd,
            Proposal::StackSwitching => self.stack_switching,
            Proposal::TailCall => self.tail_call,
            Proposal::Threads => self.threads,
            Proposal::WideArithmetic => self.wide_arithmetic,
        }
    }
}

impl Default for GatekeeperConfig {
    /// Only the `mvp` and `sign_extension` proposals, without floating point
    /// operators.
    fn default() -> (r: Self)
        ensures
            forall|p: Proposal| r.allows(p) == (p is Mvp || p is SignExtension),
            !r.allow_floating_points,
    {
        GatekeeperConfig {
            bulk_memory: false,
            exceptions: false,
            function_references: false,
            gc: false,
            legacy_exceptions: false,
            memory_control: false,
            mvp: true,
            reference_types: false,
            relaxed_simd: false,
            saturating_float_to_int: false,
            shared_everything_threads: false,
            sign_extension: true,
            simd: false,
            stack_switching: false,
            tail_call: false,
            threads: false,
            wide_arithmetic: false,
            allow_floating_points: false,
        }
    }
}

/// The floating point operators of the core instruction set, by name.
pub open spec fn spec_fp_mvp(name: Seq<char>) -> bool {
    ||| name == "F32Load"@
    ||| name == "F64Load"@
    ||| name == "F32Store"@
    ||| name == "F64Store"@
    ||| name == "F32Const"@
    ||| name == "F64Const"@
    ||| name == "F32Abs"@
    ||| name == "F32Neg"@
    ||| name == "F32Ceil"@
    ||| name == "F32Floor"@
    ||| name == "F32Trunc"@
    ||| name == "F32Nearest"@
    ||| name == "F32Sqrt"@
    ||| name == "F32Add"@
    ||| name == "F32Sub"@
    ||| name == "F32Mul"@
    ||| name == "F32Div"@
    ||| name == "F32Min"@
    ||| name == "F32Max"@
    ||| name == "F32Copysign"@
    ||| name == "F64Abs"@
    ||| name == "F64Neg"@
    ||| name == "F64Ceil"@
    ||| name == "F64Floor"@
    ||| name == "F64Trunc"@
    ||| name == "F64Nearest"@
    ||| name == "F64Sqrt"@
    ||| name == "F64Add"@
    ||| name == "F64Sub"@
    ||| name == "F64Mul"@
    ||| name == "F64Div"@
    ||| name == "F64Min"@
    ||| name == "F64Max"@
    ||| name == "F64Copysign"@
    ||| name == "F32Eq"@
    ||| name == "F32Ne"@
    ||| name == "F32Lt"@
    ||| name == "F32Gt"@
    ||| name == "F32Le"@
    ||| name == "F32Ge"@
    ||| name == "F64Eq"@
    ||| name == "F64Ne"@
    ||| name == "F64Lt"@
    ||| name == "F64Gt"@
    ||| name == "F64Le"@
    ||| name == "F64Ge"@
    ||| name == "I32TruncF32S"@
    ||| name == "I32TruncF32U"@
    ||| name == "I32TruncF64S"@
    ||| name == "I32TruncF64U"@
    ||| name == "I64TruncF32S"@
    ||| name == "I64TruncF32U"@
    ||| name == "I64TruncF64S"@
    ||| name == "I64TruncF64U"@
    ||| name == "F32ConvertI32S"@
    ||| name == "F32ConvertI32U"@
    ||| name == "F32ConvertI64S"@
    ||| name == "F32ConvertI64U"@
    ||| name == "F32DemoteF64"@
    ||| name == "F64ConvertI32S"@
    ||| name == "F64ConvertI32U"@
    ||| name == "F64ConvertI64S"@
    ||| name == "F64ConvertI64U"@
    ||| name == "F64PromoteF32"@
    ||| name == "I32ReinterpretF32"@
    ||| name == "I64ReinterpretF64"@
    ||| name == "F32ReinterpretI32"@
    ||| name == "F64ReinterpretI64"@
}

/// The floating point operators of the saturating float-to-int proposal, by name.
pub open spec fn spec_fp_saturating(name: Seq<char>) -> bool {
    ||| name == "I32TruncSatF32S"@
    ||| name == "I32TruncSatF32U"@
    ||| name == "I32TruncSatF64S"@
    ||| name == "I32TruncSatF64U"@
    ||| name == "I64TruncSatF32S"@
    ||| name == "I64TruncSatF32U"@
    ||| name == "I64TruncSatF64S"@
    ||| name == "I64TruncSatF64U"@
}

/// The floating point operators of the SIMD proposal, by name.
pub open spec fn spec_fp_simd(name: Seq<char>) -> bool {
    ||| name == "F32x4ExtractLane"@
    ||| name == "F32x4ReplaceLane"@
    ||| name == "F64x2ExtractLane"@
    ||| name == "F64x2ReplaceLane"@
    ||| name == "F32x4Splat"@
    ||| name == "F64x2Splat"@
    ||| name == "F32x4Eq"@
    ||| name == "F32x4Ne"@
    ||| name == "F32x4Lt"@
    ||| name == "F32x4Gt"@
    ||| name == "F32x4Le"@
    ||| name == "F32x4Ge"@
    ||| name == "F64x2Eq"@
    ||| name == "F64x2Ne"@
    ||| name == "F64x2Lt"@
    ||| name == "F64x2Gt"@
    ||| name == "F64x2Le"@
    ||| name == "F64x2Ge"@
    ||| name == "F32x4Ceil"@
    ||| name == "F32x4Floor"@
    ||| name == "F32x4Trunc"@
    ||| name == "F32x4Nearest"@
    ||| name == "F32x4Abs"@
    ||| name == "F32x4Neg"@
    ||| name == "F32x4Sqrt"@
    ||| name == "F32x4Add"@
    ||| name == "F32x4Sub"@
    ||| name == "F32x4Mul"@
    ||| name == "F32x4Div"@
    ||| name == "F32x4Min"@
    ||| name == "F32x4Max"@
    ||| name == "F32x4PMin"@
    ||| name == "F32x4PMax"@
    ||| name == "F64x2Ceil"@
    ||| name == "F64x2Floor"@
    ||| name == "F64x2Trunc"@
    ||| name == "F64x2Nearest"@
    ||| name == "F64x2Abs"@
    ||| name == "F64x2Neg"@
    ||| name == "F64x2Sqrt"@
    ||| name == "F64x2Add"@
    ||| name == "F64x2Sub"@
    ||| name == "F64x2Mul"@
    ||| name == "F64x2Div"@
    ||| name == "F64x2Min"@
    ||| name == "F64x2Max"@
    ||| name == "F64x2PMin"@
    ||| name == "F64x2PMax"@
    ||| name == "I32x4TruncSatF32x4S"@
    ||| name == "I32x4TruncSatF32x4U"@
    ||| name == "F32x4ConvertI32x4S"@
    ||| name == "F32x4ConvertI32x4U"@
    ||| name == "I32x4TruncSatF64x2SZero"@
    ||| name == "I32x4TruncSatF64x2UZero"@
    ||| name == "F64x2ConvertLowI32x4S"@
    ||| name == "F64x2ConvertLowI32x4U"@
    ||| name == "F32x4DemoteF64x2Zero"@
    ||| name == "F64x2PromoteLowF32x4"@
}

/// The floating point operators of the relaxed SIMD proposal, by name.
pub open spec fn spec_fp_relaxed_simd(name: Seq<char>) -> bool {
    ||| name == "I32x4RelaxedTruncF32x4S"@
    ||| name == "I32x4RelaxedTruncF32x4U"@
    ||| name == "I32x4RelaxedTruncF64x2SZero"@
    ||| name == "I32x4RelaxedTruncF64x2UZero"@
    ||| name == "F32x4RelaxedMadd"@
    ||| name == "F32x4RelaxedNmadd"@
    ||| name == "F64x2RelaxedMadd"@
    ||| name == "F64x2RelaxedNmadd"@
    ||| name == "F32x4RelaxedMin"@
    ||| name == "F32x4RelaxedMax"@
    ||| name == "F64x2RelaxedMin"@
    ||| name == "F64x2RelaxedMax"@
}

/// Whether the operator with this name (the name of its variant in the
/// Wasm parser's `Operator`) works on floating point numbers: loads,
/// stores, constants, arithmetic, comparisons and conversions of `f32` and
/// `f64`, of the core instruction set and of the saturating float-to-int,
/// SIMD and relaxed SIMD proposals.
pub open spec fn floating_point_operator(name: Seq<char>) -> bool {
    spec_fp_mvp(name) || spec_fp_saturating(name) || spec_fp_simd(name) || spec_fp_relaxed_simd(name)
}

/// Whether the name is that of a floating point operator of the core instruction set.
fn fp_mvp(name: &str) -> (r: bool)
    ensures
        r == spec_fp_mvp(name@),
{
    crate::text::str_eq(name, "F32Load")
        || crate::text::str_eq(name, "F64Load")
        || crate::text::str_eq(name, "F32Store")
        || crate::text::str_eq(name, "F64Store")
        || crate::text::str_eq(name, "F32Const")
        || crate::text::str_eq(name, "F64Const")
        || crate::text::str_eq(name, "F32Abs")
        || crate::text::str_eq(name, "F32Neg")
        || crate::text::str_eq(name, "F32Ceil")
        || crate::text::str_eq(name, "F32Floor")
        || crate::text::str_eq(name, "F32Trunc")
        || crate::text::str_eq(name, "F32Nearest")
        || crate::text::str_eq(name, "F32Sqrt")
        || crate::text::str_eq(name, "F32Add")
        || crate::text::str_eq(name, "F32Sub")
        || crate::text::str_eq(name, "F32Mul")
        || crate::text::str_eq(name, "F32Div")
        || crate::text::str_eq(name, "F32Min")
        || crate::text::str_eq(name, "F32Max")
        || crate::text::str_eq(name, "F32Copysign")
        || crate::text::str_eq(name, "F64Abs")
        || crate::text::str_eq(name, "F64Neg")
        || crate::text::str_eq(name, "F64Ceil")
        || crate::text::str_eq(name, "F64Floor")
        || crate::text::str_eq(name, "F64Trunc")
        || crate::text::str_eq(name, "F64Nearest")
        || crate::text::str_eq(name, "F64Sqrt")
        || crate::text::str_eq(name, "F64Add")
        || crate::text::str_eq(name, "F64Sub")
        || crate::text::str_eq(name, "F64Mul")
        || crate::text::str_eq(name, "F64Div")
        || crate::text::str_eq(name, "F64Min")
        || crate::text::str_eq(name, "F64Max")
        || crate::text::str_eq(name, "F64Copysign")
        || crate::text::str_eq(name, "F32Eq")
        || crate::text::str_eq(name, "F32Ne")
        || crate::text::str_eq(name, "F32Lt")
        || crate::text::str_eq(name, "F32Gt")
        || crate::text::str_eq(name, "F32Le")
        || crate::text::str_eq(name, "F32Ge")
        || crate::text::str_eq(name, "F64Eq")
        || crate::text::str_eq(name, "F64Ne")
        || crate::text::str_eq(name, "F64Lt")
        || crate::text::str_eq(name, "F64Gt")
        || crate::text::str_eq(name, "F64Le")
        || crate::text::str_eq(name, "F64Ge")
        || crate::text::str_eq(name, "I32TruncF32S")
        || crate::text::str_eq(name, "I32TruncF32U")
        || crate::text::str_eq(name, "I32TruncF64S")
        || crate::text::str_eq(name, "I32TruncF64U")
        || crate::text::str_eq(name, "I64TruncF32S")
        || crate::text::str_eq(name, "I64TruncF32U")
        || crate::text::str_eq(name, "I64TruncF64S")
        || crate::text::str_eq(name, "I64TruncF64U")
        || crate::text::str_eq(name, "F32ConvertI32S")
        || crate::text::str_eq(name, "F32ConvertI32U")
        || crate::text::str_eq(name, "F32ConvertI64S")
        || crate::text::str_eq(name, "F32ConvertI64U")
        || crate::text::str_eq(name, "F32DemoteF64")
        || crate::text::str_eq(name, "F64ConvertI32S")
        || crate::text::str_eq(name, "F64ConvertI32U")
        || crate::text::str_eq(name, "F64ConvertI64S")
        || crate::text::str_eq(name, "F64ConvertI64U")
        || crate::text::str_eq(name, "F64PromoteF32")
        || crate::text::str_eq(name, "I32ReinterpretF32")
        || crate::text::str_eq(name, "I64ReinterpretF64")
        || crate::text::str_eq(name, "F32ReinterpretI32")
        || crate::text::str_eq(name, "F64ReinterpretI64")
}

/// Whether the name is that of a floating point operator of the saturating float-to-int proposal.
fn fp_saturating(name: &str) -> (r: bool)
    ensures
        r == spec_fp_saturating(name@),
{
    crate::text::str_eq(name, "I32TruncSatF32S")
        || crate::text::str_eq(name, "I32TruncSatF32U")
        || crate::text::str_eq(name, "I32TruncSatF64S")
        || crate::text::str_eq(name, "I32TruncSatF64U")
        || crate::text::str_eq(name, "I64TruncSatF32S")
        || crate::text::str_eq(name, "I64TruncSatF32U")
        || crate::text::str_eq(name, "I64TruncSatF64S")
        || crate::text::str_eq(name, "I64TruncSatF64U")
}

/// Whether the name is that of a floating point operator of the SIMD proposal.
fn fp_simd(name: &str) -> (r: bool)
    ensures
        r == spec_fp_simd(name@),
{
    crate::text::str_eq(name, "F32x4ExtractLane")
        || crate::text::str_eq(name, "F32x4ReplaceLane")
        || crate::text::str_eq(name, "F64x2ExtractLane")
        || crate::text::str_eq(name, "F64x2ReplaceLane")
        || crate::text::str_eq(name, "F32x4Splat")
        || crate::text::str_eq(name, "F64x2Splat")
        || crate::text::str_eq(name, "F32x4Eq")
        || crate::text::str_eq(name, "F32x4Ne")
        || crate::text::str_eq(name, "F32x4Lt")
        || crate::text::str_eq(name, "F32x4Gt")
        || crate::text::str_eq(name, "F32x4Le")
        || crate::text::str_eq(name, "F32x4Ge")
        || crate::text::str_eq(name, "F64x2Eq")
        || crate::text::str_eq(name, "F64x2Ne")
        || crate::text::str_eq(name, "F64x2Lt")
        || crate::text::str_eq(name, "F64x2Gt")
        || crate::text::str_eq(name, "F64x2Le")
        || crate::text::str_eq(name, "F64x2Ge")
        || crate::text::str_eq(name, "F32x4Ceil")
        || crate::text::str_eq(name, "F32x4Floor")
        || crate::text::str_eq(name, "F32x4Trunc")
        || crate::text::str_eq(name, "F32x4Nearest")
        || crate::text::str_eq(name, "F32x4Abs")
        || crate::text::str_eq(name, "F32x4Neg")
        || crate::text::str_eq(name, "F32x4Sqrt")
        || crate::text::str_eq(name, "F32x4Add")
        || crate::text::str_eq(name, "F32x4Sub")
        || crate::text::str_eq(name, "F32x4Mul")
        || crate::text::str_eq(name, "F32x4Div")
        || crate::text::str_eq(name, "F32x4Min")
        || crate::text::str_eq(name, "F32x4Max")
        || crate::text::str_eq(name, "F32x4PMin")
        || crate::text::str_eq(name, "F32x4PMax")
        || crate::text::str_eq(name, "F64x2Ceil")
        || crate::text::str_eq(name, "F64x2Floor")
        || crate::text::str_eq(name, "F64x2Trunc")
        || crate::text::str_eq(name, "F64x2Nearest")
        || crate::text::str_eq(name, "F64x2Abs")
        || crate::text::str_eq(name, "F64x2Neg")
        || crate::text::str_eq(name, "F64x2Sqrt")
        || crate::text::str_eq(name, "F64x2Add")
        || crate::text::str_eq(name, "F64x2Sub")
        || crate::text::str_eq(name, "F64x2Mul")
        || crate::text::str_eq(name, "F64x2Div")
        || crate::text::str_eq(name, "F64x2Min")
        || crate::text::str_eq(name, "F64x2Max")
        || crate::text::str_eq(name, "F64x2PMin")
        || crate::text::str_eq(name, "F64x2PMax")
        || crate::text::str_eq(name, "I32x4TruncSatF32x4S")
        || crate::text::str_eq(name, "I32x4TruncSatF32x4U")
        || crate::text::str_eq(name, "F32x4ConvertI32x4S")
        || crate::text::str_eq(name, "F32x4ConvertI32x4U")
        || crate::text::str_eq(name, "I32x4TruncSatF64x2SZero")
        || crate::text::str_eq(name, "I32x4TruncSatF64x2UZero")
        || crate::text::str_eq(name, "F64x2ConvertLowI32x4S")
        || crate::text::str_eq(name, "F64x2ConvertLowI32x4U")
        || crate::text::str_eq(name, "F32x4DemoteF64x2Zero")
        || crate::text::str_eq(name, "F64x2PromoteLowF32x4")
}

/// Whether the name is that of a floating point operator of the relaxed SIMD proposal.
fn fp_relaxed_simd(name: &str) -> (r: bool)
    ensures
        r == spec_fp_relaxed_simd(name@),
{
    crate::text::str_eq(name, "I32x4RelaxedTruncF32x4S")
        || crate::text::str_eq(name, "I32x4RelaxedTruncF32x4U")
        || crate::text::str_eq(name, "I32x4RelaxedTruncF64x2SZero")
        || crate::text::str_eq(name, "I32x4RelaxedTruncF64x2UZero")
        || crate::text::str_eq(name, "F32x4RelaxedMadd")
        || crate::text::str_eq(name, "F32x4RelaxedNmadd")
        || crate::text::str_eq(name, "F64x2RelaxedMadd")
        || crate::text::str_eq(name, "F64x2RelaxedNmadd")
        || crate::text::str_eq(name, "F32x4RelaxedMin")
        || crate::text::str_eq(name, "F32x4RelaxedMax")
        || crate::text::str_eq(name, "F64x2RelaxedMin")
        || crate::text::str_eq(name, "F64x2RelaxedMax")
}

/// Whether the operator with this name works on floating point numbers.
pub fn is_floating_point(name: &str) -> (r: bool)
    ensures
        r == floating_point_operator(name@),
{
    fp_mvp(name) || fp_saturating(name) || fp_simd(name) || fp_relaxed_simd(name)
}

/// Every operator on `f32` or `f64` values is a floating point operator:
/// the loads, stores and constants, the arithmetic (`F32Add` to
/// `F64Copysign`), the comparisons, the conversions and reinterpretations
/// to and from integers, the saturating conversions, and the SIMD and
/// relaxed SIMD operators on `f32x4` and `f64x2` lanes.
pub proof fn law_float_operators_are_classified()
    ensures
        floating_point_operator("F32Load"@),
        floating_point_operator("F64Load"@),
        floating_point_operator("F32Store"@),
        floating_point_operator("F64Store"@),
        floating_point_operator("F32Const"@),
        floating_point_operator("F64Const"@),
        floating_point_operator("F32Abs"@),
        floating_point_operator("F32Neg"@),
        floating_point_operator("F32Ceil"@),
        floating_point_operator("F32Floor"@),
        floating_point_operator("F32Trunc"@),
        floating_point_operator("F32Nearest"@),
        floating_point_operator("F32Sqrt"@),
        floating_point_operator("F32Add"@),
        floating_point_operator("F32Sub"@),
        floating_point_operator("F32Mul"@),
        floating_point_operator("F32Div"@),
        floating_point_operator("F32Min"@),
        floating_point_operator("F32Max"@),
        floating_point_operator("F32Copysign"@),
        floating_point_operator("F64Abs"@),
        floating_point_operator("F64Neg"@),
        floating_point_operator("F64Ceil"@),
        floating_point_operator("F64Floor"@),
        floating_point_operator("F64Trunc"@),
        floating_point_operator("F64Nearest"@),
        floating_point_operator("F64Sqrt"@),
        floating_point_operator("F64Add"@),
        floating_point_operator("F64Sub"@),
        floating_point_operator("F64Mul"@),
        floating_point_operator("F64Div"@),
        floating_point_operator("F64Min"@),
        floating_point_operator("F64Max"@),
        floating_point_operator("F64Copysign"@),
        floating_point_operator("F32Eq"@),
        floating_point_operator("F32Ne"@),
        floating_point_operator("F32Lt"@),
        floating_point_operator("F32Gt"@),
        floating_point_operator("F32Le"@),
        floating_point_operator("F32Ge"@),
        floating_point_operator("F64Eq"@),
        floating_point_operator("F64Ne"@),
        floating_point_operator("F64Lt"@),
        floating_point_operator("F64Gt"@),
        floating_point_operator("F64Le"@),
        floating_point_operator("F64Ge"@),
        floating_point_operator("I32TruncF32S"@),
        floating_point_operator("I32TruncF32U"@),
        floating_point_operator("I32TruncF64S"@),
        floating_point_operator("I32TruncF64U"@),
        floating_point_operator("I64TruncF32S"@),
        floating_point_operator("I64TruncF32U"@),
        floating_point_operator("I64TruncF64S"@),
        floating_point_operator("I64TruncF64U"@),
        floating_point_operator("F32ConvertI32S"@),
        floating_point_operator("F32ConvertI32U"@),
        floating_point_operator("F32ConvertI64S"@),
        floating_point_operator("F32ConvertI64U"@),
        floating_point_operator("F32DemoteF64"@),
        floating_point_operator("F64ConvertI32S"@),
        floating_point_operator("F64ConvertI32U"@),
        floating_point_operator("F64ConvertI64S"@),
        floating_point_operator("F64ConvertI64U"@),
        floating_point_operator("F64PromoteF32"@),
        floating_point_operator("I32ReinterpretF32"@),
        floating_point_operator("I64ReinterpretF64"@),
        floating_point_operator("F32ReinterpretI32"@),
        floating_point_operator("F64ReinterpretI64"@),
        floating_point_operator("I32TruncSatF32S"@),
        floating_point_operator("I32TruncSatF32U"@),
        floating_point_operator("I32TruncSatF64S"@),
        floating_point_operator("I32TruncSatF64U"@),
        floating_point_operator("I64TruncSatF32S"@),
        floating_point_operator("I64TruncSatF32U"@),
        floating_point_operator("I64TruncSatF64S"@),
        floating_point_operator("I64TruncSatF64U"@),
        floating_point_operator("F32x4ExtractLane"@),
        floating_point_operator("F32x4ReplaceLane"@),
        floating_point_operator("F64x2ExtractLane"@),
        floating_point_operator("F64x2ReplaceLane"@),
        floating_point_operator("F32x4Splat"@),
        floating_point_operator("F64x2Splat"@),
        floating_point_operator("F32x4Eq"@),
        floating_point_operator("F32x4Ne"@),
        floating_point_operator("F32x4Lt"@),
        floating_point_operator("F32x4Gt"@),
        floating_point_operator("F32x4Le"@),
        floating_point_operator("F32x4Ge"@),
        floating_point_operator("F64x2Eq"@),
        floating_point_operator("F64x2Ne"@),
        floating_point_operator("F64x2Lt"@),
        floating_point_operator("F64x2Gt"@),
        floating_point_operator("F64x2Le"@),
        floating_point_operator("F64x2Ge"@),
        floating_point_operator("F32x4Ceil"@),
        floating_point_operator("F32x4Floor"@),
        floating_point_operator("F32x4Trunc"@),
        floating_point_operator("F32x4Nearest"@),
        floating_point_operator("F32x4Abs"@),
        floating_point_operator("F32x4Neg"@),
        floating_point_operator("F32x4Sqrt"@),
        floating_point_operator("F32x4Add"@),
        floating_point_operator("F32x4Sub"@),
        floating_point_operator("F32x4Mul"@),
        floating_point_operator("F32x4Div"@),
        floating_point_operator("F32x4Min"@),
        floating_point_operator("F32x4Max"@),
        floating_point_operator("F32x4PMin"@),
        floating_point_operator("F32x4PMax"@),
        floating_point_operator("F64x2Ceil"@),
        floating_point_operator("F64x2Floor"@),
        floating_point_operator("F64x2Trunc"@),
        floating_point_operator("F64x2Nearest"@),
        floating_point_operator("F64x2Abs"@),
        floating_point_operator("F64x2Neg"@),
        floating_point_operator("F64x2Sqrt"@),
        floating_point_operator("F64x2Add"@),
        floating_point_operator("F64x2Sub"@),
        floating_point_operator("F64x2Mul"@),
        floating_point_operator("F64x2Div"@),
        floating_point_operator("F64x2Min"@),
        floating_point_operator("F64x2Max"@),
        floating_point_operator("F64x2PMin"@),
        floating_point_operator("F64x2PMax"@),
        floating_point_operator("I32x4TruncSatF32x4S"@),
        floating_point_operator("I32x4TruncSatF32x4U"@),
        floating_point_operator("F32x4ConvertI32x4S"@),
        floating_point_operator("F32x4ConvertI32x4U"@),
        floating_point_operator("I32x4TruncSatF64x2SZero"@),
        floating_point_operator("I32x4TruncSatF64x2UZero"@),
        floating_point_operator("F64x2ConvertLowI32x4S"@),
        floating_point_operator("F64x2ConvertLowI32x4U"@),
        floating_point_operator("F32x4DemoteF64x2Zero"@),
        floating_point_operator("F64x2PromoteLowF32x4"@),
        floating_point_operator("I32x4RelaxedTruncF32x4S"@),
        floating_point_operator("I32x4RelaxedTruncF32x4U"@),
        floating_point_operator("I32x4RelaxedTruncF64x2SZero"@),
        floating_point_operator("I32x4RelaxedTruncF64x2UZero"@),
        floating_point_operator("F32x4RelaxedMadd"@),
        floating_point_operator("F32x4RelaxedNmadd"@),
        floating_point_operator("F64x2RelaxedMadd"@),
        floating_point_operator("F64x2RelaxedNmadd"@),
        floating_point_operator("F32x4RelaxedMin"@),
        floating_point_operator("F32x4RelaxedMax"@),
        floating_point_operator("F64x2RelaxedMin"@),
        floating_point_operator("F64x2RelaxedMax"@),
{
}

/// Why an operator is rejected.
#[derive(Copy, Clone, Debug, PartialEq, Eq, Structural)]
pub enum GatekeeperError {
    /// The operator's proposal is not allowed.
    ExtensionNotAllowed(Proposal),
    /// The operator works on floating point numbers, which are not allowed.
    FloatingPointsNotAllowed,
}

impl GatekeeperError {
    /// The error's message.
    pub fn message(&self) -> (r: String)
        ensures
            match *self {
                GatekeeperError::ExtensionNotAllowed(p) => r@ == "Wasm `"@ + p.spec_name()@ + "` extension is not allowed"@,
                GatekeeperError::FloatingPointsNotAllowed => r@ == FLOATING_POINTS_NOT_ALLOWED@,
            },
    {
        match self {
            GatekeeperError::ExtensionNotAllowed(p) => {
                String::from_str("Wasm `").concat(p.name()).concat("` extension is not allowed")
            },
            GatekeeperError::FloatingPointsNotAllowed => String::from_str(FLOATING_POINTS_NOT_ALLOWED),
        }
    }
}

/// The gatekeeper of one function's operators.
#[derive(Copy, Clone, Debug)]
pub struct FunctionGatekeeper {
    pub config: GatekeeperConfig,
}

impl FunctionGatekeeper {
    /// A gatekeeper with the given configuration.
    pub fn new(config: GatekeeperConfig) -> (r: Self)
        ensures
            r.config == config,
    {
        FunctionGatekeeper { config }
    }

    /// Rejects a floating point operator, given by its name, unless they
    /// are allowed.
    pub fn ensure_floating_point_allowed(&self, operator: &str) -> (r: Result<(), GatekeeperError>)
        ensures
            r == if !self.config.allow_floating_points && floating_point_operator(operator@) {
                Err(GatekeeperError::FloatingPointsNotAllowed)
            } else {
                Ok(())
            },
    {
        if !self.config.allow_floating_points && is_floating_point(operator) {
            return Err(GatekeeperError::FloatingPointsNotAllowed);
        }
        Ok(())
    }

    /// Checks an operator, given by its name, of the given proposal: its
    /// proposal must be allowed, and then, if it is a floating point
    /// operator, floating point operators must be. An accepted operator is
    /// passed on to the compiler.
    pub fn feed(&self, proposal: Proposal, operator: &str) -> (r: Result<(), GatekeeperError>)
        ensures
            r == if !self.config.allows(proposal) {
                Err(GatekeeperError::ExtensionNotAllowed(proposal))
            } else if !self.config.allow_floating_points && floating_point_operator(operator@) {
                Err(GatekeeperError::FloatingPointsNotAllowed)
            } else {
                Ok(())
            },
    {
        if self.config.is_allowed(proposal) {
            self.ensure_floating_point_allowed(operator)
        } else {
            Err(GatekeeperError::ExtensionNotAllowed(proposal))
        }
    }
}

} // verus!
