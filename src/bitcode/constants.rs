//! The numeric codes of the LLVM bitcode format: block ids, record codes,
//! operation codes and attribute kinds. Each code is a variant of an enum and
//! its number is what `code` returns.
#![allow(non_camel_case_types)]
pub mod vbr_widths;

use vstd::prelude::*;

verus! {

// https://github.com/llvm/llvm-project/blob/llvmorg-19.1.7/llvm/include/llvm/Bitcode/LLVMBitCodes.h
// https://github.com/llvm/llvm-project/blob/llvmorg-19.1.7/llvm/lib/Bitcode/Writer/BitcodeWriter.cpp

// https://llvm.org/docs/BitCodeFormat.html#llvm-ir-blocks
#[derive(Debug, Clone, Copy)]
pub enum BlockId {
    Module,
    ParamAttr,
    ParamAttrGroup,
    Constants,
    Function,
    Identification,
    ValueSymtab,
    Metadata,
    MetadataAttachment,
    Type,
    UseList,
    ModuleStrab,
    GlobalValSummary,
    OperandBundleTags,
    MetadataKind,
    Strtab,
    FullLtoGlobalValSummary,
    Symtab,
    SyncScopeNames,
}

impl BlockId {
    /// The number that the bitcode format gives this code.
    pub open spec fn spec_code(self) -> u32 {
        match self {
            BlockId::Module => 8,
            BlockId::ParamAttr => 9,
            BlockId::ParamAttrGroup => 10,
            BlockId::Constants => 11,
            BlockId::Function => 12,
            BlockId::Identification => 13,
            BlockId::ValueSymtab => 14,
            BlockId::Metadata => 15,
            BlockId::MetadataAttachment => 16,
            BlockId::Type => 17,
            BlockId::UseList => 18,
            BlockId::ModuleStrab => 19,
            BlockId::GlobalValSummary => 20,
            BlockId::OperandBundleTags => 21,
            BlockId::MetadataKind => 22,
            BlockId::Strtab => 23,
            BlockId::FullLtoGlobalValSummary => 24,
            BlockId::Symtab => 25,
            BlockId::SyncScopeNames => 26,
        }
    }

    #[verifier::when_used_as_spec(spec_code)]
    pub fn code(self) -> (r: u32)
        ensures
            r == self.spec_code(),
    {
        match self {
            BlockId::Module => 8,
            BlockId::ParamAttr => 9,
            BlockId::ParamAttrGroup => 10,
            BlockId::Constants => 11,
            BlockId::Function => 12,
            BlockId::Identification => 13,
            BlockId::ValueSymtab => 14,
            BlockId::Metadata => 15,
            BlockId::MetadataAttachment => 16,
            BlockId::Type => 17,
            BlockId::UseList => 18,
            BlockId::ModuleStrab => 19,
            BlockId::GlobalValSummary => 20,
            BlockId::OperandBundleTags => 21,
            BlockId::MetadataKind => 22,
            BlockId::Strtab => 23,
            BlockId::FullLtoGlobalValSummary => 24,
            BlockId::Symtab => 25,
            BlockId::SyncScopeNames => 26,
        }
    }
}

#[derive(Debug, Clone, Copy)]
pub enum IdentificationCodes {
    String,
    Epoch,
}

impl IdentificationCodes {
    /// The number that the bitcode format gives this code.
    pub open spec fn spec_code(self) -> u32 {
        match self {
            IdentificationCodes::String => 1,
            IdentificationCodes::Epoch => 2,
        }
    }

    #[verifier::when_used_as_spec(spec_code)]
    pub fn code(self) -> (r: u32)
        ensures
            r == self.spec_code(),
    {
        match self {
            IdentificationCodes::String => 1,
            IdentificationCodes::Epoch => 2,
        }
    }
}

pub const CURRENT_EPOCH: u32 = 0;

// https://llvm.org/docs/BitCodeFormat.html#module-block-contents
// https://github.com/llvm/llvm-project/blob/cd708029e0b2869e80abe31ddb175f7c35361f90/llvm/include/llvm/Bitcode/LLVMBitCodes.h#L84
#[derive(Debug, Clone, Copy)]
pub enum ModuleCode {
    Version,
    Triple,
    DataLayout,
    Asm,
    SectionName,
    Deplib,
    GlobalVar,
    Function,
    AliasOld,
    GcName,
    Comdat,
    VstOffset,
    Alias,
    MetadataValuesUnused,
    SourceFilename,
    CodeHash,
    CodeIfunc,
}

impl ModuleCode {
    /// The number that the bitcode format gives this code.
    pub open spec fn spec_code(self) -> u32 {
        match self {
            ModuleCode::Version => 1,
            ModuleCode::Triple => 2,
            ModuleCode::DataLayout => 3,
            ModuleCode::Asm => 4,
            ModuleCode::SectionName => 5,
            ModuleCode::Deplib => 6,
            ModuleCode::GlobalVar => 7,
            ModuleCode::Function => 8,
            ModuleCode::AliasOld => 9,
            ModuleCode::GcName => 11,
            ModuleCode::Comdat => 12,
            ModuleCode::VstOffset => 13,
            ModuleCode::Alias => 14,
            ModuleCode::MetadataValuesUnused => 15,
            ModuleCode::SourceFilename => 16,
            ModuleCode::CodeHash => 17,
            ModuleCode::CodeIfunc => 18,
        }
    }

    #[verifier::when_used_as_spec(spec_code)]
    pub fn code(self) -> (r: u32)
        ensures
            r == self.spec_code(),
    {
        match self {
            ModuleCode::Version => 1,
            ModuleCode::Triple => 2,
            ModuleCode::DataLayout => 3,
            ModuleCode::Asm => 4,
            ModuleCode::SectionName => 5,
            ModuleCode::Deplib => 6,
            ModuleCode::GlobalVar => 7,
            ModuleCode::Function => 8,
            ModuleCode::AliasOld => 9,
            ModuleCode::GcName => 11,
            ModuleCode::Comdat => 12,
            ModuleCode::VstOffset => 13,
            ModuleCode::Alias => 14,
            ModuleCode::MetadataValuesUnused => 15,
            ModuleCode::SourceFilename => 16,
            ModuleCode::CodeHash => 17,
            ModuleCode::CodeIfunc => 18,
        }
    }
}

#[derive(Debug, Clone, Copy)]
pub enum AttributeCode {
    EntryOld,
    CodeEntry,
    GrpCodeEntry,
}

impl AttributeCode {
    /// The number that the bitcode format gives this code.
    pub open spec fn spec_code(self) -> u32 {
        match self {
            AttributeCode::EntryOld => 1,
            AttributeCode::CodeEntry => 2,
            AttributeCode::GrpCodeEntry => 3,
        }
    }

    #[verifier::when_used_as_spec(spec_code)]
    pub fn code(self) -> (r: u32)
        ensures
            r == self.spec_code(),
    {
        match self {
            AttributeCode::EntryOld => 1,
            AttributeCode::CodeEntry => 2,
            AttributeCode::GrpCodeEntry => 3,
        }
    }
}

// https://llvm.org/docs/BitCodeFormat.html#type-block-contents
#[derive(Debug, Clone, Copy)]
pub enum TypeCode {
    Numentry,
    Void,
    Float,
    Double,
    Label,
    Opaque,
    Integer,
    Pointer,
    FunctionOld,
    Half,
    Array,
    Vector,
    X86Fp80,
    Fp128,
    PpcFp128,
    Metadata,
    X86Mmx,
    StructAnon,
    StructName,
    StructNamed,
    Function,
    Bfloat,
    X86Amx,
    OpaquePointer,
    TargetType,
}

impl TypeCode {
    /// The number that the bitcode format gives this code.
    pub open spec fn spec_code(self) -> u32 {
        match self {
            TypeCode::Numentry => 1,
            TypeCode::Void => 2,
            TypeCode::Float => 3,
            TypeCode::Double => 4,
            TypeCode::Label => 5,
            TypeCode::Opaque => 6,
            TypeCode::Integer => 7,
            TypeCode::Pointer => 8,
            TypeCode::FunctionOld => 9,
            TypeCode::Half => 10,
            TypeCode::Array => 11,
            TypeCode::Vector => 12,
            TypeCode::X86Fp80 => 13,
            TypeCode::Fp128 => 14,
            TypeCode::PpcFp128 => 15,
            TypeCode::Metadata => 16,
            TypeCode::X86Mmx => 17,
            TypeCode::StructAnon => 18,
            TypeCode::StructName => 19,
            TypeCode::StructNamed => 20,
            TypeCode::Function => 21,
            TypeCode::Bfloat => 23,
            TypeCode::X86Amx => 24,
            TypeCode::OpaquePointer => 25,
            TypeCode::TargetType => 26,
        }
    }

    #[verifier::when_used_as_spec(spec_code)]
    pub fn code(self) -> (r: u32)
        ensures
            r == self.spec_code(),
    {
        match self {
            TypeCode::Numentry => 1,
            TypeCode::Void => 2,
            TypeCode::Float => 3,
            TypeCode::Double => 4,
            TypeCode::Label => 5,
            TypeCode::Opaque => 6,
            TypeCode::Integer => 7,
            TypeCode::Pointer => 8,
            TypeCode::FunctionOld => 9,
            TypeCode::Half => 10,
            TypeCode::Array => 11,
            TypeCode::Vector => 12,
            TypeCode::X86Fp80 => 13,
            TypeCode::Fp128 => 14,
            TypeCode::PpcFp128 => 15,
            TypeCode::Metadata => 16,
            TypeCode::X86Mmx => 17,
            TypeCode::StructAnon => 18,
            TypeCode::StructName => 19,
            TypeCode::StructNamed => 20,
            TypeCode::Function => 21,
            TypeCode::Bfloat => 23,
            TypeCode::X86Amx => 24,
            TypeCode::OpaquePointer => 25,
            TypeCode::TargetType => 26,
        }
    }
}

#[derive(Debug, Clone, Copy)]
pub enum OperandBundleTagCode {
    BundleTag,
}

impl OperandBundleTagCode {
    /// The number that the bitcode format gives this code.
    pub open spec fn spec_code(self) -> u32 {
        match self {
            OperandBundleTagCode::BundleTag => 1,
        }
    }

    #[verifier::when_used_as_spec(spec_code)]
    pub fn code(self) -> (r: u32)
        ensures
            r == self.spec_code(),
    {
        match self {
            OperandBundleTagCode::BundleTag => 1,
        }
    }
}

#[derive(Debug, Clone, Copy)]
pub enum SyncScopeNameCode {
    Name,
}

impl SyncScopeNameCode {
    /// The number that the bitcode format gives this code.
    pub open spec fn spec_code(self) -> u32 {
        match self {
            SyncScopeNameCode::Name => 1,
        }
    }

    #[verifier::when_used_as_spec(spec_code)]
    pub fn code(self) -> (r: u32)
        ensures
            r == self.spec_code(),
    {
        match self {
            SyncScopeNameCode::Name => 1,
        }
    }
}

#[derive(Debug, Clone, Copy)]
pub enum ValueSymtabCode {
    Entry,
    BbEntry,
    FnEntry,
    CombinedEntry,
}

impl ValueSymtabCode {
    /// The number that the bitcode format gives this code.
    pub open spec fn spec_code(self) -> u32 {
        match self {
            ValueSymtabCode::Entry => 1,
            ValueSymtabCode::BbEntry => 2,
            ValueSymtabCode::FnEntry => 3,
            ValueSymtabCode::CombinedEntry => 5,
        }
    }

    #[verifier::when_used_as_spec(spec_code)]
    pub fn code(self) -> (r: u32)
        ensures
            r == self.spec_code(),
    {
        match self {
            ValueSymtabCode::Entry => 1,
            ValueSymtabCode::BbEntry => 2,
            ValueSymtabCode::FnEntry => 3,
            ValueSymtabCode::CombinedEntry => 5,
        }
    }
}

#[derive(Debug, Clone, Copy)]
pub enum ModulePathSymtabCode {
    Entry,
    Hash,
}

impl ModulePathSymtabCode {
    /// The number that the bitcode format gives this code.
    pub open spec fn spec_code(self) -> u32 {
        match self {
            ModulePathSymtabCode::Entry => 1,
            ModulePathSymtabCode::Hash => 2,
        }
    }

    #[verifier::when_used_as_spec(spec_code)]
    pub fn code(self) -> (r: u32)
        ensures
            r == self.spec_code(),
    {
        match self {
            ModulePathSymtabCode::Entry => 1,
            ModulePathSymtabCode::Hash => 2,
        }
    }
}

#[derive(Debug, Clone, Copy)]
pub enum StrtabCode {
    Blob,
}

impl StrtabCode {
    /// The number that the bitcode format gives this code.
    pub open spec fn spec_code(self) -> u32 {
        match self {
            StrtabCode::Blob => 1,
        }
    }

    #[verifier::when_used_as_spec(spec_code)]
    pub fn code(self) -> (r: u32)
        ensures
            r == self.spec_code(),
    {
        match self {
            StrtabCode::Blob => 1,
        }
    }
}

#[derive(Debug, Clone, Copy)]
pub enum ConstantsCode {
    SetType,
    Null,
    Undef,
    Integer,
    WideInteger,
    Float,
    Aggregate,
    String,
    Cstring,
    CeBinop,
    CeCast,
    CeGepOld,
    CeSelect,
    CeExtractElt,
    CeInsertElt,
    CeShuffleVec,
    CeCmp,
    CeInlineAsmOld,

    CeShufVecEx,
    CeInboundsGep,

    BlockAddress,
    Data,
    InlineAsmOld2,

    CeGepWithInRangeIndexOld,
    CeUnOp,
    Poison,
    DsoLocalEquivalent,
    InlineAsmOld3,

    CodeNoCfiValue,
    InlineAsm,
    CeGepWithInrange,
    CeGep,
    PtrAuth,
}

impl ConstantsCode {
    /// The number that the bitcode format gives this code.
    pub open spec fn spec_code(self) -> u32 {
        match self {
            ConstantsCode::SetType => 1,
            ConstantsCode::Null => 2,
            ConstantsCode::Undef => 3,
            ConstantsCode::Integer => 4,
            ConstantsCode::WideInteger => 5,
            ConstantsCode::Float => 6,
            ConstantsCode::Aggregate => 7,
            ConstantsCode::String => 8,
            ConstantsCode::Cstring => 9,
            ConstantsCode::CeBinop => 10,
            ConstantsCode::CeCast => 11,
            ConstantsCode::CeGepOld => 12,
            ConstantsCode::CeSelect => 13,
            ConstantsCode::CeExtractElt => 14,
            ConstantsCode::CeInsertElt => 15,
            ConstantsCode::CeShuffleVec => 16,
            ConstantsCode::CeCmp => 17,
            ConstantsCode::CeInlineAsmOld => 18,
            ConstantsCode::CeShufVecEx => 19,
            ConstantsCode::CeInboundsGep => 20,
            ConstantsCode::BlockAddress => 21,
            ConstantsCode::Data => 22,
            ConstantsCode::InlineAsmOld2 => 23,
            ConstantsCode::CeGepWithInRangeIndexOld => 24,
            ConstantsCode::CeUnOp => 25,
            ConstantsCode::Poison => 26,
            ConstantsCode::DsoLocalEquivalent => 27,
            ConstantsCode::InlineAsmOld3 => 28,
            ConstantsCode::CodeNoCfiValue => 29,
            ConstantsCode::InlineAsm => 30,
            ConstantsCode::CeGepWithInrange => 31,
            ConstantsCode::CeGep => 32,
            ConstantsCode::PtrAuth => 33,
        }
    }

    #[verifier::when_used_as_spec(spec_code)]
    pub fn code(self) -> (r: u32)
        ensures
            r == self.spec_code(),
    {
        match self {
            ConstantsCode::SetType => 1,
            ConstantsCode::Null => 2,
            ConstantsCode::Undef => 3,
            ConstantsCode::Integer => 4,
            ConstantsCode::WideInteger => 5,
            ConstantsCode::Float => 6,
            ConstantsCode::Aggregate => 7,
            ConstantsCode::String => 8,
            ConstantsCode::Cstring => 9,
            ConstantsCode::CeBinop => 10,
            ConstantsCode::CeCast => 11,
            ConstantsCode::CeGepOld => 12,
            ConstantsCode::CeSelect => 13,
            ConstantsCode::CeExtractElt => 14,
            ConstantsCode::CeInsertElt => 15,
            ConstantsCode::CeShuffleVec => 16,
            ConstantsCode::CeCmp => 17,
            ConstantsCode::CeInlineAsmOld => 18,
            ConstantsCode::CeShufVecEx => 19,
            ConstantsCode::CeInboundsGep => 20,
            ConstantsCode::BlockAddress => 21,
            ConstantsCode::Data => 22,
            ConstantsCode::InlineAsmOld2 => 23,
            ConstantsCode::CeGepWithInRangeIndexOld => 24,
            ConstantsCode::CeUnOp => 25,
            ConstantsCode::Poison => 26,
            ConstantsCode::DsoLocalEquivalent => 27,
            ConstantsCode::InlineAsmOld3 => 28,
            ConstantsCode::CodeNoCfiValue => 29,
            ConstantsCode::InlineAsm => 30,
            ConstantsCode::CeGepWithInrange => 31,
            ConstantsCode::CeGep => 32,
            ConstantsCode::PtrAuth => 33,
        }
    }
}

#[derive(Debug, Clone, Copy)]
pub enum CastCodes {
    Trunc,
    Zext,
    Sext,
    FpToUi,
    FpToSi,
    UiToFp,
    SiToFp,
    FpTrunc,
    FpExt,
    PtrToInt,
    IntToPtr,
    Bitcast,
    AddspaceCast,
}

impl CastCodes {
    /// The number that the bitcode format gives this code.
    pub open spec fn spec_code(self) -> u32 {
        match self {
            CastCodes::Trunc => 0,
            CastCodes::Zext => 1,
            CastCodes::Sext => 2,
            CastCodes::FpToUi => 3,
            CastCodes::FpToSi => 4,
            CastCodes::UiToFp => 5,
            CastCodes::SiToFp => 6,
            CastCodes::FpTrunc => 7,
            CastCodes::FpExt => 8,
            CastCodes::PtrToInt => 9,
            CastCodes::IntToPtr => 10,
            CastCodes::Bitcast => 11,
            CastCodes::AddspaceCast => 12,
        }
    }

    #[verifier::when_used_as_spec(spec_code)]
    pub fn code(self) -> (r: u32)
        ensures
            r == self.spec_code(),
    {
        match self {
            CastCodes::Trunc => 0,
            CastCodes::Zext => 1,
            CastCodes::Sext => 2,
            CastCodes::FpToUi => 3,
            CastCodes::FpToSi => 4,
            CastCodes::UiToFp => 5,
            CastCodes::SiToFp => 6,
            CastCodes::FpTrunc => 7,
            CastCodes::FpExt => 8,
            CastCodes::PtrToInt => 9,
            CastCodes::IntToPtr => 10,
            CastCodes::Bitcast => 11,
            CastCodes::AddspaceCast => 12,
        }
    }
}

#[derive(Debug, Clone, Copy)]
pub enum UnaryOpCodes {
    Fneg,
}

impl UnaryOpCodes {
    /// The number that the bitcode format gives this code.
    pub open spec fn spec_code(self) -> u32 {
        match self {
            UnaryOpCodes::Fneg => 0,
        }
    }

    #[verifier::when_used_as_spec(spec_code)]
    pub fn code(self) -> (r: u32)
        ensures
            r == self.spec_code(),
    {
        match self {
            UnaryOpCodes::Fneg => 0,
        }
    }
}

#[derive(Debug, Clone, Copy)]
pub enum BinaryOpCode {
    Add,
    Sub,
    Mul,
    UDiv,
    SDiv,
    URem,
    SRem,
    Shl,
    LShr,
    AShr,
    And,
    Or,
    Xor,
}

impl BinaryOpCode {
    /// The number that the bitcode format gives this code.
    pub open spec fn spec_code(self) -> u32 {
        match self {
            BinaryOpCode::Add => 0,
            BinaryOpCode::Sub => 1,
            BinaryOpCode::Mul => 2,
            BinaryOpCode::UDiv => 3,
            BinaryOpCode::SDiv => 4,
            BinaryOpCode::URem => 5,
            BinaryOpCode::SRem => 6,
            BinaryOpCode::Shl => 7,
            BinaryOpCode::LShr => 8,
            BinaryOpCode::AShr => 9,
            BinaryOpCode::And => 10,
            BinaryOpCode::Or => 11,
            BinaryOpCode::Xor => 12,
        }
    }

    #[verifier::when_used_as_spec(spec_code)]
    pub fn code(self) -> (r: u32)
        ensures
            r == self.spec_code(),
    {
        match self {
            BinaryOpCode::Add => 0,
            BinaryOpCode::Sub => 1,
            BinaryOpCode::Mul => 2,
            BinaryOpCode::UDiv => 3,
            BinaryOpCode::SDiv => 4,
            BinaryOpCode::URem => 5,
            BinaryOpCode::SRem => 6,
            BinaryOpCode::Shl => 7,
            BinaryOpCode::LShr => 8,
            BinaryOpCode::AShr => 9,
            BinaryOpCode::And => 10,
            BinaryOpCode::Or => 11,
            BinaryOpCode::Xor => 12,
        }
    }
}

#[derive(Debug, Clone, Copy)]
pub enum RMWOperation {
    XCHG,
    ADD,
    SUB,
    AND,
    NAND,
    OR,
    XOR,
    MAX,
    MIN,
    UMAX,
    UMIN,
    FADD,
    FSUB,
    FMAX,
    FMIN,
    UincWrap,
    UdecWrap,
}

impl RMWOperation {
    /// The number that the bitcode format gives this code.
    pub open spec fn spec_code(self) -> u32 {
        match self {
            RMWOperation::XCHG => 0,
            RMWOperation::ADD => 1,
            RMWOperation::SUB => 2,
            RMWOperation::AND => 3,
            RMWOperation::NAND => 4,
            RMWOperation::OR => 5,
            RMWOperation::XOR => 6,
            RMWOperation::MAX => 7,
            RMWOperation::MIN => 8,
            RMWOperation::UMAX => 9,
            RMWOperation::UMIN => 10,
            RMWOperation::FADD => 11,
            RMWOperation::FSUB => 12,
            RMWOperation::FMAX => 13,
            RMWOperation::FMIN => 14,
            RMWOperation::UincWrap => 15,
            RMWOperation::UdecWrap => 16,
        }
    }

    #[verifier::when_used_as_spec(spec_code)]
    pub fn code(self) -> (r: u32)
        ensures
            r == self.spec_code(),
    {
        match self {
            RMWOperation::XCHG => 0,
            RMWOperation::ADD => 1,
            RMWOperation::SUB => 2,
            RMWOperation::AND => 3,
            RMWOperation::NAND => 4,
            RMWOperation::OR => 5,
            RMWOperation::XOR => 6,
            RMWOperation::MAX => 7,
            RMWOperation::MIN => 8,
            RMWOperation::UMAX => 9,
            RMWOperation::UMIN => 10,
            RMWOperation::FADD => 11,
            RMWOperation::FSUB => 12,
            RMWOperation::FMAX => 13,
            RMWOperation::FMIN => 14,
            RMWOperation::UincWrap => 15,
            RMWOperation::UdecWrap => 16,
        }
    }
}

#[derive(Debug, Clone, Copy)]
pub enum GetElementPtrOptionalFlag {
    GEP_INBOUNDS,
    GEP_NUSW,
    GEP_NUW,
}

impl GetElementPtrOptionalFlag {
    /// The number that the bitcode format gives this code.
    pub open spec fn spec_code(self) -> u32 {
        match self {
            GetElementPtrOptionalFlag::GEP_INBOUNDS => 0,
            GetElementPtrOptionalFlag::GEP_NUSW => 1,
            GetElementPtrOptionalFlag::GEP_NUW => 2,
        }
    }

    #[verifier::when_used_as_spec(spec_code)]
    pub fn code(self) -> (r: u32)
        ensures
            r == self.spec_code(),
    {
        match self {
            GetElementPtrOptionalFlag::GEP_INBOUNDS => 0,
            GetElementPtrOptionalFlag::GEP_NUSW => 1,
            GetElementPtrOptionalFlag::GEP_NUW => 2,
        }
    }
}

#[derive(Debug, Clone, Copy)]
pub enum AtomicOrderingCode {
    ORDERING_NOTATOMIC,
    ORDERING_UNORDERED,
    ORDERING_MONOTONIC,
    ORDERING_ACQUIRE,
    ORDERING_RELEASE,
    ORDERING_ACQREL,
    ORDERING_SEQCST,
}

impl AtomicOrderingCode {
    /// The number that the bitcode format gives this code.
    pub open spec fn spec_code(self) -> u32 {
        match self {
            AtomicOrderingCode::ORDERING_NOTATOMIC => 0,
            AtomicOrderingCode::ORDERING_UNORDERED => 1,
            AtomicOrderingCode::ORDERING_MONOTONIC => 2,
            AtomicOrderingCode::ORDERING_ACQUIRE => 3,
            AtomicOrderingCode::ORDERING_RELEASE => 4,
            AtomicOrderingCode::ORDERING_ACQREL => 5,
            AtomicOrderingCode::ORDERING_SEQCST => 6,
        }
    }

    #[verifier::when_used_as_spec(spec_code)]
    pub fn code(self) -> (r: u32)
        ensures
            r == self.spec_code(),
    {
        match self {
            AtomicOrderingCode::ORDERING_NOTATOMIC => 0,
            AtomicOrderingCode::ORDERING_UNORDERED => 1,
            AtomicOrderingCode::ORDERING_MONOTONIC => 2,
            AtomicOrderingCode::ORDERING_ACQUIRE => 3,
            AtomicOrderingCode::ORDERING_RELEASE => 4,
            AtomicOrderingCode::ORDERING_ACQREL => 5,
            AtomicOrderingCode::ORDERING_SEQCST => 6,
        }
    }
}

#[derive(Debug, Clone, Copy)]
pub enum CallMarkersFlag {
    CALL_TAIL,
    CALL_CCONV,
    CALL_MUSTTAIL,
    CALL_EXPLICIT_TYPE,
    CALL_NOTAIL,
    CALL_FMF, // Call has optional fast-math-flags.
}

impl CallMarkersFlag {
    /// The number that the bitcode format gives this code.
    pub open spec fn spec_code(self) -> u32 {
        match self {
            CallMarkersFlag::CALL_TAIL => 0,
            CallMarkersFlag::CALL_CCONV => 1,
            CallMarkersFlag::CALL_MUSTTAIL => 14,
            CallMarkersFlag::CALL_EXPLICIT_TYPE => 15,
            CallMarkersFlag::CALL_NOTAIL => 16,
            CallMarkersFlag::CALL_FMF => 17,
        }
    }

    #[verifier::when_used_as_spec(spec_code)]
    pub fn code(self) -> (r: u32)
        ensures
            r == self.spec_code(),
    {
        match self {
            CallMarkersFlag::CALL_TAIL => 0,
            CallMarkersFlag::CALL_CCONV => 1,
            CallMarkersFlag::CALL_MUSTTAIL => 14,
            CallMarkersFlag::CALL_EXPLICIT_TYPE => 15,
            CallMarkersFlag::CALL_NOTAIL => 16,
            CallMarkersFlag::CALL_FMF => 17,
        }
    }
}

#[derive(Debug, Clone, Copy)]
pub enum FunctionCide {
    DECLAREBLOCKS, // DECLAREBLOCKS: [n]

    INST_BINOP,      // BINOP:      [opcode, ty, opval, opval]
    INST_CAST,       // CAST:       [opcode, ty, opty, opval]
    INST_GEP_OLD,    // GEP:        [n x operands]
    INST_SELECT,     // SELECT:     [ty, opval, opval, opval]
    INST_EXTRACTELT, // EXTRACTELT: [opty, opval, opval]
    INST_INSERTELT,  // INSERTELT:  [ty, opval, opval, opval]
    INST_SHUFFLEVEC, // SHUFFLEVEC: [ty, opval, opval, opval]
    INST_CMP,        // CMP:        [opty, opval, opval, pred]

    INST_RET,    // RET:        [opty,opval<both optional>]
    INST_BR,     // BR:         [bb#, bb#, cond] or [bb#]
    INST_SWITCH, // SWITCH:     [opty, op0, op1, ...]
    INST_INVOKE, // INVOKE:     [attr, fnty, op0,op1, ...]
    // 14 is unused.
    INST_UNREACHABLE, // UNREACHABLE

    INST_PHI, // PHI:        [ty, val0,bb0, ...]
    // 17 is unused.
    // 18 is unused.
    INST_ALLOCA, // ALLOCA:     [instty, opty, op, align]
    INST_LOAD,   // LOAD:       [opty, op, align, vol]
    // 21 is unused.
    // 22 is unused.
    INST_VAARG, // VAARG:      [valistty, valist, instty]
    // This store code encodes the pointer type, rather than the value type
    // this is so information only available in the pointer type (e.g. address
    // spaces) is retained.
    INST_STORE_OLD, // STORE:      [ptrty,ptr,val, align, vol]
    // 25 is unused.
    INST_EXTRACTVAL, // EXTRACTVAL: [n x operands]
    INST_INSERTVAL,  // INSERTVAL:  [n x operands]
    // fcmp/icmp returning Int1TY or vector of Int1Ty. Same as CMP, exists to
    // support legacy vicmp/vfcmp instructions.
    INST_CMP2, // CMP2:       [opty, opval, opval, pred]
    // new select on i1 or [N x i1]
    INST_VSELECT,          // VSELECT:    [ty,opval,opval,predty,pred]
    INST_INBOUNDS_GEP_OLD, // INBOUNDS_GEP: [n x operands]
    INST_INDIRECTBR,       // INDIRECTBR: [opty, op0, op1, ...]
    // 32 is unused.
    DEBUG_LOC_AGAIN, // DEBUG_LOC_AGAIN

    INST_CALL, // CALL:    [attr, cc, fnty, fnid, args...]

    DEBUG_LOC,        // DEBUG_LOC:  [Line,Col,ScopeVal, IAVal]
    INST_FENCE,       // FENCE: [ordering, synchscope]
    INST_CMPXCHG_OLD, // CMPXCHG: [ptrty, ptr, cmp, val, vol,
    //            ordering, synchscope,
    //            failure_ordering?, weak?]
    INST_ATOMICRMW_OLD, // ATOMICRMW: [ptrty,ptr,val, operation,
    //             align, vol,
    //             ordering, synchscope]
    INST_RESUME,         // RESUME:     [opval]
    INST_LANDINGPAD_OLD, // LANDINGPAD: [ty,val,val,num,id0,val0...]
    INST_LOADATOMIC,     // LOAD: [opty, op, align, vol,
    //        ordering, synchscope]
    INST_STOREATOMIC_OLD, // STORE: [ptrty,ptr,val, align, vol
    //         ordering, synchscope]
    INST_GEP,         // GEP:  [inbounds, n x operands]
    INST_STORE,       // STORE: [ptrty,ptr,valty,val, align, vol]
    INST_STOREATOMIC, // STORE: [ptrty,ptr,val, align, vol
    INST_CMPXCHG,     // CMPXCHG: [ptrty, ptr, cmp, val, vol,
    //           success_ordering, synchscope,
    //           failure_ordering, weak]
    INST_LANDINGPAD,  // LANDINGPAD: [ty,val,num,id0,val0...]
    INST_CLEANUPRET,  // CLEANUPRET: [val] or [val,bb#]
    INST_CATCHRET,    // CATCHRET: [val,bb#]
    INST_CATCHPAD,    // CATCHPAD: [bb#,bb#,num,args...]
    INST_CLEANUPPAD,  // CLEANUPPAD: [num,args...]
    INST_CATCHSWITCH, // CATCHSWITCH: [num,args...] or [num,args...,bb]
    // 53 is unused.
    // 54 is unused.
    OPERAND_BUNDLE, // OPERAND_BUNDLE: [tag#, value...]
    INST_UNOP,      // UNOP:       [opcode, ty, opval]
    INST_CALLBR,    // CALLBR:     [attr, cc, norm, transfs,
    //              fnty, fnid, args...]
    INST_FREEZE,    // FREEZE: [opty, opval]
    INST_ATOMICRMW, // ATOMICRMW: [ptrty, ptr, valty, val,
    //             operation, align, vol,
    //             ordering, synchscope]
    BLOCKADDR_USERS, // BLOCKADDR_USERS: [value...]

    DEBUG_RECORD_VALUE, // [DILocation, DILocalVariable, DIExpression, ValueAsMetadata]
    DEBUG_RECORD_DECLARE, // [DILocation, DILocalVariable, DIExpression, ValueAsMetadata]
    DEBUG_RECORD_ASSIGN, // [DILocation, DILocalVariable, DIExpression, ValueAsMetadata,
    //  DIAssignID, DIExpression (addr), ValueAsMetadata (addr)]
    DEBUG_RECORD_VALUE_SIMPLE, // [DILocation, DILocalVariable, DIExpression, Value]
    DEBUG_RECORD_LABEL,        // [DILocation, DILabel]
}

impl FunctionCide {
    /// The number that the bitcode format gives this code.
    pub open spec fn spec_code(self) -> u32 {
        match self {
            FunctionCide::DECLAREBLOCKS => 1,
            FunctionCide::INST_BINOP => 2,
            FunctionCide::INST_CAST => 3,
            FunctionCide::INST_GEP_OLD => 4,
            FunctionCide::INST_SELECT => 5,
            FunctionCide::INST_EXTRACTELT => 6,
            FunctionCide::INST_INSERTELT => 7,
            FunctionCide::INST_SHUFFLEVEC => 8,
            FunctionCide::INST_CMP => 9,
            FunctionCide::INST_RET => 10,
            FunctionCide::INST_BR => 11,
            FunctionCide::INST_SWITCH => 12,
            FunctionCide::INST_INVOKE => 13,
            FunctionCide::INST_UNREACHABLE => 15,
            FunctionCide::INST_PHI => 16,
            FunctionCide::INST_ALLOCA => 19,
            FunctionCide::INST_LOAD => 20,
            FunctionCide::INST_VAARG => 23,
            FunctionCide::INST_STORE_OLD => 24,
            FunctionCide::INST_EXTRACTVAL => 26,
            FunctionCide::INST_INSERTVAL => 27,
            FunctionCide::INST_CMP2 => 28,
            FunctionCide::INST_VSELECT => 29,
            FunctionCide::INST_INBOUNDS_GEP_OLD => 30,
            FunctionCide::INST_INDIRECTBR => 31,
            FunctionCide::DEBUG_LOC_AGAIN => 33,
            FunctionCide::INST_CALL => 34,
            FunctionCide::DEBUG_LOC => 35,
            FunctionCide::INST_FENCE => 36,
            FunctionCide::INST_CMPXCHG_OLD => 37,
            FunctionCide::INST_ATOMICRMW_OLD => 38,
            FunctionCide::INST_RESUME => 39,
            FunctionCide::INST_LANDINGPAD_OLD => 40,
            FunctionCide::INST_LOADATOMIC => 41,
            FunctionCide::INST_STOREATOMIC_OLD => 42,
            FunctionCide::INST_GEP => 43,
            FunctionCide::INST_STORE => 44,
            FunctionCide::INST_STOREATOMIC => 45,
            FunctionCide::INST_CMPXCHG => 46,
            FunctionCide::INST_LANDINGPAD => 47,
            FunctionCide::INST_CLEANUPRET => 48,
            FunctionCide::INST_CATCHRET => 49,
            FunctionCide::INST_CATCHPAD => 50,
            FunctionCide::INST_CLEANUPPAD => 51,
            FunctionCide::INST_CATCHSWITCH => 52,
            FunctionCide::OPERAND_BUNDLE => 55,
            FunctionCide::INST_UNOP => 56,
            FunctionCide::INST_CALLBR => 57,
            FunctionCide::INST_FREEZE => 58,
            FunctionCide::INST_ATOMICRMW => 59,
            FunctionCide::BLOCKADDR_USERS => 60,
            FunctionCide::DEBUG_RECORD_VALUE => 61,
            FunctionCide::DEBUG_RECORD_DECLARE => 62,
            FunctionCide::DEBUG_RECORD_ASSIGN => 63,
            FunctionCide::DEBUG_RECORD_VALUE_SIMPLE => 64,
            FunctionCide::DEBUG_RECORD_LABEL => 65,
        }
    }

    #[verifier::when_used_as_spec(spec_code)]
    pub fn code(self) -> (r: u32)
        ensures
            r == self.spec_code(),
    {
        match self {
            FunctionCide::DECLAREBLOCKS => 1,
            FunctionCide::INST_BINOP => 2,
            FunctionCide::INST_CAST => 3,
            FunctionCide::INST_GEP_OLD => 4,
            FunctionCide::INST_SELECT => 5,
            FunctionCide::INST_EXTRACTELT => 6,
            FunctionCide::INST_INSERTELT => 7,
            FunctionCide::INST_SHUFFLEVEC => 8,
            FunctionCide::INST_CMP => 9,
            FunctionCide::INST_RET => 10,
            FunctionCide::INST_BR => 11,
            FunctionCide::INST_SWITCH => 12,
            FunctionCide::INST_INVOKE => 13,
            FunctionCide::INST_UNREACHABLE => 15,
            FunctionCide::INST_PHI => 16,
            FunctionCide::INST_ALLOCA => 19,
            FunctionCide::INST_LOAD => 20,
            FunctionCide::INST_VAARG => 23,
            FunctionCide::INST_STORE_OLD => 24,
            FunctionCide::INST_EXTRACTVAL => 26,
            FunctionCide::INST_INSERTVAL => 27,
            FunctionCide::INST_CMP2 => 28,
            FunctionCide::INST_VSELECT => 29,
            FunctionCide::INST_INBOUNDS_GEP_OLD => 30,
            FunctionCide::INST_INDIRECTBR => 31,
            FunctionCide::DEBUG_LOC_AGAIN => 33,
            FunctionCide::INST_CALL => 34,
            FunctionCide::DEBUG_LOC => 35,
            FunctionCide::INST_FENCE => 36,
            FunctionCide::INST_CMPXCHG_OLD => 37,
            FunctionCide::INST_ATOMICRMW_OLD => 38,
            FunctionCide::INST_RESUME => 39,
            FunctionCide::INST_LANDINGPAD_OLD => 40,
            FunctionCide::INST_LOADATOMIC => 41,
            FunctionCide::INST_STOREATOMIC_OLD => 42,
            FunctionCide::INST_GEP => 43,
            FunctionCide::INST_STORE => 44,
            FunctionCide::INST_STOREATOMIC => 45,
            FunctionCide::INST_CMPXCHG => 46,
            FunctionCide::INST_LANDINGPAD => 47,
            FunctionCide::INST_CLEANUPRET => 48,
            FunctionCide::INST_CATCHRET => 49,
            FunctionCide::INST_CATCHPAD => 50,
            FunctionCide::INST_CLEANUPPAD => 51,
            FunctionCide::INST_CATCHSWITCH => 52,
            FunctionCide::OPERAND_BUNDLE => 55,
            FunctionCide::INST_UNOP => 56,
            FunctionCide::INST_CALLBR => 57,
            FunctionCide::INST_FREEZE => 58,
            FunctionCide::INST_ATOMICRMW => 59,
            FunctionCide::BLOCKADDR_USERS => 60,
            FunctionCide::DEBUG_RECORD_VALUE => 61,
            FunctionCide::DEBUG_RECORD_DECLARE => 62,
            FunctionCide::DEBUG_RECORD_ASSIGN => 63,
            FunctionCide::DEBUG_RECORD_VALUE_SIMPLE => 64,
            FunctionCide::DEBUG_RECORD_LABEL => 65,
        }
    }
}

#[derive(Debug, Clone, Copy)]
pub enum UseListCode {
    CODE_DEFAULT, // DEFAULT: [index..., value-id]
    CODE_BB,      // BB: [index..., bb-id]
}

impl UseListCode {
    /// The number that the bitcode format gives this code.
    pub open spec fn spec_code(self) -> u32 {
        match self {
            UseListCode::CODE_DEFAULT => 1,
            UseListCode::CODE_BB => 2,
        }
    }

    #[verifier::when_used_as_spec(spec_code)]
    pub fn code(self) -> (r: u32)
        ensures
            r == self.spec_code(),
    {
        match self {
            UseListCode::CODE_DEFAULT => 1,
            UseListCode::CODE_BB => 2,
        }
    }
}

#[derive(Debug, Clone, Copy)]
pub enum AttributeKindCode {
    // = 0 is unused
    ALIGNMENT,
    ALWAYS_INLINE,
    BY_VAL,
    INLINE_HINT,
    IN_REG,
    MIN_SIZE,
    NAKED,
    NEST,
    NO_ALIAS,
    NO_BUILTIN,
    NO_CAPTURE,
    NO_DUPLICATE,
    NO_IMPLICIT_FLOAT,
    NO_INLINE,
    NON_LAZY_BIND,
    NO_RED_ZONE,
    NO_RETURN,
    NO_UNWIND,
    OPTIMIZE_FOR_SIZE,
    READ_NONE,
    READ_ONLY,
    RETURNED,
    RETURNS_TWICE,
    S_EXT,
    STACK_ALIGNMENT,
    STACK_PROTECT,
    STACK_PROTECT_REQ,
    STACK_PROTECT_STRONG,
    STRUCT_RET,
    SANITIZE_ADDRESS,
    SANITIZE_THREAD,
    SANITIZE_MEMORY,
    UW_TABLE,
    Z_EXT,
    BUILTIN,
    COLD,
    OPTIMIZE_NONE,
    IN_ALLOCA,
    NON_NULL,
    JUMP_TABLE,
    DEREFERENCEABLE,
    DEREFERENCEABLE_OR_NULL,
    CONVERGENT,
    SAFESTACK,
    ARGMEMONLY,
    SWIFT_SELF,
    SWIFT_ERROR,
    NO_RECURSE,
    INACCESSIBLEMEM_ONLY,
    INACCESSIBLEMEM_OR_ARGMEMONLY,
    ALLOC_SIZE,
    WRITEONLY,
    SPECULATABLE,
    STRICT_FP,
    SANITIZE_HWADDRESS,
    NOCF_CHECK,
    OPT_FOR_FUZZING,
    SHADOWCALLSTACK,
    SPECULATIVE_LOAD_HARDENING,
    IMMARG,
    WILLRETURN,
    NOFREE,
    NOSYNC,
    SANITIZE_MEMTAG,
    PREALLOCATED,
    NO_MERGE,
    NULL_POINTER_IS_VALID,
    NOUNDEF,
    BYREF,
    MUSTPROGRESS,
    NO_CALLBACK,
    HOT,
    NO_PROFILE,
    VSCALE_RANGE,
    SWIFT_ASYNC,
    NO_SANITIZE_COVERAGE,
    ELEMENTTYPE,
    DISABLE_SANITIZER_INSTRUMENTATION,
    NO_SANITIZE_BOUNDS,
    ALLOC_ALIGN,
    ALLOCATED_POINTER,
    ALLOC_KIND,
    PRESPLIT_COROUTINE,
    FNRETTHUNK_EXTERN,
    SKIP_PROFILE,
    MEMORY,
    NOFPCLASS,
    OPTIMIZE_FOR_DEBUGGING,
    WRITABLE,
    CORO_ONLY_DESTROY_WHEN_COMPLETE,
    DEAD_ON_UNWIND,
    RANGE,
    SANITIZE_NUMERICAL_STABILITY,
    INITIALIZES,
    HYBRID_PATCHABLE,
}

impl AttributeKindCode {
    /// The number that the bitcode format gives this code.
    pub open spec fn spec_code(self) -> u32 {
        match self {
            AttributeKindCode::ALIGNMENT => 1,
            AttributeKindCode::ALWAYS_INLINE => 2,
            AttributeKindCode::BY_VAL => 3,
            AttributeKindCode::INLINE_HINT => 4,
            AttributeKindCode::IN_REG => 5,
            AttributeKindCode::MIN_SIZE => 6,
            AttributeKindCode::NAKED => 7,
            AttributeKindCode::NEST => 8,
            AttributeKindCode::NO_ALIAS => 9,
            AttributeKindCode::NO_BUILTIN => 10,
            AttributeKindCode::NO_CAPTURE => 11,
            AttributeKindCode::NO_DUPLICATE => 12,
            AttributeKindCode::NO_IMPLICIT_FLOAT => 13,
            AttributeKindCode::NO_INLINE => 14,
            AttributeKindCode::NON_LAZY_BIND => 15,
            AttributeKindCode::NO_RED_ZONE => 16,
            AttributeKindCode::NO_RETURN => 17,
            AttributeKindCode::NO_UNWIND => 18,
            AttributeKindCode::OPTIMIZE_FOR_SIZE => 19,
            AttributeKindCode::READ_NONE => 20,
            AttributeKindCode::READ_ONLY => 21,
            AttributeKindCode::RETURNED => 22,
            AttributeKindCode::RETURNS_TWICE => 23,
            AttributeKindCode::S_EXT => 24,
            AttributeKindCode::STACK_ALIGNMENT => 25,
            AttributeKindCode::STACK_PROTECT => 26,
            AttributeKindCode::STACK_PROTECT_REQ => 27,
            AttributeKindCode::STACK_PROTECT_STRONG => 28,
            AttributeKindCode::STRUCT_RET => 29,
            AttributeKindCode::SANITIZE_ADDRESS => 30,
            AttributeKindCode::SANITIZE_THREAD => 31,
            AttributeKindCode::SANITIZE_MEMORY => 32,
            AttributeKindCode::UW_TABLE => 33,
            AttributeKindCode::Z_EXT => 34,
            AttributeKindCode::BUILTIN => 35,
            AttributeKindCode::COLD => 36,
            AttributeKindCode::OPTIMIZE_NONE => 37,
            AttributeKindCode::IN_ALLOCA => 38,
            AttributeKindCode::NON_NULL => 39,
            AttributeKindCode::JUMP_TABLE => 40,
            AttributeKindCode::DEREFERENCEABLE => 41,
            AttributeKindCode::DEREFERENCEABLE_OR_NULL => 42,
            AttributeKindCode::CONVERGENT => 43,
            AttributeKindCode::SAFESTACK => 44,
            AttributeKindCode::ARGMEMONLY => 45,
            AttributeKindCode::SWIFT_SELF => 46,
            AttributeKindCode::SWIFT_ERROR => 47,
            AttributeKindCode::NO_RECURSE => 48,
            AttributeKindCode::INACCESSIBLEMEM_ONLY => 49,
            AttributeKindCode::INACCESSIBLEMEM_OR_ARGMEMONLY => 50,
            AttributeKindCode::ALLOC_SIZE => 51,
            AttributeKindCode::WRITEONLY => 52,
            AttributeKindCode::SPECULATABLE => 53,
            AttributeKindCode::STRICT_FP => 54,
            AttributeKindCode::SANITIZE_HWADDRESS => 55,
            AttributeKindCode::NOCF_CHECK => 56,
            AttributeKindCode::OPT_FOR_FUZZING => 57,
            AttributeKindCode::SHADOWCALLSTACK => 58,
            AttributeKindCode::SPECULATIVE_LOAD_HARDENING => 59,
            AttributeKindCode::IMMARG => 60,
            AttributeKindCode::WILLRETURN => 61,
            AttributeKindCode::NOFREE => 62,
            AttributeKindCode::NOSYNC => 63,
            AttributeKindCode::SANITIZE_MEMTAG => 64,
            AttributeKindCode::PREALLOCATED => 65,
            AttributeKindCode::NO_MERGE => 66,
            AttributeKindCode::NULL_POINTER_IS_VALID => 67,
            AttributeKindCode::NOUNDEF => 68,
            AttributeKindCode::BYREF => 69,
            AttributeKindCode::MUSTPROGRESS => 70,
            AttributeKindCode::NO_CALLBACK => 71,
            AttributeKindCode::HOT => 72,
            AttributeKindCode::NO_PROFILE => 73,
            AttributeKindCode::VSCALE_RANGE => 74,
            AttributeKindCode::SWIFT_ASYNC => 75,
            AttributeKindCode::NO_SANITIZE_COVERAGE => 76,
            AttributeKindCode::ELEMENTTYPE => 77,
            AttributeKindCode::DISABLE_SANITIZER_INSTRUMENTATION => 78,
            AttributeKindCode::NO_SANITIZE_BOUNDS => 79,
            AttributeKindCode::ALLOC_ALIGN => 80,
            AttributeKindCode::ALLOCATED_POINTER => 81,
            AttributeKindCode::ALLOC_KIND => 82,
            AttributeKindCode::PRESPLIT_COROUTINE => 83,
            AttributeKindCode::FNRETTHUNK_EXTERN => 84,
            AttributeKindCode::SKIP_PROFILE => 85,
            AttributeKindCode::MEMORY => 86,
            AttributeKindCode::NOFPCLASS => 87,
            AttributeKindCode::OPTIMIZE_FOR_DEBUGGING => 88,
            AttributeKindCode::WRITABLE => 89,
            AttributeKindCode::CORO_ONLY_DESTROY_WHEN_COMPLETE => 90,
            AttributeKindCode::DEAD_ON_UNWIND => 91,
            AttributeKindCode::RANGE => 92,
            AttributeKindCode::SANITIZE_NUMERICAL_STABILITY => 93,
            AttributeKindCode::INITIALIZES => 94,
            AttributeKindCode::HYBRID_PATCHABLE => 95,
        }
    }

    #[verifier::when_used_as_spec(spec_code)]
    pub fn code(self) -> (r: u32)
        ensures
            r == self.spec_code(),
    {
        match self {
            AttributeKindCode::ALIGNMENT => 1,
            AttributeKindCode::ALWAYS_INLINE => 2,
            AttributeKindCode::BY_VAL => 3,
            AttributeKindCode::INLINE_HINT => 4,
            AttributeKindCode::IN_REG => 5,
            AttributeKindCode::MIN_SIZE => 6,
            AttributeKindCode::NAKED => 7,
            AttributeKindCode::NEST => 8,
            AttributeKindCode::NO_ALIAS => 9,
            AttributeKindCode::NO_BUILTIN => 10,
            AttributeKindCode::NO_CAPTURE => 11,
            AttributeKindCode::NO_DUPLICATE => 12,
            AttributeKindCode::NO_IMPLICIT_FLOAT => 13,
            AttributeKindCode::NO_INLINE => 14,
            AttributeKindCode::NON_LAZY_BIND => 15,
            AttributeKindCode::NO_RED_ZONE => 16,
            AttributeKindCode::NO_RETURN => 17,
            AttributeKindCode::NO_UNWIND => 18,
            AttributeKindCode::OPTIMIZE_FOR_SIZE => 19,
            AttributeKindCode::READ_NONE => 20,
            AttributeKindCode::READ_ONLY => 21,
            AttributeKindCode::RETURNED => 22,
            AttributeKindCode::RETURNS_TWICE => 23,
            AttributeKindCode::S_EXT => 24,
            AttributeKindCode::STACK_ALIGNMENT => 25,
            AttributeKindCode::STACK_PROTECT => 26,
            AttributeKindCode::STACK_PROTECT_REQ => 27,
            AttributeKindCode::STACK_PROTECT_STRONG => 28,
            AttributeKindCode::STRUCT_RET => 29,
            AttributeKindCode::SANITIZE_ADDRESS => 30,
            AttributeKindCode::SANITIZE_THREAD => 31,
            AttributeKindCode::SANITIZE_MEMORY => 32,
            AttributeKindCode::UW_TABLE => 33,
            AttributeKindCode::Z_EXT => 34,
            AttributeKindCode::BUILTIN => 35,
            AttributeKindCode::COLD => 36,
            AttributeKindCode::OPTIMIZE_NONE => 37,
            AttributeKindCode::IN_ALLOCA => 38,
            AttributeKindCode::NON_NULL => 39,
            AttributeKindCode::JUMP_TABLE => 40,
            AttributeKindCode::DEREFERENCEABLE => 41,
            AttributeKindCode::DEREFERENCEABLE_OR_NULL => 42,
            AttributeKindCode::CONVERGENT => 43,
            AttributeKindCode::SAFESTACK => 44,
            AttributeKindCode::ARGMEMONLY => 45,
            AttributeKindCode::SWIFT_SELF => 46,
            AttributeKindCode::SWIFT_ERROR => 47,
            AttributeKindCode::NO_RECURSE => 48,
            AttributeKindCode::INACCESSIBLEMEM_ONLY => 49,
            AttributeKindCode::INACCESSIBLEMEM_OR_ARGMEMONLY => 50,
            AttributeKindCode::ALLOC_SIZE => 51,
            AttributeKindCode::WRITEONLY => 52,
            AttributeKindCode::SPECULATABLE => 53,
            AttributeKindCode::STRICT_FP => 54,
            AttributeKindCode::SANITIZE_HWADDRESS => 55,
            AttributeKindCode::NOCF_CHECK => 56,
            AttributeKindCode::OPT_FOR_FUZZING => 57,
            AttributeKindCode::SHADOWCALLSTACK => 58,
            AttributeKindCode::SPECULATIVE_LOAD_HARDENING => 59,
            AttributeKindCode::IMMARG => 60,
            AttributeKindCode::WILLRETURN => 61,
            AttributeKindCode::NOFREE => 62,
            AttributeKindCode::NOSYNC => 63,
            AttributeKindCode::SANITIZE_MEMTAG => 64,
            AttributeKindCode::PREALLOCATED => 65,
            AttributeKindCode::NO_MERGE => 66,
            AttributeKindCode::NULL_POINTER_IS_VALID => 67,
            AttributeKindCode::NOUNDEF => 68,
            AttributeKindCode::BYREF => 69,
            AttributeKindCode::MUSTPROGRESS => 70,
            AttributeKindCode::NO_CALLBACK => 71,
            AttributeKindCode::HOT => 72,
            AttributeKindCode::NO_PROFILE => 73,
            AttributeKindCode::VSCALE_RANGE => 74,
            AttributeKindCode::SWIFT_ASYNC => 75,
            AttributeKindCode::NO_SANITIZE_COVERAGE => 76,
            AttributeKindCode::ELEMENTTYPE => 77,
            AttributeKindCode::DISABLE_SANITIZER_INSTRUMENTATION => 78,
            AttributeKindCode::NO_SANITIZE_BOUNDS => 79,
            AttributeKindCode::ALLOC_ALIGN => 80,
            AttributeKindCode::ALLOCATED_POINTER => 81,
            AttributeKindCode::ALLOC_KIND => 82,
            AttributeKindCode::PRESPLIT_COROUTINE => 83,
            AttributeKindCode::FNRETTHUNK_EXTERN => 84,
            AttributeKindCode::SKIP_PROFILE => 85,
            AttributeKindCode::MEMORY => 86,
            AttributeKindCode::NOFPCLASS => 87,
            AttributeKindCode::OPTIMIZE_FOR_DEBUGGING => 88,
            AttributeKindCode::WRITABLE => 89,
            AttributeKindCode::CORO_ONLY_DESTROY_WHEN_COMPLETE => 90,
            AttributeKindCode::DEAD_ON_UNWIND => 91,
            AttributeKindCode::RANGE => 92,
            AttributeKindCode::SANITIZE_NUMERICAL_STABILITY => 93,
            AttributeKindCode::INITIALIZES => 94,
            AttributeKindCode::HYBRID_PATCHABLE => 95,
        }
    }
}

#[derive(Debug, Clone, Copy)]
pub enum ComdatSelectionKindCode {
    ANY,
    EXACT_MATCH,
    LARGEST,
    NO_DUPLICATES,
    SAME_SIZE,
}

impl ComdatSelectionKindCode {
    /// The number that the bitcode format gives this code.
    pub open spec fn spec_code(self) -> u32 {
        match self {
            ComdatSelectionKindCode::ANY => 1,
            ComdatSelectionKindCode::EXACT_MATCH => 2,
            ComdatSelectionKindCode::LARGEST => 3,
            ComdatSelectionKindCode::NO_DUPLICATES => 4,
            ComdatSelectionKindCode::SAME_SIZE => 5,
        }
    }

    #[verifier::when_used_as_spec(spec_code)]
    pub fn code(self) -> (r: u32)
        ensures
            r == self.spec_code(),
    {
        match self {
            ComdatSelectionKindCode::ANY => 1,
            ComdatSelectionKindCode::EXACT_MATCH => 2,
            ComdatSelectionKindCode::LARGEST => 3,
            ComdatSelectionKindCode::NO_DUPLICATES => 4,
            ComdatSelectionKindCode::SAME_SIZE => 5,
        }
    }
}

#[derive(Debug, Clone, Copy)]
pub enum SymtabCode {
    Blob,
}

impl SymtabCode {
    /// The number that the bitcode format gives this code.
    pub open spec fn spec_code(self) -> u32 {
        match self {
            SymtabCode::Blob => 1,
        }
    }

    #[verifier::when_used_as_spec(spec_code)]
    pub fn code(self) -> (r: u32)
        ensures
            r == self.spec_code(),
    {
        match self {
            SymtabCode::Blob => 1,
        }
    }
}

#[derive(Debug, Clone, Copy)]
pub enum FastMathMap {
    UnsafeAlgebra, // Legacy
    NoNaNs,
    NoInfs,
    NoSignedZeros,
    AllowReciprocal,
    AllowContract,
    ApproxFunc,
    AllowReassoc,
}

impl FastMathMap {
    /// The number that the bitcode format gives this code.
    pub open spec fn spec_code(self) -> u32 {
        match self {
            FastMathMap::UnsafeAlgebra => 1,
            FastMathMap::NoNaNs => 2,
            FastMathMap::NoInfs => 4,
            FastMathMap::NoSignedZeros => 8,
            FastMathMap::AllowReciprocal => 16,
            FastMathMap::AllowContract => 32,
            FastMathMap::ApproxFunc => 64,
            FastMathMap::AllowReassoc => 128,
        }
    }

    #[verifier::when_used_as_spec(spec_code)]
    pub fn code(self) -> (r: u32)
        ensures
            r == self.spec_code(),
    {
        match self {
            FastMathMap::UnsafeAlgebra => 1,
            FastMathMap::NoNaNs => 2,
            FastMathMap::NoInfs => 4,
            FastMathMap::NoSignedZeros => 8,
            FastMathMap::AllowReciprocal => 16,
            FastMathMap::AllowContract => 32,
            FastMathMap::ApproxFunc => 64,
            FastMathMap::AllowReassoc => 128,
        }
    }
}

#[derive(Debug, Clone, Copy)]
pub enum TruncInstOptionalFlag {
    NO_UNSIGNED_WRAP,
    NO_SIGNED_WRAP,
}

impl TruncInstOptionalFlag {
    /// The number that the bitcode format gives this code.
    pub open spec fn spec_code(self) -> u32 {
        match self {
            TruncInstOptionalFlag::NO_UNSIGNED_WRAP => 0,
            TruncInstOptionalFlag::NO_SIGNED_WRAP => 1,
        }
    }

    #[verifier::when_used_as_spec(spec_code)]
    pub fn code(self) -> (r: u32)
        ensures
            r == self.spec_code(),
    {
        match self {
            TruncInstOptionalFlag::NO_UNSIGNED_WRAP => 0,
            TruncInstOptionalFlag::NO_SIGNED_WRAP => 1,
        }
    }
}

#[derive(Debug, Clone, Copy)]
pub enum OverFlowingBinOpOptionalFlag {
    NO_UNSIGNED_WRAP,
    NO_SIGNED_WRAP,
}

impl OverFlowingBinOpOptionalFlag {
    /// The number that the bitcode format gives this code.
    pub open spec fn spec_code(self) -> u32 {
        match self {
            OverFlowingBinOpOptionalFlag::NO_UNSIGNED_WRAP => 0,
            OverFlowingBinOpOptionalFlag::NO_SIGNED_WRAP => 1,
        }
    }

    #[verifier::when_used_as_spec(spec_code)]
    pub fn code(self) -> (r: u32)
        ensures
            r == self.spec_code(),
    {
        match self {
            OverFlowingBinOpOptionalFlag::NO_UNSIGNED_WRAP => 0,
            OverFlowingBinOpOptionalFlag::NO_SIGNED_WRAP => 1,
        }
    }
}

#[derive(Debug, Clone, Copy)]
pub enum MetadataCode {
    STRING_OLD,              // MDSTRING:      [values]
    VALUE,                   // VALUE:         [type num, value num]
    NODE,                    // NODE:          [n x md num]
    NAME,                    // STRING:        [values]
    DISTINCT_NODE,           // DISTINCT_NODE: [n x md num]
    KIND,                    // [n x [id, name]]
    LOCATION,                // [distinct, line, col, scope, inlined-at?]
    OLD_NODE,                // OLD_NODE:      [n x (type num, value num)]
    OLD_FN_NODE,             // OLD_FN_NODE:   [n x (type num, value num)]
    NAMED_NODE,             // NAMED_NODE:    [n x mdnodes]
    ATTACHMENT,             // [m x [value, [n x [id, mdnode]]]
    GENERIC_DEBUG,          // [distinct, tag, vers, header, n x md num]
    SUBRANGE,               // [distinct, count, lo]
    ENUMERATOR,             // [isUnsigned|distinct, value, name]
    BASIC_TYPE,             // [distinct, tag, name, size, align, enc]
    FILE,                   // [distinct, filename, directory, checksumkind, checksum]
    DERIVED_TYPE,           // [distinct, ...]
    COMPOSITE_TYPE,         // [distinct, ...]
    SUBROUTINE_TYPE,        // [distinct, flags, types, cc]
    COMPILE_UNIT,           // [distinct, ...]
    SUBPROGRAM,             // [distinct, ...]
    LEXICAL_BLOCK,          // [distinct, scope, file, line, column]
    LEXICAL_BLOCK_FILE,     //[distinct, scope, file, discriminator]
    NAMESPACE,              // [distinct, scope, file, name, line, exportSymbols]
    TEMPLATE_TYPE,          // [distinct, scope, name, type, ...]
    TEMPLATE_VALUE,         // [distinct, scope, name, type, value, ...]
    GLOBAL_VAR,             // [distinct, ...]
    LOCAL_VAR,              // [distinct, ...]
    EXPRESSION,             // [distinct, n x element]
    OBJC_PROPERTY,          // [distinct, name, file, line, ...]
    IMPORTED_ENTITY,        // [distinct, tag, scope, entity, line, name]
    MODULE,                 // [distinct, scope, name, ...]
    MACRO,                  // [distinct, macinfo, line, name, value]
    MACRO_FILE,             // [distinct, macinfo, line, file, ...]
    STRINGS,                // [count, offset] blob([lengths][chars])
    GLOBAL_DECL_ATTACHMENT, // [valueid, n x [id, mdnode]]
    GLOBAL_VAR_EXPR,        // [distinct, var, expr]
    INDEX_OFFSET,           // [offset]
    INDEX,                  // [bitpos]
    LABEL,                  // [distinct, scope, name, file, line]
    STRING_TYPE,            // [distinct, name, size, align,...]
    // Codes 42 and 43 are reserved for support for Fortran array specific debug
    // info.
    COMMON_BLOCK,     // [distinct, scope, name, variable,...]
    GENERIC_SUBRANGE, // [distinct, count, lo, up, stride]
    ARG_LIST,         // [n x [type num, value num]]
    ASSIGN_ID,        // [distinct, ...]
}

impl MetadataCode {
    /// The number that the bitcode format gives this code.
    pub open spec fn spec_code(self) -> u32 {
        match self {
            MetadataCode::STRING_OLD => 1,
            MetadataCode::VALUE => 2,
            MetadataCode::NODE => 3,
            MetadataCode::NAME => 4,
            MetadataCode::DISTINCT_NODE => 5,
            MetadataCode::KIND => 6,
            MetadataCode::LOCATION => 7,
            MetadataCode::OLD_NODE => 8,
            MetadataCode::OLD_FN_NODE => 9,
            MetadataCode::NAMED_NODE => 10,
            MetadataCode::ATTACHMENT => 11,
            MetadataCode::GENERIC_DEBUG => 12,
            MetadataCode::SUBRANGE => 13,
            MetadataCode::ENUMERATOR => 14,
            MetadataCode::BASIC_TYPE => 15,
            MetadataCode::FILE => 16,
            MetadataCode::DERIVED_TYPE => 17,
            MetadataCode::COMPOSITE_TYPE => 18,
            MetadataCode::SUBROUTINE_TYPE => 19,
            MetadataCode::COMPILE_UNIT => 20,
            MetadataCode::SUBPROGRAM => 21,
            MetadataCode::LEXICAL_BLOCK => 22,
            MetadataCode::LEXICAL_BLOCK_FILE => 23,
            MetadataCode::NAMESPACE => 24,
            MetadataCode::TEMPLATE_TYPE => 25,
            MetadataCode::TEMPLATE_VALUE => 26,
            MetadataCode::GLOBAL_VAR => 27,
            MetadataCode::LOCAL_VAR => 28,
            MetadataCode::EXPRESSION => 29,
            MetadataCode::OBJC_PROPERTY => 30,
            MetadataCode::IMPORTED_ENTITY => 31,
            MetadataCode::MODULE => 32,
            MetadataCode::MACRO => 33,
            MetadataCode::MACRO_FILE => 34,
            MetadataCode::STRINGS => 35,
            MetadataCode::GLOBAL_DECL_ATTACHMENT => 36,
            MetadataCode::GLOBAL_VAR_EXPR => 37,
            MetadataCode::INDEX_OFFSET => 38,
            MetadataCode::INDEX => 39,
            MetadataCode::LABEL => 40,
            MetadataCode::STRING_TYPE => 41,
            MetadataCode::COMMON_BLOCK => 44,
            MetadataCode::GENERIC_SUBRANGE => 45,
            MetadataCode::ARG_LIST => 46,
            MetadataCode::ASSIGN_ID => 47,
        }
    }

    #[verifier::when_used_as_spec(spec_code)]
    pub fn code(self) -> (r: u32)
        ensures
            r == self.spec_code(),
    {
        match self {
            MetadataCode::STRING_OLD => 1,
            MetadataCode::VALUE => 2,
            MetadataCode::NODE => 3,
            MetadataCode::NAME => 4,
            MetadataCode::DISTINCT_NODE => 5,
            MetadataCode::KIND => 6,
            MetadataCode::LOCATION => 7,
            MetadataCode::OLD_NODE => 8,
            MetadataCode::OLD_FN_NODE => 9,
            MetadataCode::NAMED_NODE => 10,
            MetadataCode::ATTACHMENT => 11,
            MetadataCode::GENERIC_DEBUG => 12,
            MetadataCode::SUBRANGE => 13,
            MetadataCode::ENUMERATOR => 14,
            MetadataCode::BASIC_TYPE => 15,
            MetadataCode::FILE => 16,
            MetadataCode::DERIVED_TYPE => 17,
            MetadataCode::COMPOSITE_TYPE => 18,
            MetadataCode::SUBROUTINE_TYPE => 19,
            MetadataCode::COMPILE_UNIT => 20,
            MetadataCode::SUBPROGRAM => 21,
            MetadataCode::LEXICAL_BLOCK => 22,
            MetadataCode::LEXICAL_BLOCK_FILE => 23,
            MetadataCode::NAMESPACE => 24,
            MetadataCode::TEMPLATE_TYPE => 25,
            MetadataCode::TEMPLATE_VALUE => 26,
            MetadataCode::GLOBAL_VAR => 27,
            MetadataCode::LOCAL_VAR => 28,
            MetadataCode::EXPRESSION => 29,
            MetadataCode::OBJC_PROPERTY => 30,
            MetadataCode::IMPORTED_ENTITY => 31,
            MetadataCode::MODULE => 32,
            MetadataCode::MACRO => 33,
            MetadataCode::MACRO_FILE => 34,
            MetadataCode::STRINGS => 35,
            MetadataCode::GLOBAL_DECL_ATTACHMENT => 36,
            MetadataCode::GLOBAL_VAR_EXPR => 37,
            MetadataCode::INDEX_OFFSET => 38,
            MetadataCode::INDEX => 39,
            MetadataCode::LABEL => 40,
            MetadataCode::STRING_TYPE => 41,
            MetadataCode::COMMON_BLOCK => 44,
            MetadataCode::GENERIC_SUBRANGE => 45,
            MetadataCode::ARG_LIST => 46,
            MetadataCode::ASSIGN_ID => 47,
        }
    }
}

} // verus!
