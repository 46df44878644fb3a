//! Move bytecode instructions, with the table indices they carry.
use vstd::prelude::*;

verus! {

/// A Move bytecode instruction. Indices refer to the tables of the module
/// that holds the function (see [`crate::resolver::Resolver`]); `u8`
/// operands of the local instructions index the frame's locals.
#[derive(Clone, Copy, Debug, PartialEq, Eq, Structural)]
pub enum Bytecode {
    Pop,
    Ret,
    BrTrue(u16),
    BrFalse(u16),
    Branch(u16),
    LdU8(u8),
    LdU16(u16),
    LdU32(u32),
    LdU64(u64),
    LdU128(u128),
    /// A 256-bit literal as its high and low halves.
    LdU256(u128, u128),
    CastU8,
    CastU16,
    CastU32,
    CastU64,
    CastU128,
    CastU256,
    LdConst(u16),
    LdTrue,
    LdFalse,
    CopyLoc(u8),
    MoveLoc(u8),
    StLoc(u8),
    Call(u16),
    CallGeneric(u16),
    Pack(u16),
    PackGeneric(u16),
    Unpack(u16),
    UnpackGeneric(u16),
    ReadRef,
    WriteRef,
    FreezeRef,
    MutBorrowLoc(u8),
    ImmBorrowLoc(u8),
    MutBorrowField(u16),
    MutBorrowFieldGeneric(u16),
    ImmBorrowField(u16),
    ImmBorrowFieldGeneric(u16),
    MutBorrowGlobal(u16),
    MutBorrowGlobalGeneric(u16),
    ImmBorrowGlobal(u16),
    ImmBorrowGlobalGeneric(u16),
    Add,
    Sub,
    Mul,
    Mod,
    Div,
    BitOr,
    BitAnd,
    Xor,
    Or,
    And,
    Not,
    Eq,
    Neq,
    Lt,
    Gt,
    Le,
    Ge,
    Shl,
    Shr,
    Abort,
    Nop,
    Exists(u16),
    ExistsGeneric(u16),
    MoveFrom(u16),
    MoveFromGeneric(u16),
    MoveTo(u16),
    MoveToGeneric(u16),
    VecPack(u16, u64),
    VecLen(u16),
    VecImmBorrow(u16),
    VecMutBorrow(u16),
    VecPushBack(u16),
    VecPopBack(u16),
    VecUnpack(u16, u64),
    VecSwap(u16),
}

/// Instructions that leave the interpreter's instruction loop, so that no
/// type check runs after them.
pub open spec fn is_control_transfer(i: Bytecode) -> bool {
    match i {
        Bytecode::Branch(_) | Bytecode::Ret | Bytecode::Call(_) | Bytecode::CallGeneric(_)
        | Bytecode::Abort => true,
        _ => false,
    }
}

} // verus!
