//! The interpreter's stack of operand types, which the paranoid type checker
//! keeps in step with the operand stack.
use vstd::prelude::*;

use crate::move_types::{lemma_type_views, lemma_type_views_push, type_views, MoveType, TypeView};

verus! {

/// The most operands (and so operand types) the interpreter holds at once.
pub const OPERAND_STACK_SIZE_LIMIT: usize = 1024;

/// Why a paranoid type check failed.
#[derive(Clone, Copy, Debug, PartialEq, Eq, Structural)]
pub enum CheckError {
    /// A type was popped from an empty stack.
    StackUnderflow,
    /// A type was pushed onto a full stack.
    StackOverflow,
    /// Two types that must be equal are not.
    TypeMismatch,
    /// A value lacks an ability the instruction needs.
    AbilityViolation,
    /// The abilities of a type cannot be computed.
    AbilitiesUnavailable,
    /// A type parameter has no type argument.
    SubstitutionFailed,
    /// A struct's field count disagrees with its field list.
    ArgsCountMismatch,
    /// `ReadRef` on a value that is not a reference.
    ReadRefNotReference,
    /// `WriteRef` on a value that is not a mutable reference.
    WriteRefNotMutableReference,
    /// `WriteRef` of a value whose type is not the referenced type.
    WriteRefTypeMismatch,
    /// `FreezeRef` on a value that is not a mutable reference.
    FreezeRefNotMutableReference,
    /// `VecUnpack` on a value that is not a vector.
    VecUnpackNotVector,
    /// `Eq` or `Neq` on values of different types.
    EqualityTypeMismatch,
    /// A constant's type cannot be the type of a constant.
    InvalidConstantType,
    /// The type stack and the operand stack have different heights.
    Unbalanced,
    /// A local index is out of range for the frame's locals.
    LocalOutOfRange,
    /// A private or friend function called from another address.
    PrivateCallAcrossAddresses,
    /// A private or friend function call where a side is not in a module.
    PrivateCallOutsideModule,
    /// A native function that is not in a module.
    NativeOutsideModule,
}

/// Status codes the interpreter reports.
#[derive(Clone, Copy, Debug, PartialEq, Eq, Structural)]
pub enum StatusCode {
    UnknownInvariantViolationError,
    EmptyValueStack,
    ExecutionStackOverflow,
}

impl CheckError {
    /// The status code under which the interpreter reports this failure.
    pub fn status_code(&self) -> (r: StatusCode)
        ensures
            r == match *self {
                CheckError::StackUnderflow => StatusCode::EmptyValueStack,
                CheckError::StackOverflow => StatusCode::ExecutionStackOverflow,
                _ => StatusCode::UnknownInvariantViolationError,
            },
    {
        match self {
            CheckError::StackUnderflow => StatusCode::EmptyValueStack,
            CheckError::StackOverflow => StatusCode::ExecutionStackOverflow,
            _ => StatusCode::UnknownInvariantViolationError,
        }
    }
}

/// A stack of runtime types, top last.
pub struct TypeStack {
    tys: Vec<MoveType>,
}

impl View for TypeStack {
    type V = Seq<TypeView>;

    closed spec fn view(&self) -> Seq<TypeView> {
        type_views(self.tys@)
    }
}

/// `s` with `t` pushed, or the overflow error when `s` is full.
pub open spec fn push_spec(s: Seq<TypeView>, t: TypeView) -> Result<Seq<TypeView>, CheckError> {
    if s.len() < OPERAND_STACK_SIZE_LIMIT {
        Ok(s.push(t))
    } else {
        Err(CheckError::StackOverflow)
    }
}

/// The `k`-th type from the top of `s` (the top is `k == 0`).
pub open spec fn top(s: Seq<TypeView>, k: int) -> TypeView {
    s[s.len() - 1 - k]
}

/// `s` without its top `n` types.
pub open spec fn below(s: Seq<TypeView>, n: int) -> Seq<TypeView> {
    s.subrange(0, s.len() - n)
}

impl TypeStack {
    pub fn new() -> (r: TypeStack)
        ensures r@ == Seq::<TypeView>::empty(),
    {
        TypeStack { tys: Vec::new() }
    }

    pub fn len(&self) -> (r: usize)
        ensures r == self@.len(),
    {
        proof {
            lemma_type_views(self.tys@);
        }
        self.tys.len()
    }

    /// The types on the stack, bottom first.
    pub fn types(&self) -> (r: &Vec<MoveType>)
        ensures type_views(r@) == self@,
    {
        &self.tys
    }

    /// Pushes `t`, unless the stack already holds as many types as the
    /// operand stack may hold values.
    pub fn push_ty(&mut self, t: MoveType) -> (r: Result<(), CheckError>)
        ensures
            r matches Ok(_) ==> final(self)@ == old(self)@.push(t@),
            r matches Err(_) ==> final(self)@ == old(self)@,
            r == (match push_spec(old(self)@, t@) { Ok(_) => Ok(()), Err(e) => Err(e) }),
    {
        proof {
            lemma_type_views(self.tys@);
        }
        if self.tys.len() < OPERAND_STACK_SIZE_LIMIT {
            proof {
                lemma_type_views_push(self.tys@, t);
            }
            self.tys.push(t);
            Ok(())
        } else {
            Err(CheckError::StackOverflow)
        }
    }

    /// Pops the top type.
    pub fn pop_ty(&mut self) -> (r: Result<MoveType, CheckError>)
        ensures
            old(self)@.len() == 0 ==> r == Err::<MoveType, CheckError>(CheckError::StackUnderflow)
                && final(self)@ == old(self)@,
            old(self)@.len() > 0 ==> r is Ok && r->Ok_0@ == top(old(self)@, 0)
                && final(self)@ == below(old(self)@, 1),
    {
        proof {
            lemma_type_views(self.tys@);
        }
        match self.tys.pop() {
            Some(t) => {
                proof {
                    assert(old(self).tys@ =~= self.tys@.push(t));
                    lemma_type_views_push(self.tys@, t);
                    assert(type_views(self.tys@) =~= below(old(self)@, 1));
                }
                Ok(t)
            },
            None => Err(CheckError::StackUnderflow),
        }
    }

    /// Pops the top `n` types and returns them, the deepest first.
    pub fn popn_tys(&mut self, n: u16) -> (r: Result<Vec<MoveType>, CheckError>)
        ensures
            old(self)@.len() < n ==> r is Err && r->Err_0 == CheckError::StackUnderflow
                && final(self)@ == old(self)@,
            old(self)@.len() >= n ==> r is Ok
                && type_views(r->Ok_0@) == old(self)@.subrange(old(self)@.len() - n, old(self)@.len() as int)
                && final(self)@ == below(old(self)@, n as int),
    {
        proof {
            lemma_type_views(self.tys@);
        }
        let len = self.tys.len();
        if len < n as usize {
            return Err(CheckError::StackUnderflow);
        }
        let rest = self.tys.split_off(len - n as usize);
        proof {
            lemma_type_views(self.tys@);
            lemma_type_views(rest@);
            assert(type_views(self.tys@) =~= below(old(self)@, n as int));
            assert(type_views(rest@) =~= old(self)@.subrange(len - n, len as int));
        }
        Ok(rest)
    }

    /// Checks that the stack is as high as the operand stack.
    pub fn check_balance(&self, operand_stack_len: usize) -> (r: Result<(), CheckError>)
        ensures
            r == (if self@.len() == operand_stack_len {
                Ok::<(), CheckError>(())
            } else {
                Err(CheckError::Unbalanced)
            }),
    {
        if self.len() == operand_stack_len {
            Ok(())
        } else {
            Err(CheckError::Unbalanced)
        }
    }
}

} // verus!
