//! The paranoid type checker: it runs beside the Move interpreter, keeps a
//! stack of the types of the operands, and checks before and after each
//! instruction that the operands have the types and abilities the instruction
//! needs.
use vstd::prelude::*;

use crate::bytecode::{is_control_transfer, Bytecode};
use crate::move_types::{
    abilities, check_constant_type, clone_type, clone_types, eq_type, is_constant_type, lemma_type_views,
    subst, subst_all, subst_vec, type_subst, spec_has, spec_is_subset, type_abilities,
    type_views, Ability, AbilitySet, MoveType, TypeView,
};
use crate::resolver::Resolver;
use crate::text::bytes_equal;
use crate::type_stack::{
    below, push_spec, top, CheckError, TypeStack, OPERAND_STACK_SIZE_LIMIT,
};

verus! {

/// The checker itself holds no state: the type stack lives with the
/// interpreter and is handed to each hook.
pub struct ParanoidTypeChecker {}

// ---------------------------------------------------------------------------
// Specification
// ---------------------------------------------------------------------------

/// `Ok` when `t` has ability `a`; the ability error otherwise.
pub open spec fn need_ability(t: TypeView, a: Ability) -> Result<(), CheckError> {
    match type_abilities(t) {
        Some(s) => if spec_has(s, a) { Ok(()) } else { Err(CheckError::AbilityViolation) },
        None => Err(CheckError::AbilitiesUnavailable),
    }
}

/// `s` with all of `xs` pushed, or the overflow error when they do not fit.
pub open spec fn push_all_spec(s: Seq<TypeView>, xs: Seq<TypeView>) -> Result<Seq<TypeView>, CheckError> {
    if xs.len() == 0 {
        Ok(s)
    } else if s.len() + xs.len() <= OPERAND_STACK_SIZE_LIMIT {
        Ok(s + xs)
    } else {
        Err(CheckError::StackOverflow)
    }
}

/// `n` copies of `t`.
pub open spec fn copies(t: TypeView, n: nat) -> Seq<TypeView> {
    Seq::new(n, |_i: int| t)
}

/// `s` with its top `n` types taken off, or with all of them when it holds
/// fewer: what is left when a failure follows `n` pops.
pub open spec fn popped(s: Seq<TypeView>, n: int) -> Seq<TypeView> {
    if s.len() == 0 || n <= 0 {
        s
    } else if s.len() < n {
        below(s, s.len() as int)
    } else {
        below(s, n)
    }
}

/// `s` with as many of `xs` pushed, in order, as fit under the operand stack
/// limit: what is left when pushing all of `xs` overflows.
pub open spec fn fill(s: Seq<TypeView>, xs: Seq<TypeView>) -> Seq<TypeView> {
    if s.len() >= OPERAND_STACK_SIZE_LIMIT {
        s
    } else if s.len() + xs.len() <= OPERAND_STACK_SIZE_LIMIT {
        s + xs
    } else {
        s + xs.subrange(0, OPERAND_STACK_SIZE_LIMIT - s.len())
    }
}

/// The element type of a reference to a vector of `elem`; a shared reference
/// is refused where a mutable one is needed.
pub open spec fn vec_ref_elem(t: TypeView, elem: TypeView, is_mut: bool) -> Result<TypeView, CheckError> {
    match t {
        TypeView::MutableReference(inner) => match *inner {
            TypeView::Vector(e) => if *e == elem { Ok(*e) } else { Err(CheckError::TypeMismatch) },
            _ => Err(CheckError::TypeMismatch),
        },
        TypeView::Reference(inner) => if is_mut {
            Err(CheckError::TypeMismatch)
        } else {
            match *inner {
                TypeView::Vector(e) => if *e == elem { Ok(*e) } else { Err(CheckError::TypeMismatch) },
                _ => Err(CheckError::TypeMismatch),
            }
        },
        _ => Err(CheckError::TypeMismatch),
    }
}

/// `Ok` when `t` is a reference (shared or mutable) to `expected`.
pub open spec fn ref_to(t: TypeView, expected: TypeView) -> Result<(), CheckError> {
    match t {
        TypeView::Reference(inner) => if *inner == expected { Ok(()) } else { Err(CheckError::TypeMismatch) },
        TypeView::MutableReference(inner) => if *inner == expected { Ok(()) } else { Err(CheckError::TypeMismatch) },
        _ => Err(CheckError::TypeMismatch),
    }
}

pub open spec fn subst_result(o: Option<TypeView>) -> Result<TypeView, CheckError> {
    match o {
        Some(t) => Ok(t),
        None => Err(CheckError::SubstitutionFailed),
    }
}

/// The abilities each field of a struct with abilities `a` must have: those
/// of the struct, except that a key struct needs storable fields instead.
pub open spec fn field_abilities(a: AbilitySet) -> AbilitySet {
    if a.key {
        AbilitySet { key: false, store: true, ..a }
    } else {
        a
    }
}

/// Checks the popped field types `popped`, deepest first, against the
/// declared field types: each must have the abilities `needed` and be the
/// declared type. The first failure is reported.
pub open spec fn check_fields(popped: Seq<TypeView>, declared: Seq<TypeView>, needed: AbilitySet, i: int) -> Result<(), CheckError>
    decreases popped.len() - i,
{
    if i < 0 || i >= popped.len() || i >= declared.len() {
        Ok(())
    } else {
        match type_abilities(popped[i]) {
            None => Err(CheckError::AbilitiesUnavailable),
            Some(a) => if !spec_is_subset(needed, a) {
                Err(CheckError::AbilityViolation)
            } else if popped[i] != declared[i] {
                Err(CheckError::TypeMismatch)
            } else {
                check_fields(popped, declared, needed, i + 1)
            },
        }
    }
}

/// Packing a struct of type `out` from `count` operands whose declared types
/// are `fields`.
pub open spec fn pack_spec(s: Seq<TypeView>, count: u16, fields: Seq<TypeView>, out: TypeView) -> Result<Seq<TypeView>, CheckError> {
    match type_abilities(out) {
        None => Err(CheckError::AbilitiesUnavailable),
        Some(a) => if count as int != fields.len() {
            Err(CheckError::ArgsCountMismatch)
        } else if s.len() < count {
            Err(CheckError::StackUnderflow)
        } else {
            match check_fields(s.subrange(s.len() - count, s.len() as int), fields, field_abilities(a), 0) {
                Err(e) => Err(e),
                Ok(_) => push_spec(below(s, count as int), out),
            }
        },
    }
}

/// The failures of a pack that come before any operand is popped: the
/// struct's abilities are unknown, the declared field count is not the number
/// of field types, or the stack holds fewer operands than the count.
pub open spec fn pack_fails_early(s: Seq<TypeView>, count: u16, fields: Seq<TypeView>, out: TypeView) -> bool {
    type_abilities(out) is None || count as int != fields.len() || s.len() < count
}

/// The stack after the instructions that touch only the operands.
pub open spec fn post_operand_spec(s: Seq<TypeView>, instr: Bytecode) -> Result<Seq<TypeView>, CheckError> {
    match instr {
        Bytecode::BrTrue(_) | Bytecode::BrFalse(_) | Bytecode::StLoc(_) | Bytecode::Nop => Ok(s),
        Bytecode::Pop => if s.len() == 0 {
            Err(CheckError::StackUnderflow)
        } else {
            match need_ability(top(s, 0), Ability::Drop) {
                Err(e) => Err(e),
                Ok(_) => Ok(below(s, 1)),
            }
        },
        Bytecode::LdU8(_) => push_spec(s, TypeView::U8),
        Bytecode::LdU16(_) => push_spec(s, TypeView::U16),
        Bytecode::LdU32(_) => push_spec(s, TypeView::U32),
        Bytecode::LdU64(_) => push_spec(s, TypeView::U64),
        Bytecode::LdU128(_) => push_spec(s, TypeView::U128),
        Bytecode::LdU256(_, _) => push_spec(s, TypeView::U256),
        Bytecode::LdTrue | Bytecode::LdFalse => push_spec(s, TypeView::Bool),
        Bytecode::CastU8 => if s.len() == 0 { Err(CheckError::StackUnderflow) } else { push_spec(below(s, 1), TypeView::U8) },
        Bytecode::CastU16 => if s.len() == 0 { Err(CheckError::StackUnderflow) } else { push_spec(below(s, 1), TypeView::U16) },
        Bytecode::CastU32 => if s.len() == 0 { Err(CheckError::StackUnderflow) } else { push_spec(below(s, 1), TypeView::U32) },
        Bytecode::CastU64 => if s.len() == 0 { Err(CheckError::StackUnderflow) } else { push_spec(below(s, 1), TypeView::U64) },
        Bytecode::CastU128 => if s.len() == 0 { Err(CheckError::StackUnderflow) } else { push_spec(below(s, 1), TypeView::U128) },
        Bytecode::CastU256 => if s.len() == 0 { Err(CheckError::StackUnderflow) } else { push_spec(below(s, 1), TypeView::U256) },
        Bytecode::Add | Bytecode::Sub | Bytecode::Mul | Bytecode::Mod | Bytecode::Div | Bytecode::BitOr
        | Bytecode::BitAnd | Bytecode::Xor | Bytecode::Or | Bytecode::And => {
            if s.len() < 2 {
                Err(CheckError::StackUnderflow)
            } else if top(s, 0) != top(s, 1) {
                Err(CheckError::TypeMismatch)
            } else {
                push_spec(below(s, 2), top(s, 0))
            }
        },
        Bytecode::Shl | Bytecode::Shr => {
            if s.len() < 2 { Err(CheckError::StackUnderflow) } else { push_spec(below(s, 2), top(s, 1)) }
        },
        Bytecode::Lt | Bytecode::Le | Bytecode::Gt | Bytecode::Ge => {
            if s.len() < 2 {
                Err(CheckError::StackUnderflow)
            } else if top(s, 0) != top(s, 1) {
                Err(CheckError::TypeMismatch)
            } else {
                push_spec(below(s, 2), TypeView::Bool)
            }
        },
        Bytecode::Eq | Bytecode::Neq => {
            if s.len() < 2 {
                Err(CheckError::StackUnderflow)
            } else if top(s, 0) != top(s, 1) {
                Err(CheckError::EqualityTypeMismatch)
            } else {
                match need_ability(top(s, 0), Ability::Drop) {
                    Err(e) => Err(e),
                    Ok(_) => push_spec(below(s, 2), TypeView::Bool),
                }
            }
        },
        Bytecode::Not => {
            if s.len() == 0 {
                Err(CheckError::StackUnderflow)
            } else if top(s, 0) != TypeView::Bool {
                Err(CheckError::TypeMismatch)
            } else {
                push_spec(below(s, 1), TypeView::Bool)
            }
        },
        Bytecode::FreezeRef => {
            if s.len() == 0 {
                Err(CheckError::StackUnderflow)
            } else {
                match top(s, 0) {
                    TypeView::MutableReference(t) => push_spec(below(s, 1), TypeView::Reference(t)),
                    _ => Err(CheckError::FreezeRefNotMutableReference),
                }
            }
        },
        Bytecode::ReadRef => {
            if s.len() == 0 {
                Err(CheckError::StackUnderflow)
            } else {
                match top(s, 0) {
                    TypeView::Reference(t) | TypeView::MutableReference(t) => match need_ability(*t, Ability::Copy) {
                        Err(e) => Err(e),
                        Ok(_) => push_spec(below(s, 1), *t),
                    },
                    _ => Err(CheckError::ReadRefNotReference),
                }
            }
        },
        Bytecode::WriteRef => {
            if s.len() < 2 {
                Err(CheckError::StackUnderflow)
            } else {
                match top(s, 0) {
                    TypeView::MutableReference(t) => if *t == top(s, 1) {
                        match need_ability(*t, Ability::Drop) {
                            Err(e) => Err(e),
                            Ok(_) => Ok(below(s, 2)),
                        }
                    } else {
                        Err(CheckError::WriteRefTypeMismatch)
                    },
                    _ => Err(CheckError::WriteRefNotMutableReference),
                }
            }
        },
        _ => Ok(s),
    }
}


/// How many operands an instruction that touches only the operands pops
/// before it can fail on them.
pub open spec fn operand_pops(instr: Bytecode) -> int {
    match instr {
        Bytecode::Pop | Bytecode::CastU8 | Bytecode::CastU16 | Bytecode::CastU32 | Bytecode::CastU64
        | Bytecode::CastU128 | Bytecode::CastU256 | Bytecode::Not | Bytecode::FreezeRef | Bytecode::ReadRef => 1,
        Bytecode::Add | Bytecode::Sub | Bytecode::Mul | Bytecode::Mod | Bytecode::Div | Bytecode::BitOr
        | Bytecode::BitAnd | Bytecode::Xor | Bytecode::Or | Bytecode::And | Bytecode::Shl | Bytecode::Shr
        | Bytecode::Lt | Bytecode::Le | Bytecode::Gt | Bytecode::Ge | Bytecode::Eq | Bytecode::Neq
        | Bytecode::WriteRef => 2,
        _ => 0,
    }
}

pub open spec fn is_operand_instr(instr: Bytecode) -> bool {
    match instr {
        Bytecode::BrTrue(_) | Bytecode::BrFalse(_) | Bytecode::StLoc(_) | Bytecode::Nop | Bytecode::Pop
        | Bytecode::LdU8(_) | Bytecode::LdU16(_) | Bytecode::LdU32(_) | Bytecode::LdU64(_)
        | Bytecode::LdU128(_) | Bytecode::LdU256(_, _) | Bytecode::LdTrue | Bytecode::LdFalse
        | Bytecode::CastU8 | Bytecode::CastU16 | Bytecode::CastU32 | Bytecode::CastU64
        | Bytecode::CastU128 | Bytecode::CastU256 | Bytecode::Add | Bytecode::Sub | Bytecode::Mul
        | Bytecode::Mod | Bytecode::Div | Bytecode::BitOr | Bytecode::BitAnd | Bytecode::Xor
        | Bytecode::Or | Bytecode::And | Bytecode::Shl | Bytecode::Shr | Bytecode::Lt | Bytecode::Le
        | Bytecode::Gt | Bytecode::Ge | Bytecode::Eq | Bytecode::Neq | Bytecode::Not
        | Bytecode::FreezeRef | Bytecode::ReadRef | Bytecode::WriteRef => true,
        _ => false,
    }
}

/// The outcome of a transition as seen through the stack: on success the new
/// stack, on failure the error. What a failure leaves on the stack is stated
/// beside each use (see [`post_error_stack`], [`pre_stack`], [`call_stack`]
/// and [`entrypoint_stack`]).
pub open spec fn outcome(r: Result<(), CheckError>, after: Seq<TypeView>, expected: Result<Seq<TypeView>, CheckError>) -> bool {
    match expected {
        Ok(s) => r is Ok && after == s,
        Err(e) => r == Err::<(), CheckError>(e),
    }
}

// ---------------------------------------------------------------------------
// Checks
// ---------------------------------------------------------------------------

/// Fails with the ability error unless `b` holds.
pub fn check_ability(b: bool) -> (r: Result<(), CheckError>)
    ensures r == (if b { Ok::<(), CheckError>(()) } else { Err(CheckError::AbilityViolation) }),
{
    if b {
        Ok(())
    } else {
        Err(CheckError::AbilityViolation)
    }
}

/// The abilities of `t`, or the error the loader reports for it.
pub fn abilities_of(t: &MoveType) -> (r: Result<AbilitySet, CheckError>)
    ensures
        r == (match type_abilities(t@) {
            Some(a) => Ok::<AbilitySet, CheckError>(a),
            None => Err(CheckError::AbilitiesUnavailable),
        }),
{
    match abilities(t) {
        Some(a) => Ok(a),
        None => Err(CheckError::AbilitiesUnavailable),
    }
}

/// Fails unless `t` has ability `a` (see [`need_ability`]).
pub fn require_ability(t: &MoveType, a: Ability) -> (r: Result<(), CheckError>)
    ensures r == need_ability(t@, a),
{
    let set = abilities_of(t)?;
    check_ability(set.has_ability(a))
}

/// Fails with the mismatch error unless `a` and `b` are the same type.
pub fn check_eq(a: &MoveType, b: &MoveType) -> (r: Result<(), CheckError>)
    ensures r == (if a@ == b@ { Ok::<(), CheckError>(()) } else { Err(CheckError::TypeMismatch) }),
{
    if eq_type(a, b) {
        Ok(())
    } else {
        Err(CheckError::TypeMismatch)
    }
}

/// Fails unless `t` is a reference to `expected` (see [`ref_to`]).
pub fn check_ref_eq(t: &MoveType, expected: &MoveType) -> (r: Result<(), CheckError>)
    ensures r == ref_to(t@, expected@),
{
    match t {
        MoveType::Reference(inner) => check_eq(inner, expected),
        MoveType::MutableReference(inner) => check_eq(inner, expected),
        _ => Err(CheckError::TypeMismatch),
    }
}

/// The element type of `t`, a reference to a vector of `elem` (see
/// [`vec_ref_elem`]).
pub fn check_vec_ref(t: &MoveType, elem: &MoveType, is_mut: bool) -> (r: Result<MoveType, CheckError>)
    ensures
        match vec_ref_elem(t@, elem@, is_mut) {
            Ok(x) => r is Ok && r->Ok_0@ == x,
            Err(e) => r is Err && r->Err_0 == e,
        },
{
    match t {
        MoveType::MutableReference(inner) => match &**inner {
            MoveType::Vector(e) => {
                proof {
                    assert((**inner)@ == TypeView::Vector(Box::new(e@)));
                }
                check_eq(e, elem)?;
                Ok(clone_type(e))
            },
            _ => Err(CheckError::TypeMismatch),
        },
        MoveType::Reference(inner) => {
            if is_mut {
                return Err(CheckError::TypeMismatch);
            }
            match &**inner {
                MoveType::Vector(e) => {
                    proof {
                        assert((**inner)@ == TypeView::Vector(Box::new(e@)));
                    }
                    check_eq(e, elem)?;
                    Ok(clone_type(e))
                },
                _ => Err(CheckError::TypeMismatch),
            }
        },
        _ => Err(CheckError::TypeMismatch),
    }
}

// ---------------------------------------------------------------------------
// Transitions
// ---------------------------------------------------------------------------

fn pop_two_same(stack: &mut TypeStack) -> (r: Result<MoveType, CheckError>)
    ensures
        old(stack)@.len() < 2 ==> r == Err::<MoveType, CheckError>(CheckError::StackUnderflow),
        r is Err ==> final(stack)@ == popped(old(stack)@, 2),
        old(stack)@.len() >= 2 && top(old(stack)@, 0) != top(old(stack)@, 1) ==> r == Err::<MoveType, CheckError>(CheckError::TypeMismatch),
        old(stack)@.len() >= 2 && top(old(stack)@, 0) == top(old(stack)@, 1) ==> r is Ok
            && r->Ok_0@ == top(old(stack)@, 0) && final(stack)@ == below(old(stack)@, 2),
{
    let lhs = stack.pop_ty()?;
    let rhs = stack.pop_ty()?;
    check_eq(&lhs, &rhs)?;
    proof {
        assert(below(below(old(stack)@, 1), 1) =~= below(old(stack)@, 2));
    }
    Ok(lhs)
}

fn pop_any(stack: &mut TypeStack) -> (r: Result<(), CheckError>)
    ensures
        old(stack)@.len() == 0 ==> r == Err::<(), CheckError>(CheckError::StackUnderflow) && final(stack)@ == old(stack)@,
        old(stack)@.len() > 0 ==> r is Ok && final(stack)@ == below(old(stack)@, 1),
{
    stack.pop_ty()?;
    Ok(())
}

fn push_result(stack: &mut TypeStack, t: MoveType) -> (r: Result<(), CheckError>)
    ensures
        outcome(r, final(stack)@, push_spec(old(stack)@, t@)),
        r is Err ==> final(stack)@ == old(stack)@,
{
    stack.push_ty(t)
}

/// The type stack transition after an instruction that touches only the
/// operands (see [`post_operand_spec`]).
pub fn post_operand(stack: &mut TypeStack, instr: &Bytecode) -> (r: Result<(), CheckError>)
    requires is_operand_instr(*instr),
    ensures
        outcome(r, final(stack)@, post_operand_spec(old(stack)@, *instr)),
        r is Err ==> final(stack)@ == popped(old(stack)@, operand_pops(*instr)),
{
    match instr {
        Bytecode::BrTrue(_) | Bytecode::BrFalse(_) | Bytecode::StLoc(_) | Bytecode::Nop => Ok(()),
        Bytecode::Pop => {
            let ty = stack.pop_ty()?;
            require_ability(&ty, Ability::Drop)
        },
        Bytecode::LdU8(_) => push_result(stack, MoveType::U8),
        Bytecode::LdU16(_) => push_result(stack, MoveType::U16),
        Bytecode::LdU32(_) => push_result(stack, MoveType::U32),
        Bytecode::LdU64(_) => push_result(stack, MoveType::U64),
        Bytecode::LdU128(_) => push_result(stack, MoveType::U128),
        Bytecode::LdU256(_, _) => push_result(stack, MoveType::U256),
        Bytecode::LdTrue | Bytecode::LdFalse => push_result(stack, MoveType::Bool),
        Bytecode::CastU8 => {
            pop_any(stack)?;
            push_result(stack, MoveType::U8)
        },
        Bytecode::CastU16 => {
            pop_any(stack)?;
            push_result(stack, MoveType::U16)
        },
        Bytecode::CastU32 => {
            pop_any(stack)?;
            push_result(stack, MoveType::U32)
        },
        Bytecode::CastU64 => {
            pop_any(stack)?;
            push_result(stack, MoveType::U64)
        },
        Bytecode::CastU128 => {
            pop_any(stack)?;
            push_result(stack, MoveType::U128)
        },
        Bytecode::CastU256 => {
            pop_any(stack)?;
            push_result(stack, MoveType::U256)
        },
        Bytecode::Add | Bytecode::Sub | Bytecode::Mul | Bytecode::Mod | Bytecode::Div | Bytecode::BitOr
        | Bytecode::BitAnd | Bytecode::Xor | Bytecode::Or | Bytecode::And => {
            let lhs = pop_two_same(stack)?;
            push_result(stack, lhs)
        },
        Bytecode::Shl | Bytecode::Shr => {
            pop_any(stack)?;
            let rhs = stack.pop_ty()?;
            proof {
                assert(below(below(old(stack)@, 1), 1) =~= below(old(stack)@, 2));
            }
            push_result(stack, rhs)
        },
        Bytecode::Lt | Bytecode::Le | Bytecode::Gt | Bytecode::Ge => {
            pop_two_same(stack)?;
            push_result(stack, MoveType::Bool)
        },
        Bytecode::Eq | Bytecode::Neq => {
            let lhs = stack.pop_ty()?;
            let rhs = stack.pop_ty()?;
            if !eq_type(&lhs, &rhs) {
                return Err(CheckError::EqualityTypeMismatch);
            }
            require_ability(&lhs, Ability::Drop)?;
            proof {
                assert(below(below(old(stack)@, 1), 1) =~= below(old(stack)@, 2));
            }
            push_result(stack, MoveType::Bool)
        },
        Bytecode::Not => {
            let t = stack.pop_ty()?;
            check_eq(&t, &MoveType::Bool)?;
            push_result(stack, MoveType::Bool)
        },
        Bytecode::FreezeRef => {
            let t = stack.pop_ty()?;
            match t {
                MoveType::MutableReference(inner) => push_result(stack, MoveType::Reference(inner)),
                _ => Err(CheckError::FreezeRefNotMutableReference),
            }
        },
        Bytecode::ReadRef => {
            let t = stack.pop_ty()?;
            match t {
                MoveType::Reference(inner) | MoveType::MutableReference(inner) => {
                    require_ability(&inner, Ability::Copy)?;
                    push_result(stack, *inner)
                },
                _ => Err(CheckError::ReadRefNotReference),
            }
        },
        Bytecode::WriteRef => {
            let ref_ty = stack.pop_ty()?;
            let val_ty = stack.pop_ty()?;
            proof {
                assert(below(below(old(stack)@, 1), 1) =~= below(old(stack)@, 2));
            }
            match ref_ty {
                MoveType::MutableReference(inner) => {
                    if eq_type(&inner, &val_ty) {
                        require_ability(&inner, Ability::Drop)
                    } else {
                        Err(CheckError::WriteRefTypeMismatch)
                    }
                },
                _ => Err(CheckError::WriteRefNotMutableReference),
            }
        },
        _ => Ok(()),
    }
}


// ---------------------------------------------------------------------------
// Locals and constants
// ---------------------------------------------------------------------------

pub open spec fn is_local_instr(instr: Bytecode) -> bool {
    match instr {
        Bytecode::CopyLoc(_) | Bytecode::MoveLoc(_) | Bytecode::MutBorrowLoc(_)
        | Bytecode::ImmBorrowLoc(_) => true,
        _ => false,
    }
}

/// The stack after an instruction that pushes a local's type or a reference
/// to it, `locals` being the frame's local types.
pub open spec fn post_local_spec(s: Seq<TypeView>, locals: Seq<TypeView>, instr: Bytecode) -> Result<Seq<TypeView>, CheckError> {
    match instr {
        Bytecode::CopyLoc(i) => match need_ability(locals[i as int], Ability::Copy) {
            Err(e) => Err(e),
            Ok(_) => push_spec(s, locals[i as int]),
        },
        Bytecode::MoveLoc(i) => push_spec(s, locals[i as int]),
        Bytecode::MutBorrowLoc(i) => push_spec(s, TypeView::MutableReference(Box::new(locals[i as int]))),
        Bytecode::ImmBorrowLoc(i) => push_spec(s, TypeView::Reference(Box::new(locals[i as int]))),
        _ => Ok(s),
    }
}

/// The local index an instruction names, if any.
pub open spec fn local_index(instr: Bytecode) -> Option<u8> {
    match instr {
        Bytecode::CopyLoc(i) | Bytecode::MoveLoc(i) | Bytecode::StLoc(i) | Bytecode::MutBorrowLoc(i)
        | Bytecode::ImmBorrowLoc(i) => Some(i),
        _ => None,
    }
}

pub fn post_local(stack: &mut TypeStack, local_tys: &Vec<MoveType>, instr: &Bytecode) -> (r: Result<(), CheckError>)
    requires
        is_local_instr(*instr),
        (local_index(*instr)->Some_0 as int) < local_tys@.len(),
    ensures
        outcome(r, final(stack)@, post_local_spec(old(stack)@, type_views(local_tys@), *instr)),
        r is Err ==> final(stack)@ == old(stack)@,
{
    proof {
        lemma_type_views(local_tys@);
    }
    match instr {
        Bytecode::CopyLoc(i) => {
            let ty = clone_type(&local_tys[*i as usize]);
            require_ability(&ty, Ability::Copy)?;
            push_result(stack, ty)
        },
        Bytecode::MoveLoc(i) => push_result(stack, clone_type(&local_tys[*i as usize])),
        Bytecode::MutBorrowLoc(i) => {
            let ty = clone_type(&local_tys[*i as usize]);
            push_result(stack, MoveType::MutableReference(Box::new(ty)))
        },
        Bytecode::ImmBorrowLoc(i) => {
            let ty = clone_type(&local_tys[*i as usize]);
            push_result(stack, MoveType::Reference(Box::new(ty)))
        },
        _ => Ok(()),
    }
}

/// The stack after loading constant `idx`.
pub open spec fn post_const_spec(s: Seq<TypeView>, res: &Resolver, idx: u16) -> Result<Seq<TypeView>, CheckError> {
    if is_constant_type(res.constant_type(idx)) {
        push_spec(s, res.constant_type(idx))
    } else {
        Err(CheckError::InvalidConstantType)
    }
}

pub fn post_const(stack: &mut TypeStack, resolver: &Resolver, idx: u16) -> (r: Result<(), CheckError>)
    requires (idx as int) < resolver.constants@.len(),
    ensures
        outcome(r, final(stack)@, post_const_spec(old(stack)@, resolver, idx)),
        r is Err ==> final(stack)@ == old(stack)@,
{
    let ty = resolver.constant_at(idx);
    if !check_constant_type(&ty) {
        return Err(CheckError::InvalidConstantType);
    }
    push_result(stack, ty)
}

// ---------------------------------------------------------------------------
// Fields
// ---------------------------------------------------------------------------

pub open spec fn is_field_instr(instr: Bytecode) -> bool {
    match instr {
        Bytecode::ImmBorrowField(_) | Bytecode::MutBorrowField(_) | Bytecode::ImmBorrowFieldGeneric(_)
        | Bytecode::MutBorrowFieldGeneric(_) => true,
        _ => false,
    }
}

/// The stack after borrowing a field of the struct referenced on top.
pub open spec fn post_field_spec(s: Seq<TypeView>, ty_args: Seq<TypeView>, res: &Resolver, instr: Bytecode) -> Result<Seq<TypeView>, CheckError> {
    match instr {
        Bytecode::ImmBorrowField(fh) => {
            if s.len() == 0 {
                Err(CheckError::StackUnderflow)
            } else {
                match ref_to(top(s, 0), res.field_owner(fh)) {
                    Err(e) => Err(e),
                    Ok(_) => push_spec(below(s, 1), TypeView::Reference(Box::new(res.field_type(fh)))),
                }
            }
        },
        Bytecode::MutBorrowField(fh) => {
            if s.len() == 0 {
                Err(CheckError::StackUnderflow)
            } else if top(s, 0) != TypeView::MutableReference(Box::new(res.field_owner(fh))) {
                Err(CheckError::TypeMismatch)
            } else {
                push_spec(below(s, 1), TypeView::MutableReference(Box::new(res.field_type(fh))))
            }
        },
        Bytecode::ImmBorrowFieldGeneric(fi) => match subst_result(res.generic_field_owner(fi, ty_args)) {
            Err(e) => Err(e),
            Ok(owner) => if s.len() == 0 {
                Err(CheckError::StackUnderflow)
            } else {
                match ref_to(top(s, 0), owner) {
                    Err(e) => Err(e),
                    Ok(_) => match subst_result(res.generic_field_type(fi, ty_args)) {
                        Err(e) => Err(e),
                        Ok(f) => push_spec(below(s, 1), TypeView::Reference(Box::new(f))),
                    },
                }
            },
        },
        Bytecode::MutBorrowFieldGeneric(fi) => match subst_result(res.generic_field_owner(fi, ty_args)) {
            Err(e) => Err(e),
            Ok(owner) => if s.len() == 0 {
                Err(CheckError::StackUnderflow)
            } else if top(s, 0) != TypeView::MutableReference(Box::new(owner)) {
                Err(CheckError::TypeMismatch)
            } else {
                match subst_result(res.generic_field_type(fi, ty_args)) {
                    Err(e) => Err(e),
                    Ok(f) => push_spec(below(s, 1), TypeView::MutableReference(Box::new(f))),
                }
            },
        },
        _ => Ok(s),
    }
}

/// A generic field borrow whose owner type cannot be instantiated.
pub open spec fn field_owner_fails(ty_args: Seq<TypeView>, res: &Resolver, instr: Bytecode) -> bool {
    match instr {
        Bytecode::ImmBorrowFieldGeneric(fi) | Bytecode::MutBorrowFieldGeneric(fi) => subst_result(
            res.generic_field_owner(fi, ty_args),
        ) is Err,
        _ => false,
    }
}

fn subst_or_error(o: Option<MoveType>) -> (r: Result<MoveType, CheckError>)
    ensures
        match o {
            Some(t) => r is Ok && r->Ok_0@ == t@,
            None => r is Err && r->Err_0 == CheckError::SubstitutionFailed,
        },
{
    match o {
        Some(t) => Ok(t),
        None => Err(CheckError::SubstitutionFailed),
    }
}

pub fn post_field(stack: &mut TypeStack, ty_args: &Vec<MoveType>, resolver: &Resolver, instr: &Bytecode) -> (r: Result<(), CheckError>)
    requires
        is_field_instr(*instr),
        match *instr {
            Bytecode::ImmBorrowField(i) | Bytecode::MutBorrowField(i) => (i as int) < resolver.field_handles@.len(),
            Bytecode::ImmBorrowFieldGeneric(i) | Bytecode::MutBorrowFieldGeneric(i) => (i as int) < resolver.field_instantiations@.len(),
            _ => true,
        },
    ensures
        outcome(r, final(stack)@, post_field_spec(old(stack)@, type_views(ty_args@), resolver, *instr)),
        r is Err ==> final(stack)@ == (if field_owner_fails(type_views(ty_args@), resolver, *instr) {
            old(stack)@
        } else {
            popped(old(stack)@, 1)
        }),
{
    match instr {
        Bytecode::ImmBorrowField(fh) => {
            let expected = resolver.field_handle_to_struct(*fh);
            let top_ty = stack.pop_ty()?;
            check_ref_eq(&top_ty, &expected)?;
            push_result(stack, MoveType::Reference(Box::new(resolver.get_field_type(*fh))))
        },
        Bytecode::MutBorrowField(fh) => {
            let expected = resolver.field_handle_to_struct(*fh);
            let top_ty = stack.pop_ty()?;
            check_eq(&top_ty, &MoveType::MutableReference(Box::new(expected)))?;
            push_result(stack, MoveType::MutableReference(Box::new(resolver.get_field_type(*fh))))
        },
        Bytecode::ImmBorrowFieldGeneric(fi) => {
            let expected = subst_or_error(resolver.field_instantiation_to_struct(*fi, ty_args))?;
            let top_ty = stack.pop_ty()?;
            check_ref_eq(&top_ty, &expected)?;
            let f = subst_or_error(resolver.instantiate_generic_field(*fi, ty_args))?;
            push_result(stack, MoveType::Reference(Box::new(f)))
        },
        Bytecode::MutBorrowFieldGeneric(fi) => {
            let expected = subst_or_error(resolver.field_instantiation_to_struct(*fi, ty_args))?;
            let top_ty = stack.pop_ty()?;
            check_eq(&top_ty, &MoveType::MutableReference(Box::new(expected)))?;
            let f = subst_or_error(resolver.instantiate_generic_field(*fi, ty_args))?;
            push_result(stack, MoveType::MutableReference(Box::new(f)))
        },
        _ => Ok(()),
    }
}


// ---------------------------------------------------------------------------
// Structs
// ---------------------------------------------------------------------------

pub open spec fn is_struct_instr(instr: Bytecode) -> bool {
    match instr {
        Bytecode::Pack(_) | Bytecode::PackGeneric(_) | Bytecode::Unpack(_) | Bytecode::UnpackGeneric(_) => true,
        _ => false,
    }
}

/// The stack after packing or unpacking a struct.
pub open spec fn post_struct_spec(s: Seq<TypeView>, ty_args: Seq<TypeView>, res: &Resolver, instr: Bytecode) -> Result<Seq<TypeView>, CheckError> {
    match instr {
        Bytecode::Pack(idx) => pack_spec(s, res.structs@[idx as int].field_count, res.struct_fields(idx), res.struct_type(idx)),
        Bytecode::PackGeneric(idx) => match res.generic_fields(idx, ty_args) {
            None => Err(CheckError::SubstitutionFailed),
            Some(fields) => match subst_result(res.generic_type(idx, ty_args)) {
                Err(e) => Err(e),
                Ok(out) => pack_spec(s, res.struct_instantiations@[idx as int].field_count, fields, out),
            },
        },
        Bytecode::Unpack(idx) => {
            if s.len() == 0 {
                Err(CheckError::StackUnderflow)
            } else if top(s, 0) != res.struct_type(idx) {
                Err(CheckError::TypeMismatch)
            } else {
                push_all_spec(below(s, 1), res.struct_fields(idx))
            }
        },
        Bytecode::UnpackGeneric(idx) => {
            if s.len() == 0 {
                Err(CheckError::StackUnderflow)
            } else {
                match subst_result(res.generic_type(idx, ty_args)) {
                    Err(e) => Err(e),
                    Ok(t) => if top(s, 0) != t {
                        Err(CheckError::TypeMismatch)
                    } else {
                        match res.generic_fields(idx, ty_args) {
                            None => Err(CheckError::SubstitutionFailed),
                            Some(fields) => push_all_spec(below(s, 1), fields),
                        }
                    },
                }
            }
        },
        _ => Ok(s),
    }
}

/// The stack a failed pack or unpack leaves: a pack pops its operands only
/// once it knows their number, and an unpack that overflows leaves the
/// fields that fit.
pub open spec fn struct_error_stack(s: Seq<TypeView>, ty_args: Seq<TypeView>, res: &Resolver, instr: Bytecode) -> Seq<TypeView> {
    match instr {
        Bytecode::Pack(idx) => {
            let count = res.structs@[idx as int].field_count;
            if pack_fails_early(s, count, res.struct_fields(idx), res.struct_type(idx)) {
                s
            } else {
                below(s, count as int)
            }
        },
        Bytecode::PackGeneric(idx) => match res.generic_fields(idx, ty_args) {
            None => s,
            Some(fields) => match subst_result(res.generic_type(idx, ty_args)) {
                Err(_) => s,
                Ok(out) => {
                    let count = res.struct_instantiations@[idx as int].field_count;
                    if pack_fails_early(s, count, fields, out) {
                        s
                    } else {
                        below(s, count as int)
                    }
                },
            },
        },
        Bytecode::Unpack(idx) => if s.len() == 0 {
            s
        } else if top(s, 0) != res.struct_type(idx) {
            below(s, 1)
        } else {
            fill(below(s, 1), res.struct_fields(idx))
        },
        Bytecode::UnpackGeneric(idx) => if s.len() == 0 {
            s
        } else {
            match subst_result(res.generic_type(idx, ty_args)) {
                Err(_) => below(s, 1),
                Ok(t) => if top(s, 0) != t {
                    below(s, 1)
                } else {
                    match res.generic_fields(idx, ty_args) {
                        None => below(s, 1),
                        Some(fields) => fill(below(s, 1), fields),
                    }
                },
            }
        },
        _ => s,
    }
}

/// Checks popped field types against declared ones (see [`check_fields`]).
pub fn check_popped_fields(popped: &Vec<MoveType>, declared: &Vec<MoveType>, needed: AbilitySet) -> (r: Result<(), CheckError>)
    ensures r == check_fields(type_views(popped@), type_views(declared@), needed, 0),
{
    let ghost p = type_views(popped@);
    let ghost d = type_views(declared@);
    proof {
        lemma_type_views(popped@);
        lemma_type_views(declared@);
    }
    let mut i: usize = 0;
    while i < popped.len() && i < declared.len()
        invariant
            i <= popped.len(),
            p == type_views(popped@),
            d == type_views(declared@),
            p.len() == popped@.len(),
            d.len() == declared@.len(),
            forall|j: int| 0 <= j < popped@.len() ==> #[trigger] p[j] == popped@[j]@,
            forall|j: int| 0 <= j < declared@.len() ==> #[trigger] d[j] == declared@[j]@,
            check_fields(p, d, needed, 0) == check_fields(p, d, needed, i as int),
        decreases popped.len() - i,
    {
        let a = abilities_of(&popped[i])?;
        check_ability(needed.is_subset(a))?;
        check_eq(&popped[i], &declared[i])?;
        i = i + 1;
    }
    Ok(())
}

fn key_field_abilities(a: AbilitySet) -> (r: AbilitySet)
    ensures r == field_abilities(a),
{
    if a.has_key() {
        AbilitySet { copy: a.copy, drop: a.drop, store: true, key: false }
    } else {
        a
    }
}

fn pack_common(stack: &mut TypeStack, count: u16, fields: &Vec<MoveType>, out: MoveType) -> (r: Result<(), CheckError>)
    ensures
        outcome(r, final(stack)@, pack_spec(old(stack)@, count, type_views(fields@), out@)),
        r is Err ==> final(stack)@ == (if pack_fails_early(old(stack)@, count, type_views(fields@), out@) {
            old(stack)@
        } else {
            below(old(stack)@, count as int)
        }),
{
    proof {
        lemma_type_views(fields@);
    }
    let ability = abilities_of(&out)?;
    let needed = key_field_abilities(ability);
    if count as usize != fields.len() {
        return Err(CheckError::ArgsCountMismatch);
    }
    let popped = stack.popn_tys(count)?;
    check_popped_fields(&popped, fields, needed)?;
    push_result(stack, out)
}

/// Pushes each of `xs` in turn.
pub fn push_all(stack: &mut TypeStack, xs: &Vec<MoveType>) -> (r: Result<(), CheckError>)
    ensures
        outcome(r, final(stack)@, push_all_spec(old(stack)@, type_views(xs@))),
        r is Err ==> final(stack)@ == fill(old(stack)@, type_views(xs@)),
{
    let ghost v = type_views(xs@);
    proof {
        lemma_type_views(xs@);
    }
    let mut i: usize = 0;
    while i < xs.len()
        invariant
            i <= xs.len(),
            v == type_views(xs@),
            v.len() == xs@.len(),
            forall|j: int| 0 <= j < xs@.len() ==> #[trigger] v[j] == xs@[j]@,
            stack@ == old(stack)@ + v.subrange(0, i as int),
            i > 0 ==> old(stack)@.len() + i <= OPERAND_STACK_SIZE_LIMIT,
        decreases xs.len() - i,
    {
        let t = clone_type(&xs[i]);
        let pushed = stack.push_ty(t);
        if pushed.is_err() {
            return Err(CheckError::StackOverflow);
        }
        proof {
            assert(stack@ =~= old(stack)@ + v.subrange(0, i + 1));
        }
        i = i + 1;
    }
    proof {
        assert(v.subrange(0, xs.len() as int) =~= v);
        assert(stack@ =~= old(stack)@ + v);
    }
    Ok(())
}

pub fn post_struct(stack: &mut TypeStack, ty_args: &Vec<MoveType>, resolver: &Resolver, instr: &Bytecode) -> (r: Result<(), CheckError>)
    requires
        is_struct_instr(*instr),
        match *instr {
            Bytecode::Pack(i) | Bytecode::Unpack(i) => (i as int) < resolver.structs@.len(),
            Bytecode::PackGeneric(i) | Bytecode::UnpackGeneric(i) => (i as int) < resolver.struct_instantiations@.len(),
            _ => true,
        },
    ensures
        outcome(r, final(stack)@, post_struct_spec(old(stack)@, type_views(ty_args@), resolver, *instr)),
        r is Err ==> final(stack)@ == struct_error_stack(old(stack)@, type_views(ty_args@), resolver, *instr),
{
    match instr {
        Bytecode::Pack(idx) => {
            let count = resolver.field_count(*idx);
            let fields = resolver.get_struct_fields(*idx);
            let out = resolver.get_struct_type(*idx);
            pack_common(stack, count, fields, out)
        },
        Bytecode::PackGeneric(idx) => {
            let count = resolver.field_instantiation_count(*idx);
            let fields = match resolver.instantiate_generic_struct_fields(*idx, ty_args) {
                Some(f) => f,
                None => return Err(CheckError::SubstitutionFailed),
            };
            let out = subst_or_error(resolver.instantiate_generic_type(*idx, ty_args))?;
            pack_common(stack, count, &fields, out)
        },
        Bytecode::Unpack(idx) => {
            let struct_ty = stack.pop_ty()?;
            check_eq(&struct_ty, &resolver.get_struct_type(*idx))?;
            push_all(stack, resolver.get_struct_fields(*idx))
        },
        Bytecode::UnpackGeneric(idx) => {
            let struct_ty = stack.pop_ty()?;
            let expected = subst_or_error(resolver.instantiate_generic_type(*idx, ty_args))?;
            check_eq(&struct_ty, &expected)?;
            let fields = match resolver.instantiate_generic_struct_fields(*idx, ty_args) {
                Some(f) => f,
                None => return Err(CheckError::SubstitutionFailed),
            };
            push_all(stack, &fields)
        },
        _ => Ok(()),
    }
}


// ---------------------------------------------------------------------------
// Global storage
// ---------------------------------------------------------------------------

pub open spec fn is_global_instr(instr: Bytecode) -> bool {
    match instr {
        Bytecode::MutBorrowGlobal(_) | Bytecode::ImmBorrowGlobal(_) | Bytecode::MutBorrowGlobalGeneric(_)
        | Bytecode::ImmBorrowGlobalGeneric(_) | Bytecode::Exists(_) | Bytecode::ExistsGeneric(_)
        | Bytecode::MoveTo(_) | Bytecode::MoveToGeneric(_) | Bytecode::MoveFrom(_)
        | Bytecode::MoveFromGeneric(_) => true,
        _ => false,
    }
}

/// The struct type a global storage instruction names.
pub open spec fn global_type(ty_args: Seq<TypeView>, res: &Resolver, instr: Bytecode) -> Result<TypeView, CheckError> {
    match instr {
        Bytecode::MutBorrowGlobal(i) | Bytecode::ImmBorrowGlobal(i) | Bytecode::MoveTo(i) | Bytecode::MoveFrom(i) => Ok(res.struct_type(i)),
        Bytecode::MutBorrowGlobalGeneric(i) | Bytecode::ImmBorrowGlobalGeneric(i) | Bytecode::MoveToGeneric(i)
        | Bytecode::MoveFromGeneric(i) => subst_result(res.generic_type(i, ty_args)),
        _ => Ok(TypeView::Bool),
    }
}

/// The stack after an instruction on global storage: an address is popped
/// (by `MoveTo`, a signer reference and the value), the struct must have
/// key, and a reference, the value, or a boolean is pushed.
pub open spec fn post_global_spec(s: Seq<TypeView>, ty_args: Seq<TypeView>, res: &Resolver, instr: Bytecode) -> Result<Seq<TypeView>, CheckError> {
    match instr {
        Bytecode::MoveTo(_) | Bytecode::MoveToGeneric(_) => {
            if s.len() < 2 {
                Err(CheckError::StackUnderflow)
            } else if top(s, 1) != TypeView::Reference(Box::new(TypeView::Signer)) {
                Err(CheckError::TypeMismatch)
            } else {
                match global_type(ty_args, res, instr) {
                    Err(e) => Err(e),
                    Ok(t) => if top(s, 0) != t {
                        Err(CheckError::TypeMismatch)
                    } else {
                        match need_ability(top(s, 0), Ability::Key) {
                            Err(e) => Err(e),
                            Ok(_) => Ok(below(s, 2)),
                        }
                    },
                }
            }
        },
        _ => {
            if s.len() == 0 {
                Err(CheckError::StackUnderflow)
            } else if top(s, 0) != TypeView::Address {
                Err(CheckError::TypeMismatch)
            } else {
                match instr {
                    Bytecode::Exists(_) | Bytecode::ExistsGeneric(_) => push_spec(below(s, 1), TypeView::Bool),
                    _ => match global_type(ty_args, res, instr) {
                        Err(e) => Err(e),
                        Ok(t) => match need_ability(t, Ability::Key) {
                            Err(e) => Err(e),
                            Ok(_) => match instr {
                                Bytecode::MutBorrowGlobal(_) | Bytecode::MutBorrowGlobalGeneric(_) => push_spec(below(s, 1), TypeView::MutableReference(Box::new(t))),
                                Bytecode::ImmBorrowGlobal(_) | Bytecode::ImmBorrowGlobalGeneric(_) => push_spec(below(s, 1), TypeView::Reference(Box::new(t))),
                                _ => push_spec(below(s, 1), t),
                            },
                        },
                    },
                }
            }
        },
    }
}

fn global_struct_type(ty_args: &Vec<MoveType>, resolver: &Resolver, instr: &Bytecode) -> (r: Result<MoveType, CheckError>)
    requires
        match *instr {
            Bytecode::MutBorrowGlobal(i) | Bytecode::ImmBorrowGlobal(i) | Bytecode::MoveTo(i) | Bytecode::MoveFrom(i) => (i as int) < resolver.structs@.len(),
            Bytecode::MutBorrowGlobalGeneric(i) | Bytecode::ImmBorrowGlobalGeneric(i) | Bytecode::MoveToGeneric(i)
            | Bytecode::MoveFromGeneric(i) => (i as int) < resolver.struct_instantiations@.len(),
            _ => true,
        },
    ensures
        match global_type(type_views(ty_args@), resolver, *instr) {
            Ok(t) => r is Ok && r->Ok_0@ == t,
            Err(e) => r is Err && r->Err_0 == e,
        },
{
    match instr {
        Bytecode::MutBorrowGlobal(i) | Bytecode::ImmBorrowGlobal(i) | Bytecode::MoveTo(i) | Bytecode::MoveFrom(i) => Ok(resolver.get_struct_type(*i)),
        Bytecode::MutBorrowGlobalGeneric(i) | Bytecode::ImmBorrowGlobalGeneric(i) | Bytecode::MoveToGeneric(i)
        | Bytecode::MoveFromGeneric(i) => subst_or_error(resolver.instantiate_generic_type(*i, ty_args)),
        _ => Ok(MoveType::Bool),
    }
}

pub fn post_global(stack: &mut TypeStack, ty_args: &Vec<MoveType>, resolver: &Resolver, instr: &Bytecode) -> (r: Result<(), CheckError>)
    requires
        is_global_instr(*instr),
        match *instr {
            Bytecode::MutBorrowGlobal(i) | Bytecode::ImmBorrowGlobal(i) | Bytecode::MoveTo(i) | Bytecode::MoveFrom(i) => (i as int) < resolver.structs@.len(),
            Bytecode::MutBorrowGlobalGeneric(i) | Bytecode::ImmBorrowGlobalGeneric(i) | Bytecode::MoveToGeneric(i)
            | Bytecode::MoveFromGeneric(i) => (i as int) < resolver.struct_instantiations@.len(),
            _ => true,
        },
    ensures
        outcome(r, final(stack)@, post_global_spec(old(stack)@, type_views(ty_args@), resolver, *instr)),
        r is Err ==> final(stack)@ == popped(old(stack)@, if *instr is MoveTo || *instr is MoveToGeneric { 2 } else { 1 }),
{
    match instr {
        Bytecode::MoveTo(_) | Bytecode::MoveToGeneric(_) => {
            let ty = stack.pop_ty()?;
            let signer = stack.pop_ty()?;
            proof {
                assert(below(below(old(stack)@, 1), 1) =~= below(old(stack)@, 2));
            }
            let signer_ref = MoveType::Reference(Box::new(MoveType::Signer));
            proof {
                assert(crate::move_types::type_view(MoveType::Signer) == TypeView::Signer);
                assert(signer_ref@ == TypeView::Reference(Box::new(TypeView::Signer)));
            }
            check_eq(&signer, &signer_ref)?;
            let expected = global_struct_type(ty_args, resolver, instr)?;
            check_eq(&ty, &expected)?;
            require_ability(&ty, Ability::Key)
        },
        _ => {
            let addr = stack.pop_ty()?;
            check_eq(&addr, &MoveType::Address)?;
            match instr {
                Bytecode::Exists(_) | Bytecode::ExistsGeneric(_) => push_result(stack, MoveType::Bool),
                _ => {
                    let ty = global_struct_type(ty_args, resolver, instr)?;
                    require_ability(&ty, Ability::Key)?;
                    match instr {
                        Bytecode::MutBorrowGlobal(_) | Bytecode::MutBorrowGlobalGeneric(_) => push_result(stack, MoveType::MutableReference(Box::new(ty))),
                        Bytecode::ImmBorrowGlobal(_) | Bytecode::ImmBorrowGlobalGeneric(_) => push_result(stack, MoveType::Reference(Box::new(ty))),
                        _ => push_result(stack, ty),
                    }
                },
            }
        },
    }
}

// ---------------------------------------------------------------------------
// Vectors
// ---------------------------------------------------------------------------

pub open spec fn is_vector_instr(instr: Bytecode) -> bool {
    match instr {
        Bytecode::VecPack(_, _) | Bytecode::VecLen(_) | Bytecode::VecImmBorrow(_) | Bytecode::VecMutBorrow(_)
        | Bytecode::VecPushBack(_) | Bytecode::VecPopBack(_) | Bytecode::VecUnpack(_, _) | Bytecode::VecSwap(_) => true,
        _ => false,
    }
}

pub open spec fn vector_sig(instr: Bytecode) -> u16 {
    match instr {
        Bytecode::VecPack(i, _) | Bytecode::VecLen(i) | Bytecode::VecImmBorrow(i) | Bytecode::VecMutBorrow(i)
        | Bytecode::VecPushBack(i) | Bytecode::VecPopBack(i) | Bytecode::VecUnpack(i, _) | Bytecode::VecSwap(i) => i,
        _ => 0,
    }
}

/// The stack after a vector instruction whose element type is `ty`.
pub open spec fn post_vector_with(s: Seq<TypeView>, ty: TypeView, instr: Bytecode) -> Result<Seq<TypeView>, CheckError> {
    match instr {
        Bytecode::VecPack(_, num) => {
            let n = num as u16;
            if s.len() < n {
                Err(CheckError::StackUnderflow)
            } else if exists|j: int| s.len() - n <= j < s.len() && #[trigger] s[j] != ty {
                Err(CheckError::TypeMismatch)
            } else {
                push_spec(below(s, n as int), TypeView::Vector(Box::new(ty)))
            }
        },
        Bytecode::VecLen(_) => if s.len() == 0 {
            Err(CheckError::StackUnderflow)
        } else {
            match vec_ref_elem(top(s, 0), ty, false) {
                Err(e) => Err(e),
                Ok(_) => push_spec(below(s, 1), TypeView::U64),
            }
        },
        Bytecode::VecImmBorrow(_) | Bytecode::VecMutBorrow(_) => {
            let is_mut = instr is VecMutBorrow;
            if s.len() == 0 {
                Err(CheckError::StackUnderflow)
            } else if top(s, 0) != TypeView::U64 {
                Err(CheckError::TypeMismatch)
            } else if s.len() < 2 {
                Err(CheckError::StackUnderflow)
            } else {
                match vec_ref_elem(top(s, 1), ty, is_mut) {
                    Err(e) => Err(e),
                    Ok(inner) => push_spec(below(s, 2), if is_mut {
                        TypeView::MutableReference(Box::new(inner))
                    } else {
                        TypeView::Reference(Box::new(inner))
                    }),
                }
            }
        },
        Bytecode::VecPushBack(_) => {
            if s.len() == 0 {
                Err(CheckError::StackUnderflow)
            } else if top(s, 0) != ty {
                Err(CheckError::TypeMismatch)
            } else if s.len() < 2 {
                Err(CheckError::StackUnderflow)
            } else {
                match vec_ref_elem(top(s, 1), ty, true) {
                    Err(e) => Err(e),
                    Ok(_) => Ok(below(s, 2)),
                }
            }
        },
        Bytecode::VecPopBack(_) => if s.len() == 0 {
            Err(CheckError::StackUnderflow)
        } else {
            match vec_ref_elem(top(s, 0), ty, true) {
                Err(e) => Err(e),
                Ok(inner) => push_spec(below(s, 1), inner),
            }
        },
        Bytecode::VecUnpack(_, num) => if s.len() == 0 {
            Err(CheckError::StackUnderflow)
        } else {
            match top(s, 0) {
                TypeView::Vector(v) => if *v != ty {
                    Err(CheckError::TypeMismatch)
                } else {
                    push_all_spec(below(s, 1), copies(*v, num as nat))
                },
                _ => Err(CheckError::VecUnpackNotVector),
            }
        },
        Bytecode::VecSwap(_) => {
            if s.len() == 0 {
                Err(CheckError::StackUnderflow)
            } else if top(s, 0) != TypeView::U64 {
                Err(CheckError::TypeMismatch)
            } else if s.len() < 2 {
                Err(CheckError::StackUnderflow)
            } else if top(s, 1) != TypeView::U64 {
                Err(CheckError::TypeMismatch)
            } else if s.len() < 3 {
                Err(CheckError::StackUnderflow)
            } else {
                match vec_ref_elem(top(s, 2), ty, true) {
                    Err(e) => Err(e),
                    Ok(_) => Ok(below(s, 3)),
                }
            }
        },
        _ => Ok(s),
    }
}

/// The stack after a vector instruction: its element type is the
/// instruction's signature with the type arguments substituted.
/// The stack a failed vector instruction with element type `ty` leaves:
/// each operand is checked as soon as it is popped.
pub open spec fn vector_error_stack(s: Seq<TypeView>, ty: TypeView, instr: Bytecode) -> Seq<TypeView> {
    match instr {
        Bytecode::VecPack(_, num) => {
            let n = num as u16;
            if s.len() < n {
                s
            } else {
                below(s, n as int)
            }
        },
        Bytecode::VecLen(_) | Bytecode::VecPopBack(_) => popped(s, 1),
        Bytecode::VecImmBorrow(_) | Bytecode::VecMutBorrow(_) => if s.len() == 0 {
            s
        } else if top(s, 0) != TypeView::U64 {
            below(s, 1)
        } else {
            popped(s, 2)
        },
        Bytecode::VecPushBack(_) => if s.len() == 0 {
            s
        } else if top(s, 0) != ty {
            below(s, 1)
        } else {
            popped(s, 2)
        },
        Bytecode::VecUnpack(_, num) => if s.len() == 0 {
            s
        } else {
            match top(s, 0) {
                TypeView::Vector(v) => if *v != ty {
                    below(s, 1)
                } else {
                    fill(below(s, 1), copies(*v, num as nat))
                },
                _ => below(s, 1),
            }
        },
        Bytecode::VecSwap(_) => if s.len() == 0 {
            s
        } else if top(s, 0) != TypeView::U64 {
            below(s, 1)
        } else if s.len() < 2 || top(s, 1) != TypeView::U64 {
            popped(s, 2)
        } else {
            popped(s, 3)
        },
        _ => s,
    }
}

pub open spec fn post_vector_spec(s: Seq<TypeView>, ty_args: Seq<TypeView>, res: &Resolver, instr: Bytecode) -> Result<Seq<TypeView>, CheckError> {
    match subst_result(res.single_type(vector_sig(instr), ty_args)) {
        Err(e) => Err(e),
        Ok(ty) => post_vector_with(s, ty, instr),
    }
}

fn check_all_eq(tys: &Vec<MoveType>, ty: &MoveType) -> (r: Result<(), CheckError>)
    ensures
        r == (if exists|j: int| 0 <= j < tys@.len() && #[trigger] tys@[j]@ != ty@ {
            Err::<(), CheckError>(CheckError::TypeMismatch)
        } else {
            Ok(())
        }),
{
    let mut i: usize = 0;
    while i < tys.len()
        invariant
            i <= tys.len(),
            forall|j: int| 0 <= j < i ==> #[trigger] tys@[j]@ == ty@,
        decreases tys.len() - i,
    {
        check_eq(&tys[i], ty)?;
        i = i + 1;
    }
    Ok(())
}

fn push_copies(stack: &mut TypeStack, t: &MoveType, num: u64) -> (r: Result<(), CheckError>)
    ensures
        outcome(r, final(stack)@, push_all_spec(old(stack)@, copies(t@, num as nat))),
        r is Err ==> final(stack)@ == fill(old(stack)@, copies(t@, num as nat)),
{
    let mut i: u64 = 0;
    while i < num
        invariant
            i <= num,
            stack@ == old(stack)@ + copies(t@, i as nat),
            i > 0 ==> old(stack)@.len() + i <= OPERAND_STACK_SIZE_LIMIT,
        decreases num - i,
    {
        let pushed = stack.push_ty(clone_type(t));
        if pushed.is_err() {
            return Err(CheckError::StackOverflow);
        }
        proof {
            assert(stack@ =~= old(stack)@ + copies(t@, (i + 1) as nat));
        }
        i = i + 1;
    }
    proof {
        assert(stack@ =~= old(stack)@ + copies(t@, num as nat));
        if num == 0 {
            assert(copies(t@, 0) =~= Seq::<TypeView>::empty());
            assert(stack@ =~= old(stack)@);
        }
    }
    Ok(())
}

pub fn post_vector(stack: &mut TypeStack, ty_args: &Vec<MoveType>, resolver: &Resolver, instr: &Bytecode) -> (r: Result<(), CheckError>)
    requires
        is_vector_instr(*instr),
        (vector_sig(*instr) as int) < resolver.signatures@.len(),
    ensures
        outcome(r, final(stack)@, post_vector_spec(old(stack)@, type_views(ty_args@), resolver, *instr)),
        r is Err ==> final(stack)@ == match subst_result(resolver.single_type(vector_sig(*instr), type_views(ty_args@))) {
            Err(_) => old(stack)@,
            Ok(ty) => vector_error_stack(old(stack)@, ty, *instr),
        },
{
    let sig = match instr {
        Bytecode::VecPack(i, _) | Bytecode::VecLen(i) | Bytecode::VecImmBorrow(i) | Bytecode::VecMutBorrow(i)
        | Bytecode::VecPushBack(i) | Bytecode::VecPopBack(i) | Bytecode::VecUnpack(i, _) | Bytecode::VecSwap(i) => *i,
        _ => 0,
    };
    let ty = subst_or_error(resolver.instantiate_single_type(sig, ty_args))?;
    match instr {
        Bytecode::VecPack(_, num) => {
            let n: u16 = #[verifier::truncate] (*num as u16);
            let elems = stack.popn_tys(n)?;
            let ghost s = old(stack)@;
            proof {
                lemma_type_views(elems@);
                assert forall|j: int| 0 <= j < elems@.len() implies (#[trigger] elems@[j])@ == s[j + (s.len() - n)] by {
                    assert(type_views(elems@)[j] == s.subrange(s.len() - n, s.len() as int)[j]);
                }
            }
            if check_all_eq(&elems, &ty).is_err() {
                proof {
                    let j = choose|j: int| 0 <= j < elems@.len() && #[trigger] elems@[j]@ != ty@;
                    let k = j + (s.len() - n);
                    assert(s.len() - n <= k < s.len() && s[k] != ty@);
                }
                return Err(CheckError::TypeMismatch);
            }
            proof {
                assert forall|k: int| s.len() - n <= k < s.len() implies #[trigger] s[k] == ty@ by {
                    assert(elems@[k - (s.len() - n)]@ == ty@);
                }
            }
            push_result(stack, MoveType::Vector(Box::new(ty)))
        },
        Bytecode::VecLen(_) => {
            let t = stack.pop_ty()?;
            check_vec_ref(&t, &ty, false)?;
            push_result(stack, MoveType::U64)
        },
        Bytecode::VecImmBorrow(_) => {
            let idx = stack.pop_ty()?;
            check_eq(&idx, &MoveType::U64)?;
            let t = stack.pop_ty()?;
            proof {
                assert(below(below(old(stack)@, 1), 1) =~= below(old(stack)@, 2));
            }
            let inner = check_vec_ref(&t, &ty, false)?;
            push_result(stack, MoveType::Reference(Box::new(inner)))
        },
        Bytecode::VecMutBorrow(_) => {
            let idx = stack.pop_ty()?;
            check_eq(&idx, &MoveType::U64)?;
            let t = stack.pop_ty()?;
            proof {
                assert(below(below(old(stack)@, 1), 1) =~= below(old(stack)@, 2));
            }
            let inner = check_vec_ref(&t, &ty, true)?;
            push_result(stack, MoveType::MutableReference(Box::new(inner)))
        },
        Bytecode::VecPushBack(_) => {
            let elem = stack.pop_ty()?;
            check_eq(&elem, &ty)?;
            let t = stack.pop_ty()?;
            proof {
                assert(below(below(old(stack)@, 1), 1) =~= below(old(stack)@, 2));
            }
            check_vec_ref(&t, &ty, true)?;
            Ok(())
        },
        Bytecode::VecPopBack(_) => {
            let t = stack.pop_ty()?;
            let inner = check_vec_ref(&t, &ty, true)?;
            push_result(stack, inner)
        },
        Bytecode::VecUnpack(_, num) => {
            let vec_ty = stack.pop_ty()?;
            match vec_ty {
                MoveType::Vector(v) => {
                    check_eq(&v, &ty)?;
                    push_copies(stack, &v, *num)
                },
                _ => Err(CheckError::VecUnpackNotVector),
            }
        },
        Bytecode::VecSwap(_) => {
            let i1 = stack.pop_ty()?;
            check_eq(&i1, &MoveType::U64)?;
            let i2 = stack.pop_ty()?;
            check_eq(&i2, &MoveType::U64)?;
            let t = stack.pop_ty()?;
            proof {
                assert(below(below(old(stack)@, 1), 1) =~= below(old(stack)@, 2));
                assert(below(below(old(stack)@, 2), 1) =~= below(old(stack)@, 3));
            }
            check_vec_ref(&t, &ty, true)?;
            Ok(())
        },
        _ => Ok(()),
    }
}


// ---------------------------------------------------------------------------
// The whole transition after an instruction
// ---------------------------------------------------------------------------

/// The table indices an instruction carries are within the tables of its
/// module and the frame's locals (the bytecode verifier ensures this).
pub open spec fn indices_in_range(instr: Bytecode, local_count: int, res: &Resolver) -> bool {
    match instr {
        Bytecode::CopyLoc(i) | Bytecode::MoveLoc(i) | Bytecode::MutBorrowLoc(i) | Bytecode::ImmBorrowLoc(i) => (i
            as int) < local_count,
        Bytecode::LdConst(i) => (i as int) < res.constants@.len(),
        Bytecode::ImmBorrowField(i) | Bytecode::MutBorrowField(i) => (i as int) < res.field_handles@.len(),
        Bytecode::ImmBorrowFieldGeneric(i) | Bytecode::MutBorrowFieldGeneric(i) => (i as int) < res.field_instantiations@.len(),
        Bytecode::Pack(i) | Bytecode::Unpack(i) | Bytecode::MutBorrowGlobal(i) | Bytecode::ImmBorrowGlobal(i)
        | Bytecode::MoveTo(i) | Bytecode::MoveFrom(i) => (i as int) < res.structs@.len(),
        Bytecode::PackGeneric(i) | Bytecode::UnpackGeneric(i) | Bytecode::MutBorrowGlobalGeneric(i)
        | Bytecode::ImmBorrowGlobalGeneric(i) | Bytecode::MoveToGeneric(i) | Bytecode::MoveFromGeneric(i) => (i as int) < res.struct_instantiations@.len(),
        Bytecode::VecPack(i, _) | Bytecode::VecLen(i) | Bytecode::VecImmBorrow(i) | Bytecode::VecMutBorrow(i)
        | Bytecode::VecPushBack(i) | Bytecode::VecPopBack(i) | Bytecode::VecUnpack(i, _) | Bytecode::VecSwap(i) => (i as int) < res.signatures@.len(),
        _ => true,
    }
}

/// The type stack after an instruction has run: `locals` are the frame's
/// local types, `ty_args` the function's type arguments.
pub open spec fn post_transition(s: Seq<TypeView>, locals: Seq<TypeView>, ty_args: Seq<TypeView>, res: &Resolver, instr: Bytecode) -> Result<Seq<TypeView>, CheckError> {
    if is_operand_instr(instr) {
        post_operand_spec(s, instr)
    } else if is_local_instr(instr) {
        post_local_spec(s, locals, instr)
    } else if is_field_instr(instr) {
        post_field_spec(s, ty_args, res, instr)
    } else if is_struct_instr(instr) {
        post_struct_spec(s, ty_args, res, instr)
    } else if is_global_instr(instr) {
        post_global_spec(s, ty_args, res, instr)
    } else if is_vector_instr(instr) {
        post_vector_spec(s, ty_args, res, instr)
    } else {
        match instr {
            Bytecode::LdConst(i) => post_const_spec(s, res, i),
            _ => Ok(s),
        }
    }
}

/// The type stack after a failed instruction: each instruction fails as
/// soon as an operand it has popped is found wrong, so the operands popped
/// until then are gone and nothing has been pushed, except by an unpack that
/// overflows.
pub open spec fn post_error_stack(s: Seq<TypeView>, ty_args: Seq<TypeView>, res: &Resolver, instr: Bytecode) -> Seq<TypeView> {
    if is_operand_instr(instr) {
        popped(s, operand_pops(instr))
    } else if is_field_instr(instr) {
        if field_owner_fails(ty_args, res, instr) {
            s
        } else {
            popped(s, 1)
        }
    } else if is_struct_instr(instr) {
        struct_error_stack(s, ty_args, res, instr)
    } else if is_global_instr(instr) {
        popped(s, if instr is MoveTo || instr is MoveToGeneric { 2 } else { 1 })
    } else if is_vector_instr(instr) {
        match subst_result(res.single_type(vector_sig(instr), ty_args)) {
            Err(_) => s,
            Ok(ty) => vector_error_stack(s, ty, instr),
        }
    } else {
        s
    }
}

/// The type checks after an instruction has run (control transfers never
/// reach them).
pub fn post_execution_type_stack_transition(
    stack: &mut TypeStack,
    local_tys: &Vec<MoveType>,
    ty_args: &Vec<MoveType>,
    resolver: &Resolver,
    instr: &Bytecode,
) -> (r: Result<(), CheckError>)
    requires
        !is_control_transfer(*instr),
        indices_in_range(*instr, local_tys@.len() as int, resolver),
    ensures
        outcome(r, final(stack)@, post_transition(old(stack)@, type_views(local_tys@), type_views(ty_args@), resolver, *instr)),
        r is Err ==> final(stack)@ == post_error_stack(old(stack)@, type_views(ty_args@), resolver, *instr),
{
    proof {
        lemma_type_views(local_tys@);
    }
    if is_operand(instr) {
        post_operand(stack, instr)
    } else if is_local(instr) {
        post_local(stack, local_tys, instr)
    } else if is_field(instr) {
        post_field(stack, ty_args, resolver, instr)
    } else if is_struct(instr) {
        post_struct(stack, ty_args, resolver, instr)
    } else if is_global(instr) {
        post_global(stack, ty_args, resolver, instr)
    } else if is_vector(instr) {
        post_vector(stack, ty_args, resolver, instr)
    } else {
        match instr {
            Bytecode::LdConst(i) => post_const(stack, resolver, *i),
            _ => Ok(()),
        }
    }
}

fn is_operand(instr: &Bytecode) -> (r: bool)
    ensures r == is_operand_instr(*instr),
{
    match instr {
        Bytecode::BrTrue(_) | Bytecode::BrFalse(_) | Bytecode::StLoc(_) | Bytecode::Nop | Bytecode::Pop
        | Bytecode::LdU8(_) | Bytecode::LdU16(_) | Bytecode::LdU32(_) | Bytecode::LdU64(_)
        | Bytecode::LdU128(_) | Bytecode::LdU256(_, _) | Bytecode::LdTrue | Bytecode::LdFalse
        | Bytecode::CastU8 | Bytecode::CastU16 | Bytecode::CastU32 | Bytecode::CastU64
        | Bytecode::CastU128 | Bytecode::CastU256 | Bytecode::Add | Bytecode::Sub | Bytecode::Mul
        | Bytecode::Mod | Bytecode::Div | Bytecode::BitOr | Bytecode::BitAnd | Bytecode::Xor
        | Bytecode::Or | Bytecode::And | Bytecode::Shl | Bytecode::Shr | Bytecode::Lt | Bytecode::Le
        | Bytecode::Gt | Bytecode::Ge | Bytecode::Eq | Bytecode::Neq | Bytecode::Not
        | Bytecode::FreezeRef | Bytecode::ReadRef | Bytecode::WriteRef => true,
        _ => false,
    }
}

fn is_local(instr: &Bytecode) -> (r: bool)
    ensures r == is_local_instr(*instr),
{
    match instr {
        Bytecode::CopyLoc(_) | Bytecode::MoveLoc(_) | Bytecode::MutBorrowLoc(_) | Bytecode::ImmBorrowLoc(_) => true,
        _ => false,
    }
}

fn is_field(instr: &Bytecode) -> (r: bool)
    ensures r == is_field_instr(*instr),
{
    match instr {
        Bytecode::ImmBorrowField(_) | Bytecode::MutBorrowField(_) | Bytecode::ImmBorrowFieldGeneric(_)
        | Bytecode::MutBorrowFieldGeneric(_) => true,
        _ => false,
    }
}

fn is_struct(instr: &Bytecode) -> (r: bool)
    ensures r == is_struct_instr(*instr),
{
    match instr {
        Bytecode::Pack(_) | Bytecode::PackGeneric(_) | Bytecode::Unpack(_) | Bytecode::UnpackGeneric(_) => true,
        _ => false,
    }
}

fn is_global(instr: &Bytecode) -> (r: bool)
    ensures r == is_global_instr(*instr),
{
    match instr {
        Bytecode::MutBorrowGlobal(_) | Bytecode::ImmBorrowGlobal(_) | Bytecode::MutBorrowGlobalGeneric(_)
        | Bytecode::ImmBorrowGlobalGeneric(_) | Bytecode::Exists(_) | Bytecode::ExistsGeneric(_)
        | Bytecode::MoveTo(_) | Bytecode::MoveToGeneric(_) | Bytecode::MoveFrom(_)
        | Bytecode::MoveFromGeneric(_) => true,
        _ => false,
    }
}

fn is_vector(instr: &Bytecode) -> (r: bool)
    ensures r == is_vector_instr(*instr),
{
    match instr {
        Bytecode::VecPack(_, _) | Bytecode::VecLen(_) | Bytecode::VecImmBorrow(_) | Bytecode::VecMutBorrow(_)
        | Bytecode::VecPushBack(_) | Bytecode::VecPopBack(_) | Bytecode::VecUnpack(_, _) | Bytecode::VecSwap(_) => true,
        _ => false,
    }
}

// ---------------------------------------------------------------------------
// The transition before an instruction runs
// ---------------------------------------------------------------------------

/// Checks, from local `i` on, that each local still holding a value can be
/// dropped; `live[i]` tells whether local `i` holds a value.
pub open spec fn ret_check(locals: Seq<TypeView>, live: Seq<bool>, i: int) -> Result<(), CheckError>
    decreases locals.len() - i,
{
    if i < 0 || i >= locals.len() {
        Ok(())
    } else if i >= live.len() {
        Err(CheckError::LocalOutOfRange)
    } else if live[i] {
        match need_ability(locals[i], Ability::Drop) {
            Err(e) => Err(e),
            Ok(_) => ret_check(locals, live, i + 1),
        }
    } else {
        ret_check(locals, live, i + 1)
    }
}

/// The type stack before an instruction runs: branches on a condition and
/// aborts consume their operand, `StLoc` consumes the stored value (which
/// must have the local's type, and the overwritten value must be droppable),
/// and `Ret` needs every live local to be droppable.
pub open spec fn pre_transition(s: Seq<TypeView>, locals: Seq<TypeView>, live: Seq<bool>, instr: Bytecode) -> Result<Seq<TypeView>, CheckError> {
    match instr {
        Bytecode::BrFalse(_) | Bytecode::BrTrue(_) | Bytecode::Abort => if s.len() == 0 {
            Err(CheckError::StackUnderflow)
        } else {
            Ok(below(s, 1))
        },
        Bytecode::Ret => match ret_check(locals, live, 0) {
            Err(e) => Err(e),
            Ok(_) => Ok(s),
        },
        Bytecode::StLoc(i) => {
            if s.len() == 0 {
                Err(CheckError::StackUnderflow)
            } else if locals[i as int] != top(s, 0) {
                Err(CheckError::TypeMismatch)
            } else if (i as int) >= live.len() {
                Err(CheckError::LocalOutOfRange)
            } else if live[i as int] {
                match need_ability(locals[i as int], Ability::Drop) {
                    Err(e) => Err(e),
                    Ok(_) => Ok(below(s, 1)),
                }
            } else {
                Ok(below(s, 1))
            }
        },
        _ => Ok(s),
    }
}

/// The type stack after the checks before an instruction, whether they pass
/// or fail: a branch on a condition, an abort and a store take the top type
/// off a non-empty stack; every other instruction leaves the stack as it is.
pub open spec fn pre_stack(s: Seq<TypeView>, instr: Bytecode) -> Seq<TypeView> {
    match instr {
        Bytecode::BrFalse(_) | Bytecode::BrTrue(_) | Bytecode::Abort | Bytecode::StLoc(_) => if s.len() == 0 {
            s
        } else {
            below(s, 1)
        },
        _ => s,
    }
}

fn is_invalid(live: &Vec<bool>, idx: usize) -> (r: Result<bool, CheckError>)
    ensures
        r == (if idx < live@.len() { Ok::<bool, CheckError>(!live@[idx as int]) } else { Err(CheckError::LocalOutOfRange) }),
{
    if idx < live.len() {
        Ok(!live[idx])
    } else {
        Err(CheckError::LocalOutOfRange)
    }
}

/// The type checks before an instruction runs; `live` tells which locals
/// hold a value.
pub fn pre_execution_type_stack_transition(
    stack: &mut TypeStack,
    local_tys: &Vec<MoveType>,
    live: &Vec<bool>,
    instr: &Bytecode,
) -> (r: Result<(), CheckError>)
    requires
        match *instr {
            Bytecode::StLoc(i) => (i as int) < local_tys@.len(),
            _ => true,
        },
    ensures
        outcome(r, final(stack)@, pre_transition(old(stack)@, type_views(local_tys@), live@, *instr)),
        final(stack)@ == pre_stack(old(stack)@, *instr),
{
    proof {
        lemma_type_views(local_tys@);
    }
    match instr {
        Bytecode::BrFalse(_) | Bytecode::BrTrue(_) | Bytecode::Abort => {
            stack.pop_ty()?;
            Ok(())
        },
        Bytecode::Ret => {
            let ghost l = type_views(local_tys@);
            let mut idx: usize = 0;
            while idx < local_tys.len()
                invariant
                    idx <= local_tys.len(),
                    *instr == Bytecode::Ret,
                    stack@ == old(stack)@,
                    l == type_views(local_tys@),
                    l.len() == local_tys@.len(),
                    forall|j: int| 0 <= j < local_tys@.len() ==> #[trigger] l[j] == local_tys@[j]@,
                    ret_check(l, live@, 0) == ret_check(l, live@, idx as int),
                decreases local_tys.len() - idx,
            {
                if !is_invalid(live, idx)? {
                    require_ability(&local_tys[idx], Ability::Drop)?;
                }
                idx = idx + 1;
            }
            Ok(())
        },
        Bytecode::StLoc(i) => {
            let ty = &local_tys[*i as usize];
            let val_ty = stack.pop_ty()?;
            check_eq(ty, &val_ty)?;
            if !is_invalid(live, *i as usize)? {
                require_ability(ty, Ability::Drop)?;
            }
            Ok(())
        },
        _ => Ok(()),
    }
}


// ---------------------------------------------------------------------------
// Functions
// ---------------------------------------------------------------------------

/// The module a function belongs to.
pub struct ModuleId {
    pub address: Vec<u8>,
    pub name: String,
}

/// What the checker reads of a loaded function.
pub struct Function {
    pub name: String,
    /// The function's index in its module.
    pub index: u16,
    /// The module that defines the function; `None` for a function outside
    /// any module.
    pub module: Option<ModuleId>,
    pub is_native: bool,
    pub is_friend_or_private: bool,
    pub parameter_types: Vec<MoveType>,
    /// The types of all locals, the parameters first.
    pub local_types: Vec<MoveType>,
    pub return_types: Vec<MoveType>,
}

impl Function {
    pub open spec fn params(&self) -> Seq<TypeView> {
        type_views(self.parameter_types@)
    }

    pub open spec fn locals(&self) -> Seq<TypeView> {
        type_views(self.local_types@)
    }

    pub open spec fn return_tys(&self) -> Seq<TypeView> {
        type_views(self.return_types@)
    }

    /// The function's arguments are its leading locals.
    pub open spec fn wf(&self) -> bool {
        self.parameter_types@.len() <= self.local_types@.len()
    }
}

/// Whether a call from `caller` to `callee` respects visibility: a private
/// or friend function may only be called from a module at the same address.
pub open spec fn call_visibility(caller: &Function, callee: &Function) -> Result<(), CheckError> {
    if !callee.is_friend_or_private {
        Ok(())
    } else {
        match (caller.module, callee.module) {
            (Some(a), Some(b)) => if a.address@ == b.address@ {
                Ok(())
            } else {
                Err(CheckError::PrivateCallAcrossAddresses)
            },
            _ => Err(CheckError::PrivateCallOutsideModule),
        }
    }
}

pub fn check_friend_or_private_call(caller: &Function, callee: &Function) -> (r: Result<(), CheckError>)
    ensures r == call_visibility(caller, callee),
{
    if callee.is_friend_or_private {
        match (&caller.module, &callee.module) {
            (Some(caller_id), Some(callee_id)) => {
                if bytes_equal(&caller_id.address, &callee_id.address) {
                    Ok(())
                } else {
                    Err(CheckError::PrivateCallAcrossAddresses)
                }
            },
            _ => Err(CheckError::PrivateCallOutsideModule),
        }
    } else {
        Ok(())
    }
}

/// The local types of `f` with its type arguments substituted, left as they
/// are when there are none.
pub open spec fn local_types_spec(f: &Function, ty_args: Seq<TypeView>) -> Option<Seq<TypeView>> {
    if ty_args.len() == 0 {
        Some(f.locals())
    } else {
        subst_all(f.locals(), ty_args)
    }
}

pub fn get_local_types(function: &Function, ty_args: &Vec<MoveType>) -> (r: Result<Vec<MoveType>, CheckError>)
    ensures
        match local_types_spec(function, type_views(ty_args@)) {
            Some(l) => r is Ok && type_views(r->Ok_0@) == l,
            None => r is Err && r->Err_0 == CheckError::SubstitutionFailed,
        },
{
    proof {
        lemma_type_views(ty_args@);
    }
    if ty_args.len() == 0 {
        Ok(clone_types(&function.local_types))
    } else {
        match subst_vec(&function.local_types, ty_args) {
            Some(v) => Ok(v),
            None => Err(CheckError::SubstitutionFailed),
        }
    }
}

/// Pops the `n - i` arguments still to check, the last argument first,
/// checking each against the corresponding local type (substituted when the
/// function is generic).
pub open spec fn check_locals_spec(s: Seq<TypeView>, locals: Seq<TypeView>, ty_args: Seq<TypeView>, n: int, i: int) -> Result<Seq<TypeView>, CheckError>
    decreases n - i,
{
    if i < 0 || i >= n {
        Ok(s)
    } else if s.len() == 0 {
        Err(CheckError::StackUnderflow)
    } else {
        let expected = if ty_args.len() == 0 { Some(locals[n - i - 1]) } else { type_subst(locals[n - i - 1], ty_args) };
        match expected {
            None => Err(CheckError::SubstitutionFailed),
            Some(e) => if top(s, 0) != e {
                Err(CheckError::TypeMismatch)
            } else {
                check_locals_spec(below(s, 1), locals, ty_args, n, i + 1)
            },
        }
    }
}

/// The stack [`check_locals_spec`] leaves, whether the checks pass or fail:
/// each argument is popped before it is checked.
pub open spec fn check_locals_stack(s: Seq<TypeView>, locals: Seq<TypeView>, ty_args: Seq<TypeView>, n: int, i: int) -> Seq<TypeView>
    decreases n - i,
{
    if i < 0 || i >= n || s.len() == 0 {
        s
    } else {
        let expected = if ty_args.len() == 0 { Some(locals[n - i - 1]) } else { type_subst(locals[n - i - 1], ty_args) };
        match expected {
            None => below(s, 1),
            Some(e) => if top(s, 0) != e {
                below(s, 1)
            } else {
                check_locals_stack(below(s, 1), locals, ty_args, n, i + 1)
            },
        }
    }
}

pub fn check_local_types(stack: &mut TypeStack, function: &Function, ty_args: &Vec<MoveType>) -> (r: Result<(), CheckError>)
    requires function.wf(),
    ensures
        outcome(r, final(stack)@, check_locals_spec(old(stack)@, function.locals(), type_views(ty_args@), function.parameter_types@.len() as int, 0)),
        final(stack)@ == check_locals_stack(old(stack)@, function.locals(), type_views(ty_args@), function.parameter_types@.len() as int, 0),
{
    let arg_count = function.parameter_types.len();
    let is_generic = ty_args.len() > 0;
    let ghost l = function.locals();
    let ghost t = type_views(ty_args@);
    proof {
        lemma_type_views(function.local_types@);
        lemma_type_views(ty_args@);
    }
    let mut i: usize = 0;
    while i < arg_count
        invariant
            i <= arg_count,
            arg_count == function.parameter_types@.len(),
            arg_count <= function.local_types@.len(),
            l == function.locals(),
            t == type_views(ty_args@),
            is_generic == (t.len() > 0),
            l.len() == function.local_types@.len(),
            forall|j: int| 0 <= j < function.local_types@.len() ==> #[trigger] l[j] == function.local_types@[j]@,
            check_locals_spec(old(stack)@, l, t, arg_count as int, 0) == check_locals_spec(stack@, l, t, arg_count as int, i as int),
            check_locals_stack(old(stack)@, l, t, arg_count as int, 0) == check_locals_stack(stack@, l, t, arg_count as int, i as int),
        decreases arg_count - i,
    {
        let ty = stack.pop_ty()?;
        let expected = if is_generic {
            subst_or_error(subst(&function.local_types[arg_count - i - 1], ty_args))?
        } else {
            clone_type(&function.local_types[arg_count - i - 1])
        };
        check_eq(&ty, &expected)?;
        i = i + 1;
    }
    Ok(())
}

/// Checks the `n - i` parameters still to check against the operands, the
/// last parameter first; each parameter type is substituted before its
/// operand is popped.
pub open spec fn check_params_spec(s: Seq<TypeView>, params: Seq<TypeView>, ty_args: Seq<TypeView>, n: int, i: int) -> Result<Seq<TypeView>, CheckError>
    decreases n - i,
{
    if i < 0 || i >= n {
        Ok(s)
    } else {
        match type_subst(params[n - i - 1], ty_args) {
            None => Err(CheckError::SubstitutionFailed),
            Some(e) => if s.len() == 0 {
                Err(CheckError::StackUnderflow)
            } else if top(s, 0) != e {
                Err(CheckError::TypeMismatch)
            } else {
                check_params_spec(below(s, 1), params, ty_args, n, i + 1)
            },
        }
    }
}

/// The stack [`check_params_spec`] leaves, whether the checks pass or fail:
/// each parameter type is substituted, then its argument popped and checked.
pub open spec fn check_params_stack(s: Seq<TypeView>, params: Seq<TypeView>, ty_args: Seq<TypeView>, n: int, i: int) -> Seq<TypeView>
    decreases n - i,
{
    if i < 0 || i >= n {
        s
    } else {
        match type_subst(params[n - i - 1], ty_args) {
            None => s,
            Some(e) => if s.len() == 0 {
                s
            } else if top(s, 0) != e {
                below(s, 1)
            } else {
                check_params_stack(below(s, 1), params, ty_args, n, i + 1)
            },
        }
    }
}

pub fn check_parameter_types(stack: &mut TypeStack, function: &Function, ty_args: &Vec<MoveType>) -> (r: Result<(), CheckError>)
    ensures
        outcome(r, final(stack)@, check_params_spec(old(stack)@, function.params(), type_views(ty_args@), function.parameter_types@.len() as int, 0)),
        final(stack)@ == check_params_stack(old(stack)@, function.params(), type_views(ty_args@), function.parameter_types@.len() as int, 0),
{
    let expected_args = function.parameter_types.len();
    let ghost p = function.params();
    let ghost t = type_views(ty_args@);
    proof {
        lemma_type_views(function.parameter_types@);
    }
    let mut i: usize = 0;
    while i < expected_args
        invariant
            i <= expected_args,
            expected_args == function.parameter_types@.len(),
            p == function.params(),
            t == type_views(ty_args@),
            p.len() == function.parameter_types@.len(),
            forall|j: int| 0 <= j < function.parameter_types@.len() ==> #[trigger] p[j] == function.parameter_types@[j]@,
            check_params_spec(old(stack)@, p, t, expected_args as int, 0) == check_params_spec(stack@, p, t, expected_args as int, i as int),
            check_params_stack(old(stack)@, p, t, expected_args as int, 0) == check_params_stack(stack@, p, t, expected_args as int, i as int),
        decreases expected_args - i,
    {
        let expected_ty = subst_or_error(subst(&function.parameter_types[expected_args - i - 1], ty_args))?;
        let ty = stack.pop_ty()?;
        check_eq(&ty, &expected_ty)?;
        i = i + 1;
    }
    Ok(())
}

/// Pushes the types `tys[i..]`, each substituted (or left as it is, when
/// `subst_always` is false and there are no type arguments).
pub open spec fn push_types_spec(s: Seq<TypeView>, tys: Seq<TypeView>, ty_args: Seq<TypeView>, subst_always: bool, i: int) -> Result<Seq<TypeView>, CheckError>
    decreases tys.len() - i,
{
    if i < 0 || i >= tys.len() {
        Ok(s)
    } else {
        let t = if !subst_always && ty_args.len() == 0 { Some(tys[i]) } else { type_subst(tys[i], ty_args) };
        match t {
            None => Err(CheckError::SubstitutionFailed),
            Some(x) => match push_spec(s, x) {
                Err(e) => Err(e),
                Ok(s2) => push_types_spec(s2, tys, ty_args, subst_always, i + 1),
            },
        }
    }
}

/// The stack [`push_types_spec`] leaves, whether the pushes succeed or fail:
/// the types pushed before a substitution fails or the stack is full stay.
pub open spec fn push_types_stack(s: Seq<TypeView>, tys: Seq<TypeView>, ty_args: Seq<TypeView>, subst_always: bool, i: int) -> Seq<TypeView>
    decreases tys.len() - i,
{
    if i < 0 || i >= tys.len() {
        s
    } else {
        let t = if !subst_always && ty_args.len() == 0 { Some(tys[i]) } else { type_subst(tys[i], ty_args) };
        match t {
            None => s,
            Some(x) => if s.len() >= OPERAND_STACK_SIZE_LIMIT {
                s
            } else {
                push_types_stack(s.push(x), tys, ty_args, subst_always, i + 1)
            },
        }
    }
}

fn push_types(stack: &mut TypeStack, tys: &Vec<MoveType>, ty_args: &Vec<MoveType>, subst_always: bool) -> (r: Result<(), CheckError>)
    ensures
        outcome(r, final(stack)@, push_types_spec(old(stack)@, type_views(tys@), type_views(ty_args@), subst_always, 0)),
        final(stack)@ == push_types_stack(old(stack)@, type_views(tys@), type_views(ty_args@), subst_always, 0),
{
    let ghost v = type_views(tys@);
    let ghost t = type_views(ty_args@);
    proof {
        lemma_type_views(tys@);
        lemma_type_views(ty_args@);
    }
    let mut i: usize = 0;
    while i < tys.len()
        invariant
            i <= tys.len(),
            v == type_views(tys@),
            t == type_views(ty_args@),
            t.len() == ty_args@.len(),
            v.len() == tys@.len(),
            forall|j: int| 0 <= j < tys@.len() ==> #[trigger] v[j] == tys@[j]@,
            push_types_spec(old(stack)@, v, t, subst_always, 0) == push_types_spec(stack@, v, t, subst_always, i as int),
            push_types_stack(old(stack)@, v, t, subst_always, 0) == push_types_stack(stack@, v, t, subst_always, i as int),
        decreases tys.len() - i,
    {
        let ty = if !subst_always && ty_args.len() == 0 {
            clone_type(&tys[i])
        } else {
            subst_or_error(subst(&tys[i], ty_args))?
        };
        stack.push_ty(ty)?;
        i = i + 1;
    }
    Ok(())
}

/// Pushes the return types of a native function, substituted.
pub fn push_return_types(stack: &mut TypeStack, function: &Function, ty_args: &Vec<MoveType>) -> (r: Result<(), CheckError>)
    ensures
        outcome(r, final(stack)@, push_types_spec(old(stack)@, function.return_tys(), type_views(ty_args@), true, 0)),
        final(stack)@ == push_types_stack(old(stack)@, function.return_tys(), type_views(ty_args@), true, 0),
{
    push_types(stack, &function.return_types, ty_args, true)
}

/// Pushes the parameter types of an entry function, substituted when it is
/// generic.
pub fn push_parameter_types(stack: &mut TypeStack, function: &Function, ty_args: &Vec<MoveType>) -> (r: Result<(), CheckError>)
    ensures
        outcome(r, final(stack)@, push_types_spec(old(stack)@, function.params(), type_views(ty_args@), false, 0)),
        final(stack)@ == push_types_stack(old(stack)@, function.params(), type_views(ty_args@), false, 0),
{
    push_types(stack, &function.parameter_types, ty_args, false)
}

/// Calling a native function: its arguments are checked and replaced by its
/// results.
pub open spec fn native_spec(s: Seq<TypeView>, f: &Function, ty_args: Seq<TypeView>) -> Result<Seq<TypeView>, CheckError> {
    match check_params_spec(s, f.params(), ty_args, f.params().len() as int, 0) {
        Err(e) => Err(e),
        Ok(s2) => push_types_spec(s2, f.return_tys(), ty_args, true, 0),
    }
}

/// The stack a native call leaves, whether it passes or fails.
pub open spec fn native_stack(s: Seq<TypeView>, f: &Function, ty_args: Seq<TypeView>) -> Seq<TypeView> {
    match check_params_spec(s, f.params(), ty_args, f.params().len() as int, 0) {
        Err(_) => check_params_stack(s, f.params(), ty_args, f.params().len() as int, 0),
        Ok(s2) => push_types_stack(s2, f.return_tys(), ty_args, true, 0),
    }
}

pub fn native_function(stack: &mut TypeStack, function: &Function, ty_args: &Vec<MoveType>) -> (r: Result<(), CheckError>)
    ensures
        outcome(r, final(stack)@, native_spec(old(stack)@, function, type_views(ty_args@))),
        final(stack)@ == native_stack(old(stack)@, function, type_views(ty_args@)),
{
    proof {
        lemma_type_views(function.parameter_types@);
    }
    check_parameter_types(stack, function, ty_args)?;
    push_return_types(stack, function, ty_args)
}

/// Calling a function with a body: its arguments are checked against its
/// leading locals, and its local types must be computable.
pub open spec fn non_native_spec(s: Seq<TypeView>, f: &Function, ty_args: Seq<TypeView>) -> Result<Seq<TypeView>, CheckError> {
    match check_locals_spec(s, f.locals(), ty_args, f.parameter_types@.len() as int, 0) {
        Err(e) => Err(e),
        Ok(s2) => match local_types_spec(f, ty_args) {
            None => Err(CheckError::SubstitutionFailed),
            Some(_) => Ok(s2),
        },
    }
}

pub fn non_native_function(stack: &mut TypeStack, function: &Function, ty_args: &Vec<MoveType>) -> (r: Result<(), CheckError>)
    requires function.wf(),
    ensures
        outcome(r, final(stack)@, non_native_spec(old(stack)@, function, type_views(ty_args@))),
        final(stack)@ == check_locals_stack(old(stack)@, function.locals(), type_views(ty_args@), function.parameter_types@.len() as int, 0),
{
    check_local_types(stack, function, ty_args)?;
    get_local_types(function, ty_args)?;
    Ok(())
}

/// A native function's failure, reported as an invariant violation when the
/// function is not in a module.
pub open spec fn native_error(f: &Function, e: CheckError) -> CheckError {
    if f.module is Some { e } else { CheckError::NativeOutsideModule }
}

/// The checks when the interpreter enters its entry function: a native entry
/// function gets its parameter types pushed and is then checked as a call.
pub open spec fn entrypoint_spec(s: Seq<TypeView>, f: &Function, ty_args: Seq<TypeView>) -> Result<Seq<TypeView>, CheckError> {
    if !f.is_native {
        Ok(s)
    } else {
        match push_types_spec(s, f.params(), ty_args, false, 0) {
            Err(e) => Err(e),
            Ok(s2) => match native_spec(s2, f, ty_args) {
                Err(e) => Err(native_error(f, e)),
                Ok(s3) => Ok(s3),
            },
        }
    }
}

/// The stack the checks on entering the entry function leave, whether they
/// pass or fail.
pub open spec fn entrypoint_stack(s: Seq<TypeView>, f: &Function, ty_args: Seq<TypeView>) -> Seq<TypeView> {
    if !f.is_native {
        s
    } else {
        match push_types_spec(s, f.params(), ty_args, false, 0) {
            Err(_) => push_types_stack(s, f.params(), ty_args, false, 0),
            Ok(s2) => native_stack(s2, f, ty_args),
        }
    }
}

/// The stack the checks on a call leave, whether they pass or fail.
pub open spec fn call_stack(s: Seq<TypeView>, caller: &Function, f: &Function, ty_args: Seq<TypeView>) -> Seq<TypeView> {
    match call_visibility(caller, f) {
        Err(_) => s,
        Ok(_) => if f.is_native {
            native_stack(s, f, ty_args)
        } else {
            check_locals_stack(s, f.locals(), ty_args, f.parameter_types@.len() as int, 0)
        },
    }
}

/// The checks when the interpreter calls `function` from `caller`.
pub open spec fn call_spec(s: Seq<TypeView>, caller: &Function, f: &Function, ty_args: Seq<TypeView>) -> Result<Seq<TypeView>, CheckError> {
    match call_visibility(caller, f) {
        Err(e) => Err(e),
        Ok(_) => if f.is_native {
            match native_spec(s, f, ty_args) {
                Err(e) => Err(native_error(f, e)),
                Ok(s2) => Ok(s2),
            }
        } else {
            non_native_spec(s, f, ty_args)
        },
    }
}

/// The outcome of executing one instruction, as the interpreter reports it.
#[derive(Clone, Copy, Debug, PartialEq, Eq, Structural)]
pub enum InstrRet {
    Normal,
    ExitCode,
    Branch,
}

impl ParanoidTypeChecker {
    pub fn pre_hook_entrypoint(stack: &mut TypeStack, function: &Function, ty_args: &Vec<MoveType>) -> (r: Result<(), CheckError>)
        ensures
            outcome(r, final(stack)@, entrypoint_spec(old(stack)@, function, type_views(ty_args@))),
            final(stack)@ == entrypoint_stack(old(stack)@, function, type_views(ty_args@)),
    {
        if function.is_native {
            push_parameter_types(stack, function, ty_args)?;
            match native_function(stack, function, ty_args) {
                Ok(()) => Ok(()),
                Err(e) => match &function.module {
                    Some(_) => Err(e),
                    None => Err(CheckError::NativeOutsideModule),
                },
            }
        } else {
            Ok(())
        }
    }

    pub fn pre_hook_fn(stack: &mut TypeStack, caller: &Function, function: &Function, ty_args: &Vec<MoveType>) -> (r: Result<(), CheckError>)
        requires function.wf(),
        ensures
            outcome(r, final(stack)@, call_spec(old(stack)@, caller, function, type_views(ty_args@))),
            final(stack)@ == call_stack(old(stack)@, caller, function, type_views(ty_args@)),
    {
        check_friend_or_private_call(caller, function)?;
        if function.is_native {
            match native_function(stack, function, ty_args) {
                Ok(()) => Ok(()),
                Err(e) => match &function.module {
                    Some(_) => Err(e),
                    None => Err(CheckError::NativeOutsideModule),
                },
            }
        } else {
            non_native_function(stack, function, ty_args)
        }
    }

    /// Nothing is checked when a function returns.
    pub fn post_hook_fn(function: &Function) {
    }

    /// The checks before `instruction` runs in `function`: the type stack is
    /// as high as the operand stack, and then [`pre_transition`].
    pub fn pre_hook_instr(
        stack: &mut TypeStack,
        operand_stack_len: usize,
        function: &Function,
        instruction: &Bytecode,
        live: &Vec<bool>,
        ty_args: &Vec<MoveType>,
    ) -> (r: Result<(), CheckError>)
        requires
            match *instruction {
                Bytecode::StLoc(i) => (i as int) < function.local_types@.len(),
                _ => true,
            },
        ensures
            match local_types_spec(function, type_views(ty_args@)) {
                None => r == Err::<(), CheckError>(CheckError::SubstitutionFailed),
                Some(l) => if old(stack)@.len() != operand_stack_len {
                    r == Err::<(), CheckError>(CheckError::Unbalanced)
                } else {
                    outcome(r, final(stack)@, pre_transition(old(stack)@, l, live@, *instruction))
                },
            },
            final(stack)@ == (if local_types_spec(function, type_views(ty_args@)) is Some && old(stack)@.len()
                == operand_stack_len {
                pre_stack(old(stack)@, *instruction)
            } else {
                old(stack)@
            }),
    {
        let local_tys = get_local_types(function, ty_args)?;
        proof {
            lemma_type_views(local_tys@);
            lemma_type_views(function.local_types@);
            crate::move_types::lemma_subst_all_len(function.locals(), type_views(ty_args@));
        }
        stack.check_balance(operand_stack_len)?;
        pre_execution_type_stack_transition(stack, &local_tys, live, instruction)
    }

    /// The checks after `instruction` ran in `function`: when it completed
    /// normally, [`post_transition`] and then the type stack must be as high
    /// as the operand stack.
    pub fn post_hook_instr(
        stack: &mut TypeStack,
        operand_stack_len: usize,
        function: &Function,
        instruction: &Bytecode,
        ty_args: &Vec<MoveType>,
        resolver: &Resolver,
        ret: InstrRet,
    ) -> (r: Result<(), CheckError>)
        requires
            ret == InstrRet::Normal ==> !is_control_transfer(*instruction),
            indices_in_range(*instruction, function.local_types@.len() as int, resolver),
        ensures
            match local_types_spec(function, type_views(ty_args@)) {
                None => r == Err::<(), CheckError>(CheckError::SubstitutionFailed) && final(stack)@ == old(stack)@,
                Some(l) => if ret != InstrRet::Normal {
                    r is Ok && final(stack)@ == old(stack)@
                } else {
                    match post_transition(old(stack)@, l, type_views(ty_args@), resolver, *instruction) {
                        Err(e) => r == Err::<(), CheckError>(e) && final(stack)@ == post_error_stack(
                            old(stack)@,
                            type_views(ty_args@),
                            resolver,
                            *instruction,
                        ),
                        Ok(s2) => if s2.len() == operand_stack_len {
                            r is Ok && final(stack)@ == s2
                        } else {
                            r == Err::<(), CheckError>(CheckError::Unbalanced) && final(stack)@ == s2
                        },
                    }
                },
            },
    {
        let local_tys = get_local_types(function, ty_args)?;
        proof {
            lemma_type_views(local_tys@);
            lemma_type_views(function.local_types@);
            crate::move_types::lemma_subst_all_len(function.locals(), type_views(ty_args@));
        }
        if ret == InstrRet::Normal {
            post_execution_type_stack_transition(stack, &local_tys, ty_args, resolver, instruction)?;
            stack.check_balance(operand_stack_len)?;
        }
        Ok(())
    }
}

} // verus!
