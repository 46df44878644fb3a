//! Properties of the paranoid type checker that relate several instructions.
use vstd::prelude::*;

use crate::bytecode::Bytecode;
use crate::move_types::{type_abilities, AbilitySet, TypeView};
use crate::paranoid::{call_visibility, check_fields, copies, post_transition, pre_transition, Function};
use crate::resolver::Resolver;
use crate::type_stack::{below, CheckError, OPERAND_STACK_SIZE_LIMIT};

verus! {

/// Loading an integer literal and popping it leaves the type stack as it
/// was.
pub proof fn law_load_then_pop(s: Seq<TypeView>, locals: Seq<TypeView>, ty_args: Seq<TypeView>, res: &Resolver, v: u64)
    requires
        s.len() < OPERAND_STACK_SIZE_LIMIT,
    ensures
        post_transition(s, locals, ty_args, res, Bytecode::LdU64(v)) == Ok::<Seq<TypeView>, CheckError>(s.push(TypeView::U64)),
        post_transition(s.push(TypeView::U64), locals, ty_args, res, Bytecode::Pop) == Ok::<Seq<TypeView>, CheckError>(s),
{
    assert(below(s.push(TypeView::U64), 1) =~= s);
}

/// Borrowing a local mutably and then freezing the reference has the same
/// effect on the type stack as borrowing it immutably.
pub proof fn law_freeze_mut_borrow(s: Seq<TypeView>, locals: Seq<TypeView>, ty_args: Seq<TypeView>, res: &Resolver, i: u8)
    requires
        s.len() < OPERAND_STACK_SIZE_LIMIT,
        (i as int) < locals.len(),
    ensures
        post_transition(s, locals, ty_args, res, Bytecode::MutBorrowLoc(i)) matches Ok(s1)
            && post_transition(s1, locals, ty_args, res, Bytecode::FreezeRef)
                == post_transition(s, locals, ty_args, res, Bytecode::ImmBorrowLoc(i)),
{
    let s1 = s.push(TypeView::MutableReference(Box::new(locals[i as int])));
    assert(below(s1, 1) =~= s);
}

/// Fields that pass the checks of `Pack` are exactly the declared fields.
pub proof fn lemma_checked_fields_equal(popped: Seq<TypeView>, declared: Seq<TypeView>, needed: crate::move_types::AbilitySet, i: int)
    requires
        0 <= i <= popped.len(),
        popped.len() == declared.len(),
        check_fields(popped, declared, needed, i) is Ok,
    ensures
        forall|j: int| i <= j < popped.len() ==> popped[j] == declared[j],
    decreases popped.len() - i,
{
    if i < popped.len() {
        lemma_checked_fields_equal(popped, declared, needed, i + 1);
    }
}

/// Unpacking a struct that was just packed gives back the operands it was
/// packed from.
pub proof fn law_unpack_after_pack(s: Seq<TypeView>, locals: Seq<TypeView>, ty_args: Seq<TypeView>, res: &Resolver, idx: u16)
    requires
        s.len() <= OPERAND_STACK_SIZE_LIMIT,
        (idx as int) < res.structs@.len(),
    ensures
        post_transition(s, locals, ty_args, res, Bytecode::Pack(idx)) matches Ok(s1)
            ==> post_transition(s1, locals, ty_args, res, Bytecode::Unpack(idx)) == Ok::<Seq<TypeView>, CheckError>(s),
{
    if let Ok(s1) = post_transition(s, locals, ty_args, res, Bytecode::Pack(idx)) {
        let n = res.structs@[idx as int].field_count as int;
        let fields = res.struct_fields(idx);
        let a = type_abilities(res.struct_type(idx)).unwrap();
        let popped = s.subrange(s.len() - n, s.len() as int);
        lemma_checked_fields_equal(popped, fields, crate::paranoid::field_abilities(a), 0);
        assert(below(s1, 1) =~= below(s, n));
        assert(below(s, n) + fields =~= s);
    }
}

/// Unpacking a vector that was just packed from `n` operands gives back the
/// operands.
pub proof fn law_vec_unpack_after_pack(s: Seq<TypeView>, locals: Seq<TypeView>, ty_args: Seq<TypeView>, res: &Resolver, si: u16, n: u64)
    requires
        s.len() <= OPERAND_STACK_SIZE_LIMIT,
        n <= u16::MAX,
        (si as int) < res.signatures@.len(),
    ensures
        post_transition(s, locals, ty_args, res, Bytecode::VecPack(si, n)) matches Ok(s1)
            ==> post_transition(s1, locals, ty_args, res, Bytecode::VecUnpack(si, n)) == Ok::<Seq<TypeView>, CheckError>(s),
{
    if let Ok(s1) = post_transition(s, locals, ty_args, res, Bytecode::VecPack(si, n)) {
        let ty = res.single_type(si, ty_args).unwrap();
        assert((n as u16) as int == n as int);
        assert(below(s1, 1) =~= below(s, n as int));
        assert forall|j: int| s.len() - n <= j < s.len() implies #[trigger] s[j] == ty by {}
        assert(below(s, n as int) + copies(ty, n as nat) =~= s);
    }
}


/// No instruction takes the type stack beyond the operand stack limit.
#[verifier::rlimit(50)]
pub proof fn law_post_transition_within_limit(s: Seq<TypeView>, locals: Seq<TypeView>, ty_args: Seq<TypeView>, res: &Resolver, instr: Bytecode)
    requires
        s.len() <= OPERAND_STACK_SIZE_LIMIT,
    ensures
        post_transition(s, locals, ty_args, res, instr) matches Ok(s2) ==> s2.len() <= OPERAND_STACK_SIZE_LIMIT,
{
}

/// A shift pops the shift amount and the shifted value and pushes the
/// shifted value's type back: the result has the type of the operand under
/// the amount, whatever the amount's type.
pub proof fn law_shift_keeps_value_type(
    s: Seq<TypeView>,
    locals: Seq<TypeView>,
    ty_args: Seq<TypeView>,
    res: &Resolver,
    value: TypeView,
    amount: TypeView,
)
    requires
        s.len() < OPERAND_STACK_SIZE_LIMIT,
    ensures
        post_transition(s.push(value).push(amount), locals, ty_args, res, Bytecode::Shl) == Ok::<Seq<TypeView>, CheckError>(
            s.push(value),
        ),
        post_transition(s.push(value).push(amount), locals, ty_args, res, Bytecode::Shr) == Ok::<Seq<TypeView>, CheckError>(
            s.push(value),
        ),
{
    assert(below(s.push(value).push(amount), 2) =~= s);
}

/// The binary arithmetic and bitwise instructions.
pub open spec fn is_binary_arith(instr: Bytecode) -> bool {
    instr is Add || instr is Sub || instr is Mul || instr is Mod || instr is Div || instr is BitOr || instr is BitAnd
        || instr is Xor || instr is Or || instr is And
}

/// The ordering comparisons.
pub open spec fn is_comparison(instr: Bytecode) -> bool {
    instr is Lt || instr is Le || instr is Gt || instr is Ge
}

/// Binary arithmetic takes two operands of one type and gives that type;
/// operands of two different types are refused.
pub proof fn law_binary_arith_types(
    s: Seq<TypeView>,
    locals: Seq<TypeView>,
    ty_args: Seq<TypeView>,
    res: &Resolver,
    instr: Bytecode,
    t: TypeView,
    u: TypeView,
)
    requires
        s.len() < OPERAND_STACK_SIZE_LIMIT,
        is_binary_arith(instr),
    ensures
        post_transition(s.push(t).push(t), locals, ty_args, res, instr) == Ok::<Seq<TypeView>, CheckError>(s.push(t)),
        t != u ==> post_transition(s.push(t).push(u), locals, ty_args, res, instr) == Err::<Seq<TypeView>, CheckError>(
            CheckError::TypeMismatch,
        ),
        post_transition(Seq::<TypeView>::empty().push(t), locals, ty_args, res, instr) == Err::<Seq<TypeView>, CheckError>(
            CheckError::StackUnderflow,
        ),
{
    assert(below(s.push(t).push(t), 2) =~= s);
}

/// A comparison takes two operands of one type and gives a boolean;
/// operands of two different types are refused.
pub proof fn law_comparison_types(
    s: Seq<TypeView>,
    locals: Seq<TypeView>,
    ty_args: Seq<TypeView>,
    res: &Resolver,
    instr: Bytecode,
    t: TypeView,
    u: TypeView,
)
    requires
        s.len() < OPERAND_STACK_SIZE_LIMIT,
        is_comparison(instr),
    ensures
        post_transition(s.push(t).push(t), locals, ty_args, res, instr) == Ok::<Seq<TypeView>, CheckError>(
            s.push(TypeView::Bool),
        ),
        t != u ==> post_transition(s.push(t).push(u), locals, ty_args, res, instr) == Err::<Seq<TypeView>, CheckError>(
            CheckError::TypeMismatch,
        ),
{
    assert(below(s.push(t).push(t), 2) =~= s);
}

/// Equality takes two operands of one type that can be dropped and gives a
/// boolean; operands of different types, or of a type without drop, are
/// refused.
pub proof fn law_equality_types(
    s: Seq<TypeView>,
    locals: Seq<TypeView>,
    ty_args: Seq<TypeView>,
    res: &Resolver,
    t: TypeView,
    u: TypeView,
)
    requires
        s.len() < OPERAND_STACK_SIZE_LIMIT,
    ensures
        (type_abilities(t) matches Some(a) && a.drop) ==> post_transition(s.push(t).push(t), locals, ty_args, res, Bytecode::Eq)
            == Ok::<Seq<TypeView>, CheckError>(s.push(TypeView::Bool)) && post_transition(
            s.push(t).push(t),
            locals,
            ty_args,
            res,
            Bytecode::Neq,
        ) == Ok::<Seq<TypeView>, CheckError>(s.push(TypeView::Bool)),
        (type_abilities(t) matches Some(a) && !a.drop) ==> post_transition(s.push(t).push(t), locals, ty_args, res, Bytecode::Eq)
            is Err,
        t != u ==> post_transition(s.push(t).push(u), locals, ty_args, res, Bytecode::Eq) == Err::<Seq<TypeView>, CheckError>(
            CheckError::EqualityTypeMismatch,
        ),
{
    assert(below(s.push(t).push(t), 2) =~= s);
}

/// A cast replaces its operand, of any type, with the target integer type.
pub proof fn law_casts(s: Seq<TypeView>, locals: Seq<TypeView>, ty_args: Seq<TypeView>, res: &Resolver, t: TypeView)
    requires
        s.len() < OPERAND_STACK_SIZE_LIMIT,
    ensures
        post_transition(s.push(t), locals, ty_args, res, Bytecode::CastU8) == Ok::<Seq<TypeView>, CheckError>(s.push(TypeView::U8)),
        post_transition(s.push(t), locals, ty_args, res, Bytecode::CastU16) == Ok::<Seq<TypeView>, CheckError>(s.push(TypeView::U16)),
        post_transition(s.push(t), locals, ty_args, res, Bytecode::CastU32) == Ok::<Seq<TypeView>, CheckError>(s.push(TypeView::U32)),
        post_transition(s.push(t), locals, ty_args, res, Bytecode::CastU64) == Ok::<Seq<TypeView>, CheckError>(s.push(TypeView::U64)),
        post_transition(s.push(t), locals, ty_args, res, Bytecode::CastU128) == Ok::<Seq<TypeView>, CheckError>(
            s.push(TypeView::U128),
        ),
        post_transition(s.push(t), locals, ty_args, res, Bytecode::CastU256) == Ok::<Seq<TypeView>, CheckError>(
            s.push(TypeView::U256),
        ),
{
    assert(below(s.push(t), 1) =~= s);
}

/// Each literal load pushes the literal's type; a full stack overflows.
pub proof fn law_loads(s: Seq<TypeView>, locals: Seq<TypeView>, ty_args: Seq<TypeView>, res: &Resolver)
    requires
        s.len() < OPERAND_STACK_SIZE_LIMIT,
    ensures
        post_transition(s, locals, ty_args, res, Bytecode::LdU8(0)) == Ok::<Seq<TypeView>, CheckError>(s.push(TypeView::U8)),
        post_transition(s, locals, ty_args, res, Bytecode::LdU16(0)) == Ok::<Seq<TypeView>, CheckError>(s.push(TypeView::U16)),
        post_transition(s, locals, ty_args, res, Bytecode::LdU32(0)) == Ok::<Seq<TypeView>, CheckError>(s.push(TypeView::U32)),
        post_transition(s, locals, ty_args, res, Bytecode::LdU128(0)) == Ok::<Seq<TypeView>, CheckError>(
            s.push(TypeView::U128),
        ),
        post_transition(s, locals, ty_args, res, Bytecode::LdU256(0, 0)) == Ok::<Seq<TypeView>, CheckError>(
            s.push(TypeView::U256),
        ),
        post_transition(s, locals, ty_args, res, Bytecode::LdTrue) == Ok::<Seq<TypeView>, CheckError>(s.push(TypeView::Bool)),
        post_transition(s, locals, ty_args, res, Bytecode::LdFalse) == Ok::<Seq<TypeView>, CheckError>(s.push(TypeView::Bool)),
{
}

/// `Not` takes a boolean and gives a boolean; anything else is refused.
pub proof fn law_not(s: Seq<TypeView>, locals: Seq<TypeView>, ty_args: Seq<TypeView>, res: &Resolver, t: TypeView)
    requires
        s.len() < OPERAND_STACK_SIZE_LIMIT,
    ensures
        post_transition(s.push(TypeView::Bool), locals, ty_args, res, Bytecode::Not) == Ok::<Seq<TypeView>, CheckError>(
            s.push(TypeView::Bool),
        ),
        t != TypeView::Bool ==> post_transition(s.push(t), locals, ty_args, res, Bytecode::Not) == Err::<Seq<TypeView>, CheckError>(
            CheckError::TypeMismatch,
        ),
{
    assert(below(s.push(TypeView::Bool), 1) =~= s);
}

/// `Pop` removes a value that can be dropped and refuses one that cannot.
pub proof fn law_pop(s: Seq<TypeView>, locals: Seq<TypeView>, ty_args: Seq<TypeView>, res: &Resolver, t: TypeView)
    ensures
        (type_abilities(t) matches Some(a) && a.drop) ==> post_transition(s.push(t), locals, ty_args, res, Bytecode::Pop)
            == Ok::<Seq<TypeView>, CheckError>(s),
        (type_abilities(t) matches Some(a) && !a.drop) ==> post_transition(s.push(t), locals, ty_args, res, Bytecode::Pop)
            == Err::<Seq<TypeView>, CheckError>(CheckError::AbilityViolation),
{
    assert(below(s.push(t), 1) =~= s);
}

/// References: freezing turns a mutable reference into a shared one of the
/// same type; reading through either kind gives the referenced type when it
/// can be copied; writing through a mutable reference consumes the reference
/// and a value of the referenced type that can be dropped.
pub proof fn law_references(s: Seq<TypeView>, locals: Seq<TypeView>, ty_args: Seq<TypeView>, res: &Resolver, t: TypeView)
    requires
        s.len() < OPERAND_STACK_SIZE_LIMIT,
    ensures
        post_transition(s.push(TypeView::MutableReference(Box::new(t))), locals, ty_args, res, Bytecode::FreezeRef)
            == Ok::<Seq<TypeView>, CheckError>(s.push(TypeView::Reference(Box::new(t)))),
        post_transition(s.push(TypeView::Reference(Box::new(t))), locals, ty_args, res, Bytecode::FreezeRef)
            == Err::<Seq<TypeView>, CheckError>(CheckError::FreezeRefNotMutableReference),
        (type_abilities(t) matches Some(a) && a.copy) ==> post_transition(
            s.push(TypeView::Reference(Box::new(t))),
            locals,
            ty_args,
            res,
            Bytecode::ReadRef,
        ) == Ok::<Seq<TypeView>, CheckError>(s.push(t)) && post_transition(
            s.push(TypeView::MutableReference(Box::new(t))),
            locals,
            ty_args,
            res,
            Bytecode::ReadRef,
        ) == Ok::<Seq<TypeView>, CheckError>(s.push(t)),
        (type_abilities(t) matches Some(a) && !a.copy) ==> post_transition(
            s.push(TypeView::Reference(Box::new(t))),
            locals,
            ty_args,
            res,
            Bytecode::ReadRef,
        ) == Err::<Seq<TypeView>, CheckError>(CheckError::AbilityViolation),
        (type_abilities(t) matches Some(a) && a.drop) ==> post_transition(
            s.push(t).push(TypeView::MutableReference(Box::new(t))),
            locals,
            ty_args,
            res,
            Bytecode::WriteRef,
        ) == Ok::<Seq<TypeView>, CheckError>(s),
        post_transition(s.push(t).push(TypeView::Reference(Box::new(t))), locals, ty_args, res, Bytecode::WriteRef)
            == Err::<Seq<TypeView>, CheckError>(CheckError::WriteRefNotMutableReference),
{
    assert(below(s.push(TypeView::MutableReference(Box::new(t))), 1) =~= s);
    assert(below(s.push(TypeView::Reference(Box::new(t))), 1) =~= s);
    assert(below(s.push(t).push(TypeView::MutableReference(Box::new(t))), 2) =~= s);
}

/// The local instructions push the local's type: a copy only of a type with
/// copy, a move of any type, and a borrow as a reference to it.
pub proof fn law_locals(s: Seq<TypeView>, locals: Seq<TypeView>, ty_args: Seq<TypeView>, res: &Resolver, i: u8)
    requires
        s.len() < OPERAND_STACK_SIZE_LIMIT,
        (i as int) < locals.len(),
    ensures
        post_transition(s, locals, ty_args, res, Bytecode::MoveLoc(i)) == Ok::<Seq<TypeView>, CheckError>(
            s.push(locals[i as int]),
        ),
        (type_abilities(locals[i as int]) matches Some(a) && a.copy) ==> post_transition(
            s,
            locals,
            ty_args,
            res,
            Bytecode::CopyLoc(i),
        ) == Ok::<Seq<TypeView>, CheckError>(s.push(locals[i as int])),
        (type_abilities(locals[i as int]) matches Some(a) && !a.copy) ==> post_transition(
            s,
            locals,
            ty_args,
            res,
            Bytecode::CopyLoc(i),
        ) == Err::<Seq<TypeView>, CheckError>(CheckError::AbilityViolation),
        post_transition(s, locals, ty_args, res, Bytecode::ImmBorrowLoc(i)) == Ok::<Seq<TypeView>, CheckError>(
            s.push(TypeView::Reference(Box::new(locals[i as int]))),
        ),
        post_transition(s, locals, ty_args, res, Bytecode::MutBorrowLoc(i)) == Ok::<Seq<TypeView>, CheckError>(
            s.push(TypeView::MutableReference(Box::new(locals[i as int]))),
        ),
{
}

/// A signer can be dropped but not copied, stored or kept in global storage.
pub proof fn law_signer_abilities()
    ensures
        type_abilities(TypeView::Signer) == Some(AbilitySet { copy: false, drop: true, store: false, key: false }),
{
}

/// Whether every local that still holds a value has a type that can be
/// dropped.
pub open spec fn live_locals_droppable(locals: Seq<TypeView>, live: Seq<bool>) -> bool {
    forall|i: int| 0 <= i < locals.len() && #[trigger] live[i] ==> (type_abilities(locals[i]) matches Some(a) && a.drop)
}

proof fn lemma_ret_check(locals: Seq<TypeView>, live: Seq<bool>, i: int)
    requires
        0 <= i <= locals.len(),
        live.len() >= locals.len(),
    ensures
        crate::paranoid::ret_check(locals, live, i) is Ok <==> forall|j: int| i <= j < locals.len() && #[trigger] live[j]
            ==> (type_abilities(locals[j]) matches Some(a) && a.drop),
    decreases locals.len() - i,
{
    if i < locals.len() {
        lemma_ret_check(locals, live, i + 1);
    }
}

/// Returning leaves the stack as it is, and succeeds exactly when every
/// local that still holds a value can be dropped.
pub proof fn law_ret_needs_droppable_locals(s: Seq<TypeView>, locals: Seq<TypeView>, live: Seq<bool>)
    requires
        live.len() >= locals.len(),
    ensures
        pre_transition(s, locals, live, Bytecode::Ret) is Ok <==> live_locals_droppable(locals, live),
        pre_transition(s, locals, live, Bytecode::Ret) is Ok ==> pre_transition(s, locals, live, Bytecode::Ret)
            == Ok::<Seq<TypeView>, CheckError>(s),
{
    lemma_ret_check(locals, live, 0);
}

/// Storing into a local consumes a value of the local's type; a value still
/// in the local must be droppable.
pub proof fn law_store_local(s: Seq<TypeView>, locals: Seq<TypeView>, live: Seq<bool>, i: u8, t: TypeView)
    requires
        (i as int) < locals.len(),
        (i as int) < live.len(),
    ensures
        t != locals[i as int] ==> pre_transition(s.push(t), locals, live, Bytecode::StLoc(i)) == Err::<Seq<TypeView>, CheckError>(
            CheckError::TypeMismatch,
        ),
        !live[i as int] ==> pre_transition(s.push(locals[i as int]), locals, live, Bytecode::StLoc(i))
            == Ok::<Seq<TypeView>, CheckError>(s),
        (live[i as int] && (type_abilities(locals[i as int]) matches Some(a) && a.drop)) ==> pre_transition(
            s.push(locals[i as int]),
            locals,
            live,
            Bytecode::StLoc(i),
        ) == Ok::<Seq<TypeView>, CheckError>(s),
        (live[i as int] && (type_abilities(locals[i as int]) matches Some(a) && !a.drop)) ==> pre_transition(
            s.push(locals[i as int]),
            locals,
            live,
            Bytecode::StLoc(i),
        ) == Err::<Seq<TypeView>, CheckError>(CheckError::AbilityViolation),
{
    assert(below(s.push(t), 1) =~= s);
    assert(below(s.push(locals[i as int]), 1) =~= s);
}

/// A branch on a condition and an abort consume the top operand.
pub proof fn law_branch_pops(s: Seq<TypeView>, locals: Seq<TypeView>, live: Seq<bool>, t: TypeView, off: u16)
    ensures
        pre_transition(s.push(t), locals, live, Bytecode::BrTrue(off)) == Ok::<Seq<TypeView>, CheckError>(s),
        pre_transition(s.push(t), locals, live, Bytecode::BrFalse(off)) == Ok::<Seq<TypeView>, CheckError>(s),
        pre_transition(s.push(t), locals, live, Bytecode::Abort) == Ok::<Seq<TypeView>, CheckError>(s),
{
    assert(below(s.push(t), 1) =~= s);
}

/// A call into a friend or private function is allowed exactly when the
/// caller's module is at the callee's address, whatever the modules' names;
/// a public callee can be called from anywhere, and a friend or private
/// callee not from outside a module.
pub proof fn law_call_visibility(caller: &Function, callee: &Function)
    ensures
        !callee.is_friend_or_private ==> call_visibility(caller, callee) is Ok,
        callee.is_friend_or_private && caller.module is Some && callee.module is Some ==> (call_visibility(caller, callee)
            is Ok <==> caller.module->Some_0.address@ == callee.module->Some_0.address@),
        callee.is_friend_or_private && caller.module is Some && callee.module is Some
            && caller.module->Some_0.address@ != callee.module->Some_0.address@ ==> call_visibility(caller, callee)
            == Err::<(), CheckError>(CheckError::PrivateCallAcrossAddresses),
        callee.is_friend_or_private && (caller.module is None || callee.module is None) ==> call_visibility(caller, callee)
            == Err::<(), CheckError>(CheckError::PrivateCallOutsideModule),
{
}

/// The vector instructions, for the element type `ty` their signature gives:
/// the length of a referenced vector is a `u64`; pushing consumes a mutable
/// vector reference and an element; popping gives an element; borrowing an
/// element by a `u64` index gives a reference to it; swapping consumes a
/// mutable vector reference and two `u64` indices; a shared reference is
/// refused where a mutable one is needed.
pub proof fn law_vector_ops(s: Seq<TypeView>, locals: Seq<TypeView>, ty_args: Seq<TypeView>, res: &Resolver, si: u16, ty: TypeView)
    requires
        s.len() < OPERAND_STACK_SIZE_LIMIT,
        res.single_type(si, ty_args) == Some(ty),
    ensures
        ({
            let vref = TypeView::Reference(Box::new(TypeView::Vector(Box::new(ty))));
            let vmut = TypeView::MutableReference(Box::new(TypeView::Vector(Box::new(ty))));
            &&& post_transition(s.push(vref), locals, ty_args, res, Bytecode::VecLen(si)) == Ok::<Seq<TypeView>, CheckError>(
                s.push(TypeView::U64),
            )
            &&& post_transition(s.push(vmut).push(ty), locals, ty_args, res, Bytecode::VecPushBack(si)) == Ok::<
                Seq<TypeView>,
                CheckError,
            >(s)
            &&& post_transition(s.push(vref).push(ty), locals, ty_args, res, Bytecode::VecPushBack(si)) == Err::<
                Seq<TypeView>,
                CheckError,
            >(CheckError::TypeMismatch)
            &&& post_transition(s.push(vmut), locals, ty_args, res, Bytecode::VecPopBack(si)) == Ok::<Seq<TypeView>, CheckError>(
                s.push(ty),
            )
            &&& post_transition(s.push(vref).push(TypeView::U64), locals, ty_args, res, Bytecode::VecImmBorrow(si)) == Ok::<
                Seq<TypeView>,
                CheckError,
            >(s.push(TypeView::Reference(Box::new(ty))))
            &&& post_transition(s.push(vmut).push(TypeView::U64), locals, ty_args, res, Bytecode::VecMutBorrow(si)) == Ok::<
                Seq<TypeView>,
                CheckError,
            >(s.push(TypeView::MutableReference(Box::new(ty))))
            &&& post_transition(s.push(vmut).push(TypeView::U64).push(TypeView::U64), locals, ty_args, res, Bytecode::VecSwap(si))
                == Ok::<Seq<TypeView>, CheckError>(s)
        }),
{
    let vref = TypeView::Reference(Box::new(TypeView::Vector(Box::new(ty))));
    let vmut = TypeView::MutableReference(Box::new(TypeView::Vector(Box::new(ty))));
    assert(below(s.push(vref), 1) =~= s);
    assert(below(s.push(vmut), 1) =~= s);
    assert(below(s.push(vmut).push(ty), 2) =~= s);
    assert(below(s.push(vref).push(TypeView::U64), 2) =~= s);
    assert(below(s.push(vmut).push(TypeView::U64), 2) =~= s);
    assert(below(s.push(vmut).push(TypeView::U64).push(TypeView::U64), 3) =~= s);
}

/// The abilities of the built-in types: integers, booleans and addresses can
/// be copied, dropped and stored; references can be copied and dropped; a
/// vector has the copy, drop and store abilities its element type has, and
/// never key.
pub proof fn law_builtin_abilities(t: TypeView)
    ensures
        type_abilities(TypeView::U64) == Some(AbilitySet { copy: true, drop: true, store: true, key: false }),
        type_abilities(TypeView::Bool) == Some(AbilitySet { copy: true, drop: true, store: true, key: false }),
        type_abilities(TypeView::Address) == Some(AbilitySet { copy: true, drop: true, store: true, key: false }),
        type_abilities(TypeView::Reference(Box::new(t))) == Some(
            AbilitySet { copy: true, drop: true, store: false, key: false },
        ),
        type_abilities(TypeView::MutableReference(Box::new(t))) == Some(
            AbilitySet { copy: true, drop: true, store: false, key: false },
        ),
        type_abilities(t) matches Some(a) ==> type_abilities(TypeView::Vector(Box::new(t))) == Some(
            AbilitySet { copy: a.copy, drop: a.drop, store: a.store, key: false },
        ),
{
}

} // verus!
