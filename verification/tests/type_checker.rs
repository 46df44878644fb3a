use scalar::bytecode::Bytecode;
use scalar::move_types::{abilities, subst, AbilitySet, MoveType, StructTag};
use scalar::paranoid::{
    check_friend_or_private_call, post_execution_type_stack_transition, pre_execution_type_stack_transition,
    Function, InstrRet, ModuleId, ParanoidTypeChecker,
};
use scalar::resolver::{Resolver, StructDef};
use scalar::type_stack::{CheckError, StatusCode, TypeStack, OPERAND_STACK_SIZE_LIMIT};

fn empty_resolver() -> Resolver {
    Resolver {
        structs: vec![],
        struct_instantiations: vec![],
        field_handles: vec![],
        field_instantiations: vec![],
        signatures: vec![],
        constants: vec![MoveType::Vector(Box::new(MoveType::U8)), MoveType::Signer],
    }
}

fn post(stack: &mut TypeStack, locals: &Vec<MoveType>, instr: Bytecode) -> Result<(), CheckError> {
    post_execution_type_stack_transition(stack, locals, &vec![], &empty_resolver(), &instr)
}

fn function(locals: Vec<MoveType>, params: Vec<MoveType>, returns: Vec<MoveType>) -> Function {
    Function {
        name: "f".to_string(),
        index: 0,
        module: Some(ModuleId { address: vec![1], name: "m".to_string() }),
        is_native: false,
        is_friend_or_private: false,
        parameter_types: params,
        local_types: locals,
        return_types: returns,
    }
}

#[test]
fn loads_push_their_types() {
    let mut s = TypeStack::new();
    let locals = vec![];
    assert!(post(&mut s, &locals, Bytecode::LdU64(7)).is_ok());
    assert!(post(&mut s, &locals, Bytecode::LdTrue).is_ok());
    assert_eq!(s.len(), 2);
    assert!(matches!(s.types()[0], MoveType::U64));
    assert!(matches!(s.types()[1], MoveType::Bool));
}

#[test]
fn arithmetic_needs_equal_operand_types() {
    let mut s = TypeStack::new();
    let locals = vec![];
    post(&mut s, &locals, Bytecode::LdU64(1)).unwrap();
    post(&mut s, &locals, Bytecode::LdU64(2)).unwrap();
    assert!(post(&mut s, &locals, Bytecode::Add).is_ok());
    assert_eq!(s.len(), 1);
    assert!(matches!(s.types()[0], MoveType::U64));
    post(&mut s, &locals, Bytecode::LdU8(2)).unwrap();
    assert_eq!(post(&mut s, &locals, Bytecode::Add), Err(CheckError::TypeMismatch));
}

#[test]
fn comparisons_give_bool() {
    let mut s = TypeStack::new();
    let locals = vec![];
    post(&mut s, &locals, Bytecode::LdU16(1)).unwrap();
    post(&mut s, &locals, Bytecode::LdU16(2)).unwrap();
    post(&mut s, &locals, Bytecode::Lt).unwrap();
    assert_eq!(s.len(), 1);
    assert!(matches!(s.types()[0], MoveType::Bool));
}

#[test]
fn pop_on_empty_stack_underflows() {
    let mut s = TypeStack::new();
    assert_eq!(post(&mut s, &vec![], Bytecode::Pop), Err(CheckError::StackUnderflow));
    assert_eq!(CheckError::StackUnderflow.status_code(), StatusCode::EmptyValueStack);
}

#[test]
fn the_stack_is_bounded() {
    let mut s = TypeStack::new();
    let locals = vec![];
    for _ in 0..OPERAND_STACK_SIZE_LIMIT {
        post(&mut s, &locals, Bytecode::LdU8(0)).unwrap();
    }
    assert_eq!(post(&mut s, &locals, Bytecode::LdU8(0)), Err(CheckError::StackOverflow));
    assert_eq!(CheckError::StackOverflow.status_code(), StatusCode::ExecutionStackOverflow);
    assert_eq!(CheckError::TypeMismatch.status_code(), StatusCode::UnknownInvariantViolationError);
}

#[test]
fn freeze_turns_a_mutable_reference_shared() {
    let mut s = TypeStack::new();
    s.push_ty(MoveType::MutableReference(Box::new(MoveType::U64))).unwrap();
    assert!(post(&mut s, &vec![], Bytecode::FreezeRef).is_ok());
    assert!(matches!(&s.types()[0], MoveType::Reference(t) if matches!(**t, MoveType::U64)));
    let mut s2 = TypeStack::new();
    s2.push_ty(MoveType::U64).unwrap();
    assert_eq!(post(&mut s2, &vec![], Bytecode::FreezeRef), Err(CheckError::FreezeRefNotMutableReference));
}

fn resource() -> MoveType {
    MoveType::Struct(StructTag {
        index: 3,
        abilities: AbilitySet { copy: false, drop: false, store: true, key: true },
        phantom_params: vec![],
    })
}

#[test]
fn resources_cannot_be_dropped_and_signers_not_copied() {
    let mut s = TypeStack::new();
    s.push_ty(resource()).unwrap();
    assert_eq!(post(&mut s, &vec![], Bytecode::Pop), Err(CheckError::AbilityViolation));
    let mut d = TypeStack::new();
    d.push_ty(MoveType::Signer).unwrap();
    assert!(post(&mut d, &vec![], Bytecode::Pop).is_ok());
    let locals = vec![MoveType::Signer];
    let mut s2 = TypeStack::new();
    assert_eq!(post(&mut s2, &locals, Bytecode::CopyLoc(0)), Err(CheckError::AbilityViolation));
}

#[test]
fn locals_are_copied_and_moved() {
    let locals = vec![MoveType::U32];
    let mut s = TypeStack::new();
    post(&mut s, &locals, Bytecode::CopyLoc(0)).unwrap();
    post(&mut s, &locals, Bytecode::MoveLoc(0)).unwrap();
    assert_eq!(s.len(), 2);
    post(&mut s, &locals, Bytecode::ImmBorrowLoc(0)).unwrap();
    assert!(matches!(&s.types()[2], MoveType::Reference(t) if matches!(**t, MoveType::U32)));
}

#[test]
fn constants_push_their_type() {
    let mut s = TypeStack::new();
    assert!(post(&mut s, &vec![], Bytecode::LdConst(0)).is_ok());
    assert!(matches!(&s.types()[0], MoveType::Vector(t) if matches!(**t, MoveType::U8)));
    let mut s2 = TypeStack::new();
    assert_eq!(post(&mut s2, &vec![], Bytecode::LdConst(1)), Err(CheckError::InvalidConstantType));
}

#[test]
fn store_into_a_live_local_needs_drop() {
    let locals = vec![resource(), MoveType::U8];
    let mut s = TypeStack::new();
    s.push_ty(resource()).unwrap();
    assert_eq!(pre_execution_type_stack_transition(&mut s, &locals, &vec![true, false], &Bytecode::StLoc(0)), Err(CheckError::AbilityViolation));
    let mut s2 = TypeStack::new();
    s2.push_ty(resource()).unwrap();
    assert!(pre_execution_type_stack_transition(&mut s2, &locals, &vec![false, false], &Bytecode::StLoc(0)).is_ok());
    assert_eq!(s2.len(), 0);
    let mut s3 = TypeStack::new();
    s3.push_ty(MoveType::U64).unwrap();
    assert_eq!(pre_execution_type_stack_transition(&mut s3, &locals, &vec![false, false], &Bytecode::StLoc(1)), Err(CheckError::TypeMismatch));
}

#[test]
fn branches_pop_their_condition() {
    let mut s = TypeStack::new();
    assert_eq!(pre_execution_type_stack_transition(&mut s, &vec![], &vec![], &Bytecode::BrTrue(3)), Err(CheckError::StackUnderflow));
    s.push_ty(MoveType::Bool).unwrap();
    assert!(pre_execution_type_stack_transition(&mut s, &vec![], &vec![], &Bytecode::BrFalse(3)).is_ok());
    assert_eq!(s.len(), 0);
}

#[test]
fn private_calls_stay_at_their_address() {
    let caller = function(vec![], vec![], vec![]);
    let mut callee = function(vec![], vec![], vec![]);
    callee.is_friend_or_private = true;
    assert!(check_friend_or_private_call(&caller, &callee).is_ok());
    callee.module = Some(ModuleId { address: vec![2], name: "n".to_string() });
    assert_eq!(check_friend_or_private_call(&caller, &callee), Err(CheckError::PrivateCallAcrossAddresses));
    callee.module = None;
    assert_eq!(check_friend_or_private_call(&caller, &callee), Err(CheckError::PrivateCallOutsideModule));
}

#[test]
fn a_call_pops_arguments_and_pushes_nothing_for_a_bytecode_function() {
    let caller = function(vec![], vec![], vec![]);
    let callee = function(vec![MoveType::U64, MoveType::Bool], vec![MoveType::U64], vec![MoveType::Bool]);
    let mut s = TypeStack::new();
    s.push_ty(MoveType::U64).unwrap();
    assert!(ParanoidTypeChecker::pre_hook_fn(&mut s, &caller, &callee, &vec![]).is_ok());
    assert_eq!(s.len(), 0);
    let mut s2 = TypeStack::new();
    s2.push_ty(MoveType::Bool).unwrap();
    assert_eq!(ParanoidTypeChecker::pre_hook_fn(&mut s2, &caller, &callee, &vec![]), Err(CheckError::TypeMismatch));
}

#[test]
fn post_hook_checks_the_balance() {
    let f = function(vec![], vec![], vec![]);
    let mut s = TypeStack::new();
    assert!(ParanoidTypeChecker::post_hook_instr(&mut s, 1, &f, &Bytecode::LdU8(1), &vec![], &empty_resolver(), InstrRet::Normal).is_ok());
    assert_eq!(
        ParanoidTypeChecker::post_hook_instr(&mut s, 1, &f, &Bytecode::LdU8(1), &vec![], &empty_resolver(), InstrRet::Normal),
        Err(CheckError::Unbalanced)
    );
    let mut s2 = TypeStack::new();
    assert!(ParanoidTypeChecker::post_hook_instr(&mut s2, 5, &f, &Bytecode::Branch(0), &vec![], &empty_resolver(), InstrRet::Branch).is_ok());
    assert_eq!(s2.len(), 0);
}

#[test]
fn substitution_and_abilities() {
    let t = MoveType::Vector(Box::new(MoveType::TyParam(0)));
    let r = subst(&t, &vec![MoveType::U64]).unwrap();
    assert!(matches!(&r, MoveType::Vector(e) if matches!(**e, MoveType::U64)));
    assert!(subst(&MoveType::TyParam(1), &vec![MoveType::U64]).is_none());
    let a = abilities(&MoveType::Vector(Box::new(MoveType::Signer))).unwrap();
    assert_eq!(a, AbilitySet { copy: false, drop: true, store: false, key: false });
    let tag = StructTag {
        index: 0,
        abilities: AbilitySet { copy: true, drop: true, store: true, key: true },
        phantom_params: vec![false],
    };
    let inst = MoveType::StructInstantiation(tag, vec![MoveType::U8]);
    assert_eq!(abilities(&inst).unwrap(), AbilitySet { copy: true, drop: true, store: true, key: true });
}

#[test]
fn early_failures_leave_the_stack_as_it_was() {
    let locals = vec![MoveType::Signer, resource()];
    let mut s = TypeStack::new();
    s.push_ty(MoveType::U8).unwrap();
    assert_eq!(post(&mut s, &locals, Bytecode::CopyLoc(0)), Err(CheckError::AbilityViolation));
    assert_eq!(s.len(), 1);
    assert!(matches!(s.types()[0], MoveType::U8));

    let mut resolver = empty_resolver();
    resolver.structs.push(StructDef { struct_type: resource(), field_count: 2, fields: vec![MoveType::U8] });
    let mut p = TypeStack::new();
    p.push_ty(MoveType::U8).unwrap();
    p.push_ty(MoveType::U8).unwrap();
    let r = post_execution_type_stack_transition(&mut p, &locals, &vec![], &resolver, &Bytecode::Pack(0));
    assert_eq!(r, Err(CheckError::ArgsCountMismatch));
    assert_eq!(p.len(), 2);

    let mut q = TypeStack::new();
    q.push_ty(MoveType::U64).unwrap();
    let r = pre_execution_type_stack_transition(&mut q, &locals, &vec![false, true], &Bytecode::Ret);
    assert_eq!(r, Err(CheckError::AbilityViolation));
    assert_eq!(q.len(), 1);
    assert!(matches!(q.types()[0], MoveType::U64));
}

#[test]
fn late_failures_leave_the_popped_operands_gone() {
    let mut s = TypeStack::new();
    s.push_ty(MoveType::Bool).unwrap();
    s.push_ty(MoveType::U8).unwrap();
    s.push_ty(MoveType::U64).unwrap();
    assert_eq!(post(&mut s, &vec![], Bytecode::Add), Err(CheckError::TypeMismatch));
    assert_eq!(s.len(), 1);
    assert!(matches!(s.types()[0], MoveType::Bool));
    assert_eq!(post(&mut s, &vec![], Bytecode::Sub), Err(CheckError::StackUnderflow));
    assert_eq!(s.len(), 0);
}
