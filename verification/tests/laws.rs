use scalar::bytecode::Bytecode;
use scalar::committee::{Authority, Committee};
use scalar::events::{signed_stake, EventVerify};
use scalar::move_types::{AbilitySet, MoveType, StructTag};
use scalar::paranoid::post_execution_type_stack_transition;
use scalar::resolver::{Resolver, StructDef};
use scalar::type_stack::TypeStack;

fn point() -> MoveType {
    MoveType::Struct(StructTag {
        index: 0,
        abilities: AbilitySet { copy: true, drop: true, store: true, key: false },
        phantom_params: vec![],
    })
}

fn resolver() -> Resolver {
    Resolver {
        structs: vec![StructDef { struct_type: point(), field_count: 2, fields: vec![MoveType::U64, MoveType::Bool] }],
        struct_instantiations: vec![],
        field_handles: vec![],
        field_instantiations: vec![],
        signatures: vec![MoveType::U8],
        constants: vec![],
    }
}

fn run(s: &mut TypeStack, locals: &Vec<MoveType>, instr: Bytecode) {
    post_execution_type_stack_transition(s, locals, &vec![], &resolver(), &instr).unwrap();
}

fn shape(s: &TypeStack) -> Vec<String> {
    s.types().iter().map(|t| format!("{:?}", t)).collect()
}

#[test]
fn load_then_pop_restores_the_stack() {
    let mut s = TypeStack::new();
    run(&mut s, &vec![], Bytecode::LdTrue);
    let before = shape(&s);
    run(&mut s, &vec![], Bytecode::LdU64(3));
    run(&mut s, &vec![], Bytecode::Pop);
    assert_eq!(shape(&s), before);
}

#[test]
fn freezing_a_mutable_borrow_is_an_immutable_borrow() {
    let locals = vec![MoveType::U16];
    let mut a = TypeStack::new();
    run(&mut a, &locals, Bytecode::MutBorrowLoc(0));
    run(&mut a, &locals, Bytecode::FreezeRef);
    let mut b = TypeStack::new();
    run(&mut b, &locals, Bytecode::ImmBorrowLoc(0));
    assert_eq!(shape(&a), shape(&b));
}

#[test]
fn unpack_after_pack_restores_the_fields() {
    let mut s = TypeStack::new();
    run(&mut s, &vec![], Bytecode::LdU64(1));
    run(&mut s, &vec![], Bytecode::LdTrue);
    let before = shape(&s);
    run(&mut s, &vec![], Bytecode::Pack(0));
    assert_eq!(s.len(), 1);
    run(&mut s, &vec![], Bytecode::Unpack(0));
    assert_eq!(shape(&s), before);
}

#[test]
fn vector_unpack_after_pack_restores_the_elements() {
    let mut s = TypeStack::new();
    for _ in 0..3 {
        run(&mut s, &vec![], Bytecode::LdU8(1));
    }
    let before = shape(&s);
    run(&mut s, &vec![], Bytecode::VecPack(0, 3));
    assert_eq!(s.len(), 1);
    run(&mut s, &vec![], Bytecode::VecUnpack(0, 3));
    assert_eq!(shape(&s), before);
}

#[test]
fn merging_the_same_copy_twice_changes_nothing_more() {
    let c = Committee {
        epoch: 1,
        authorities: (0..4u16)
            .map(|id| Authority { id, stake: 5, protocol_key: vec![], network_key: vec![], primary_address: String::new() })
            .collect(),
    };
    let mut stored = EventVerify::new(0, 1, 1, [1; 32], vec![0]);
    let mut peer = EventVerify::new(1, 1, 1, [1; 32], vec![1]);
    peer.add_signature(0, vec![9]);
    stored.merge_signatures(&peer);
    let once = stored.signatures.clone();
    let stake_once = signed_stake(&c, &stored);
    stored.merge_signatures(&peer);
    assert_eq!(stored.signatures, once);
    assert_eq!(signed_stake(&c, &stored), stake_once);
    assert_eq!(once, vec![(0, vec![9]), (1, vec![1])]);
    assert_eq!(stake_once, 10);
}
