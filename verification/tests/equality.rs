use iseq_ir::CallData;
use iseq_ir::Id;
use iseq_ir::Instruction;
use iseq_ir::Ise;
use iseq_ir::Value;

fn sample_tree() -> Instruction {
    Instruction::DefineClass {
        id: Id(3),
        iseq: vec![
            Instruction::PutNil,
            Instruction::Jump { dst_offset: 0 },
            Instruction::Once {
                iseq: vec![Instruction::PutSelf, Instruction::Leave],
                ise: Ise(1),
            },
        ],
        flags: 9,
    }
}

#[test]
fn independently_built_identical_trees_are_equal() {
    let a = sample_tree();
    let b = sample_tree();
    assert_eq!(a, b);
    assert!(a.structural_eq(&b));
}

#[test]
fn changing_a_leaf_operand_breaks_equality() {
    let a = sample_tree();
    let b = Instruction::DefineClass {
        id: Id(4),  // only the identifier differs
        iseq: vec![
            Instruction::PutNil,
            Instruction::Jump { dst_offset: 0 },
            Instruction::Once {
                iseq: vec![Instruction::PutSelf, Instruction::Leave],
                ise: Ise(1),
            },
        ],
        flags: 9,
    };
    assert_ne!(a, b);
}

#[test]
fn changing_a_nested_child_breaks_equality() {
    let a = sample_tree();
    let b = Instruction::DefineClass {
        id: Id(3),
        iseq: vec![
            Instruction::PutNil,
            Instruction::Jump { dst_offset: 0 },
            Instruction::Once {
                iseq: vec![Instruction::PutNil, Instruction::Leave],  // PutSelf changed
                ise: Ise(1),
            },
        ],
        flags: 9,
    };
    assert_ne!(a, b);
}

#[test]
fn reordering_a_nested_sequence_breaks_equality() {
    let a = sample_tree();
    let b = Instruction::DefineClass {
        id: Id(3),
        iseq: vec![
            Instruction::Jump { dst_offset: 0 },
            Instruction::PutNil,  // first two swapped
            Instruction::Once {
                iseq: vec![Instruction::PutSelf, Instruction::Leave],
                ise: Ise(1),
            },
        ],
        flags: 9,
    };
    assert_ne!(a, b);
}

#[test]
fn shortening_a_nested_sequence_breaks_equality() {
    let a = Instruction::DefineMethod { id: Id(1), iseq: vec![Instruction::PutNil, Instruction::Leave] };
    let b = Instruction::DefineMethod { id: Id(1), iseq: vec![Instruction::PutNil] };
    assert_ne!(a, b);
}

#[test]
fn different_opcodes_are_never_equal() {
    assert_ne!(Instruction::PutNil, Instruction::PutSelf);
    assert_ne!(
        Instruction::Send { call_data: CallData(), block_iseq: vec![] },
        Instruction::InvokeSuper { call_data: CallData(), block_iseq: vec![] },
    );
    assert_ne!(
        Instruction::DupArray { ary: Value(5) },
        Instruction::DupHash { hash: Value(5) },
    );
}

#[test]
fn nested_sequence_is_owned_by_its_parent() {
    // The nested body is moved into the parent when it is built; afterwards
    // it is reachable only through the parent's sequence view, and dropping
    // the parent tears the whole tree down. No reference to the child
    // survives the move (using one would not compile).
    let body = vec![Instruction::PutNil, Instruction::Leave];
    let parent = Instruction::DefineMethod { id: Id(7), iseq: body };
    let through_parent = parent.nested_sequence().expect("a method body");
    assert_eq!(through_parent.len(), 2);
    assert_eq!(through_parent[1], Instruction::Leave);
    drop(parent);
}
