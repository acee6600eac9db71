use iseq_ir::BranchKind;
use iseq_ir::CallData;
use iseq_ir::Id;
use iseq_ir::Instruction;
use iseq_ir::instruction::check_offsets_local;

#[test]
fn top_level_call_sequence() {
    let program = vec![
        Instruction::PutSelf,
        Instruction::PutObject { value: iseq_ir::Value(0) },
        Instruction::OptSendWithoutBlock { call_data: CallData() },
        Instruction::Leave,
    ];
    assert_eq!(program.len(), 4);
    assert!(matches!(program[0], Instruction::PutSelf));
    assert!(matches!(program[1], Instruction::PutObject { .. }));
    assert!(matches!(program[2], Instruction::OptSendWithoutBlock { .. }));
    assert!(matches!(program[3], Instruction::Leave));
    for ins in &program {
        assert!(ins.nested_sequence().is_none());
    }
}

#[test]
fn method_definition_owns_its_body() {
    let ins = Instruction::DefineMethod {
        id: Id(7),
        iseq: vec![Instruction::PutNil, Instruction::Leave],
    };
    let body = ins.nested_sequence().expect("a method body");
    assert_eq!(body.len(), 2);
    assert_eq!(body[1], Instruction::Leave);
}

#[test]
fn jump_offset_views() {
    assert_eq!(Instruction::Jump { dst_offset: 3 }.jump_offset(), Some(3));
    assert_eq!(
        Instruction::Branch { kind: BranchKind::Nil, dst_offset: 0 }.jump_offset(),
        Some(0),
    );
    assert_eq!(
        Instruction::OptCaseDispatch { hash: iseq_ir::CDHash(1), else_offset: 9 }.jump_offset(),
        Some(9),
    );
    assert_eq!(Instruction::Leave.jump_offset(), None);
    assert_eq!(Instruction::PutNil.jump_offset(), None);
}

#[test]
fn jump_at_last_offset_is_local_one_past_is_not() {
    let ok = vec![Instruction::Jump { dst_offset: 1 }, Instruction::Leave];
    assert!(check_offsets_local(&ok));
    let out_of_range = vec![Instruction::Jump { dst_offset: 2 }, Instruction::Leave];
    assert!(!check_offsets_local(&out_of_range));
}

#[test]
fn offsets_are_relative_to_their_own_sequence() {
    // The nested body is longer than the outer sequence; its jump targets
    // its own last offset, which would be out of range at the outer level.
    let nested_jump = Instruction::DefineMethod {
        id: Id(1),
        iseq: vec![
            Instruction::PutNil,
            Instruction::PutNil,
            Instruction::PutNil,
            Instruction::Jump { dst_offset: 4 },
            Instruction::Leave,
        ],
    };
    let program = vec![nested_jump, Instruction::Leave];
    assert!(check_offsets_local(&program));

    // Conversely, a jump that is fine for the outer length is rejected when
    // it sits inside a shorter nested sequence.
    let bad_nested = Instruction::DefineMethod {
        id: Id(1),
        iseq: vec![Instruction::Jump { dst_offset: 2 }],
    };
    let outer = vec![
        bad_nested,
        Instruction::Nop,
        Instruction::Nop,
        Instruction::Leave,
    ];
    assert!(!check_offsets_local(&outer));
}

#[test]
fn branch_and_case_dispatch_offsets_are_checked_too() {
    let ok = vec![
        Instruction::Branch { kind: BranchKind::If, dst_offset: 2 },
        Instruction::OptCaseDispatch { hash: iseq_ir::CDHash(0), else_offset: 0 },
        Instruction::Leave,
    ];
    assert!(check_offsets_local(&ok));
    let bad = vec![
        Instruction::Branch { kind: BranchKind::Unless, dst_offset: 3 },
        Instruction::OptCaseDispatch { hash: iseq_ir::CDHash(0), else_offset: 0 },
        Instruction::Leave,
    ];
    assert!(!check_offsets_local(&bad));
}

#[test]
fn empty_sequence_is_trivially_local() {
    let empty: Vec<Instruction> = vec![];
    assert!(check_offsets_local(&empty));
}
