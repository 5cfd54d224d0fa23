use ssa_ir::block::{Block, FunctionIr};
use ssa_ir::insn::CallTy;
use ssa_ir::printer::Printer;
use ssa_ir::expr::{Expr, Numeral, Operand};
use ssa_ir::insn::Insn;
use ssa_ir::lir_type::{ArrayLength, StructType, Type};
use ssa_ir::lowering::{lower_struct_type, lower_type, AstStructType, AstType, TargetParams};
use ssa_ir::vartable::Vartable;

fn solana_params() -> TargetParams {
    TargetParams { address_length: 32, selector_length: 8 }
}

fn polkadot_params() -> TargetParams {
    TargetParams { address_length: 32, selector_length: 4 }
}

fn num_literal(value: u128) -> Operand {
    Operand::NumberLiteral { value: Numeral::new(false, value), ty: Type::Uint(8) }
}

#[test]
fn test_lower_scalar_types() {
    let p = solana_params();
    assert_eq!(lower_type(&AstType::Bool, &p), Type::Bool);
    assert_eq!(lower_type(&AstType::Int(128), &p), Type::Int(128));
    assert_eq!(lower_type(&AstType::Uint(32), &p), Type::Uint(32));
    assert_eq!(lower_type(&AstType::Bytes(4), &p), Type::Bytes(4));
    assert_eq!(lower_type(&AstType::Enum, &p), Type::Uint(8));
}

#[test]
fn test_lower_platform_dependent_types() {
    assert_eq!(lower_type(&AstType::Address, &solana_params()), Type::Bytes(32));
    assert_eq!(
        lower_type(&AstType::FunctionSelector, &solana_params()),
        Type::Uint(64)
    );
    assert_eq!(
        lower_type(&AstType::FunctionSelector, &polkadot_params()),
        Type::Uint(32)
    );
}

#[test]
fn test_lower_string_and_dynamic_bytes_identically() {
    let p = solana_params();
    let expected = Type::Ptr(Box::new(Type::Struct(StructType::Vector(Box::new(
        Type::Bytes(1),
    )))));
    assert_eq!(lower_type(&AstType::StringType, &p), expected);
    assert_eq!(lower_type(&AstType::DynamicBytes, &p), expected);
    assert_eq!(
        lower_type(&AstType::StringType, &p).to_text(),
        "ptr<struct.vector<bytes1>>"
    );
}

#[test]
fn test_lower_compound_types() {
    let p = solana_params();
    let arr = AstType::Array(
        Box::new(AstType::Uint(8)),
        vec![ArrayLength::Fixed(2), ArrayLength::Dynamic],
    );
    assert_eq!(lower_type(&arr, &p).to_text(), "ptr<uint8[2][]>");

    let mapping = AstType::Mapping {
        key: Box::new(AstType::Uint(256)),
        value: Box::new(AstType::Bool),
    };
    assert_eq!(lower_type(&mapping, &p).to_text(), "mapping<uint256 -> bool>");

    let f = AstType::Function {
        params: vec![AstType::Uint(8), AstType::Bool],
        rets: vec![AstType::Uint(16)],
    };
    assert_eq!(lower_type(&f, &p).to_text(), "ptr<fn(uint8, bool) -> (uint16)>");

    let slice = AstType::Slice(Box::new(AstType::Bytes(1)));
    assert_eq!(lower_type(&slice, &p).to_text(), "slice<bytes1>");

    let re = AstType::Ref(Box::new(AstType::Uint(8)));
    assert_eq!(lower_type(&re, &p).to_text(), "ptr<uint8>");

    let storage = AstType::StorageRef(false, Box::new(AstType::Uint(8)));
    assert_eq!(lower_type(&storage, &p).to_text(), "storage_ptr<uint8>");

    let immutable = AstType::StorageRef(true, Box::new(AstType::Uint(8)));
    assert_eq!(lower_type(&immutable, &p).to_text(), "const_storage_ptr<uint8>");

    let st = AstType::Struct(AstStructType::UserDefined(5));
    assert_eq!(lower_type(&st, &p).to_text(), "ptr<struct.5>");
}

#[test]
fn test_lower_struct_tags() {
    assert_eq!(
        lower_struct_type(&AstStructType::AccountInfo),
        StructType::SolAccountInfo
    );
    assert_eq!(
        lower_struct_type(&AstStructType::AccountMeta),
        StructType::SolAccountMeta
    );
    assert_eq!(
        lower_struct_type(&AstStructType::ExternalFunction),
        StructType::ExternalFunction
    );
    assert_eq!(
        lower_struct_type(&AstStructType::SolParameters),
        StructType::SolParameters
    );
    assert_eq!(
        lower_struct_type(&AstStructType::UserDefined(9)),
        StructType::UserDefined(9)
    );
}

#[test]
fn test_lowering_is_deterministic() {
    let p = solana_params();
    let a = lower_type(
        &AstType::Array(Box::new(AstType::StringType), vec![ArrayLength::Dynamic]),
        &p,
    );
    let b = lower_type(
        &AstType::Array(Box::new(AstType::StringType), vec![ArrayLength::Dynamic]),
        &p,
    );
    assert_eq!(a, b);
    assert_eq!(a.to_text(), b.to_text());
}

#[test]
fn test_vartable_assigns_fresh_monotonic_identities() {
    let mut vt = Vartable::new();
    assert_eq!(vt.next_id(), 0);
    let a = vt.declare(Type::Uint(8));
    let b = vt.declare(Type::Bool);
    let c = vt.declare_named(Type::Bytes(4), String::from("selector"));
    assert_eq!((a, b, c), (0, 1, 2));
    assert_eq!(vt.next_id(), 3);
    // an identity, once assigned a type, keeps it as the table grows
    assert_eq!(*vt.type_of(a), Type::Uint(8));
    assert_eq!(*vt.type_of(b), Type::Bool);
    assert_eq!(*vt.type_of(c), Type::Bytes(4));
    assert_eq!(vt.get(c).unwrap().name.as_deref(), Some("selector"));
    assert!(vt.get(3).is_none());
}

fn assign(res: usize) -> Insn {
    Insn::Assign { res, expr: Expr::NumberLiteral { value: Numeral::new(false, 1), ty: Type::Uint(8) } }
}

#[test]
fn test_block_well_formedness() {
    let good = Block {
        instructions: vec![
            Insn::Phi { res: 3, vars: vec![] },
            assign(4),
            Insn::Nop,
            Insn::Branch { block: 1 },
        ],
    };
    assert!(good.is_well_formed());

    let empty = Block { instructions: vec![] };
    assert!(!empty.is_well_formed());

    let no_terminator = Block { instructions: vec![assign(1), Insn::Nop] };
    assert!(!no_terminator.is_well_formed());

    let terminator_in_middle = Block {
        instructions: vec![Insn::Branch { block: 1 }, Insn::Nop, Insn::Branch { block: 2 }],
    };
    assert!(!terminator_in_middle.is_well_formed());

    let phi_after_non_phi = Block {
        instructions: vec![
            assign(1),
            Insn::Phi { res: 2, vars: vec![] },
            Insn::Return { value: vec![] },
        ],
    };
    assert!(!phi_after_non_phi.is_well_formed());

    let lone_terminator = Block { instructions: vec![Insn::ReturnCode {
        code: ssa_ir::insn::ReturnCode::Success,
    }] };
    assert!(lone_terminator.is_well_formed());
}

#[test]
fn test_ssa_uniqueness() {
    let unique = FunctionIr {
        blocks: vec![
            Block { instructions: vec![assign(0), assign(1), Insn::Branch { block: 1 }] },
            Block {
                instructions: vec![
                    Insn::Call {
                        res: vec![2, 3],
                        call: ssa_ir::lir_type::InternalCallTy::Static { cfg_no: 0 },
                        args: vec![],
                    },
                    Insn::PopStorage { res: Some(4), storage: num_literal(0) },
                    Insn::Return { value: vec![] },
                ],
            },
        ],
        entry_block: 0,
    };
    assert!(unique.is_ssa_unique());
    assert_eq!(unique.defined_ids(), vec![0, 1, 2, 3, 4]);

    // the same identity defined in two different blocks breaks SSA
    let duplicate_across_blocks = FunctionIr {
        blocks: vec![
            Block { instructions: vec![assign(7), Insn::Branch { block: 1 }] },
            Block { instructions: vec![assign(7), Insn::Return { value: vec![] }] },
        ],
        entry_block: 0,
    };
    assert!(!duplicate_across_blocks.is_ssa_unique());

    // a call result colliding with a phi result breaks SSA too
    let duplicate_mixed = FunctionIr {
        blocks: vec![Block {
            instructions: vec![
                Insn::Phi { res: 5, vars: vec![] },
                Insn::Call {
                    res: vec![5],
                    call: ssa_ir::lir_type::InternalCallTy::Builtin { ast_func_no: 1 },
                    args: vec![],
                },
                Insn::Return { value: vec![] },
            ],
        }],
        entry_block: 0,
    };
    assert!(!duplicate_mixed.is_ssa_unique());

    // instructions without results define nothing
    let no_defs = FunctionIr {
        blocks: vec![Block {
            instructions: vec![
                Insn::Nop,
                Insn::Store { dest: num_literal(0), data: num_literal(1) },
                Insn::Return { value: vec![] },
            ],
        }],
        entry_block: 0,
    };
    assert!(no_defs.is_ssa_unique());
    assert_eq!(no_defs.defined_ids(), Vec::<usize>::new());
}

#[test]
fn test_terminator_classification() {
    assert!(Insn::Branch { block: 0 }.is_terminator());
    assert!(Insn::Return { value: vec![] }.is_terminator());
    assert!(Insn::Unimplemented { reachable: true }.is_terminator());
    assert!(Insn::AssertFailure { encoded_args: None }.is_terminator());
    assert!(!Insn::Nop.is_terminator());
    assert!(!assign(0).is_terminator());
    assert!(!Insn::Phi { res: 0, vars: vec![] }.is_terminator());
    assert!(Insn::Phi { res: 0, vars: vec![] }.is_phi());
    assert!(!Insn::Nop.is_phi());
}

#[test]
fn test_return_with_no_values() {
    let p = Printer::new(Vartable::new());
    assert_eq!(p.print_insn(&Insn::Return { value: vec![] }), "return ;");
}

#[test]
fn test_optional_slots_keep_position() {
    let p = Printer::new(Vartable::new());
    // every optional slot of an external call absent: each renders as `_`
    // in its fixed position
    let bare = Insn::ExternalCall {
        success: None,
        address: None,
        accounts: None,
        seeds: None,
        payload: Operand::Id { id: 5 },
        value: Operand::Id { id: 6 },
        gas: num_literal(120),
        callty: CallTy::Regular,
        flags: None,
    };
    assert_eq!(
        p.print_insn(&bare),
        "call_ext [regular] _ payload:%5 value:%6 gas:uint8(120) _ _ _ _;"
    );

    let bare_constructor = Insn::Constructor {
        success: None,
        res: 1,
        contract_no: 2,
        constructor_no: None,
        encoded_args: Operand::Id { id: 3 },
        value: None,
        gas: num_literal(0),
        salt: None,
        address: None,
        seeds: None,
        accounts: None,
    };
    assert_eq!(
        p.print_insn(&bare_constructor),
        "%1 = constructor(no: _, contract_no:2) _ _ gas:uint8(0) _ _ encoded-buffer:%3 _;"
    );

    let bare_push = Insn::PushStorage { res: 9, value: None, storage: Operand::Id { id: 3 } };
    assert_eq!(p.print_insn(&bare_push), "%9 = push_storage %3 _;");
}

#[test]
fn test_instruction_variants_render_distinctly() {
    // one representative per instruction variant, over the same operands
    // where possible: no two variants may collapse to the same text
    let p = Printer::new(Vartable::new());
    let op = || Operand::Id { id: 1 };
    let representatives = vec![
        Insn::Nop,
        assign(1),
        Insn::Store { dest: op(), data: op() },
        Insn::PushMemory { res: 1, array: 1, value: op() },
        Insn::PopMemory { res: 1, array: 1 },
        Insn::Constructor {
            success: None,
            res: 1,
            contract_no: 1,
            constructor_no: None,
            encoded_args: op(),
            value: None,
            gas: op(),
            salt: None,
            address: None,
            seeds: None,
            accounts: None,
        },
        Insn::LoadStorage { res: 1, storage: op() },
        Insn::ClearStorage { storage: op() },
        Insn::SetStorage { value: op(), storage: op() },
        Insn::SetStorageBytes { value: op(), storage: op(), offset: op() },
        Insn::PushStorage { res: 1, value: Some(op()), storage: op() },
        Insn::PopStorage { res: Some(1), storage: op() },
        Insn::Call {
            res: vec![1],
            call: ssa_ir::lir_type::InternalCallTy::Dynamic(op()),
            args: vec![op()],
        },
        Insn::Print { operand: op() },
        Insn::MemCopy { src: op(), dest: op(), bytes: op() },
        Insn::ExternalCall {
            success: None,
            address: None,
            accounts: None,
            seeds: None,
            payload: op(),
            value: op(),
            gas: op(),
            callty: CallTy::Regular,
            flags: None,
        },
        Insn::ValueTransfer { success: None, address: op(), value: op() },
        Insn::SelfDestruct { recipient: op() },
        Insn::EmitEvent { event_no: 1, topics: vec![op()], data: op() },
        Insn::WriteBuffer { buf: op(), offset: op(), value: op() },
        Insn::Branch { block: 1 },
        Insn::BranchCond { cond: op(), true_block: 1, false_block: 2 },
        Insn::Switch { cond: op(), cases: vec![(op(), 1)], default: 2 },
        Insn::Return { value: vec![op()] },
        Insn::ReturnData { data: op(), data_len: op() },
        Insn::ReturnCode { code: ssa_ir::insn::ReturnCode::Success },
        Insn::AssertFailure { encoded_args: Some(op()) },
        Insn::Unimplemented { reachable: true },
        Insn::Phi { res: 1, vars: vec![ssa_ir::lir_type::PhiInput::new(op(), 2)] },
    ];
    let texts: Vec<String> = representatives.iter().map(|i| p.print_insn(i)).collect();
    for i in 0..texts.len() {
        for j in 0..texts.len() {
            if i != j {
                assert_ne!(texts[i], texts[j]);
            }
        }
    }
}

#[test]
fn test_call_with_no_results() {
    let p = Printer::new(Vartable::new());
    let call = Insn::Call {
        res: vec![],
        call: ssa_ir::lir_type::InternalCallTy::Static { cfg_no: 1 },
        args: vec![num_literal(2)],
    };
    assert_eq!(p.print_insn(&call), "call function#1(uint8(2));");
}

#[test]
fn test_insn_printability_follows_its_expression() {
    let printable = Insn::Assign {
        res: 1,
        expr: Expr::AllocDynamicBytes {
            ty: Type::Ptr(Box::new(Type::Bytes(1))),
            size: Box::new(num_literal(4)),
            initializer: None,
        },
    };
    assert!(printable.is_printable());

    let unprintable = Insn::Assign {
        res: 1,
        expr: Expr::AllocDynamicBytes {
            ty: Type::Bytes(1),
            size: Box::new(num_literal(4)),
            initializer: None,
        },
    };
    assert!(!unprintable.is_printable());
    assert!(Insn::Nop.is_printable());
}
