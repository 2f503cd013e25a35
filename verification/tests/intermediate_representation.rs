use coff_backend::intermediate_representation::{
    absolute_external, add_byte_code, add_data_item, add_symbol, add_value_to_reg_8_instruction,
    base_pointer_register, call_arg_register, call_return_arg_register,
    call_to_symbol_instruction, compilation_unit_id, create_intermediate_representation,
    data_section_item, external_code_label, foreign_external,
    load_data_section_address_to_reg_64, move_reg_plus_offset_to_reg_32_instruction,
    move_reg_plus_offset_to_reg_64_instruction, move_reg_to_reg_64_instruction,
    move_reg_to_reg_plus_offset_32_instruction, move_reg_to_reg_plus_offset_64_instruction,
    move_symbol_to_reg_32_instruction, move_value_to_reg_32_instruction,
    move_value_to_reg_plus_offset_32_instruction, pop_reg_64_instruction,
    push_reg_64_instruction, ret_instruction, stack_pointer_register, string_data_item,
    sub_value_from_reg_8_instruction, zero_reg_64_instruction, ByteCodeData, ByteCodeDataItem,
    ByteCodeInstruction, ByteCodeInstructionStream, ByteCodeRegister, ByteCodeSymbol,
    ByteCodeSymbols,
};

#[test]
fn a_new_unit_is_empty() {
    let id = compilation_unit_id(42);
    assert_eq!(id.id, 42);
    assert_eq!(id, compilation_unit_id(42));
    let ir = create_intermediate_representation(id, "a.hep".to_string(), "main".to_string());
    assert_eq!(ir.id, id);
    assert_eq!(ir.filename, "a.hep");
    assert_eq!(ir.top_level_symbol, "main");
    assert!(ir.byte_code.is_empty());
    assert!(ir.symbols.is_empty());
    assert!(ir.data.is_empty());
}

#[test]
fn register_constructors() {
    assert_eq!(call_arg_register(2), ByteCodeRegister::CallArg(2));
    assert_eq!(call_return_arg_register(0), ByteCodeRegister::CallReturnArg(0));
    assert_eq!(base_pointer_register(), ByteCodeRegister::BasePointer);
    assert_eq!(stack_pointer_register(), ByteCodeRegister::StackPointer);
}

#[test]
fn instruction_constructors() {
    let a = ByteCodeRegister::CallArg(1);
    let b = ByteCodeRegister::BasePointer;
    assert_eq!(call_to_symbol_instruction(3), ByteCodeInstruction::CallToSymbol(3));
    assert_eq!(push_reg_64_instruction(a), ByteCodeInstruction::PushReg64(a));
    assert_eq!(pop_reg_64_instruction(b), ByteCodeInstruction::PopReg64(b));
    assert_eq!(
        add_value_to_reg_8_instruction(9, a),
        ByteCodeInstruction::AddValueToReg8 { value: 9, to: a }
    );
    assert_eq!(
        sub_value_from_reg_8_instruction(9, a),
        ByteCodeInstruction::SubValueFromReg8 { value: 9, from: a }
    );
    assert_eq!(
        move_symbol_to_reg_32_instruction(5, b),
        ByteCodeInstruction::MoveSymbolToReg32 { symbol_index: 5, to: b }
    );
    assert_eq!(
        move_value_to_reg_32_instruction(0xFFFFFFF5, a),
        ByteCodeInstruction::MoveValueToReg32 { value: 0xFFFFFFF5, to: a }
    );
    assert_eq!(
        move_reg_to_reg_64_instruction(a, b),
        ByteCodeInstruction::MoveRegToReg64 { from: a, to: b }
    );
    assert_eq!(
        move_value_to_reg_plus_offset_32_instruction(1, a, 32),
        ByteCodeInstruction::MoveValueToRegPlusOffset32 { value: 1, to: a, offset: 32 }
    );
    assert_eq!(
        move_reg_to_reg_plus_offset_64_instruction(a, b, 16),
        ByteCodeInstruction::MoveRegToRegPlusOffset64 { from: a, to: b, offset: 16 }
    );
    assert_eq!(
        move_reg_to_reg_plus_offset_32_instruction(a, b, 24),
        ByteCodeInstruction::MoveRegToRegPlusOffset32 { from: a, to: b, offset: 24 }
    );
    assert_eq!(
        move_reg_plus_offset_to_reg_32_instruction(b, 24, a),
        ByteCodeInstruction::MoveRegPlusOffsetToReg32 { from: b, offset: 24, to: a }
    );
    assert_eq!(
        move_reg_plus_offset_to_reg_64_instruction(b, 16, a),
        ByteCodeInstruction::MoveRegPlusOffsetToReg64 { from: b, offset: 16, to: a }
    );
    assert_eq!(
        load_data_section_address_to_reg_64(7, a),
        ByteCodeInstruction::LoadDataSectionAddressToReg64 { data_section_offset: 7, to: a }
    );
    assert_eq!(zero_reg_64_instruction(a), ByteCodeInstruction::ZeroReg64(a));
    assert_eq!(ret_instruction(), ByteCodeInstruction::Return);
}

#[test]
fn instructions_are_appended_in_order() {
    let mut stream: ByteCodeInstructionStream = Vec::new();
    add_byte_code(&mut stream, ret_instruction());
    add_byte_code(&mut stream, call_to_symbol_instruction(1));
    assert_eq!(
        stream,
        vec![ByteCodeInstruction::Return, ByteCodeInstruction::CallToSymbol(1)]
    );
}

#[test]
fn symbols_get_their_position_as_index() {
    let mut symbols: ByteCodeSymbols = Vec::new();
    assert_eq!(add_symbol(&mut symbols, data_section_item("ds0".to_string(), 4)), 0);
    assert_eq!(add_symbol(&mut symbols, foreign_external("WriteFile".to_string())), 1);
    assert_eq!(add_symbol(&mut symbols, absolute_external("H".to_string(), 0xFFFFFFF5)), 2);
    assert_eq!(add_symbol(&mut symbols, external_code_label("main".to_string(), 77)), 3);
    assert_eq!(symbols.len(), 4);
    assert!(matches!(
        &symbols[0],
        ByteCodeSymbol::DataSectionItem { name, value: 4 } if name == "ds0"
    ));
    assert!(matches!(
        &symbols[1],
        ByteCodeSymbol::ForeignExternal { name } if name == "WriteFile"
    ));
    assert!(matches!(
        &symbols[2],
        ByteCodeSymbol::AbsoluteExternal { name, value: 0xFFFFFFF5 } if name == "H"
    ));
    assert!(matches!(
        &symbols[3],
        ByteCodeSymbol::ExternalCodeLabel { name, position: 77 } if name == "main"
    ));
}

#[test]
fn data_items_get_their_position_as_index() {
    let mut data: ByteCodeData = Vec::new();
    assert_eq!(add_data_item(&mut data, string_data_item("Hello".to_string())), 0);
    assert_eq!(add_data_item(&mut data, string_data_item(String::new())), 1);
    assert_eq!(data.len(), 2);
    assert!(matches!(&data[0], ByteCodeDataItem::String { value } if value == "Hello"));
    assert!(matches!(&data[1], ByteCodeDataItem::String { value } if value.is_empty()));
}
