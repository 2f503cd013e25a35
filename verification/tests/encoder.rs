use coff_backend::machine_code::coff::relocations::{
    add_relocatable_entry_and_text_section_inital_entry, relocatable_value,
    IMAGE_REL_AMD64_ADDR32, IMAGE_REL_AMD64_REL32,
};
use coff_backend::machine_code::coff::sections::{
    add_entries_to_text_section, add_entry_to_text_section, add_string_to_data_section,
    get_current_text_section_pointer,
};
use coff_backend::machine_code::coff::create_coff;
use coff_backend::machine_code::operations::{
    add_add_byte_value_to_reg_op, add_call_relocatable_addr_op,
    add_lea_reg_plus_offset_pointer_to_reg_op, add_mov_dword_reg_plus_offset_pointer_to_reg_op,
    add_mov_dword_relocatable_value_to_reg_op,
    add_mov_dword_value_into_reg_plus_offset_pointer_op, add_mov_dword_value_to_reg_op,
    add_mov_from_dword_reg_to_reg_op, add_mov_from_qword_reg_to_reg_op,
    add_mov_qword_reg_plus_offset_pointer_to_reg_op,
    add_mov_reg_to_reg_plus_offset_dword_pointer_op,
    add_mov_reg_to_reg_plus_offset_qword_pointer_op, add_pop_reg_op, add_push_reg_op,
    add_ret_op, add_sub_byte_value_from_reg_op, add_xor_qword_reg_into_reg_op,
};
use coff_backend::machine_code::registers::{
    register_has_high_bit, remove_register_high_bit, REG_AX, REG_BP, REG_CX, REG_DX, REG_IP,
    REG_R8, REG_R9, REG_SP,
};

#[test]
fn register_codes() {
    assert_eq!(
        [REG_AX, REG_CX, REG_DX, REG_SP, REG_BP, REG_IP, REG_R8, REG_R9],
        [0, 1, 2, 4, 5, 5, 8, 9]
    );
}

#[test]
fn high_bit_marks_extended_registers() {
    for register in [REG_AX, REG_CX, REG_DX, REG_SP, REG_BP] {
        assert!(!register_has_high_bit(register));
        assert_eq!(remove_register_high_bit(register), register);
    }
    assert!(register_has_high_bit(REG_R8));
    assert!(register_has_high_bit(REG_R9));
    assert_eq!(remove_register_high_bit(REG_R8), 0);
    assert_eq!(remove_register_high_bit(REG_R9), 1);
    assert!(register_has_high_bit(0x0F));
    assert!(!register_has_high_bit(0x17));
    assert_eq!(remove_register_high_bit(0xFF), 7);
}

#[test]
fn push_and_pop_hold_the_register_in_the_opcode() {
    let mut coff = create_coff();
    add_push_reg_op(&mut coff, REG_BP);
    add_push_reg_op(&mut coff, REG_AX);
    add_pop_reg_op(&mut coff, REG_CX);
    add_pop_reg_op(&mut coff, REG_BP);
    assert_eq!(coff.text_section, vec![0x55, 0x50, 0x59, 0x5D]);
}

#[test]
fn add_and_sub_of_a_byte() {
    let mut coff = create_coff();
    add_add_byte_value_to_reg_op(&mut coff, 40, REG_SP);
    add_sub_byte_value_from_reg_op(&mut coff, 8, REG_SP);
    add_sub_byte_value_from_reg_op(&mut coff, 0xFF, REG_AX);
    assert_eq!(
        coff.text_section,
        vec![0x48, 0x83, 0xC4, 0x28, 0x48, 0x83, 0xEC, 0x08, 0x48, 0x83, 0xE8, 0xFF]
    );
}

#[test]
fn move_of_an_immediate_is_little_endian() {
    let mut coff = create_coff();
    add_mov_dword_value_to_reg_op(&mut coff, 0xFFFFFFF5, REG_CX);
    add_mov_dword_value_to_reg_op(&mut coff, 0x12345678, REG_AX);
    assert_eq!(
        coff.text_section,
        vec![0xB9, 0xF5, 0xFF, 0xFF, 0xFF, 0xB8, 0x78, 0x56, 0x34, 0x12]
    );
    assert!(coff.relocations.is_empty());
}

#[test]
fn moves_between_registers() {
    let mut coff = create_coff();
    add_mov_from_qword_reg_to_reg_op(&mut coff, REG_BP, REG_SP);
    add_mov_from_dword_reg_to_reg_op(&mut coff, REG_CX, REG_DX);
    assert_eq!(coff.text_section, vec![0x48, 0x89, 0xEC, 0x89, 0xCA]);
}

#[test]
fn store_of_an_immediate_writes_the_sib_byte() {
    let mut coff = create_coff();
    add_mov_dword_value_into_reg_plus_offset_pointer_op(&mut coff, 0x01020304, REG_SP, 32);
    assert_eq!(
        coff.text_section,
        vec![0x48, 0xC7, 0x44, 0x24, 0x20, 0x04, 0x03, 0x02, 0x01]
    );
    // The SIB byte is written for every address register.
    let mut other = create_coff();
    add_mov_dword_value_into_reg_plus_offset_pointer_op(&mut other, 0, REG_BP, 8);
    assert_eq!(
        other.text_section,
        vec![0x48, 0xC7, 0x45, 0x24, 0x08, 0x00, 0x00, 0x00, 0x00]
    );
}

#[test]
fn stores_of_a_register() {
    let mut coff = create_coff();
    add_mov_reg_to_reg_plus_offset_qword_pointer_op(&mut coff, REG_CX, REG_BP, 16);
    add_mov_reg_to_reg_plus_offset_dword_pointer_op(&mut coff, REG_DX, REG_BP, 24);
    add_mov_reg_to_reg_plus_offset_dword_pointer_op(&mut coff, REG_AX, REG_BP, 0xF8);
    assert_eq!(
        coff.text_section,
        vec![0x48, 0x89, 0x4D, 0x10, 0x89, 0x55, 0x18, 0x89, 0x45, 0xF8]
    );
}

#[test]
fn dword_load_extends_the_destination() {
    let mut coff = create_coff();
    add_mov_dword_reg_plus_offset_pointer_to_reg_op(&mut coff, REG_BP, 0xF8, REG_CX);
    assert_eq!(coff.text_section, vec![0x8B, 0x4D, 0xF8]);
    add_mov_dword_reg_plus_offset_pointer_to_reg_op(&mut coff, REG_BP, 24, REG_R8);
    assert_eq!(coff.text_section, vec![0x8B, 0x4D, 0xF8, 0x44, 0x8B, 0x45, 0x18]);
    add_mov_dword_reg_plus_offset_pointer_to_reg_op(&mut coff, REG_BP, 24, REG_R9);
    assert_eq!(coff.text_section[7..], [0x44, 0x8B, 0x4D, 0x18]);
}

#[test]
fn qword_load_does_not_extend_the_destination() {
    let mut coff = create_coff();
    add_mov_qword_reg_plus_offset_pointer_to_reg_op(&mut coff, REG_BP, 16, REG_DX);
    assert_eq!(coff.text_section, vec![0x48, 0x8B, 0x55, 0x10]);
    // R8 is written unmasked: its high bit lands in the mode field.
    let mut other = create_coff();
    add_mov_qword_reg_plus_offset_pointer_to_reg_op(&mut other, REG_BP, 16, REG_R8);
    assert_eq!(other.text_section, vec![0x48, 0x8B, 0x45, 0x10]);
    let mut third = create_coff();
    add_mov_qword_reg_plus_offset_pointer_to_reg_op(&mut third, REG_BP, 16, REG_R9);
    assert_eq!(third.text_section, vec![0x48, 0x8B, 0x4D, 0x10]);
}

#[test]
fn xor_sets_rex_r_for_an_extended_source() {
    let mut coff = create_coff();
    add_xor_qword_reg_into_reg_op(&mut coff, REG_R9, REG_R9);
    add_xor_qword_reg_into_reg_op(&mut coff, REG_AX, REG_AX);
    add_xor_qword_reg_into_reg_op(&mut coff, REG_R8, REG_DX);
    add_xor_qword_reg_into_reg_op(&mut coff, REG_CX, REG_R9);
    assert_eq!(
        coff.text_section,
        vec![0x4D, 0x31, 0xC9, 0x49, 0x31, 0xC0, 0x4D, 0x31, 0xC2, 0x49, 0x31, 0xC9]
    );
}

#[test]
fn ret_is_one_byte() {
    let mut coff = create_coff();
    add_ret_op(&mut coff);
    assert_eq!(coff.text_section, vec![0xC3]);
}

#[test]
fn call_reserves_its_displacement() {
    let mut coff = create_coff();
    add_ret_op(&mut coff);
    add_call_relocatable_addr_op(&mut coff, relocatable_value(9, 0));
    assert_eq!(coff.text_section, vec![0xC3, 0xE8, 0, 0, 0, 0]);
    assert_eq!(coff.relocations.len(), 1);
    assert_eq!(coff.relocations[0].pointer_to_reference, 2);
    assert_eq!(coff.relocations[0].symbol_index, 9);
    assert_eq!(coff.relocations[0].relocation_type, IMAGE_REL_AMD64_REL32);
    assert_eq!(IMAGE_REL_AMD64_REL32, 0x04);
}

#[test]
fn move_of_a_symbol_reserves_its_address() {
    let mut coff = create_coff();
    add_mov_dword_relocatable_value_to_reg_op(&mut coff, relocatable_value(7, 0xAABBCCDD), REG_DX);
    assert_eq!(coff.text_section, vec![0xBA, 0xDD, 0xCC, 0xBB, 0xAA]);
    assert_eq!(coff.relocations.len(), 1);
    assert_eq!(coff.relocations[0].pointer_to_reference, 1);
    assert_eq!(coff.relocations[0].symbol_index, 7);
    assert_eq!(coff.relocations[0].relocation_type, IMAGE_REL_AMD64_ADDR32);
    assert_eq!(IMAGE_REL_AMD64_ADDR32, 0x02);
}

#[test]
fn lea_is_relative_to_the_instruction_pointer() {
    let mut coff = create_coff();
    add_lea_reg_plus_offset_pointer_to_reg_op(&mut coff, REG_IP, relocatable_value(2, 0x10), REG_CX);
    assert_eq!(coff.text_section, vec![0x48, 0x8D, 0x0D, 0x10, 0, 0, 0]);
    assert_eq!(coff.relocations[0].pointer_to_reference, 3);
    assert_eq!(coff.relocations[0].symbol_index, 2);
    assert_eq!(coff.relocations[0].relocation_type, 0x04);
}

#[test]
fn text_bytes_move_the_headers() {
    let mut coff = create_coff();
    assert_eq!(get_current_text_section_pointer(&coff), 0);
    add_entry_to_text_section(&mut coff, 0x90);
    add_entries_to_text_section(&mut coff, vec![1, 2, 3]);
    assert_eq!(coff.text_section, vec![0x90, 1, 2, 3]);
    assert_eq!(get_current_text_section_pointer(&coff), 4);
    assert_eq!(coff.text_section_header.size_of_section, 4);
    assert_eq!(coff.text_section_header.pointer_to_section, 100);
    assert_eq!(coff.text_section_header.pointer_to_relocations, 104);
    assert_eq!(coff.header.pointer_to_symbol_table, 104);
    assert_eq!(coff.data_section_header.size_of_section, 0);
    assert_eq!(coff.data_section_header.pointer_to_relocations, 100);
}

#[test]
fn data_bytes_move_the_headers() {
    let mut coff = create_coff();
    add_entry_to_text_section(&mut coff, 0xC3);
    assert_eq!(add_string_to_data_section(&mut coff, "abc"), 0);
    assert_eq!(add_string_to_data_section(&mut coff, "de\0"), 3);
    assert_eq!(add_string_to_data_section(&mut coff, ""), 6);
    assert_eq!(coff.data_section, b"abcde\0".to_vec());
    assert_eq!(coff.data_section_header.size_of_section, 6);
    assert_eq!(coff.data_section_header.pointer_to_section, 100);
    assert_eq!(coff.data_section_header.pointer_to_relocations, 106);
    assert_eq!(coff.text_section_header.pointer_to_section, 106);
    assert_eq!(coff.text_section_header.pointer_to_relocations, 107);
    assert_eq!(coff.header.pointer_to_symbol_table, 107);
}

#[test]
fn a_relocation_takes_ten_bytes_of_the_file() {
    let mut coff = create_coff();
    add_entry_to_text_section(&mut coff, 0xE8);
    add_relocatable_entry_and_text_section_inital_entry(
        &mut coff,
        relocatable_value(8, 0x11223344),
        IMAGE_REL_AMD64_REL32,
    );
    assert_eq!(coff.text_section, vec![0xE8, 0x44, 0x33, 0x22, 0x11]);
    assert_eq!(coff.text_section_header.number_of_relocations, 1);
    assert_eq!(coff.text_section_header.size_of_section, 5);
    assert_eq!(coff.header.pointer_to_symbol_table, 100 + 5 + 10);
    assert_eq!(coff.relocations[0].pointer_to_reference, 1);
}

#[test]
fn every_relocation_names_its_initial_value() {
    let mut coff = create_coff();
    let values: [u32; 4] = [0, 0xDEADBEEF, 1, 0x80000000];
    for (index, value) in values.iter().enumerate() {
        add_push_reg_op(&mut coff, REG_BP);
        add_call_relocatable_addr_op(&mut coff, relocatable_value(index as u32, *value));
        add_ret_op(&mut coff);
    }
    assert_eq!(coff.relocations.len(), 4);
    for (index, value) in values.iter().enumerate() {
        let at = coff.relocations[index].pointer_to_reference as usize;
        assert_eq!(at, 7 * index + 2);
        assert_eq!(coff.text_section[at..at + 4], value.to_le_bytes());
    }
}

#[test]
fn call_with_a_known_displacement() {
    let mut coff = create_coff();
    coff_backend::machine_code::operations::add_call_addr_op(&mut coff, 0xFFFFFF9A);
    assert_eq!(coff.text_section, vec![0xE8, 0x9A, 0xFF, 0xFF, 0xFF]);
    assert!(coff.relocations.is_empty());
    assert_eq!(coff.header.pointer_to_symbol_table, 105);
}
