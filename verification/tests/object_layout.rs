use coff_backend::intermediate_representation::{
    add_byte_code, add_data_item, add_symbol, call_arg_register, call_to_symbol_instruction,
    compilation_unit_id, create_intermediate_representation, data_section_item,
    external_code_label, foreign_external, load_data_section_address_to_reg_64,
    move_symbol_to_reg_32_instruction, ret_instruction, string_data_item,
    IntermediateRepresentation,
};
use coff_backend::machine_code::builder::build_machine_code_object;
use coff_backend::machine_code::coff::files::{
    coff_to_bytes, write_header, write_relocation_entry, write_section_header, write_symbol,
};
use coff_backend::machine_code::coff::headers::{
    header, initial_base_dynamic_data_pointer, section_header, set_current_timestamp,
    set_timestamp,
};
use coff_backend::machine_code::coff::{
    create_coff, Coff, CoffRelocationEntry, CoffSymbol, CoffSymbolLongNamed, CoffSymbolName,
    CoffSymbolSection, CoffSymbolShortNamed, DATA_SECTION_FLAGS, IMAGE_FILE_MACHINE_AMD64,
    IMAGE_SCN_ALIGN_16BYTES, IMAGE_SCN_ALIGN_4BYTES, IMAGE_SCN_CNT_CODE,
    IMAGE_SCN_CNT_INITIALISED_DATA, IMAGE_SCN_MEM_EXECUTE, IMAGE_SCN_MEM_READ,
    IMAGE_SCN_MEM_WRITE, TEXT_SECTION_FLAGS,
};

fn read_u16(bytes: &[u8], at: usize) -> u16 {
    u16::from_le_bytes([bytes[at], bytes[at + 1]])
}

fn read_u32(bytes: &[u8], at: usize) -> u32 {
    u32::from_le_bytes([bytes[at], bytes[at + 1], bytes[at + 2], bytes[at + 3]])
}

fn sample_unit() -> IntermediateRepresentation {
    let mut ir = create_intermediate_representation(
        compilation_unit_id(7),
        "sample.hep".to_string(),
        "entry".to_string(),
    );
    let short = add_symbol(&mut ir.symbols, foreign_external("puts".to_string()));
    let long = add_symbol(&mut ir.symbols, foreign_external("GetStdHandle".to_string()));
    add_symbol(&mut ir.symbols, data_section_item("greeting".to_string(), 0));
    add_symbol(&mut ir.symbols, external_code_label("entry_point_of_unit".to_string(), 0));
    add_data_item(&mut ir.data, string_data_item("Hello\0".to_string()));
    add_data_item(&mut ir.data, string_data_item("again".to_string()));
    add_byte_code(&mut ir.byte_code, load_data_section_address_to_reg_64(6, call_arg_register(0)));
    add_byte_code(&mut ir.byte_code, call_to_symbol_instruction(short));
    add_byte_code(&mut ir.byte_code, move_symbol_to_reg_32_instruction(long, call_arg_register(1)));
    add_byte_code(&mut ir.byte_code, call_to_symbol_instruction(long));
    add_byte_code(&mut ir.byte_code, ret_instruction());
    ir
}

fn sample_object() -> Coff {
    let mut coff = create_coff();
    build_machine_code_object(&mut coff, sample_unit());
    coff
}

#[test]
fn section_flags_are_the_sum_of_their_parts() {
    assert_eq!(
        DATA_SECTION_FLAGS,
        IMAGE_SCN_CNT_INITIALISED_DATA
            | IMAGE_SCN_ALIGN_4BYTES
            | IMAGE_SCN_MEM_READ
            | IMAGE_SCN_MEM_WRITE
    );
    assert_eq!(
        TEXT_SECTION_FLAGS,
        IMAGE_SCN_CNT_CODE | IMAGE_SCN_ALIGN_16BYTES | IMAGE_SCN_MEM_EXECUTE | IMAGE_SCN_MEM_READ
    );
    assert_eq!(IMAGE_SCN_CNT_CODE, 0x20);
    assert_eq!(IMAGE_SCN_CNT_INITIALISED_DATA, 0x40);
    assert_eq!(IMAGE_SCN_ALIGN_4BYTES, 0x00300000);
    assert_eq!(IMAGE_SCN_ALIGN_16BYTES, 0x00500000);
    assert_eq!(IMAGE_SCN_MEM_EXECUTE, 0x20000000);
    assert_eq!(IMAGE_SCN_MEM_READ, 0x40000000);
    assert_eq!(IMAGE_SCN_MEM_WRITE, 0x80000000);
}

#[test]
fn an_empty_object_has_the_initial_headers() {
    let coff = create_coff();
    assert_eq!(initial_base_dynamic_data_pointer(), 100);
    assert_eq!(coff.header.magic, 0x8664);
    assert_eq!(IMAGE_FILE_MACHINE_AMD64, 0x8664);
    assert_eq!(coff.header.number_of_sections, 2);
    assert_eq!(coff.header.pointer_to_symbol_table, 100);
    assert_eq!(coff.header.number_of_symbols, 0);
    assert_eq!(coff.header.size_of_optional_header, 0);
    assert_eq!(coff.header.flags, 0);
    assert_eq!(&coff.data_section_header.short_name, b".data\0\0\0");
    assert_eq!(coff.data_section_header.pointer_to_section, 100);
    assert_eq!(coff.data_section_header.pointer_to_relocations, 100);
    assert_eq!(coff.data_section_header.size_of_section, 0);
    assert_eq!(coff.data_section_header.flags, 0xC0300040);
    assert_eq!(&coff.text_section_header.short_name, b".text\0\0\0");
    assert_eq!(coff.text_section_header.pointer_to_section, 100);
    assert_eq!(coff.text_section_header.pointer_to_relocations, 100);
    assert_eq!(coff.text_section_header.size_of_section, 0);
    assert_eq!(coff.text_section_header.flags, 0x60500020);
    assert_eq!(coff.strings_table_length, 4);
    assert!(coff.data_section.is_empty());
    assert!(coff.text_section.is_empty());
    assert!(coff.relocations.is_empty());
    assert!(coff.symbols.is_empty());
    assert!(coff.strings.is_empty());
}

#[test]
fn an_empty_object_is_104_bytes() {
    let mut coff = create_coff();
    coff.header.time_date_stamp = 0x631F038B;
    let bytes = coff_to_bytes(&coff);
    let mut expected = vec![
        0x64, 0x86, 0x02, 0x00, 0x8B, 0x03, 0x1F, 0x63, 100, 0, 0, 0, 0, 0, 0, 0, 0, 0, 0, 0,
    ];
    expected.extend_from_slice(b".data\0\0\0");
    expected.extend_from_slice(&[0; 12]);
    expected.extend_from_slice(&[100, 0, 0, 0, 100, 0, 0, 0, 0, 0, 0, 0, 0, 0, 0, 0]);
    expected.extend_from_slice(&[0x40, 0x00, 0x30, 0xC0]);
    expected.extend_from_slice(b".text\0\0\0");
    expected.extend_from_slice(&[0; 12]);
    expected.extend_from_slice(&[100, 0, 0, 0, 100, 0, 0, 0, 0, 0, 0, 0, 0, 0, 0, 0]);
    expected.extend_from_slice(&[0x20, 0x00, 0x50, 0x60]);
    expected.extend_from_slice(&[4, 0, 0, 0]);
    assert_eq!(bytes.len(), 104);
    assert_eq!(bytes, expected);
}

#[test]
fn header_constructor_keeps_its_arguments() {
    let made = header(0x8664, 2, 0x11223344, 100, 5, 0, 7);
    assert_eq!(made.magic, 0x8664);
    assert_eq!(made.number_of_sections, 2);
    assert_eq!(made.time_date_stamp, 0x11223344);
    assert_eq!(made.pointer_to_symbol_table, 100);
    assert_eq!(made.number_of_symbols, 5);
    assert_eq!(made.size_of_optional_header, 0);
    assert_eq!(made.flags, 7);
    let mut bytes = vec![0xAA];
    write_header(&mut bytes, &made);
    assert_eq!(
        bytes,
        vec![
            0xAA, 0x64, 0x86, 2, 0, 0x44, 0x33, 0x22, 0x11, 100, 0, 0, 0, 5, 0, 0, 0, 0, 0, 7, 0
        ]
    );
}

#[test]
fn section_header_constructor_pads_the_name() {
    let made = section_header(".bss", 1, 2, 3, 4, 5, 6, 7, 8, 9);
    assert_eq!(&made.short_name, b".bss\0\0\0\0");
    assert_eq!(made.physical_address, 1);
    assert_eq!(made.virtual_address, 2);
    assert_eq!(made.size_of_section, 3);
    assert_eq!(made.pointer_to_section, 4);
    assert_eq!(made.pointer_to_relocations, 5);
    assert_eq!(made.pointer_to_line_numbers, 6);
    assert_eq!(made.number_of_relocations, 7);
    assert_eq!(made.number_of_line_numbers, 8);
    assert_eq!(made.flags, 9);
    let mut bytes = Vec::new();
    write_section_header(&mut bytes, &made);
    let mut expected = b".bss\0\0\0\0".to_vec();
    for value in [1u32, 2, 3, 4, 5, 6] {
        expected.extend_from_slice(&value.to_le_bytes());
    }
    expected.extend_from_slice(&[7, 0, 8, 0, 9, 0, 0, 0]);
    assert_eq!(bytes.len(), 40);
    assert_eq!(bytes, expected);
}

#[test]
fn a_relocation_entry_is_10_bytes() {
    let entry = CoffRelocationEntry {
        pointer_to_reference: 0x01020304,
        symbol_index: 9,
        relocation_type: 4,
    };
    let mut bytes = Vec::new();
    write_relocation_entry(&mut bytes, &entry);
    assert_eq!(bytes, vec![4, 3, 2, 1, 9, 0, 0, 0, 4, 0]);
}

#[test]
fn every_symbol_record_is_18_bytes() {
    let mut bytes = Vec::new();
    write_symbol(
        &mut bytes,
        &CoffSymbol::ShortNamed(CoffSymbolShortNamed {
            name: *b"main\0\0\0\0",
            value: 0x4D,
            section_number: 2,
            symbol_type: 0,
            storage_class: 2,
            number_of_auxillary_symbols: 0,
        }),
    );
    assert_eq!(bytes, vec![b'm', b'a', b'i', b'n', 0, 0, 0, 0, 0x4D, 0, 0, 0, 2, 0, 0, 0, 2, 0]);

    let mut bytes = Vec::new();
    write_symbol(
        &mut bytes,
        &CoffSymbol::LongNamed(CoffSymbolLongNamed {
            pointer_to_string_table: 14,
            value: 0xFFFFFFF5,
            section_number: 0xFFFF,
            symbol_type: 0,
            storage_class: 3,
            number_of_auxillary_symbols: 0,
        }),
    );
    assert_eq!(
        bytes,
        vec![0, 0, 0, 0, 14, 0, 0, 0, 0xF5, 0xFF, 0xFF, 0xFF, 0xFF, 0xFF, 0, 0, 3, 0]
    );

    let mut bytes = Vec::new();
    write_symbol(&mut bytes, &CoffSymbol::Name(CoffSymbolName(*b"hello1.asm\0\0\0\0\0\0\0\0")));
    assert_eq!(bytes, b"hello1.asm\0\0\0\0\0\0\0\0".to_vec());

    let mut bytes = Vec::new();
    write_symbol(
        &mut bytes,
        &CoffSymbol::Section(CoffSymbolSection {
            length: 0x6F,
            number_of_relocations: 3,
            number_of_line_numbers: 0,
            checksum: 0,
            number: 0,
            selection: 0,
        }),
    );
    assert_eq!(bytes, vec![0x6F, 0, 0, 0, 3, 0, 0, 0, 0, 0, 0, 0, 0, 0, 0, 0, 0, 0]);
}

#[test]
fn the_time_stamp_changes_nothing_else() {
    let mut coff = sample_object();
    coff.header.time_date_stamp = 0;
    let before = coff_to_bytes(&coff);
    set_current_timestamp(&mut coff);
    let after = coff_to_bytes(&coff);
    assert_eq!(before[..4], after[..4]);
    assert_eq!(before[8..], after[8..]);
    assert_eq!(read_u32(&after, 4), coff.header.time_date_stamp);
}

#[test]
fn serialised_length_is_the_sum_of_the_parts() {
    let coff = sample_object();
    let bytes = coff_to_bytes(&coff);
    assert_eq!(coff.data_section.len(), 11);
    assert_eq!(coff.text_section.len(), 7 + 5 + 5 + 5 + 1);
    assert_eq!(coff.relocations.len(), 4);
    assert_eq!(coff.symbols.len(), 11);
    assert_eq!(coff.strings.len(), 13 + 20);
    assert_eq!(
        bytes.len(),
        20 + 2 * 40
            + coff.data_section.len()
            + coff.text_section.len()
            + 10 * coff.relocations.len()
            + 18 * coff.symbols.len()
            + 4
            + coff.strings.len()
    );
    assert_eq!(bytes.len(), 100 + 11 + 23 + 40 + 198 + 4 + 33);
}

#[test]
fn the_symbol_table_begins_where_the_header_points() {
    let coff = sample_object();
    let bytes = coff_to_bytes(&coff);
    let at = coff.header.pointer_to_symbol_table as usize;
    assert_eq!(at, 100 + 11 + 23 + 40);
    assert_eq!(read_u32(&bytes, 8) as usize, at);
    // The first record is the `.file` symbol.
    assert_eq!(&bytes[at..at + 8], b".file\0\0\0");
    assert_eq!(read_u16(&bytes, at + 12), 0xFFFE);
    assert_eq!(bytes[at + 16], 0x67);
    assert_eq!(bytes[at + 17], 1);
    assert_eq!(&bytes[at + 18..at + 36], b"sample.hep\0\0\0\0\0\0\0\0");
    // Behind the symbol table stands the string table.
    let strings_at = at + 18 * coff.symbols.len();
    assert_eq!(read_u32(&bytes, strings_at), coff.strings_table_length);
    assert_eq!(bytes.len(), strings_at + coff.strings_table_length as usize);
}

#[test]
fn section_headers_point_at_the_sections() {
    let coff = sample_object();
    let bytes = coff_to_bytes(&coff);
    let data = &coff.data_section_header;
    let text = &coff.text_section_header;
    assert_eq!(data.pointer_to_section, 100);
    assert_eq!(text.pointer_to_section as usize, 100 + coff.data_section.len());
    assert_eq!(
        text.pointer_to_relocations as usize,
        text.pointer_to_section as usize + coff.text_section.len()
    );
    let data_at = data.pointer_to_section as usize;
    let text_at = text.pointer_to_section as usize;
    let relocations_at = text.pointer_to_relocations as usize;
    assert_eq!(bytes[data_at..data_at + 11], coff.data_section[..]);
    assert_eq!(&bytes[data_at..data_at + 11], b"Hello\0again");
    assert_eq!(bytes[text_at..text_at + 23], coff.text_section[..]);
    assert_eq!(read_u32(&bytes, relocations_at), 3);
    assert_eq!(read_u32(&bytes, relocations_at + 4), 2);
    assert_eq!(read_u16(&bytes, relocations_at + 8), 4);
    assert_eq!(
        relocations_at + 10 * coff.relocations.len(),
        coff.header.pointer_to_symbol_table as usize
    );
}

#[test]
fn relocations_name_their_placeholders_in_the_file() {
    let coff = sample_object();
    let bytes = coff_to_bytes(&coff);
    let text_at = coff.text_section_header.pointer_to_section as usize;
    let expected: [(u32, u32, u16, u32); 4] =
        [(3, 2, 4, 6), (8, 10, 4, 0), (13, 9, 2, 0), (18, 9, 4, 0)];
    assert_eq!(coff.relocations.len(), expected.len());
    for (entry, (at, symbol, kind, value)) in coff.relocations.iter().zip(expected) {
        assert_eq!(entry.pointer_to_reference, at);
        assert_eq!(entry.symbol_index, symbol);
        assert_eq!(entry.relocation_type, kind);
        let at = at as usize;
        assert_eq!(coff.text_section[at..at + 4], value.to_le_bytes());
        assert_eq!(read_u32(&bytes, text_at + at), value);
    }
}

#[test]
fn headers_read_back_what_the_object_holds() {
    let coff = sample_object();
    let bytes = coff_to_bytes(&coff);
    assert_eq!(read_u16(&bytes, 0), 0x8664);
    assert_eq!(read_u16(&bytes, 2), 2);
    assert_eq!(read_u32(&bytes, 12) as usize, coff.symbols.len());
    assert_eq!(read_u16(&bytes, 16), 0);
    assert_eq!(&bytes[20..28], b".data\0\0\0");
    assert_eq!(read_u32(&bytes, 20 + 16) as usize, coff.data_section.len());
    assert_eq!(read_u32(&bytes, 20 + 20), 100);
    assert_eq!(read_u16(&bytes, 20 + 32), 0);
    assert_eq!(read_u32(&bytes, 20 + 36), 0xC0300040);
    assert_eq!(&bytes[60..68], b".text\0\0\0");
    assert_eq!(read_u32(&bytes, 60 + 16) as usize, coff.text_section.len());
    assert_eq!(read_u32(&bytes, 60 + 20) as usize, 100 + coff.data_section.len());
    assert_eq!(read_u16(&bytes, 60 + 32) as usize, coff.relocations.len());
    assert_eq!(read_u32(&bytes, 60 + 36), 0x60500020);
}

#[test]
fn symbol_indices_name_the_symbols_in_reverse() {
    let coff = sample_object();
    // Four symbols: symbol i stands at record 6 + 4 - i.
    match &coff.symbols[10] {
        CoffSymbol::ShortNamed(symbol) => {
            assert_eq!(&symbol.name, b"puts\0\0\0\0");
            assert_eq!(symbol.section_number, 0);
            assert_eq!(symbol.value, 0);
            assert_eq!(symbol.storage_class, 2);
        }
        _ => panic!("symbol 0 has a short name"),
    }
    match &coff.symbols[9] {
        CoffSymbol::LongNamed(symbol) => {
            assert_eq!(symbol.section_number, 0);
            assert_eq!(symbol.storage_class, 2);
            let at = symbol.pointer_to_string_table as usize - 4;
            assert_eq!(&coff.strings[at..at + 13], b"GetStdHandle\0");
        }
        _ => panic!("symbol 1 has a long name"),
    }
    match &coff.symbols[8] {
        CoffSymbol::ShortNamed(symbol) => {
            assert_eq!(&symbol.name, b"greeting");
            assert_eq!(symbol.section_number, 1);
            assert_eq!(symbol.storage_class, 3);
        }
        _ => panic!("symbol 2 has a name of 8 bytes"),
    }
    match &coff.symbols[7] {
        CoffSymbol::LongNamed(symbol) => {
            assert_eq!(symbol.pointer_to_string_table, 4);
            assert_eq!(symbol.section_number, 2);
            assert_eq!(symbol.storage_class, 2);
            assert_eq!(&coff.strings[..20], b"entry_point_of_unit\0");
        }
        _ => panic!("symbol 3 has a long name"),
    }
    match &coff.symbols[6] {
        CoffSymbol::ShortNamed(symbol) => {
            assert_eq!(&symbol.name, b".absolut");
            assert_eq!(symbol.section_number, 0xFFFF);
            assert_eq!(symbol.value, 0);
            assert_eq!(symbol.storage_class, 3);
        }
        _ => panic!("record 6 is the .absolut symbol"),
    }
    // The call to symbol 0 carries index 10, the ones to symbol 1 index 9.
    assert_eq!(coff.relocations[1].symbol_index, 10);
    assert_eq!(coff.relocations[2].symbol_index, 9);
    assert_eq!(coff.relocations[3].symbol_index, 9);
}

#[test]
fn leading_symbols_describe_the_sections() {
    let coff = sample_object();
    match (&coff.symbols[0], &coff.symbols[1]) {
        (CoffSymbol::ShortNamed(file), CoffSymbol::Name(name)) => {
            assert_eq!(&file.name, b".file\0\0\0");
            assert_eq!(file.section_number, 0xFFFE);
            assert_eq!(file.storage_class, 0x67);
            assert_eq!(file.number_of_auxillary_symbols, 1);
            assert_eq!(&name.0, b"sample.hep\0\0\0\0\0\0\0\0");
        }
        _ => panic!("the table begins with .file and the file's name"),
    }
    match (&coff.symbols[2], &coff.symbols[3]) {
        (CoffSymbol::ShortNamed(section), CoffSymbol::Section(definition)) => {
            assert_eq!(&section.name, b".data\0\0\0");
            assert_eq!(section.section_number, 1);
            assert_eq!(section.storage_class, 3);
            assert_eq!(section.number_of_auxillary_symbols, 1);
            assert_eq!(definition.length, 11);
            assert_eq!(definition.number_of_relocations, 0);
        }
        _ => panic!("records 2 and 3 define .data"),
    }
    match (&coff.symbols[4], &coff.symbols[5]) {
        (CoffSymbol::ShortNamed(section), CoffSymbol::Section(definition)) => {
            assert_eq!(&section.name, b".text\0\0\0");
            assert_eq!(section.section_number, 2);
            assert_eq!(definition.length, 23);
            assert_eq!(definition.number_of_relocations, 4);
        }
        _ => panic!("records 4 and 5 define .text"),
    }
}

#[test]
fn a_given_time_stamp_is_written_as_it_is() {
    let mut coff = sample_object();
    set_timestamp(&mut coff, 0);
    let before = coff_to_bytes(&coff);
    set_timestamp(&mut coff, 0x631F038B);
    assert_eq!(coff.header.time_date_stamp, 0x631F038B);
    let after = coff_to_bytes(&coff);
    assert_eq!(after[4..8], [0x8B, 0x03, 0x1F, 0x63]);
    assert_eq!(before[4..8], [0, 0, 0, 0]);
    assert_eq!(before[..4], after[..4]);
    assert_eq!(before[8..], after[8..]);
    assert_eq!(coff.header.pointer_to_symbol_table, 174);
    assert_eq!(coff.header.number_of_symbols, 11);
}
