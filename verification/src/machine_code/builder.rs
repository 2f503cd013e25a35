//! The lowering pass: one compilation unit becomes the contents of one COFF
//! object.

use crate::intermediate_representation::{
    ByteCodeDataItem,
    ByteCodeInstruction,
    ByteCodeRegister,
    ByteCodeSymbol,
    IntermediateRepresentation,
};
use crate::machine_code::coff::relocations::{
    relocatable_value,
    IMAGE_REL_AMD64_ADDR32,
    IMAGE_REL_AMD64_REL32,
};
use crate::machine_code::coff::sections::add_string_to_data_section;
use crate::machine_code::coff::symbols::{
    add_absolute_external_symbol,
    add_absolute_static_symbol,
    add_data_section_header_symbols,
    add_data_section_static_symbol,
    add_debug_file_name_symbols,
    add_foreign_external_symbol,
    add_text_section_external_symbol,
    add_text_section_header_symbols,
    IMAGE_SYM_ABSOLUTE,
    IMAGE_SYM_CLASS_EXTERNAL,
    IMAGE_SYM_CLASS_STATIC,
};
use crate::machine_code::coff::{Coff, CoffContents, SymbolRecord};
use crate::machine_code::operations::{
    add_add_byte_value_to_reg_op,
    add_byte_value_to_reg_code,
    add_call_relocatable_addr_op,
    add_lea_reg_plus_offset_pointer_to_reg_op,
    add_mov_dword_reg_plus_offset_pointer_to_reg_op,
    add_mov_dword_relocatable_value_to_reg_op,
    add_mov_dword_value_into_reg_plus_offset_pointer_op,
    add_mov_dword_value_to_reg_op,
    add_mov_from_qword_reg_to_reg_op,
    add_mov_qword_reg_plus_offset_pointer_to_reg_op,
    add_mov_reg_to_reg_plus_offset_dword_pointer_op,
    add_mov_reg_to_reg_plus_offset_qword_pointer_op,
    add_pop_reg_op,
    add_push_reg_op,
    add_ret_op,
    add_sub_byte_value_from_reg_op,
    add_xor_qword_reg_into_reg_op,
    lea_reg_plus_offset_pointer_to_reg_code,
    mov_dword_reg_plus_offset_pointer_to_reg_code,
    mov_dword_value_into_reg_plus_offset_pointer_code,
    mov_dword_value_to_reg_code,
    mov_from_qword_reg_to_reg_code,
    mov_qword_reg_plus_offset_pointer_to_reg_code,
    mov_reg_to_reg_plus_offset_dword_pointer_code,
    mov_reg_to_reg_plus_offset_qword_pointer_code,
    opcode_plus_register,
    pop_reg_code,
    push_reg_code,
    ret_code,
    sub_byte_value_from_reg_code,
    xor_qword_reg_into_reg_code,
    OP_CALL,
    OP_MOV_IMM_TO_R,
};
use crate::machine_code::registers::{REG_AX, REG_BP, REG_CX, REG_DX, REG_IP, REG_R8, REG_R9, REG_SP};
use crate::machine_code::utilities::zero_padded;
use vstd::prelude::*;
use vstd::string::{StrSliceExecFns, StringExecFns, StringSliceAdditionalSpecFns};
use vstd::utf8::encode_utf8;

verus! {

/// Index, in the symbol table, of the symbol that defines the `.data`
/// section.
pub const DATA_SECTION_SYMBOL_INDEX: u32 = 0x02;

/// Number of the records that open the symbol table in front of `.absolut`:
/// `.file`, `.data` and `.text`, with one auxiliary record each. `.absolut`
/// stands at this index, and behind it the unit's own symbols, last symbol
/// first.
pub const LEADING_SYMBOL_RECORDS: u32 = 6;

/// Whether the calling convention has a register for this role: the first
/// four call arguments and the first returned value have one.
pub open spec fn register_is_supported(register: ByteCodeRegister) -> bool {
    match register {
        ByteCodeRegister::CallArg(number) => number < 4,
        ByteCodeRegister::CallReturnArg(number) => number == 0,
        ByteCodeRegister::StackPointer => true,
        ByteCodeRegister::BasePointer => true,
    }
}

/// The code of the register that plays this role in the Microsoft x64
/// calling convention.
pub open spec fn register_code(register: ByteCodeRegister) -> u8 {
    match register {
        ByteCodeRegister::CallArg(number) => if number == 0 {
            REG_CX
        } else if number == 1 {
            REG_DX
        } else if number == 2 {
            REG_R8
        } else {
            REG_R9
        },
        ByteCodeRegister::CallReturnArg(_) => REG_AX,
        ByteCodeRegister::StackPointer => REG_SP,
        ByteCodeRegister::BasePointer => REG_BP,
    }
}

/// The position that the unit's symbol `symbol_index` has in the symbol
/// table of the object, where the unit has `number_of_symbols` symbols.
pub open spec fn coff_symbol_index(number_of_symbols: nat, symbol_index: u32) -> int {
    LEADING_SYMBOL_RECORDS + number_of_symbols - symbol_index
}

/// Whether an instruction can be encoded in a unit with `number_of_symbols`
/// symbols: its registers exist, and a symbol it refers to has a position in
/// the symbol table.
pub open spec fn instruction_is_encodable(
    instruction: ByteCodeInstruction,
    number_of_symbols: nat,
) -> bool {
    match instruction {
        ByteCodeInstruction::CallToSymbol(symbol_index) => symbol_index <= LEADING_SYMBOL_RECORDS
            + number_of_symbols,
        ByteCodeInstruction::AddValueToReg8 { value, to } => register_is_supported(to),
        ByteCodeInstruction::SubValueFromReg8 { value, from } => register_is_supported(from),
        ByteCodeInstruction::MoveSymbolToReg32 { symbol_index, to } => {
            &&& symbol_index <= LEADING_SYMBOL_RECORDS + number_of_symbols
            &&& register_is_supported(to)
        },
        ByteCodeInstruction::MoveValueToReg32 { value, to } => register_is_supported(to),
        ByteCodeInstruction::MoveRegToReg64 { from, to } => {
            &&& register_is_supported(from)
            &&& register_is_supported(to)
        },
        ByteCodeInstruction::MoveValueToRegPlusOffset32 { value, to, offset } =>
            register_is_supported(to),
        ByteCodeInstruction::MoveRegToRegPlusOffset32 { from, to, offset } => {
            &&& register_is_supported(from)
            &&& register_is_supported(to)
        },
        ByteCodeInstruction::MoveRegToRegPlusOffset64 { from, to, offset } => {
            &&& register_is_supported(from)
            &&& register_is_supported(to)
        },
        ByteCodeInstruction::MoveRegPlusOffsetToReg32 { from, offset, to } => {
            &&& register_is_supported(from)
            &&& register_is_supported(to)
        },
        ByteCodeInstruction::MoveRegPlusOffsetToReg64 { from, offset, to } => {
            &&& register_is_supported(from)
            &&& register_is_supported(to)
        },
        ByteCodeInstruction::LoadDataSectionAddressToReg64 { data_section_offset, to } =>
            register_is_supported(to),
        ByteCodeInstruction::PushReg64(register) => register_is_supported(register),
        ByteCodeInstruction::PopReg64(register) => register_is_supported(register),
        ByteCodeInstruction::ZeroReg64(register) => register_is_supported(register),
        ByteCodeInstruction::Return => true,
    }
}

/// What one instruction adds to an object: its bytes in `.text` and, for an
/// operand that the linker fills in, a relocation.
pub open spec fn encode_instruction(
    contents: CoffContents,
    instruction: ByteCodeInstruction,
    number_of_symbols: nat,
) -> CoffContents {
    match instruction {
        ByteCodeInstruction::CallToSymbol(symbol_index) => contents.append_text(
            seq![OP_CALL],
        ).append_relocated_value(
            coff_symbol_index(number_of_symbols, symbol_index) as u32,
            0,
            IMAGE_REL_AMD64_REL32,
        ),
        ByteCodeInstruction::PushReg64(register) => contents.append_text(
            push_reg_code(register_code(register)),
        ),
        ByteCodeInstruction::PopReg64(register) => contents.append_text(
            pop_reg_code(register_code(register)),
        ),
        ByteCodeInstruction::MoveSymbolToReg32 { symbol_index, to } => contents.append_text(
            seq![opcode_plus_register(OP_MOV_IMM_TO_R, register_code(to))],
        ).append_relocated_value(
            coff_symbol_index(number_of_symbols, symbol_index) as u32,
            0,
            IMAGE_REL_AMD64_ADDR32,
        ),
        ByteCodeInstruction::MoveValueToReg32 { value, to } => contents.append_text(
            mov_dword_value_to_reg_code(value, register_code(to)),
        ),
        ByteCodeInstruction::MoveRegToReg64 { from, to } => contents.append_text(
            mov_from_qword_reg_to_reg_code(register_code(from), register_code(to)),
        ),
        ByteCodeInstruction::MoveValueToRegPlusOffset32 { value, to, offset } =>
            contents.append_text(
            mov_dword_value_into_reg_plus_offset_pointer_code(value, register_code(to), offset),
        ),
        ByteCodeInstruction::MoveRegToRegPlusOffset32 { from, to, offset } => contents.append_text(
            mov_reg_to_reg_plus_offset_dword_pointer_code(
                register_code(from),
                register_code(to),
                offset,
            ),
        ),
        ByteCodeInstruction::MoveRegToRegPlusOffset64 { from, to, offset } => contents.append_text(
            mov_reg_to_reg_plus_offset_qword_pointer_code(
                register_code(from),
                register_code(to),
                offset,
            ),
        ),
        ByteCodeInstruction::MoveRegPlusOffsetToReg32 { from, offset, to } => contents.append_text(
            mov_dword_reg_plus_offset_pointer_to_reg_code(
                register_code(from),
                offset,
                register_code(to),
            ),
        ),
        ByteCodeInstruction::MoveRegPlusOffsetToReg64 { from, offset, to } => contents.append_text(
            mov_qword_reg_plus_offset_pointer_to_reg_code(
                register_code(from),
                offset,
                register_code(to),
            ),
        ),
        ByteCodeInstruction::SubValueFromReg8 { value, from } => contents.append_text(
            sub_byte_value_from_reg_code(value, register_code(from)),
        ),
        ByteCodeInstruction::AddValueToReg8 { value, to } => contents.append_text(
            add_byte_value_to_reg_code(value, register_code(to)),
        ),
        ByteCodeInstruction::ZeroReg64(register) => contents.append_text(
            xor_qword_reg_into_reg_code(register_code(register), register_code(register)),
        ),
        ByteCodeInstruction::Return => contents.append_text(ret_code()),
        ByteCodeInstruction::LoadDataSectionAddressToReg64 { data_section_offset, to } =>
            contents.append_text(
            lea_reg_plus_offset_pointer_to_reg_code(REG_IP, register_code(to)),
        ).append_relocated_value(
            DATA_SECTION_SYMBOL_INDEX,
            data_section_offset,
            IMAGE_REL_AMD64_REL32,
        ),
    }
}

/// What a sequence of instructions adds to an object, first to last.
pub open spec fn encode_instructions(
    contents: CoffContents,
    instructions: Seq<ByteCodeInstruction>,
    number_of_symbols: nat,
) -> CoffContents
    decreases instructions.len(),
{
    if instructions.len() == 0 {
        contents
    } else {
        encode_instructions(
            encode_instruction(contents, instructions.first(), number_of_symbols),
            instructions.drop_first(),
            number_of_symbols,
        )
    }
}

/// The bytes that a data item has in `.data`.
pub open spec fn data_item_bytes(item: ByteCodeDataItem) -> Seq<u8> {
    match item {
        ByteCodeDataItem::String { value } => encode_utf8(value@),
    }
}

/// What a sequence of data items adds to `.data`, first to last.
pub open spec fn append_data_items(
    contents: CoffContents,
    items: Seq<ByteCodeDataItem>,
) -> CoffContents
    decreases items.len(),
{
    if items.len() == 0 {
        contents
    } else {
        append_data_items(
            contents.append_data(data_item_bytes(items.first())),
            items.drop_first(),
        )
    }
}

/// The name field of the `.absolut` symbol.
pub open spec fn absolut_symbol_name() -> Seq<u8> {
    seq![0x2Eu8, 0x61u8, 0x62u8, 0x73u8, 0x6Fu8, 0x6Cu8, 0x75u8, 0x74u8]
}

/// The seven records that every object's symbol table starts with: `.file`
/// and the file's name, `.data` and `.text` with their definitions, and
/// `.absolut`.
pub open spec fn append_leading_symbols(contents: CoffContents, file_name: Seq<u8>) -> CoffContents {
    contents.append_debug_file_name(
        file_name,
    ).append_data_section_definition().append_text_section_definition().append_symbol(
        SymbolRecord::ShortNamed {
            name: absolut_symbol_name(),
            value: 0,
            section_number: IMAGE_SYM_ABSOLUTE,
            symbol_type: 0,
            storage_class: IMAGE_SYM_CLASS_STATIC,
            number_of_auxillary_symbols: 0,
        },
    )
}

/// The symbol table record of one of the unit's symbols, with its name in
/// the string table where it is longer than 8 bytes.
pub open spec fn append_byte_code_symbol(
    contents: CoffContents,
    symbol: ByteCodeSymbol,
) -> CoffContents {
    match symbol {
        ByteCodeSymbol::DataSectionItem { name, value } => contents.append_static_symbol(
            encode_utf8(name@),
            value,
            1,
        ),
        ByteCodeSymbol::ForeignExternal { name } => contents.append_external_symbol(
            encode_utf8(name@),
            0,
            0,
        ),
        ByteCodeSymbol::AbsoluteExternal { name, value } => contents.append_external_symbol(
            encode_utf8(name@),
            value,
            IMAGE_SYM_ABSOLUTE,
        ),
        ByteCodeSymbol::ExternalCodeLabel { name, position } => contents.append_external_symbol(
            encode_utf8(name@),
            position,
            2,
        ),
    }
}

/// The records of a unit's symbols, last to first.
pub open spec fn append_byte_code_symbols_reversed(
    contents: CoffContents,
    symbols: Seq<ByteCodeSymbol>,
) -> CoffContents
    decreases symbols.len(),
{
    if symbols.len() == 0 {
        contents
    } else {
        append_byte_code_symbols_reversed(
            append_byte_code_symbol(contents, symbols.last()),
            symbols.drop_last(),
        )
    }
}

/// What lowering a unit adds to an object: the code of its instructions, its
/// data items, the leading symbols, and its own symbols in reverse.
pub open spec fn machine_code_object(
    contents: CoffContents,
    ir: IntermediateRepresentation,
) -> CoffContents {
    append_byte_code_symbols_reversed(
        append_leading_symbols(
            append_data_items(
                encode_instructions(contents, ir.byte_code@, ir.symbols@.len()),
                ir.data@,
            ),
            encode_utf8(ir.filename@),
        ),
        ir.symbols@,
    )
}

/// The source file's name without the extension `.hep`, if it ends in it.
pub open spec fn file_root(filename: Seq<char>) -> Seq<char> {
    if filename.len() >= 4 && filename.subrange(filename.len() - 4, filename.len() as int)
        == seq!['.', 'h', 'e', 'p'] {
        filename.subrange(0, filename.len() - 4)
    } else {
        filename
    }
}

/// The name of the object file of a unit: the file's root, a hyphen, the
/// unit's top-level symbol, and `.obj`.
pub open spec fn object_file_name(filename: Seq<char>, top_level_symbol: Seq<char>) -> Seq<char> {
    file_root(filename) + seq!['-'] + top_level_symbol + seq!['.', 'o', 'b', 'j']
}

/// Whether a unit can be lowered into an object: the object is well formed,
/// every instruction can be encoded, and the finished object is within the
/// limits of the file format.
pub open spec fn can_build_machine_code_object(coff: Coff, ir: IntermediateRepresentation) -> bool {
    &&& coff.wf()
    &&& forall|i: int|
        0 <= i < ir.byte_code@.len() ==> instruction_is_encodable(
            #[trigger] ir.byte_code@[i],
            ir.symbols@.len(),
        )
    &&& machine_code_object(coff@, ir).fits()
}

/// An instruction leaves data, symbols and names as they are, and takes
/// nothing from `.text` or the relocations.
pub proof fn lemma_encode_instruction_extends(
    contents: CoffContents,
    instruction: ByteCodeInstruction,
    number_of_symbols: nat,
)
    ensures
        encode_instruction(contents, instruction, number_of_symbols).extends(contents),
{
}

/// Encoding instructions only adds to an object.
pub proof fn lemma_encode_instructions_extends(
    contents: CoffContents,
    instructions: Seq<ByteCodeInstruction>,
    number_of_symbols: nat,
)
    ensures
        encode_instructions(contents, instructions, number_of_symbols).extends(contents),
    decreases instructions.len(),
{
    if instructions.len() > 0 {
        let next = encode_instruction(contents, instructions.first(), number_of_symbols);
        lemma_encode_instruction_extends(contents, instructions.first(), number_of_symbols);
        lemma_encode_instructions_extends(next, instructions.drop_first(), number_of_symbols);
    }
}

/// Appending data items only adds to an object.
pub proof fn lemma_append_data_items_extends(contents: CoffContents, items: Seq<ByteCodeDataItem>)
    ensures
        append_data_items(contents, items).extends(contents),
    decreases items.len(),
{
    if items.len() > 0 {
        lemma_append_data_items_extends(
            contents.append_data(data_item_bytes(items.first())),
            items.drop_first(),
        );
    }
}

/// The leading symbols are seven records, and nothing else changes.
pub proof fn lemma_append_leading_symbols_extends(contents: CoffContents, file_name: Seq<u8>)
    ensures
        append_leading_symbols(contents, file_name).extends(contents),
        append_leading_symbols(contents, file_name).symbols.len() == contents.symbols.len() + 7,
{
}

/// Appending a unit's symbols only adds to an object.
pub proof fn lemma_append_byte_code_symbols_reversed_extends(
    contents: CoffContents,
    symbols: Seq<ByteCodeSymbol>,
)
    ensures
        append_byte_code_symbols_reversed(contents, symbols).extends(contents),
    decreases symbols.len(),
{
    if symbols.len() > 0 {
        lemma_append_byte_code_symbols_reversed_extends(
            append_byte_code_symbol(contents, symbols.last()),
            symbols.drop_last(),
        );
    }
}

/// What an object holds stays where it is when later contents are put
/// behind it.
pub proof fn lemma_extends_is_transitive(
    first: CoffContents,
    second: CoffContents,
    third: CoffContents,
)
    requires
        second.extends(first),
        third.extends(second),
    ensures
        third.extends(first),
{
}

/// Lowering a unit only adds to an object: what the object held before
/// stays, byte for byte and entry for entry, in front of what is new.
pub proof fn lemma_machine_code_object_extends(
    contents: CoffContents,
    ir: IntermediateRepresentation,
)
    ensures
        machine_code_object(contents, ir).extends(contents),
{
    let after_code = encode_instructions(contents, ir.byte_code@, ir.symbols@.len());
    let after_data = append_data_items(after_code, ir.data@);
    let after_leading = append_leading_symbols(after_data, encode_utf8(ir.filename@));
    let object = machine_code_object(contents, ir);
    lemma_encode_instructions_extends(contents, ir.byte_code@, ir.symbols@.len());
    lemma_append_data_items_extends(after_code, ir.data@);
    lemma_append_leading_symbols_extends(after_data, encode_utf8(ir.filename@));
    lemma_append_byte_code_symbols_reversed_extends(after_leading, ir.symbols@);
    lemma_extends_is_transitive(contents, after_code, after_data);
    lemma_extends_is_transitive(contents, after_data, after_leading);
    lemma_extends_is_transitive(contents, after_leading, object);
}

/// The name, value, section number and storage class of the record that a
/// unit's symbol gets.
pub open spec fn byte_code_symbol_fields(symbol: ByteCodeSymbol) -> (Seq<u8>, u32, u16, u8) {
    match symbol {
        ByteCodeSymbol::DataSectionItem { name, value } => (
            encode_utf8(name@),
            value,
            1u16,
            IMAGE_SYM_CLASS_STATIC,
        ),
        ByteCodeSymbol::ForeignExternal { name } => (
            encode_utf8(name@),
            0u32,
            0u16,
            IMAGE_SYM_CLASS_EXTERNAL,
        ),
        ByteCodeSymbol::AbsoluteExternal { name, value } => (
            encode_utf8(name@),
            value,
            IMAGE_SYM_ABSOLUTE,
            IMAGE_SYM_CLASS_EXTERNAL,
        ),
        ByteCodeSymbol::ExternalCodeLabel { name, position } => (
            encode_utf8(name@),
            position,
            2u16,
            IMAGE_SYM_CLASS_EXTERNAL,
        ),
    }
}

/// Whether `record` is the record of the unit's symbol `symbol`: it has the
/// symbol's value, section number and storage class, and either holds its
/// name or, for a name of more than 8 bytes, is long-named.
pub open spec fn record_describes(record: SymbolRecord, symbol: ByteCodeSymbol) -> bool {
    let (name, value, section_number, storage_class) = byte_code_symbol_fields(symbol);
    if name.len() <= 8 {
        record == (SymbolRecord::ShortNamed {
            name: zero_padded(name, 8),
            value,
            section_number,
            symbol_type: 0,
            storage_class,
            number_of_auxillary_symbols: 0,
        })
    } else {
        exists|pointer_to_string_table: u32|
            record == (SymbolRecord::LongNamed {
                pointer_to_string_table,
                value,
                section_number,
                symbol_type: 0,
                storage_class,
                number_of_auxillary_symbols: 0,
            })
    }
}

/// The records of a unit's symbols stand behind what the object held, last
/// symbol first.
pub proof fn lemma_reversed_symbol_positions(
    contents: CoffContents,
    symbols: Seq<ByteCodeSymbol>,
    index: int,
)
    requires
        0 <= index < symbols.len(),
    ensures
        ({
            let result = append_byte_code_symbols_reversed(contents, symbols);
            &&& result.symbols.len() == contents.symbols.len() + symbols.len()
            &&& record_describes(
                result.symbols[contents.symbols.len() + symbols.len() - 1 - index],
                symbols[index],
            )
        }),
    decreases symbols.len(),
{
    let next = append_byte_code_symbol(contents, symbols.last());
    let rest = symbols.drop_last();
    let result = append_byte_code_symbols_reversed(next, rest);
    lemma_append_byte_code_symbols_reversed_extends(next, rest);
    lemma_reversed_symbols_count(next, rest);
    if index == symbols.len() - 1 {
        assert(result.symbols[contents.symbols.len() as int] == next.symbols.last());
        let (name, value, section_number, storage_class) = byte_code_symbol_fields(symbols.last());
        if name.len() > 8 {
            assert(next.symbols.last() is LongNamed);
            assert(next.symbols.last() == (SymbolRecord::LongNamed {
                pointer_to_string_table: next.symbols.last()->LongNamed_pointer_to_string_table,
                value,
                section_number,
                symbol_type: 0,
                storage_class,
                number_of_auxillary_symbols: 0,
            }));
        }
    } else {
        lemma_reversed_symbol_positions(next, rest, index);
    }
}

/// Lowering a unit's symbols adds one record for each.
pub proof fn lemma_reversed_symbols_count(contents: CoffContents, symbols: Seq<ByteCodeSymbol>)
    ensures
        append_byte_code_symbols_reversed(contents, symbols).symbols.len()
            == contents.symbols.len() + symbols.len(),
    decreases symbols.len(),
{
    if symbols.len() > 0 {
        lemma_reversed_symbols_count(
            append_byte_code_symbol(contents, symbols.last()),
            symbols.drop_last(),
        );
    }
}

/// In an object that held no symbols before, the symbol index that the
/// relocations of a unit carry is the place of the symbol's record: the
/// unit's symbol `index` stands at `coff_symbol_index`, and the symbol of the
/// `.data` section at `DATA_SECTION_SYMBOL_INDEX`.
pub proof fn lemma_symbol_index_names_symbol(
    contents: CoffContents,
    ir: IntermediateRepresentation,
    index: u32,
)
    requires
        contents.symbols.len() == 0,
        index < ir.symbols@.len(),
    ensures
        ({
            let object = machine_code_object(contents, ir);
            let place = coff_symbol_index(ir.symbols@.len(), index);
            &&& object.symbols.len() == 7 + ir.symbols@.len()
            &&& LEADING_SYMBOL_RECORDS < place < object.symbols.len()
            &&& record_describes(object.symbols[place], ir.symbols@[index as int])
            &&& object.symbols[DATA_SECTION_SYMBOL_INDEX as int] == (SymbolRecord::ShortNamed {
                name: crate::machine_code::coff::data_section_name(),
                value: 0,
                section_number: 1,
                symbol_type: 0,
                storage_class: IMAGE_SYM_CLASS_STATIC,
                number_of_auxillary_symbols: 1,
            })
        }),
{
    let after_code = encode_instructions(contents, ir.byte_code@, ir.symbols@.len());
    let after_data = append_data_items(after_code, ir.data@);
    let after_leading = append_leading_symbols(after_data, encode_utf8(ir.filename@));
    lemma_encode_instructions_extends(contents, ir.byte_code@, ir.symbols@.len());
    lemma_encode_instructions_keep_symbols(contents, ir.byte_code@, ir.symbols@.len());
    lemma_append_data_items_extends(after_code, ir.data@);
    lemma_append_data_items_keep_symbols(after_code, ir.data@);
    lemma_append_leading_symbols_extends(after_data, encode_utf8(ir.filename@));
    lemma_append_byte_code_symbols_reversed_extends(after_leading, ir.symbols@);
    lemma_reversed_symbol_positions(after_leading, ir.symbols@, index as int);
    assert(after_leading.symbols[2] == machine_code_object(contents, ir).symbols[2]);
}

/// Instructions leave the symbol table as it is.
pub proof fn lemma_encode_instructions_keep_symbols(
    contents: CoffContents,
    instructions: Seq<ByteCodeInstruction>,
    number_of_symbols: nat,
)
    ensures
        encode_instructions(contents, instructions, number_of_symbols).symbols
            == contents.symbols,
        encode_instructions(contents, instructions, number_of_symbols).strings
            == contents.strings,
        encode_instructions(contents, instructions, number_of_symbols).data == contents.data,
    decreases instructions.len(),
{
    if instructions.len() > 0 {
        lemma_encode_instructions_keep_symbols(
            encode_instruction(contents, instructions.first(), number_of_symbols),
            instructions.drop_first(),
            number_of_symbols,
        );
    }
}

/// Data items leave everything but `.data` as it is.
pub proof fn lemma_append_data_items_keep_symbols(
    contents: CoffContents,
    items: Seq<ByteCodeDataItem>,
)
    ensures
        append_data_items(contents, items) == (CoffContents {
            data: append_data_items(contents, items).data,
            ..contents
        }),
    decreases items.len(),
{
    if items.len() > 0 {
        lemma_append_data_items_keep_symbols(
            contents.append_data(data_item_bytes(items.first())),
            items.drop_first(),
        );
    }
}

/// The bytes that the name `.absolut` leaves in a name field.
pub proof fn lemma_absolut_symbol_name()
    ensures
        ".absolut".spec_bytes().len() == 8,
        zero_padded(".absolut".spec_bytes(), 8) == absolut_symbol_name(),
{
    reveal_strlit(".absolut");
    vstd::utf8::is_ascii_chars_encode_utf8(".absolut"@);
    assert(zero_padded(".absolut".spec_bytes(), 8) =~= absolut_symbol_name());
}

/// The source file's name without a trailing `.hep`.
fn strip_hep_extension(filename: &str) -> (root: &str)
    ensures
        root@ == file_root(filename@),
{
    let length = filename.unicode_len();
    if length >= 4 && filename.get_char(length - 4) == '.' && filename.get_char(length - 3) == 'h'
        && filename.get_char(length - 2) == 'e' && filename.get_char(length - 1) == 'p' {
        assert(filename@.subrange(filename@.len() - 4, filename@.len() as int) =~= seq![
            '.',
            'h',
            'e',
            'p',
        ]);
        filename.substring_char(0, length - 4)
    } else {
        proof {
            if filename@.len() >= 4 {
                let tail = filename@.subrange(filename@.len() - 4, filename@.len() as int);
                assert(tail[0] == filename@[filename@.len() - 4]);
                assert(tail[1] == filename@[filename@.len() - 3]);
                assert(tail[2] == filename@[filename@.len() - 2]);
                assert(tail[3] == filename@[filename@.len() - 1]);
            }
        }
        filename
    }
}

/// Lowers one compilation unit into `coff`: the code of its instructions in
/// order, its data items, the seven leading symbols, and the unit's own
/// symbols last to first. Returns the name of the object file to write.
pub fn build_machine_code_object(coff: &mut Coff, ir: IntermediateRepresentation) -> (file_name:
    String)
    requires
        can_build_machine_code_object(*old(coff), ir),
    ensures
        final(coff).wf(),
        final(coff)@ == machine_code_object(old(coff)@, ir),
        file_name@ == object_file_name(ir.filename@, ir.top_level_symbol@),
{
    let number_of_symbols = ir.symbols.len();
    let ghost count = ir.symbols@.len();
    let ghost after_code = encode_instructions(coff@, ir.byte_code@, count);
    let ghost after_data = append_data_items(after_code, ir.data@);
    let ghost after_leading = append_leading_symbols(after_data, encode_utf8(ir.filename@));
    let ghost target = machine_code_object(coff@, ir);
    proof {
        lemma_append_data_items_extends(after_code, ir.data@);
        lemma_append_leading_symbols_extends(after_data, encode_utf8(ir.filename@));
        lemma_append_byte_code_symbols_reversed_extends(after_leading, ir.symbols@);
        lemma_reversed_symbols_count(after_leading, ir.symbols@);
        assert(after_leading.fits());
        assert(after_data.fits());
        assert(after_code.fits());
        assert(LEADING_SYMBOL_RECORDS + count <= u32::MAX);
    }

    let mut i: usize = 0;
    assert(ir.byte_code@.skip(0) =~= ir.byte_code@);
    while i < ir.byte_code.len()
        invariant
            i <= ir.byte_code@.len(),
            coff.wf(),
            number_of_symbols == count,
            count == ir.symbols@.len(),
            LEADING_SYMBOL_RECORDS + count <= u32::MAX,
            forall|k: int|
                0 <= k < ir.byte_code@.len() ==> instruction_is_encodable(
                    #[trigger] ir.byte_code@[k],
                    count,
                ),
            after_code.fits(),
            after_code == encode_instructions(coff@, ir.byte_code@.skip(i as int), count),
        decreases ir.byte_code@.len() - i,
    {
        let op = ir.byte_code[i];
        proof {
            let rest = ir.byte_code@.skip(i as int);
            assert(rest.first() == op);
            assert(rest.drop_first() =~= ir.byte_code@.skip(i + 1));
            assert(instruction_is_encodable(ir.byte_code@[i as int], count));
            lemma_encode_instructions_extends(
                encode_instruction(coff@, op, count),
                rest.drop_first(),
                count,
            );
        }
        match op {
            ByteCodeInstruction::CallToSymbol(symbol_index) => add_call_relocatable_addr_op(
                coff,
                relocatable_value(
                    convert_byte_code_to_coff_symbol_index(number_of_symbols, symbol_index),
                    0x0,
                ),
            ),
            ByteCodeInstruction::PushReg64(register) => add_push_reg_op(
                coff,
                get_register(register),
            ),
            ByteCodeInstruction::PopReg64(register) => add_pop_reg_op(
                coff,
                get_register(register),
            ),
            ByteCodeInstruction::MoveSymbolToReg32 { symbol_index, to } =>
                add_mov_dword_relocatable_value_to_reg_op(
                coff,
                relocatable_value(
                    convert_byte_code_to_coff_symbol_index(number_of_symbols, symbol_index),
                    0x0,
                ),
                get_register(to),
            ),
            ByteCodeInstruction::MoveValueToReg32 { value, to } => add_mov_dword_value_to_reg_op(
                coff,
                value,
                get_register(to),
            ),
            ByteCodeInstruction::MoveRegToReg64 { from, to } => add_mov_from_qword_reg_to_reg_op(
                coff,
                get_register(from),
                get_register(to),
            ),
            ByteCodeInstruction::MoveValueToRegPlusOffset32 { value, to, offset } =>
                add_mov_dword_value_into_reg_plus_offset_pointer_op(
                coff,
                value,
                get_register(to),
                offset,
            ),
            ByteCodeInstruction::MoveRegToRegPlusOffset32 { from, to, offset } =>
                add_mov_reg_to_reg_plus_offset_dword_pointer_op(
                coff,
                get_register(from),
                get_register(to),
                offset,
            ),
            ByteCodeInstruction::MoveRegToRegPlusOffset64 { from, to, offset } =>
                add_mov_reg_to_reg_plus_offset_qword_pointer_op(
                coff,
                get_register(from),
                get_register(to),
                offset,
            ),
            ByteCodeInstruction::MoveRegPlusOffsetToReg32 { from, offset, to } =>
                add_mov_dword_reg_plus_offset_pointer_to_reg_op(
                coff,
                get_register(from),
                offset,
                get_register(to),
            ),
            ByteCodeInstruction::MoveRegPlusOffsetToReg64 { from, offset, to } =>
                add_mov_qword_reg_plus_offset_pointer_to_reg_op(
                coff,
                get_register(from),
                offset,
                get_register(to),
            ),
            ByteCodeInstruction::SubValueFromReg8 { value, from } => add_sub_byte_value_from_reg_op(
                coff,
                value,
                get_register(from),
            ),
            ByteCodeInstruction::AddValueToReg8 { value, to } => add_add_byte_value_to_reg_op(
                coff,
                value,
                get_register(to),
            ),
            ByteCodeInstruction::ZeroReg64(register) => add_xor_qword_reg_into_reg_op(
                coff,
                get_register(register),
                get_register(register),
            ),
            ByteCodeInstruction::Return => add_ret_op(coff),
            ByteCodeInstruction::LoadDataSectionAddressToReg64 { data_section_offset, to } =>
                add_lea_reg_plus_offset_pointer_to_reg_op(
                coff,
                REG_IP,
                relocatable_value(DATA_SECTION_SYMBOL_INDEX, data_section_offset),
                get_register(to),
            ),
        }
        i = i + 1;
    }

    let mut j: usize = 0;
    assert(ir.data@.skip(0) =~= ir.data@);
    while j < ir.data.len()
        invariant
            j <= ir.data@.len(),
            coff.wf(),
            after_data.fits(),
            after_data == append_data_items(coff@, ir.data@.skip(j as int)),
        decreases ir.data@.len() - j,
    {
        proof {
            let rest = ir.data@.skip(j as int);
            assert(rest.first() == ir.data@[j as int]);
            assert(rest.drop_first() =~= ir.data@.skip(j + 1));
            lemma_append_data_items_extends(
                coff@.append_data(data_item_bytes(rest.first())),
                rest.drop_first(),
            );
        }
        match &ir.data[j] {
            ByteCodeDataItem::String { value } => {
                add_string_to_data_section(coff, value.as_str());
            },
        }
        j = j + 1;
    }

    proof {
        lemma_absolut_symbol_name();
    }
    add_debug_file_name_symbols(coff, ir.filename.as_str());
    add_data_section_header_symbols(coff);
    add_text_section_header_symbols(coff);
    add_absolute_static_symbol(coff, ".absolut", 0);
    assert(coff@ == after_leading);

    let mut symbol_index: usize = ir.symbols.len();
    assert(ir.symbols@.take(symbol_index as int) =~= ir.symbols@);
    while symbol_index > 0
        invariant
            symbol_index <= ir.symbols@.len(),
            coff.wf(),
            target.fits(),
            target == append_byte_code_symbols_reversed(
                coff@,
                ir.symbols@.take(symbol_index as int),
            ),
        decreases symbol_index,
    {
        symbol_index = symbol_index - 1;
        proof {
            let rest = ir.symbols@.take(symbol_index + 1);
            assert(rest.last() == ir.symbols@[symbol_index as int]);
            assert(rest.drop_last() =~= ir.symbols@.take(symbol_index as int));
            lemma_append_byte_code_symbols_reversed_extends(
                append_byte_code_symbol(coff@, rest.last()),
                rest.drop_last(),
            );
        }
        match &ir.symbols[symbol_index] {
            ByteCodeSymbol::DataSectionItem { name, value } => add_data_section_static_symbol(
                coff,
                name.as_str(),
                *value,
            ),
            ByteCodeSymbol::ForeignExternal { name } => add_foreign_external_symbol(
                coff,
                name.as_str(),
            ),
            ByteCodeSymbol::AbsoluteExternal { name, value } => add_absolute_external_symbol(
                coff,
                name.as_str(),
                *value,
            ),
            ByteCodeSymbol::ExternalCodeLabel { name, position } =>
                add_text_section_external_symbol(coff, name.as_str(), *position),
        }
    }

    let file_root = strip_hep_extension(ir.filename.as_str());
    let mut file_name = String::from_str(file_root);
    file_name.append("-");
    file_name.append(ir.top_level_symbol.as_str());
    file_name.append(".obj");
    proof {
        reveal_strlit("-");
        reveal_strlit(".obj");
        assert(file_name@ =~= object_file_name(ir.filename@, ir.top_level_symbol@));
    }
    file_name
}

/// The position in the object's symbol table of the unit's symbol
/// `symbol_index`: the unit's symbols stand there in reverse, behind the
/// leading records.
pub fn convert_byte_code_to_coff_symbol_index(number_of_symbols: usize, symbol_index: u32) -> (index:
    u32)
    requires
        LEADING_SYMBOL_RECORDS + number_of_symbols <= u32::MAX,
        symbol_index <= LEADING_SYMBOL_RECORDS + number_of_symbols,
    ensures
        index == coff_symbol_index(number_of_symbols as nat, symbol_index),
{
    (6 + number_of_symbols) as u32 - symbol_index
}

/// The code of the register that plays the given role.
pub fn get_register(register: ByteCodeRegister) -> (code: u8)
    requires
        register_is_supported(register),
    ensures
        code == register_code(register),
{
    match register {
        ByteCodeRegister::CallArg(number) => if number == 0 {
            REG_CX
        } else if number == 1 {
            REG_DX
        } else if number == 2 {
            REG_R8
        } else {
            REG_R9
        },
        ByteCodeRegister::CallReturnArg(_) => REG_AX,
        ByteCodeRegister::StackPointer => REG_SP,
        ByteCodeRegister::BasePointer => REG_BP,
    }
}

} // verus!
