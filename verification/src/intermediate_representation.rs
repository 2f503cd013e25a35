//! The register-level byte code that the back end lowers: one compilation
//! unit holds its instructions, the symbols they refer to and its data items.

use vstd::prelude::*;

verus! {

/// Tag of a compilation unit.
#[derive(Eq, PartialEq, Debug, Clone, Copy, Hash)]
pub struct CompilationUnitId {
    pub id: usize,
}

pub fn compilation_unit_id(id: usize) -> (unit: CompilationUnitId)
    ensures
        unit.id == id,
{
    CompilationUnitId { id }
}

/// One compilation unit.
#[derive(Debug, Clone)]
pub struct IntermediateRepresentation {
    pub id: CompilationUnitId,
    pub filename: String,
    pub top_level_symbol: String,
    pub byte_code: ByteCodeInstructionStream,
    pub symbols: ByteCodeSymbols,
    pub data: ByteCodeData,
}

/// A unit without instructions, symbols or data.
pub fn create_intermediate_representation(
    id: CompilationUnitId,
    filename: String,
    top_level_symbol: String,
) -> (unit: IntermediateRepresentation)
    ensures
        unit.id == id,
        unit.filename == filename,
        unit.top_level_symbol == top_level_symbol,
        unit.byte_code@ == Seq::<ByteCodeInstruction>::empty(),
        unit.symbols@ == Seq::<ByteCodeSymbol>::empty(),
        unit.data@ == Seq::<ByteCodeDataItem>::empty(),
{
    IntermediateRepresentation {
        id,
        filename,
        top_level_symbol,
        byte_code: Vec::new(),
        symbols: Vec::new(),
        data: Vec::new(),
    }
}

/// A register by its role in the calling convention.
#[derive(Debug, Copy, Clone, PartialEq)]
pub enum ByteCodeRegister {
    /// The register of the call argument with this index, from 0.
    CallArg(usize),
    /// The register of the returned value with this index, from 0.
    CallReturnArg(usize),
    StackPointer,
    BasePointer,
}

pub fn call_arg_register(number: usize) -> (register: ByteCodeRegister)
    ensures
        register == ByteCodeRegister::CallArg(number),
{
    ByteCodeRegister::CallArg(number)
}

pub fn call_return_arg_register(number: usize) -> (register: ByteCodeRegister)
    ensures
        register == ByteCodeRegister::CallReturnArg(number),
{
    ByteCodeRegister::CallReturnArg(number)
}

pub fn base_pointer_register() -> (register: ByteCodeRegister)
    ensures
        register == ByteCodeRegister::BasePointer,
{
    ByteCodeRegister::BasePointer
}

pub fn stack_pointer_register() -> (register: ByteCodeRegister)
    ensures
        register == ByteCodeRegister::StackPointer,
{
    ByteCodeRegister::StackPointer
}

/// One instruction of the byte code.
#[allow(inconsistent_fields)]
#[derive(Debug, Copy, Clone, PartialEq)]
pub enum ByteCodeInstruction {
    /// Call of the unit's symbol with this index.
    CallToSymbol(u32),
    AddValueToReg8 { value: u8, to: ByteCodeRegister },
    SubValueFromReg8 { value: u8, from: ByteCodeRegister },
    /// Load of the address of the unit's symbol with this index.
    MoveSymbolToReg32 { symbol_index: u32, to: ByteCodeRegister },
    MoveValueToReg32 { value: u32, to: ByteCodeRegister },
    MoveRegToReg64 { from: ByteCodeRegister, to: ByteCodeRegister },
    MoveValueToRegPlusOffset32 { value: u32, to: ByteCodeRegister, offset: u8 },
    MoveRegToRegPlusOffset32 { from: ByteCodeRegister, to: ByteCodeRegister, offset: u8 },
    MoveRegToRegPlusOffset64 { from: ByteCodeRegister, to: ByteCodeRegister, offset: u8 },
    MoveRegPlusOffsetToReg32 { from: ByteCodeRegister, offset: u8, to: ByteCodeRegister },
    MoveRegPlusOffsetToReg64 { from: ByteCodeRegister, offset: u8, to: ByteCodeRegister },
    /// Load of the address of the byte at this offset of the data section.
    LoadDataSectionAddressToReg64 { data_section_offset: u32, to: ByteCodeRegister },
    PushReg64(ByteCodeRegister),
    PopReg64(ByteCodeRegister),
    ZeroReg64(ByteCodeRegister),
    Return,
}

pub fn call_to_symbol_instruction(symbol_index: u32) -> (instruction: ByteCodeInstruction)
    ensures
        instruction == ByteCodeInstruction::CallToSymbol(symbol_index),
{
    ByteCodeInstruction::CallToSymbol(symbol_index)
}

pub fn push_reg_64_instruction(register: ByteCodeRegister) -> (instruction: ByteCodeInstruction)
    ensures
        instruction == ByteCodeInstruction::PushReg64(register),
{
    ByteCodeInstruction::PushReg64(register)
}

pub fn pop_reg_64_instruction(register: ByteCodeRegister) -> (instruction: ByteCodeInstruction)
    ensures
        instruction == ByteCodeInstruction::PopReg64(register),
{
    ByteCodeInstruction::PopReg64(register)
}

pub fn add_value_to_reg_8_instruction(value: u8, to: ByteCodeRegister) -> (instruction:
    ByteCodeInstruction)
    ensures
        instruction == (ByteCodeInstruction::AddValueToReg8 { value, to }),
{
    ByteCodeInstruction::AddValueToReg8 { value, to }
}

pub fn sub_value_from_reg_8_instruction(value: u8, from: ByteCodeRegister) -> (instruction:
    ByteCodeInstruction)
    ensures
        instruction == (ByteCodeInstruction::SubValueFromReg8 { value, from }),
{
    ByteCodeInstruction::SubValueFromReg8 { value, from }
}

pub fn move_symbol_to_reg_32_instruction(symbol_index: u32, to: ByteCodeRegister) -> (instruction:
    ByteCodeInstruction)
    ensures
        instruction == (ByteCodeInstruction::MoveSymbolToReg32 { symbol_index, to }),
{
    ByteCodeInstruction::MoveSymbolToReg32 { symbol_index, to }
}

pub fn move_value_to_reg_32_instruction(value: u32, to: ByteCodeRegister) -> (instruction:
    ByteCodeInstruction)
    ensures
        instruction == (ByteCodeInstruction::MoveValueToReg32 { value, to }),
{
    ByteCodeInstruction::MoveValueToReg32 { value, to }
}

pub fn move_reg_to_reg_64_instruction(from: ByteCodeRegister, to: ByteCodeRegister) -> (instruction:
    ByteCodeInstruction)
    ensures
        instruction == (ByteCodeInstruction::MoveRegToReg64 { from, to }),
{
    ByteCodeInstruction::MoveRegToReg64 { from, to }
}

pub fn move_value_to_reg_plus_offset_32_instruction(
    value: u32,
    to: ByteCodeRegister,
    offset: u8,
) -> (instruction: ByteCodeInstruction)
    ensures
        instruction == (ByteCodeInstruction::MoveValueToRegPlusOffset32 { value, to, offset }),
{
    ByteCodeInstruction::MoveValueToRegPlusOffset32 { value, to, offset }
}

pub fn move_reg_to_reg_plus_offset_64_instruction(
    from: ByteCodeRegister,
    to: ByteCodeRegister,
    offset: u8,
) -> (instruction: ByteCodeInstruction)
    ensures
        instruction == (ByteCodeInstruction::MoveRegToRegPlusOffset64 { from, to, offset }),
{
    ByteCodeInstruction::MoveRegToRegPlusOffset64 { from, to, offset }
}

pub fn move_reg_to_reg_plus_offset_32_instruction(
    from: ByteCodeRegister,
    to: ByteCodeRegister,
    offset: u8,
) -> (instruction: ByteCodeInstruction)
    ensures
        instruction == (ByteCodeInstruction::MoveRegToRegPlusOffset32 { from, to, offset }),
{
    ByteCodeInstruction::MoveRegToRegPlusOffset32 { from, to, offset }
}

pub fn move_reg_plus_offset_to_reg_32_instruction(
    from: ByteCodeRegister,
    offset: u8,
    to: ByteCodeRegister,
) -> (instruction: ByteCodeInstruction)
    ensures
        instruction == (ByteCodeInstruction::MoveRegPlusOffsetToReg32 { from, offset, to }),
{
    ByteCodeInstruction::MoveRegPlusOffsetToReg32 { from, offset, to }
}

pub fn move_reg_plus_offset_to_reg_64_instruction(
    from: ByteCodeRegister,
    offset: u8,
    to: ByteCodeRegister,
) -> (instruction: ByteCodeInstruction)
    ensures
        instruction == (ByteCodeInstruction::MoveRegPlusOffsetToReg64 { from, offset, to }),
{
    ByteCodeInstruction::MoveRegPlusOffsetToReg64 { from, offset, to }
}

pub fn load_data_section_address_to_reg_64(data_section_offset: u32, to: ByteCodeRegister) -> (
    instruction: ByteCodeInstruction)
    ensures
        instruction == (ByteCodeInstruction::LoadDataSectionAddressToReg64 {
            data_section_offset,
            to,
        }),
{
    ByteCodeInstruction::LoadDataSectionAddressToReg64 { data_section_offset, to }
}

pub fn zero_reg_64_instruction(register: ByteCodeRegister) -> (instruction: ByteCodeInstruction)
    ensures
        instruction == ByteCodeInstruction::ZeroReg64(register),
{
    ByteCodeInstruction::ZeroReg64(register)
}

pub fn ret_instruction() -> (instruction: ByteCodeInstruction)
    ensures
        instruction == ByteCodeInstruction::Return,
{
    ByteCodeInstruction::Return
}

pub type ByteCodeInstructionStream = Vec<ByteCodeInstruction>;

/// Appends `instruction` to the stream.
pub fn add_byte_code(
    byte_code_stream: &mut ByteCodeInstructionStream,
    instruction: ByteCodeInstruction,
)
    ensures
        final(byte_code_stream)@ == old(byte_code_stream)@.push(instruction),
{
    byte_code_stream.push(instruction);
}

/// A symbol that the unit defines or refers to.
#[allow(inconsistent_fields)]
#[derive(Debug, Clone)]
pub enum ByteCodeSymbol {
    /// The item at offset `value` of the data section.
    DataSectionItem { name: String, value: u32 },
    /// A symbol that another object defines.
    ForeignExternal { name: String },
    /// A constant that other objects can see.
    AbsoluteExternal { name: String, value: u32 },
    /// The code at offset `position` of the text section.
    ExternalCodeLabel { name: String, position: u32 },
}

pub type ByteCodeSymbols = Vec<ByteCodeSymbol>;

pub fn data_section_item(name: String, value: u32) -> (symbol: ByteCodeSymbol)
    ensures
        symbol == (ByteCodeSymbol::DataSectionItem { name, value }),
{
    ByteCodeSymbol::DataSectionItem { name, value }
}

pub fn foreign_external(name: String) -> (symbol: ByteCodeSymbol)
    ensures
        symbol == (ByteCodeSymbol::ForeignExternal { name }),
{
    ByteCodeSymbol::ForeignExternal { name }
}

pub fn absolute_external(name: String, value: u32) -> (symbol: ByteCodeSymbol)
    ensures
        symbol == (ByteCodeSymbol::AbsoluteExternal { name, value }),
{
    ByteCodeSymbol::AbsoluteExternal { name, value }
}

pub fn external_code_label(name: String, position: u32) -> (symbol: ByteCodeSymbol)
    ensures
        symbol == (ByteCodeSymbol::ExternalCodeLabel { name, position }),
{
    ByteCodeSymbol::ExternalCodeLabel { name, position }
}

/// The position of an entry as an index of 32 bits: the position itself
/// where it fits, and its low 32 bits where it does not.
pub open spec fn index_of_position(position: nat) -> u32 {
    (position % 0x1_0000_0000) as u32
}

fn position_to_index(position: usize) -> (index: u32)
    ensures
        index == index_of_position(position as nat),
{
    let wide: u64 = position as u64;
    let low: u64 = wide & 0xFFFF_FFFF;
    assert(wide & 0xFFFF_FFFF == wide % 0x1_0000_0000) by (bit_vector);
    low as u32
}

/// Appends `symbol` and returns its index, by which instructions refer to
/// it: the number of symbols that were there before.
pub fn add_symbol(symbols: &mut ByteCodeSymbols, symbol: ByteCodeSymbol) -> (index: u32)
    ensures
        final(symbols)@ == old(symbols)@.push(symbol),
        index == index_of_position(old(symbols)@.len()),
        old(symbols)@.len() <= u32::MAX ==> index == old(symbols)@.len(),
{
    symbols.push(symbol);
    position_to_index(symbols.len() - 1)
}

/// An item of the data section.
#[derive(Debug, Clone)]
pub enum ByteCodeDataItem {
    /// The bytes of `value`, as they are.
    String { value: String },
}

pub type ByteCodeData = Vec<ByteCodeDataItem>;

pub fn string_data_item(value: String) -> (item: ByteCodeDataItem)
    ensures
        item == (ByteCodeDataItem::String { value }),
{
    ByteCodeDataItem::String { value }
}

/// Appends `item` and returns its index: the number of items that were there
/// before.
pub fn add_data_item(data: &mut ByteCodeData, item: ByteCodeDataItem) -> (index: u32)
    ensures
        final(data)@ == old(data)@.push(item),
        index == index_of_position(old(data)@.len()),
        old(data)@.len() <= u32::MAX ==> index == old(data)@.len(),
{
    data.push(item);
    position_to_index(data.len() - 1)
}

} // verus!
