//! Telling, before anything is written, whether a compilation unit can be
//! lowered into an object, and if not, why.

use crate::intermediate_representation::{
    ByteCodeDataItem,
    ByteCodeInstruction,
    ByteCodeRegister,
    ByteCodeSymbol,
    IntermediateRepresentation,
};
use crate::machine_code::builder::{
    append_byte_code_symbol,
    append_byte_code_symbols_reversed,
    append_data_items,
    append_leading_symbols,
    can_build_machine_code_object,
    data_item_bytes,
    encode_instruction,
    encode_instructions,
    get_register,
    instruction_is_encodable,
    lemma_append_byte_code_symbols_reversed_extends,
    lemma_append_data_items_extends,
    lemma_append_leading_symbols_extends,
    lemma_encode_instructions_extends,
    machine_code_object,
    register_is_supported,
    LEADING_SYMBOL_RECORDS,
};
use crate::machine_code::coff::{
    Coff,
    CoffContents,
    HEADER_SIZE,
    RELOCATION_ENTRY_SIZE,
    SECTION_HEADER_SIZE,
};
use crate::machine_code::registers::register_has_high_bit;
use vstd::prelude::*;
use vstd::utf8::encode_utf8;

verus! {

/// Why a compilation unit cannot be lowered.
#[derive(Debug, Clone, Copy, PartialEq)]
pub enum LoweringError {
    /// The calling convention has no register for this role: the call
    /// argument has to go on the stack, or the returned value is not the
    /// first.
    UnsupportedRegister(ByteCodeRegister),
    /// An instruction refers to a symbol index that has no place in the
    /// symbol table.
    SymbolIndexOutOfRange(u32),
    /// The finished object would exceed a size or count that the file format
    /// can hold.
    ObjectTooLarge,
}

/// The first of two findings.
pub open spec fn first_error(
    first: Option<LoweringError>,
    second: Option<LoweringError>,
) -> Option<LoweringError> {
    if first is Some {
        first
    } else {
        second
    }
}

/// What stops a register from being used, if anything does.
pub open spec fn register_error(register: ByteCodeRegister) -> Option<LoweringError> {
    if register_is_supported(register) {
        None
    } else {
        Some(LoweringError::UnsupportedRegister(register))
    }
}

/// What stops a symbol index from being used in a unit with
/// `number_of_symbols` symbols, if anything does.
pub open spec fn symbol_index_error(
    symbol_index: u32,
    number_of_symbols: nat,
) -> Option<LoweringError> {
    if symbol_index <= LEADING_SYMBOL_RECORDS + number_of_symbols {
        None
    } else {
        Some(LoweringError::SymbolIndexOutOfRange(symbol_index))
    }
}

/// What stops an instruction from being encoded, if anything does: its
/// symbol index first, then its registers in the order in which it names
/// them.
pub open spec fn instruction_error(
    instruction: ByteCodeInstruction,
    number_of_symbols: nat,
) -> Option<LoweringError> {
    match instruction {
        ByteCodeInstruction::CallToSymbol(symbol_index) => symbol_index_error(
            symbol_index,
            number_of_symbols,
        ),
        ByteCodeInstruction::AddValueToReg8 { value, to } => register_error(to),
        ByteCodeInstruction::SubValueFromReg8 { value, from } => register_error(from),
        ByteCodeInstruction::MoveSymbolToReg32 { symbol_index, to } => first_error(
            symbol_index_error(symbol_index, number_of_symbols),
            register_error(to),
        ),
        ByteCodeInstruction::MoveValueToReg32 { value, to } => register_error(to),
        ByteCodeInstruction::MoveRegToReg64 { from, to } => first_error(
            register_error(from),
            register_error(to),
        ),
        ByteCodeInstruction::MoveValueToRegPlusOffset32 { value, to, offset } => register_error(
            to,
        ),
        ByteCodeInstruction::MoveRegToRegPlusOffset32 { from, to, offset } => first_error(
            register_error(from),
            register_error(to),
        ),
        ByteCodeInstruction::MoveRegToRegPlusOffset64 { from, to, offset } => first_error(
            register_error(from),
            register_error(to),
        ),
        ByteCodeInstruction::MoveRegPlusOffsetToReg32 { from, offset, to } => first_error(
            register_error(from),
            register_error(to),
        ),
        ByteCodeInstruction::MoveRegPlusOffsetToReg64 { from, offset, to } => first_error(
            register_error(from),
            register_error(to),
        ),
        ByteCodeInstruction::LoadDataSectionAddressToReg64 { data_section_offset, to } =>
            register_error(to),
        ByteCodeInstruction::PushReg64(register) => register_error(register),
        ByteCodeInstruction::PopReg64(register) => register_error(register),
        ByteCodeInstruction::ZeroReg64(register) => register_error(register),
        ByteCodeInstruction::Return => None,
    }
}

/// What stops the first instruction that cannot be encoded, if there is one.
pub open spec fn instructions_error(
    instructions: Seq<ByteCodeInstruction>,
    number_of_symbols: nat,
) -> Option<LoweringError>
    decreases instructions.len(),
{
    if instructions.len() == 0 {
        None
    } else {
        first_error(
            instruction_error(instructions.first(), number_of_symbols),
            instructions_error(instructions.drop_first(), number_of_symbols),
        )
    }
}

/// Why a unit cannot be lowered into a well-formed object, if it cannot: the
/// first instruction that cannot be encoded, or else the size of the result.
pub open spec fn lowering_error(coff: Coff, ir: IntermediateRepresentation) -> Option<
    LoweringError,
> {
    let found = instructions_error(ir.byte_code@, ir.symbols@.len());
    if found is Some {
        found
    } else if !machine_code_object(coff@, ir).fits() {
        Some(LoweringError::ObjectTooLarge)
    } else {
        None
    }
}

/// An instruction can be encoded exactly if nothing stops it.
pub proof fn lemma_instruction_error(instruction: ByteCodeInstruction, number_of_symbols: nat)
    ensures
        instruction_error(instruction, number_of_symbols) is None <==> instruction_is_encodable(
            instruction,
            number_of_symbols,
        ),
{
}

/// Every instruction can be encoded exactly if nothing stops any of them.
pub proof fn lemma_instructions_error(
    instructions: Seq<ByteCodeInstruction>,
    number_of_symbols: nat,
)
    ensures
        instructions_error(instructions, number_of_symbols) is None <==> (forall|i: int|
            0 <= i < instructions.len() ==> instruction_is_encodable(
                #[trigger] instructions[i],
                number_of_symbols,
            )),
    decreases instructions.len(),
{
    if instructions.len() > 0 {
        let rest = instructions.drop_first();
        lemma_instruction_error(instructions.first(), number_of_symbols);
        lemma_instructions_error(rest, number_of_symbols);
        if instructions_error(instructions, number_of_symbols) is None {
            assert forall|i: int| 0 <= i < instructions.len() implies instruction_is_encodable(
                #[trigger] instructions[i],
                number_of_symbols,
            ) by {
                if i > 0 {
                    assert(instructions[i] == rest[i - 1]);
                }
            }
        } else if instruction_error(instructions.first(), number_of_symbols) is None {
            let i = choose|i: int|
                0 <= i < rest.len() && !instruction_is_encodable(
                    #[trigger] rest[i],
                    number_of_symbols,
                );
            assert(instructions[i + 1] == rest[i]);
        } else {
            assert(!instruction_is_encodable(instructions[0], number_of_symbols));
        }
    }
}

/// A unit can be lowered into a well-formed object exactly if there is no
/// reason why not.
pub proof fn lemma_lowering_error(coff: Coff, ir: IntermediateRepresentation)
    requires
        coff.wf(),
    ensures
        lowering_error(coff, ir) is None <==> can_build_machine_code_object(coff, ir),
{
    lemma_instructions_error(ir.byte_code@, ir.symbols@.len());
}

fn check_register(register: ByteCodeRegister) -> (result: Result<(), LoweringError>)
    ensures
        result == (match register_error(register) {
            Some(error) => Err::<(), LoweringError>(error),
            None => Ok(()),
        }),
{
    let supported = match register {
        ByteCodeRegister::CallArg(number) => number < 4,
        ByteCodeRegister::CallReturnArg(number) => number == 0,
        ByteCodeRegister::StackPointer => true,
        ByteCodeRegister::BasePointer => true,
    };
    if supported {
        Ok(())
    } else {
        Err(LoweringError::UnsupportedRegister(register))
    }
}

fn check_registers(first: ByteCodeRegister, second: ByteCodeRegister) -> (result: Result<
    (),
    LoweringError,
>)
    ensures
        result == (match first_error(register_error(first), register_error(second)) {
            Some(error) => Err::<(), LoweringError>(error),
            None => Ok(()),
        }),
{
    match check_register(first) {
        Ok(()) => check_register(second),
        Err(error) => Err(error),
    }
}

fn check_symbol_index(symbol_index: u32, number_of_symbols: usize) -> (result: Result<
    (),
    LoweringError,
>)
    ensures
        result == (match symbol_index_error(symbol_index, number_of_symbols as nat) {
            Some(error) => Err::<(), LoweringError>(error),
            None => Ok(()),
        }),
{
    if symbol_index as usize <= number_of_symbols || symbol_index as usize - number_of_symbols
        <= 6 {
        Ok(())
    } else {
        Err(LoweringError::SymbolIndexOutOfRange(symbol_index))
    }
}

/// Tells whether an instruction can be encoded in a unit with
/// `number_of_symbols` symbols, and what stops it if not.
pub fn check_instruction(instruction: ByteCodeInstruction, number_of_symbols: usize) -> (result:
    Result<(), LoweringError>)
    ensures
        result == (match instruction_error(instruction, number_of_symbols as nat) {
            Some(error) => Err::<(), LoweringError>(error),
            None => Ok(()),
        }),
        result is Ok <==> instruction_is_encodable(instruction, number_of_symbols as nat),
{
    proof {
        lemma_instruction_error(instruction, number_of_symbols as nat);
    }
    match instruction {
        ByteCodeInstruction::CallToSymbol(symbol_index) => check_symbol_index(
            symbol_index,
            number_of_symbols,
        ),
        ByteCodeInstruction::AddValueToReg8 { value, to } => check_register(to),
        ByteCodeInstruction::SubValueFromReg8 { value, from } => check_register(from),
        ByteCodeInstruction::MoveSymbolToReg32 { symbol_index, to } => {
            match check_symbol_index(symbol_index, number_of_symbols) {
                Ok(()) => check_register(to),
                Err(error) => Err(error),
            }
        },
        ByteCodeInstruction::MoveValueToReg32 { value, to } => check_register(to),
        ByteCodeInstruction::MoveRegToReg64 { from, to } => check_registers(from, to),
        ByteCodeInstruction::MoveValueToRegPlusOffset32 { value, to, offset } => check_register(
            to,
        ),
        ByteCodeInstruction::MoveRegToRegPlusOffset32 { from, to, offset } => check_registers(
            from,
            to,
        ),
        ByteCodeInstruction::MoveRegToRegPlusOffset64 { from, to, offset } => check_registers(
            from,
            to,
        ),
        ByteCodeInstruction::MoveRegPlusOffsetToReg32 { from, offset, to } => check_registers(
            from,
            to,
        ),
        ByteCodeInstruction::MoveRegPlusOffsetToReg64 { from, offset, to } => check_registers(
            from,
            to,
        ),
        ByteCodeInstruction::LoadDataSectionAddressToReg64 { data_section_offset, to } =>
            check_register(to),
        ByteCodeInstruction::PushReg64(register) => check_register(register),
        ByteCodeInstruction::PopReg64(register) => check_register(register),
        ByteCodeInstruction::ZeroReg64(register) => check_register(register),
        ByteCodeInstruction::Return => Ok(()),
    }
}

/// The number of bytes that an instruction takes in `.text`, and the number
/// of relocations that it needs.
fn instruction_size(instruction: ByteCodeInstruction, Ghost(number_of_symbols): Ghost<nat>) -> (size:
    (u64, u64))
    requires
        instruction_is_encodable(instruction, number_of_symbols),
    ensures
        size.0 <= 9,
        size.1 <= 1,
        forall|contents: CoffContents|
            {
                let encoded = #[trigger] encode_instruction(
                    contents,
                    instruction,
                    number_of_symbols,
                );
                &&& encoded.text.len() == contents.text.len() + size.0
                &&& encoded.relocations.len() == contents.relocations.len() + size.1
                &&& encoded.data == contents.data
                &&& encoded.symbols == contents.symbols
                &&& encoded.strings == contents.strings
            },
{
    match instruction {
        ByteCodeInstruction::CallToSymbol(_) => (5, 1),
        ByteCodeInstruction::AddValueToReg8 { .. } => (4, 0),
        ByteCodeInstruction::SubValueFromReg8 { .. } => (4, 0),
        ByteCodeInstruction::MoveSymbolToReg32 { .. } => (5, 1),
        ByteCodeInstruction::MoveValueToReg32 { .. } => (5, 0),
        ByteCodeInstruction::MoveRegToReg64 { .. } => (3, 0),
        ByteCodeInstruction::MoveValueToRegPlusOffset32 { .. } => (9, 0),
        ByteCodeInstruction::MoveRegToRegPlusOffset32 { .. } => (3, 0),
        ByteCodeInstruction::MoveRegToRegPlusOffset64 { .. } => (4, 0),
        ByteCodeInstruction::MoveRegPlusOffsetToReg32 { from, offset, to } => {
            if register_has_high_bit(get_register(to)) {
                (4, 0)
            } else {
                (3, 0)
            }
        },
        ByteCodeInstruction::MoveRegPlusOffsetToReg64 { .. } => (4, 0),
        ByteCodeInstruction::LoadDataSectionAddressToReg64 { .. } => (7, 1),
        ByteCodeInstruction::PushReg64(_) => (1, 0),
        ByteCodeInstruction::PopReg64(_) => (1, 0),
        ByteCodeInstruction::ZeroReg64(_) => (3, 0),
        ByteCodeInstruction::Return => (1, 0),
    }
}

/// The name of a unit's symbol.
fn symbol_name(symbol: &ByteCodeSymbol) -> (name: &str)
    ensures
        name@ == (match *symbol {
            ByteCodeSymbol::DataSectionItem { name, .. } => name@,
            ByteCodeSymbol::ForeignExternal { name } => name@,
            ByteCodeSymbol::AbsoluteExternal { name, .. } => name@,
            ByteCodeSymbol::ExternalCodeLabel { name, .. } => name@,
        }),
{
    match symbol {
        ByteCodeSymbol::DataSectionItem { name, .. } => name.as_str(),
        ByteCodeSymbol::ForeignExternal { name } => name.as_str(),
        ByteCodeSymbol::AbsoluteExternal { name, .. } => name.as_str(),
        ByteCodeSymbol::ExternalCodeLabel { name, .. } => name.as_str(),
    }
}

/// Tells whether `ir` can be lowered into `coff`, and why not if it cannot:
/// the first instruction that cannot be encoded decides, and where every
/// instruction can be encoded, the size of the finished object.
#[verifier::loop_isolation(false)]
pub fn check_machine_code_object(coff: &Coff, ir: &IntermediateRepresentation) -> (result: Result<
    (),
    LoweringError,
>)
    requires
        coff.wf(),
    ensures
        result == (match lowering_error(*coff, *ir) {
            Some(error) => Err::<(), LoweringError>(error),
            None => Ok(()),
        }),
        result is Ok <==> can_build_machine_code_object(*coff, *ir),
{
    let limit: u64 = 0xFFFF_FFFF;
    let number_of_symbols = ir.symbols.len();
    let ghost count = ir.symbols@.len();
    let ghost target = machine_code_object(coff@, *ir);
    proof {
        lemma_lowering_error(*coff, *ir);
    }

    let mut i: usize = 0;
    assert(ir.byte_code@.skip(0) =~= ir.byte_code@);
    while i < ir.byte_code.len()
        invariant
            i <= ir.byte_code@.len(),
            number_of_symbols == count,
            instructions_error(ir.byte_code@, count) == instructions_error(
                ir.byte_code@.skip(i as int),
                count,
            ),
        decreases ir.byte_code@.len() - i,
    {
        proof {
            let rest = ir.byte_code@.skip(i as int);
            assert(rest.first() == ir.byte_code@[i as int]);
            assert(rest.drop_first() =~= ir.byte_code@.skip(i + 1));
        }
        match check_instruction(ir.byte_code[i], number_of_symbols) {
            Ok(()) => {},
            Err(error) => {
                return Err(error);
            },
        }
        i = i + 1;
    }
    proof {
        lemma_instructions_error(ir.byte_code@, count);
    }

    let ghost mut current = coff@;
    let mut text: u64 = coff.text_section_header.size_of_section as u64;
    let mut relocations: u64 = coff.text_section_header.number_of_relocations as u64;
    let mut data: u64 = coff.data_section_header.size_of_section as u64;
    let mut symbols: u64 = coff.header.number_of_symbols as u64;
    let mut strings: u64 = (coff.strings_table_length - 4) as u64;

    let ghost after_code = encode_instructions(coff@, ir.byte_code@, count);
    let ghost after_data = append_data_items(after_code, ir.data@);
    let ghost after_leading = append_leading_symbols(after_data, encode_utf8(ir.filename@));
    proof {
        lemma_append_data_items_extends(after_code, ir.data@);
        lemma_append_leading_symbols_extends(after_data, encode_utf8(ir.filename@));
        lemma_append_byte_code_symbols_reversed_extends(after_leading, ir.symbols@);
    }

    let mut i: usize = 0;
    while i < ir.byte_code.len()
        invariant
            i <= ir.byte_code@.len(),
            limit == u32::MAX,
            forall|k: int|
                0 <= k < ir.byte_code@.len() ==> instruction_is_encodable(
                    #[trigger] ir.byte_code@[k],
                    count,
                ),
            after_code == encode_instructions(current, ir.byte_code@.skip(i as int), count),
            target.extends(after_code),
            text == current.text.len() <= limit,
            relocations == current.relocations.len() <= limit,
            data == current.data.len() <= limit,
            symbols == current.symbols.len() <= limit,
            strings == current.strings.len() <= limit,
        decreases ir.byte_code@.len() - i,
    {
        let op = ir.byte_code[i];
        proof {
            let rest = ir.byte_code@.skip(i as int);
            assert(rest.first() == op);
            assert(rest.drop_first() =~= ir.byte_code@.skip(i + 1));
            assert(instruction_is_encodable(ir.byte_code@[i as int], count));
            lemma_encode_instructions_extends(
                encode_instruction(current, op, count),
                rest.drop_first(),
                count,
            );
        }
        let size = instruction_size(op, Ghost(count));
        proof {
            current = encode_instruction(current, op, count);
        }
        text = text + size.0;
        relocations = relocations + size.1;
        if text > limit || relocations > limit {
            return Err(LoweringError::ObjectTooLarge);
        }
        i = i + 1;
    }

    let mut j: usize = 0;
    assert(ir.data@.skip(0) =~= ir.data@);
    while j < ir.data.len()
        invariant
            j <= ir.data@.len(),
            limit == u32::MAX,
            after_data == append_data_items(current, ir.data@.skip(j as int)),
            target.extends(after_data),
            text == current.text.len() <= limit,
            relocations == current.relocations.len() <= limit,
            data == current.data.len() <= limit,
            symbols == current.symbols.len() <= limit,
            strings == current.strings.len() <= limit,
        decreases ir.data@.len() - j,
    {
        proof {
            let rest = ir.data@.skip(j as int);
            assert(rest.first() == ir.data@[j as int]);
            assert(rest.drop_first() =~= ir.data@.skip(j + 1));
            lemma_append_data_items_extends(
                current.append_data(data_item_bytes(rest.first())),
                rest.drop_first(),
            );
        }
        let length = match &ir.data[j] {
            ByteCodeDataItem::String { value } => value.as_str().as_bytes().len(),
        };
        proof {
            current = current.append_data(data_item_bytes(ir.data@[j as int]));
        }
        if length > 0xFFFF_FFFF {
            return Err(LoweringError::ObjectTooLarge);
        }
        data = data + length as u64;
        if data > limit {
            return Err(LoweringError::ObjectTooLarge);
        }
        j = j + 1;
    }

    proof {
        current = after_leading;
    }
    symbols = symbols + 7;
    if symbols > limit {
        return Err(LoweringError::ObjectTooLarge);
    }

    let mut symbol_index: usize = ir.symbols.len();
    assert(ir.symbols@.take(symbol_index as int) =~= ir.symbols@);
    while symbol_index > 0
        invariant
            symbol_index <= ir.symbols@.len(),
            limit == u32::MAX,
            target == append_byte_code_symbols_reversed(
                current,
                ir.symbols@.take(symbol_index as int),
            ),
            text == current.text.len() <= limit,
            relocations == current.relocations.len() <= limit,
            data == current.data.len() <= limit,
            symbols == current.symbols.len() <= limit,
            strings == current.strings.len() <= limit,
        decreases symbol_index,
    {
        symbol_index = symbol_index - 1;
        proof {
            let rest = ir.symbols@.take(symbol_index + 1);
            assert(rest.last() == ir.symbols@[symbol_index as int]);
            assert(rest.drop_last() =~= ir.symbols@.take(symbol_index as int));
            lemma_append_byte_code_symbols_reversed_extends(
                append_byte_code_symbol(current, rest.last()),
                rest.drop_last(),
            );
        }
        let length = symbol_name(&ir.symbols[symbol_index]).as_bytes().len();
        proof {
            current = append_byte_code_symbol(current, ir.symbols@[symbol_index as int]);
        }
        symbols = symbols + 1;
        if symbols > limit {
            return Err(LoweringError::ObjectTooLarge);
        }
        if length > 8 {
            if length > 0xFFFF_FFFF {
                return Err(LoweringError::ObjectTooLarge);
            }
            strings = strings + length as u64 + 1;
            if strings > limit {
                return Err(LoweringError::ObjectTooLarge);
            }
        }
    }

    assert(current == target);
    let symbol_table_offset = (HEADER_SIZE + 2 * SECTION_HEADER_SIZE) as u64 + data + text
        + RELOCATION_ENTRY_SIZE as u64 * relocations;
    if symbol_table_offset > limit || relocations > 0xFFFF || strings + 4 > limit {
        Err(LoweringError::ObjectTooLarge)
    } else {
        Ok(())
    }
}

} // verus!

