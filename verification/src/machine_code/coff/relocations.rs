//! Relocation entries, and the placeholder bytes in `.text` that they name.

use crate::machine_code::coff::headers::set_current_timestamp;
use crate::machine_code::coff::sections::add_entries_to_text_section;
use crate::machine_code::coff::{Coff, CoffRelocationEntry, RELOCATION_ENTRY_SIZE};
use crate::machine_code::utilities::{u32_le_bytes, u32_to_bytes};
use vstd::prelude::*;

verus! {

/// The 32-bit virtual address of the symbol.
pub const IMAGE_REL_AMD64_ADDR32: u16 = 0x02;

/// The 32-bit address of the symbol, relative to the byte behind the
/// relocated field.
pub const IMAGE_REL_AMD64_REL32: u16 = 0x04;

fn relocation_entry(pointer_to_reference: u32, symbol_index: u32, relocation_type: u16) -> (entry:
    CoffRelocationEntry)
    ensures
        entry == (CoffRelocationEntry { pointer_to_reference, symbol_index, relocation_type }),
{
    CoffRelocationEntry { pointer_to_reference, symbol_index, relocation_type }
}

/// An operand that the linker fills in: the symbol it is resolved against,
/// and the value that the object file holds in its place.
pub struct RelocatableValue {
    pub symbol_index: u32,
    pub initial_value_to_use: u32,
}

pub fn relocatable_value(symbol_index: u32, initial_value_to_use: u32) -> (value: RelocatableValue)
    ensures
        value == (RelocatableValue { symbol_index, initial_value_to_use }),
{
    RelocatableValue { symbol_index, initial_value_to_use }
}

impl Coff {
    /// Whether the relocation table can take one more entry: its count is a
    /// 16-bit field.
    pub open spec fn can_take_relocation(self) -> bool {
        self.text_section_header.number_of_relocations < u16::MAX
    }
}

/// Appends `entry`, which names four bytes that `.text` already holds.
fn add_relocation_entry(coff: &mut Coff, entry: CoffRelocationEntry, Ghost(value): Ghost<u32>)
    requires
        old(coff).wf(),
        old(coff).can_grow_by(RELOCATION_ENTRY_SIZE as int),
        old(coff).can_take_relocation(),
        entry.pointer_to_reference + 4 <= old(coff)@.text.len(),
        old(coff)@.text.subrange(
            entry.pointer_to_reference as int,
            entry.pointer_to_reference + 4,
        ) == u32_le_bytes(value),
    ensures
        final(coff).wf(),
        final(coff)@ == (crate::machine_code::coff::CoffContents {
            relocations: old(coff)@.relocations.push(entry),
            relocation_values: old(coff)@.relocation_values.push(value),
            ..old(coff)@
        }),
{
    coff.relocations.push(entry);
    coff.relocation_values = Ghost(coff.relocation_values@.push(value));
    coff.text_section_header.number_of_relocations += 1;
    coff.header.pointer_to_symbol_table += RELOCATION_ENTRY_SIZE;
    set_current_timestamp(coff);
}

/// Writes the four bytes of the operand's initial value at the end of
/// `.text`, and adds a relocation of type `relocation_type` that names them.
pub fn add_relocatable_entry_and_text_section_inital_entry(
    coff: &mut Coff,
    relocatable_value: RelocatableValue,
    relocation_type: u16,
)
    requires
        old(coff).wf(),
        old(coff).can_grow_by(4 + RELOCATION_ENTRY_SIZE),
        old(coff).can_take_relocation(),
    ensures
        final(coff).wf(),
        final(coff)@ == old(coff)@.append_relocated_value(
            relocatable_value.symbol_index,
            relocatable_value.initial_value_to_use,
            relocation_type,
        ),
{
    let entry = relocation_entry(
        coff.text_section_header.size_of_section,
        relocatable_value.symbol_index,
        relocation_type,
    );
    add_entries_to_text_section(coff, u32_to_bytes(&relocatable_value.initial_value_to_use));
    proof {
        let at = entry.pointer_to_reference as int;
        assert(coff@.text.subrange(at, at + 4) =~= u32_le_bytes(
            relocatable_value.initial_value_to_use,
        ));
    }
    add_relocation_entry(coff, entry, Ghost(relocatable_value.initial_value_to_use));
}

} // verus!
