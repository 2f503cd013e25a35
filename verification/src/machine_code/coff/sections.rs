//! Appending to the `.data` and `.text` sections. Each append moves every
//! header field that lies behind the new bytes.

use crate::machine_code::coff::headers::set_current_timestamp;
use crate::machine_code::coff::Coff;
use crate::machine_code::utilities::string_to_bytes;
use vstd::prelude::*;
use vstd::string::StringSliceAdditionalSpecFns;

verus! {

impl Coff {
    /// Whether `amount` more bytes in front of the symbol table still leave
    /// every file offset within 32 bits.
    pub open spec fn can_grow_by(self, amount: int) -> bool {
        self.header.pointer_to_symbol_table + amount <= u32::MAX
    }
}

/// Moves the header fields that lie behind the `.data` contents by `amount`.
fn advance_data_section(coff: &mut Coff, amount: u32)
    requires
        old(coff).wf(),
        old(coff).can_grow_by(amount as int),
    ensures
        final(coff)@ == old(coff)@,
        final(coff).strings_table_length == old(coff).strings_table_length,
        final(coff).header.magic == old(coff).header.magic,
        final(coff).header.number_of_sections == old(coff).header.number_of_sections,
        final(coff).header.number_of_symbols == old(coff).header.number_of_symbols,
        final(coff).header.size_of_optional_header == old(coff).header.size_of_optional_header,
        final(coff).header.flags == old(coff).header.flags,
        final(coff).header.pointer_to_symbol_table == old(coff).header.pointer_to_symbol_table
            + amount,
        final(coff).data_section_header == (crate::machine_code::coff::CoffSectionHeader {
            size_of_section: (old(coff).data_section_header.size_of_section + amount) as u32,
            pointer_to_relocations: (old(coff).data_section_header.pointer_to_relocations
                + amount) as u32,
            ..old(coff).data_section_header
        }),
        final(coff).text_section_header == (crate::machine_code::coff::CoffSectionHeader {
            pointer_to_section: (old(coff).text_section_header.pointer_to_section + amount) as u32,
            pointer_to_relocations: (old(coff).text_section_header.pointer_to_relocations
                + amount) as u32,
            ..old(coff).text_section_header
        }),
{
    coff.data_section_header.size_of_section += amount;
    coff.data_section_header.pointer_to_relocations += amount;
    coff.text_section_header.pointer_to_section += amount;
    coff.text_section_header.pointer_to_relocations += amount;
    coff.header.pointer_to_symbol_table += amount;
    set_current_timestamp(coff);
}

/// Appends the bytes of `to_add` to `.data`, with no terminator, and returns
/// the offset in `.data` at which they begin.
pub fn add_string_to_data_section(coff: &mut Coff, to_add: &str) -> (pointer: u32)
    requires
        old(coff).wf(),
        old(coff).can_grow_by(to_add.spec_bytes().len() as int),
    ensures
        final(coff).wf(),
        final(coff)@ == old(coff)@.append_data(to_add.spec_bytes()),
        pointer == old(coff)@.data.len(),
{
    let pointer = coff.data_section_header.size_of_section;
    let mut string_bytes = string_to_bytes(to_add);
    advance_data_section(coff, string_bytes.len() as u32);
    coff.data_section.append(&mut string_bytes);
    pointer
}

/// Appends one byte to `.text`.
pub fn add_entry_to_text_section(coff: &mut Coff, entry: u8)
    requires
        old(coff).wf(),
        old(coff).can_grow_by(1),
    ensures
        final(coff).wf(),
        final(coff)@ == old(coff)@.append_text(seq![entry]),
{
    coff.text_section.push(entry);
    coff.text_section_header.size_of_section += 1;
    coff.text_section_header.pointer_to_relocations += 1;
    coff.header.pointer_to_symbol_table += 1;
    set_current_timestamp(coff);
    proof {
        assert(coff@.text =~= old(coff)@.text + seq![entry]);
        assert forall|i: int| 0 <= i < coff@.relocations.len() implies {
            let at = (#[trigger] coff@.relocations[i]).pointer_to_reference as int;
            coff@.text.subrange(at, at + 4) == old(coff)@.text.subrange(at, at + 4)
        } by {
            let at = coff@.relocations[i].pointer_to_reference as int;
            assert(coff@.text.subrange(at, at + 4) =~= old(coff)@.text.subrange(at, at + 4));
        }
    }
}

/// Appends `entries` to `.text`, in order.
pub fn add_entries_to_text_section(coff: &mut Coff, entries: Vec<u8>)
    requires
        old(coff).wf(),
        old(coff).can_grow_by(entries@.len() as int),
    ensures
        final(coff).wf(),
        final(coff)@ == old(coff)@.append_text(entries@),
{
    let mut i: usize = 0;
    while i < entries.len()
        invariant
            i <= entries@.len(),
            coff.wf(),
            old(coff).can_grow_by(entries@.len() as int),
            coff.header.pointer_to_symbol_table == old(coff).header.pointer_to_symbol_table + i,
            coff@ == old(coff)@.append_text(entries@.take(i as int)),
        decreases entries@.len() - i,
    {
        add_entry_to_text_section(coff, entries[i]);
        assert(entries@.take(i as int) + seq![entries@[i as int]] =~= entries@.take(i + 1));
        assert(old(coff)@.text + entries@.take(i as int) + seq![entries@[i as int]] =~= old(
            coff,
        )@.text + entries@.take(i + 1));
        i = i + 1;
    }
    assert(entries@.take(entries@.len() as int) =~= entries@);
}

/// The offset in `.text` at which the next byte will be written.
pub fn get_current_text_section_pointer(coff: &Coff) -> (pointer: u32)
    ensures
        pointer == coff.text_section_header.size_of_section,
        coff.wf() ==> pointer == coff@.text.len(),
{
    coff.text_section_header.size_of_section
}

} // verus!
