//! The object file as bytes: the headers, the section contents, the
//! relocations, the symbol table and the string table, in that order.

use crate::machine_code::coff::{
    relocations_bytes,
    symbol_records,
    symbols_bytes,
    Coff,
    CoffHeader,
    CoffRelocationEntry,
    CoffSectionHeader,
    CoffSymbol,
};
use crate::machine_code::utilities::{u16_le_bytes, u16_to_bytes, u32_le_bytes, u32_to_bytes};
use vstd::prelude::*;

verus! {

fn push_u16(out: &mut Vec<u8>, value: u16)
    ensures
        final(out)@ == old(out)@ + u16_le_bytes(value),
{
    let mut bytes = u16_to_bytes(&value);
    out.append(&mut bytes);
}

fn push_u32(out: &mut Vec<u8>, value: u32)
    ensures
        final(out)@ == old(out)@ + u32_le_bytes(value),
{
    let mut bytes = u32_to_bytes(&value);
    out.append(&mut bytes);
}

/// Appends the 20 bytes of the file header.
pub fn write_header(out: &mut Vec<u8>, header: &CoffHeader)
    ensures
        final(out)@ == old(out)@ + header.bytes(),
{
    push_u16(out, header.magic);
    push_u16(out, header.number_of_sections);
    push_u32(out, header.time_date_stamp);
    push_u32(out, header.pointer_to_symbol_table);
    push_u32(out, header.number_of_symbols);
    push_u16(out, header.size_of_optional_header);
    push_u16(out, header.flags);
    assert(out@ =~= old(out)@ + header.bytes());
}

/// Appends the 40 bytes of a section header.
pub fn write_section_header(out: &mut Vec<u8>, header: &CoffSectionHeader)
    ensures
        final(out)@ == old(out)@ + header.bytes(),
{
    out.extend_from_slice(&header.short_name);
    push_u32(out, header.physical_address);
    push_u32(out, header.virtual_address);
    push_u32(out, header.size_of_section);
    push_u32(out, header.pointer_to_section);
    push_u32(out, header.pointer_to_relocations);
    push_u32(out, header.pointer_to_line_numbers);
    push_u16(out, header.number_of_relocations);
    push_u16(out, header.number_of_line_numbers);
    push_u32(out, header.flags);
    assert(out@ =~= old(out)@ + header.bytes());
}

/// Appends the 10 bytes of a relocation entry.
pub fn write_relocation_entry(out: &mut Vec<u8>, entry: &CoffRelocationEntry)
    ensures
        final(out)@ == old(out)@ + entry.bytes(),
{
    push_u32(out, entry.pointer_to_reference);
    push_u32(out, entry.symbol_index);
    push_u16(out, entry.relocation_type);
    assert(out@ =~= old(out)@ + entry.bytes());
}

/// Appends the 18 bytes of a symbol table record.
pub fn write_symbol(out: &mut Vec<u8>, symbol: &CoffSymbol)
    ensures
        final(out)@ == old(out)@ + symbol@.bytes(),
{
    match symbol {
        CoffSymbol::ShortNamed(short_named) => {
            out.extend_from_slice(&short_named.name);
            push_u32(out, short_named.value);
            push_u16(out, short_named.section_number);
            push_u16(out, short_named.symbol_type);
            out.push(short_named.storage_class);
            out.push(short_named.number_of_auxillary_symbols);
        },
        CoffSymbol::LongNamed(long_named) => {
            push_u32(out, 0);
            push_u32(out, long_named.pointer_to_string_table);
            push_u32(out, long_named.value);
            push_u16(out, long_named.section_number);
            push_u16(out, long_named.symbol_type);
            out.push(long_named.storage_class);
            out.push(long_named.number_of_auxillary_symbols);
            assert(u32_le_bytes(0) =~= seq![0u8, 0u8, 0u8, 0u8]);
        },
        CoffSymbol::Name(name) => {
            out.extend_from_slice(&name.0);
        },
        CoffSymbol::Section(section) => {
            push_u32(out, section.length);
            push_u16(out, section.number_of_relocations);
            push_u16(out, section.number_of_line_numbers);
            push_u32(out, section.checksum);
            push_u16(out, section.number);
            out.push(section.selection);
            out.push(0);
            out.push(0);
            out.push(0);
        },
    }
    assert(out@ =~= old(out)@ + symbol@.bytes());
}

/// The object file, byte for byte.
pub fn coff_to_bytes(coff: &Coff) -> (bytes: Vec<u8>)
    ensures
        bytes@ == coff.bytes(),
{
    let mut bytes: Vec<u8> = Vec::new();
    write_header(&mut bytes, &coff.header);
    write_section_header(&mut bytes, &coff.data_section_header);
    write_section_header(&mut bytes, &coff.text_section_header);
    bytes.extend_from_slice(coff.data_section.as_slice());
    bytes.extend_from_slice(coff.text_section.as_slice());
    let ghost front = bytes@;
    assert(front =~= coff.header.bytes() + coff.data_section_header.bytes()
        + coff.text_section_header.bytes() + coff.data_section@ + coff.text_section@);

    let mut i: usize = 0;
    assert(coff.relocations@.take(0) =~= Seq::empty());
    while i < coff.relocations.len()
        invariant
            i <= coff.relocations@.len(),
            bytes@ == front + relocations_bytes(coff.relocations@.take(i as int)),
        decreases coff.relocations@.len() - i,
    {
        write_relocation_entry(&mut bytes, &coff.relocations[i]);
        proof {
            let done = coff.relocations@.take(i + 1);
            assert(done.drop_last() =~= coff.relocations@.take(i as int));
            assert(done.last() == coff.relocations@[i as int]);
            assert(bytes@ =~= front + relocations_bytes(done));
        }
        i = i + 1;
    }
    assert(coff.relocations@.take(i as int) =~= coff.relocations@);
    let ghost middle = bytes@;

    let ghost records = symbol_records(coff.symbols@);
    let mut j: usize = 0;
    assert(records.take(0) =~= Seq::empty());
    while j < coff.symbols.len()
        invariant
            j <= coff.symbols@.len(),
            records == symbol_records(coff.symbols@),
            bytes@ == middle + symbols_bytes(records.take(j as int)),
        decreases coff.symbols@.len() - j,
    {
        write_symbol(&mut bytes, &coff.symbols[j]);
        proof {
            let done = records.take(j + 1);
            assert(done.drop_last() =~= records.take(j as int));
            assert(done.last() == coff.symbols@[j as int]@);
            assert(bytes@ =~= middle + symbols_bytes(done));
        }
        j = j + 1;
    }
    assert(records.take(j as int) =~= records);

    push_u32(&mut bytes, coff.strings_table_length);
    bytes.extend_from_slice(coff.strings.as_slice());
    assert(bytes@ =~= coff.bytes());
    bytes
}

} // verus!
