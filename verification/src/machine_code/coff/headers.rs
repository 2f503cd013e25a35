//! Constructors of the file header and the section headers.

use crate::machine_code::coff::{
    Coff,
    CoffHeader,
    CoffSectionHeader,
    HEADER_SIZE,
    SECTION_HEADER_SIZE,
};
use crate::machine_code::utilities::{
    get_8_padded_u8_array_from_string,
    get_current_timestamp,
    zero_padded,
};
use vstd::prelude::*;
use vstd::string::StringSliceAdditionalSpecFns;

verus! {

/// The file offset at which section contents begin: just behind the file
/// header and the two section headers.
pub fn initial_base_dynamic_data_pointer() -> (base: u32)
    ensures
        base == HEADER_SIZE + 2 * SECTION_HEADER_SIZE,
        base == 100,
{
    HEADER_SIZE + SECTION_HEADER_SIZE * 2
}

pub fn header(
    magic: u16,
    number_of_sections: u16,
    time_date_stamp: u32,
    pointer_to_symbol_table: u32,
    number_of_symbols: u32,
    size_of_optional_header: u16,
    flags: u16,
) -> (result: CoffHeader)
    ensures
        result == (CoffHeader {
            magic,
            number_of_sections,
            time_date_stamp,
            pointer_to_symbol_table,
            number_of_symbols,
            size_of_optional_header,
            flags,
        }),
{
    CoffHeader {
        magic,
        number_of_sections,
        time_date_stamp,
        pointer_to_symbol_table,
        number_of_symbols,
        size_of_optional_header,
        flags,
    }
}

/// A section header whose name field holds `short_name`, zero-padded. The
/// name must fit the field's 8 bytes.
pub fn section_header(
    short_name: &str,
    physical_address: u32,
    virtual_address: u32,
    size_of_section: u32,
    pointer_to_section: u32,
    pointer_to_relocations: u32,
    pointer_to_line_numbers: u32,
    number_of_relocations: u16,
    number_of_line_numbers: u16,
    flags: u32,
) -> (result: CoffSectionHeader)
    requires
        short_name.spec_bytes().len() <= 8,
    ensures
        result.short_name@ == zero_padded(short_name.spec_bytes(), 8),
        result.physical_address == physical_address,
        result.virtual_address == virtual_address,
        result.size_of_section == size_of_section,
        result.pointer_to_section == pointer_to_section,
        result.pointer_to_relocations == pointer_to_relocations,
        result.pointer_to_line_numbers == pointer_to_line_numbers,
        result.number_of_relocations == number_of_relocations,
        result.number_of_line_numbers == number_of_line_numbers,
        result.flags == flags,
{
    CoffSectionHeader {
        short_name: get_8_padded_u8_array_from_string(short_name),
        physical_address,
        virtual_address,
        size_of_section,
        pointer_to_section,
        pointer_to_relocations,
        pointer_to_line_numbers,
        number_of_relocations,
        number_of_line_numbers,
        flags,
    }
}

/// Stamps the header with `time_date_stamp`. Nothing else changes.
pub fn set_timestamp(coff: &mut Coff, time_date_stamp: u32)
    ensures
        final(coff)@ == old(coff)@,
        old(coff).wf() ==> final(coff).wf(),
        (*final(coff)) == (Coff {
            header: CoffHeader { time_date_stamp, ..old(coff).header },
            ..*old(coff)
        }),
{
    coff.header.time_date_stamp = time_date_stamp;
}

/// Stamps the header with the current time, as `set_timestamp` does with the
/// value that the clock gives. Nothing else changes; of the stamp itself
/// nothing is promised, since the clock may give any value.
pub fn set_current_timestamp(coff: &mut Coff)
    ensures
        final(coff)@ == old(coff)@,
        old(coff).wf() ==> final(coff).wf(),
        (*final(coff)) == (Coff {
            header: CoffHeader {
                time_date_stamp: final(coff).header.time_date_stamp,
                ..old(coff).header
            },
            ..*old(coff)
        }),
{
    set_timestamp(coff, get_current_timestamp());
}

} // verus!
