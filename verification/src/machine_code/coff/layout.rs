//! What holds of the byte layout of every well-formed object: how long it
//! is, where its parts begin, and what a reader finds in its headers.

use crate::machine_code::coff::{
    relocations_bytes,
    symbol_records,
    symbols_bytes,
    Coff,
    CoffContents,
    CoffHeader,
    CoffRelocationEntry,
    CoffSectionHeader,
    CoffSymbol,
    SymbolRecord,
    HEADER_SIZE,
    RELOCATION_ENTRY_SIZE,
    SECTION_HEADER_SIZE,
    SYMBOL_SIZE,
};
use crate::machine_code::utilities::{
    lemma_u16_le_bytes_round_trip,
    lemma_u32_le_bytes_round_trip,
    u16_from_le_bytes,
    u16_le_bytes,
    u32_from_le_bytes,
    u32_le_bytes,
    zero_padded,
};
use vstd::prelude::*;

verus! {

/// A file header takes 20 bytes.
pub proof fn lemma_header_length(header: CoffHeader)
    ensures
        header.bytes().len() == HEADER_SIZE,
{
}

/// A section header takes 40 bytes.
pub proof fn lemma_section_header_length(header: CoffSectionHeader)
    ensures
        header.bytes().len() == SECTION_HEADER_SIZE,
{
}

/// A relocation table takes 10 bytes for each entry.
pub proof fn lemma_relocations_length(relocations: Seq<CoffRelocationEntry>)
    ensures
        relocations_bytes(relocations).len() == RELOCATION_ENTRY_SIZE * relocations.len(),
    decreases relocations.len(),
{
    if relocations.len() > 0 {
        lemma_relocations_length(relocations.drop_last());
    }
}

/// A record with name fields of full width takes 18 bytes.
pub proof fn lemma_symbol_record_length(record: SymbolRecord)
    requires
        record.wf(),
    ensures
        record.bytes().len() == SYMBOL_SIZE,
{
}

/// A symbol table of records with name fields of full width takes 18 bytes
/// for each record.
pub proof fn lemma_symbols_length(records: Seq<SymbolRecord>)
    requires
        forall|i: int| 0 <= i < records.len() ==> (#[trigger] records[i]).wf(),
    ensures
        symbols_bytes(records).len() == SYMBOL_SIZE * records.len(),
    decreases records.len(),
{
    if records.len() > 0 {
        lemma_symbols_length(records.drop_last());
        lemma_symbol_record_length(records.last());
    }
}

/// The name fields of the symbols that an object holds have full width.
pub proof fn lemma_stored_symbols_wf(symbols: Seq<CoffSymbol>)
    ensures
        forall|i: int|
            0 <= i < symbols.len() ==> (#[trigger] symbol_records(symbols)[i]).wf(),
{
}

/// The serialised object is as long as its parts together: the file header,
/// two section headers, the contents of `.data` and `.text`, 10 bytes for
/// each relocation, 18 bytes for each symbol, the 4-byte length of the string
/// table, and the names.
pub proof fn lemma_serialised_length(coff: Coff)
    ensures
        coff.bytes().len() == HEADER_SIZE + 2 * SECTION_HEADER_SIZE + coff@.data.len()
            + coff@.text.len() + RELOCATION_ENTRY_SIZE * coff@.relocations.len() + SYMBOL_SIZE
            * coff@.symbols.len() + 4 + coff@.strings.len(),
{
    let header = coff.header.bytes();
    let data_header = coff.data_section_header.bytes();
    let text_header = coff.text_section_header.bytes();
    let relocations = relocations_bytes(coff.relocations@);
    let symbols = symbols_bytes(coff@.symbols);
    let length = u32_le_bytes(coff.strings_table_length);
    assert(header.len() == 20) by {
        lemma_header_length(coff.header);
    }
    assert(data_header.len() == 40) by {
        lemma_section_header_length(coff.data_section_header);
    }
    assert(text_header.len() == 40) by {
        lemma_section_header_length(coff.text_section_header);
    }
    assert(relocations.len() == 10 * coff@.relocations.len()) by {
        lemma_relocations_length(coff.relocations@);
    }
    assert(symbols.len() == 18 * coff@.symbols.len()) by {
        lemma_stored_symbols_wf(coff.symbols@);
        lemma_symbols_length(coff@.symbols);
    }
    assert(length.len() == 4);
    assert(coff.bytes() == header + data_header + text_header + coff.data_section@
        + coff.text_section@ + relocations + symbols + length + coff.strings@);
}

/// In a well-formed object the header's pointer to the symbol table is the
/// offset at which the first symbol begins: the headers, the section
/// contents and the relocations fill the file up to it, and the symbol
/// table follows from it.
pub proof fn lemma_symbol_table_pointer(coff: Coff)
    requires
        coff.wf(),
    ensures
        coff.header.pointer_to_symbol_table == (coff.header.bytes()
            + coff.data_section_header.bytes() + coff.text_section_header.bytes()
            + coff@.data + coff@.text + relocations_bytes(coff@.relocations)).len(),
        coff.bytes().subrange(
            coff.header.pointer_to_symbol_table as int,
            coff.header.pointer_to_symbol_table + SYMBOL_SIZE * coff@.symbols.len(),
        ) == symbols_bytes(coff@.symbols),
{
    lemma_header_length(coff.header);
    lemma_section_header_length(coff.data_section_header);
    lemma_section_header_length(coff.text_section_header);
    lemma_relocations_length(coff.relocations@);
    lemma_stored_symbols_wf(coff.symbols@);
    lemma_symbols_length(coff@.symbols);
    let at = coff.header.pointer_to_symbol_table as int;
    assert(coff.bytes().subrange(at, at + SYMBOL_SIZE * coff@.symbols.len()) =~= symbols_bytes(
        coff@.symbols,
    ));
}

/// In a well-formed object the section headers point at the sections:
/// `.data` begins behind the headers and `.text` behind `.data`; the
/// relocations of `.text` begin behind `.text`; and the bytes at those
/// offsets are the sections' contents and the relocation table.
pub proof fn lemma_section_pointers(coff: Coff)
    requires
        coff.wf(),
    ensures
        coff.data_section_header.pointer_to_section == HEADER_SIZE + 2 * SECTION_HEADER_SIZE,
        coff.text_section_header.pointer_to_section == HEADER_SIZE + 2 * SECTION_HEADER_SIZE
            + coff@.data.len(),
        coff.text_section_header.pointer_to_relocations
            == coff.text_section_header.pointer_to_section + coff@.text.len(),
        coff.bytes().subrange(
            coff.data_section_header.pointer_to_section as int,
            coff.data_section_header.pointer_to_section + coff@.data.len(),
        ) == coff@.data,
        coff.bytes().subrange(
            coff.text_section_header.pointer_to_section as int,
            coff.text_section_header.pointer_to_section + coff@.text.len(),
        ) == coff@.text,
        coff.bytes().subrange(
            coff.text_section_header.pointer_to_relocations as int,
            coff.text_section_header.pointer_to_relocations + RELOCATION_ENTRY_SIZE
                * coff@.relocations.len(),
        ) == relocations_bytes(coff@.relocations),
{
    lemma_header_length(coff.header);
    lemma_section_header_length(coff.data_section_header);
    lemma_section_header_length(coff.text_section_header);
    lemma_relocations_length(coff.relocations@);
    let data_at = coff.data_section_header.pointer_to_section as int;
    let text_at = coff.text_section_header.pointer_to_section as int;
    let relocations_at = coff.text_section_header.pointer_to_relocations as int;
    assert(coff.bytes().subrange(data_at, data_at + coff@.data.len()) =~= coff@.data);
    assert(coff.bytes().subrange(text_at, text_at + coff@.text.len()) =~= coff@.text);
    assert(coff.bytes().subrange(
        relocations_at,
        relocations_at + RELOCATION_ENTRY_SIZE * coff@.relocations.len(),
    ) =~= relocations_bytes(coff@.relocations));
}

/// In a well-formed object every relocation names four bytes of `.text`,
/// and they hold the initial value that was given when the relocation was
/// added.
pub proof fn lemma_relocation_names_initial_value(coff: Coff, i: int)
    requires
        coff.wf(),
        0 <= i < coff@.relocations.len(),
    ensures
        coff@.relocations[i].pointer_to_reference + 4 <= coff@.text.len(),
        coff@.text.subrange(
            coff@.relocations[i].pointer_to_reference as int,
            coff@.relocations[i].pointer_to_reference + 4,
        ) == u32_le_bytes(coff@.relocation_values[i]),
{
}

/// The 16-bit value that a reader finds at `offset`.
pub open spec fn read_u16(bytes: Seq<u8>, offset: int) -> int {
    u16_from_le_bytes(bytes.subrange(offset, offset + 2))
}

/// The 32-bit value that a reader finds at `offset`.
pub open spec fn read_u32(bytes: Seq<u8>, offset: int) -> int {
    u32_from_le_bytes(bytes.subrange(offset, offset + 4))
}

/// Offset of the symbol count in the file header.
pub const NUMBER_OF_SYMBOLS_OFFSET: u32 = 12;

/// Offset of the section size in a section header.
pub const SIZE_OF_SECTION_OFFSET: u32 = 16;

/// Offset of the relocation count in a section header.
pub const NUMBER_OF_RELOCATIONS_OFFSET: u32 = 32;

/// What a reader of the file learns from its headers.
pub struct ObjectSummary {
    pub number_of_sections: int,
    pub number_of_symbols: int,
    pub data_section_size: int,
    pub text_section_size: int,
    pub data_relocations: int,
    pub text_relocations: int,
}

/// Reads the counts and sizes from the headers of an object file with two
/// sections.
pub open spec fn read_summary(bytes: Seq<u8>) -> ObjectSummary {
    let data_header = HEADER_SIZE as int;
    let text_header = HEADER_SIZE + SECTION_HEADER_SIZE;
    ObjectSummary {
        number_of_sections: read_u16(bytes, 2),
        number_of_symbols: read_u32(bytes, NUMBER_OF_SYMBOLS_OFFSET as int),
        data_section_size: read_u32(bytes, data_header + SIZE_OF_SECTION_OFFSET),
        text_section_size: read_u32(bytes, text_header + SIZE_OF_SECTION_OFFSET),
        data_relocations: read_u16(bytes, data_header + NUMBER_OF_RELOCATIONS_OFFSET),
        text_relocations: read_u16(bytes, text_header + NUMBER_OF_RELOCATIONS_OFFSET),
    }
}

/// Where the counts stand in a file header.
pub proof fn lemma_header_fields(header: CoffHeader)
    ensures
        read_u16(header.bytes(), 2) == header.number_of_sections,
        read_u32(header.bytes(), NUMBER_OF_SYMBOLS_OFFSET as int) == header.number_of_symbols,
{
    let bytes = header.bytes();
    assert(bytes.subrange(2, 4) =~= u16_le_bytes(header.number_of_sections));
    assert(bytes.subrange(12, 16) =~= u32_le_bytes(header.number_of_symbols));
    lemma_u16_le_bytes_round_trip(header.number_of_sections);
    lemma_u32_le_bytes_round_trip(header.number_of_symbols);
}

/// Where the size and the relocation count stand in a section header.
pub proof fn lemma_section_header_fields(header: CoffSectionHeader)
    ensures
        read_u32(header.bytes(), SIZE_OF_SECTION_OFFSET as int) == header.size_of_section,
        read_u16(header.bytes(), NUMBER_OF_RELOCATIONS_OFFSET as int)
            == header.number_of_relocations,
{
    let bytes = header.bytes();
    assert(bytes.subrange(16, 20) =~= u32_le_bytes(header.size_of_section));
    assert(bytes.subrange(32, 34) =~= u16_le_bytes(header.number_of_relocations));
    lemma_u32_le_bytes_round_trip(header.size_of_section);
    lemma_u16_le_bytes_round_trip(header.number_of_relocations);
}

/// In a sequence that was put together from three parts and a rest, each
/// part stands behind the parts before it.
pub proof fn lemma_leading_parts(first: Seq<u8>, second: Seq<u8>, third: Seq<u8>, rest: Seq<u8>)
    ensures
        ({
            let whole = first + second + third + rest;
            let one = first.len() as int;
            let two = one + second.len();
            let three = two + third.len();
            &&& whole.subrange(0, one) == first
            &&& whole.subrange(one, two) == second
            &&& whole.subrange(two, three) == third
        }),
{
    let whole = first + second + third + rest;
    let one = first.len() as int;
    let two = one + second.len();
    let three = two + third.len();
    assert(whole.subrange(0, one) =~= first);
    assert(whole.subrange(one, two) =~= second);
    assert(whole.subrange(two, three) =~= third);
}

/// Putting a sequence behind six others one by one, or behind their rest at
/// once, gives the same.
pub proof fn lemma_rest_of_file(
    front: Seq<u8>,
    a: Seq<u8>,
    b: Seq<u8>,
    c: Seq<u8>,
    d: Seq<u8>,
    e: Seq<u8>,
    f: Seq<u8>,
)
    ensures
        front + a + b + c + d + e + f == front + (a + b + c + d + e + f),
{
    assert(front + a + b + c + d + e + f =~= front + (a + b + c + d + e + f));
}

/// A file begins with its file header and the headers of `.data` and
/// `.text`.
pub proof fn lemma_headers_come_first(coff: Coff)
    ensures
        coff.bytes().subrange(0, 20) == coff.header.bytes(),
        coff.bytes().subrange(20, 60) == coff.data_section_header.bytes(),
        coff.bytes().subrange(60, 100) == coff.text_section_header.bytes(),
{
    let header = coff.header.bytes();
    let data_header = coff.data_section_header.bytes();
    let text_header = coff.text_section_header.bytes();
    let relocations = relocations_bytes(coff.relocations@);
    let symbols = symbols_bytes(coff@.symbols);
    let length = u32_le_bytes(coff.strings_table_length);
    let rest = coff.data_section@ + coff.text_section@ + relocations + symbols + length
        + coff.strings@;
    assert(header.len() == 20) by {
        lemma_header_length(coff.header);
    }
    assert(data_header.len() == 40) by {
        lemma_section_header_length(coff.data_section_header);
    }
    assert(text_header.len() == 40) by {
        lemma_section_header_length(coff.text_section_header);
    }
    lemma_rest_of_file(
        header + data_header + text_header,
        coff.data_section@,
        coff.text_section@,
        relocations,
        symbols,
        length,
        coff.strings@,
    );
    lemma_leading_parts(header, data_header, text_header, rest);
}

/// Reading the serialised form of a well-formed object gives back its two
/// sections with their sizes, the number of its symbols, and the number of
/// its relocations.
pub proof fn lemma_summary_round_trip(coff: Coff)
    requires
        coff.wf(),
    ensures
        read_summary(coff.bytes()) == (ObjectSummary {
            number_of_sections: 2,
            number_of_symbols: coff@.symbols.len() as int,
            data_section_size: coff@.data.len() as int,
            text_section_size: coff@.text.len() as int,
            data_relocations: 0,
            text_relocations: coff@.relocations.len() as int,
        }),
{
    let bytes = coff.bytes();
    let header = bytes.subrange(0, 20);
    let data_header = bytes.subrange(20, 60);
    let text_header = bytes.subrange(60, 100);
    lemma_serialised_length(coff);
    lemma_headers_come_first(coff);
    lemma_header_fields(coff.header);
    lemma_section_header_fields(coff.data_section_header);
    lemma_section_header_fields(coff.text_section_header);
    assert(bytes.subrange(2, 4) =~= header.subrange(2, 4));
    assert(bytes.subrange(12, 16) =~= header.subrange(12, 16));
    assert(bytes.subrange(36, 40) =~= data_header.subrange(16, 20));
    assert(bytes.subrange(52, 54) =~= data_header.subrange(32, 34));
    assert(bytes.subrange(76, 80) =~= text_header.subrange(16, 20));
    assert(bytes.subrange(92, 94) =~= text_header.subrange(32, 34));
}

/// The string table as it stands in the file: its length, which counts its
/// own four bytes, and the zero-terminated names.
pub open spec fn string_table_bytes(contents: CoffContents) -> Seq<u8> {
    u32_le_bytes(contents.next_string_offset() as u32) + contents.strings
}

/// A name of at most 8 bytes is stored in the record itself: the record is
/// short-named, its name field holds the name and zero bytes behind it, and
/// the string table does not change. Where the name has a byte that is not
/// zero, so has the name field.
pub proof fn lemma_short_name_is_stored_in_record(
    contents: CoffContents,
    name: Seq<u8>,
    value: u32,
    section_number: u16,
    symbol_type: u16,
    storage_class: u8,
    number_of_auxillary_symbols: u8,
)
    requires
        name.len() <= 8,
    ensures
        ({
            let stored = contents.append_named_symbol(
                name,
                value,
                section_number,
                symbol_type,
                storage_class,
                number_of_auxillary_symbols,
            );
            &&& stored.strings == contents.strings
            &&& stored.symbols.len() == contents.symbols.len() + 1
            &&& stored.symbols.last() matches SymbolRecord::ShortNamed { name: field, .. }
            &&& field.len() == 8
            &&& field.subrange(0, name.len() as int) == name
            &&& forall|k: int| name.len() <= k < 8 ==> field[k] == 0
            &&& (exists|k: int| 0 <= k < name.len() && name[k] != 0) ==> (exists|k: int|
                0 <= k < 8 && field[k] != 0)
        }),
{
    let field = zero_padded(name, 8);
    assert(field.subrange(0, name.len() as int) =~= name);
    if exists|k: int| 0 <= k < name.len() && name[k] != 0 {
        let k = choose|k: int| 0 <= k < name.len() && name[k] != 0;
        assert(field[k] != 0);
    }
}

/// A name of more than 8 bytes is stored in the string table: the record is
/// long-named, and at the offset that it holds the string table, as it
/// stands in the file, has the name and a zero byte behind it.
pub proof fn lemma_long_name_is_stored_in_string_table(
    contents: CoffContents,
    name: Seq<u8>,
    value: u32,
    section_number: u16,
    symbol_type: u16,
    storage_class: u8,
    number_of_auxillary_symbols: u8,
)
    requires
        name.len() > 8,
        contents.next_string_offset() + name.len() + 1 <= u32::MAX,
    ensures
        ({
            let stored = contents.append_named_symbol(
                name,
                value,
                section_number,
                symbol_type,
                storage_class,
                number_of_auxillary_symbols,
            );
            &&& stored.symbols.len() == contents.symbols.len() + 1
            &&& stored.symbols.last() matches SymbolRecord::LongNamed {
                pointer_to_string_table,
                ..
            }
            &&& pointer_to_string_table == contents.next_string_offset()
            &&& pointer_to_string_table + name.len() + 1 == stored.next_string_offset()
            &&& string_table_bytes(stored).subrange(
                pointer_to_string_table as int,
                pointer_to_string_table + name.len() + 1,
            ) == name.push(0u8)
        }),
{
    let stored = contents.append_named_symbol(
        name,
        value,
        section_number,
        symbol_type,
        storage_class,
        number_of_auxillary_symbols,
    );
    let at = contents.next_string_offset();
    assert(string_table_bytes(stored).subrange(at, at + name.len() + 1) =~= name.push(0u8));
}

/// A name that the string table holds stays where it is when the object
/// grows.
pub proof fn lemma_stored_name_stays(
    earlier: CoffContents,
    later: CoffContents,
    offset: int,
    length: int,
)
    requires
        later.extends(earlier),
        4 <= offset,
        0 <= length,
        offset + length <= earlier.next_string_offset(),
    ensures
        string_table_bytes(later).subrange(offset, offset + length) == string_table_bytes(
            earlier,
        ).subrange(offset, offset + length),
{
    assert(string_table_bytes(later).subrange(offset, offset + length) =~= string_table_bytes(
        earlier,
    ).subrange(offset, offset + length));
}

} // verus!
