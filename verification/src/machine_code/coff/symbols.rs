//! The symbol table and the string table that holds its long names.

use crate::machine_code::coff::headers::set_current_timestamp;
use crate::machine_code::coff::{
    data_section_name,
    text_section_name,
    Coff,
    CoffContents,
    CoffSymbol,
    CoffSymbolLongNamed,
    CoffSymbolName,
    CoffSymbolSection,
    CoffSymbolShortNamed,
    SymbolRecord,
};
use crate::machine_code::utilities::{
    get_8_padded_u8_array_from_string,
    get_truncated_18_padded_u8_array_from_string,
    string_to_bytes_zero_terminated,
    zero_padded,
};
use vstd::prelude::*;
use vstd::string::StringSliceAdditionalSpecFns;

verus! {

/// Section number of a symbol that carries debugging information.
pub const IMAGE_SYM_DEBUG: u16 = 0xFFFE;

/// Section number of a symbol whose value is not an address.
pub const IMAGE_SYM_ABSOLUTE: u16 = 0xFFFF;

pub const IMAGE_SYM_CLASS_FILE: u8 = 0x67;

pub const IMAGE_SYM_CLASS_EXTERNAL: u8 = 0x02;

pub const IMAGE_SYM_CLASS_STATIC: u8 = 0x03;

/// The name field of the `.file` symbol.
pub open spec fn file_symbol_name() -> Seq<u8> {
    seq![0x2Eu8, 0x66u8, 0x69u8, 0x6Cu8, 0x65u8, 0u8, 0u8, 0u8]
}

impl CoffContents {
    /// The `.file` symbol and, behind it, the record that holds the first 18
    /// bytes of the source file's name.
    pub open spec fn append_debug_file_name(self, file_name: Seq<u8>) -> CoffContents {
        self.append_symbol(
            SymbolRecord::ShortNamed {
                name: file_symbol_name(),
                value: 0,
                section_number: IMAGE_SYM_DEBUG,
                symbol_type: 0,
                storage_class: IMAGE_SYM_CLASS_FILE,
                number_of_auxillary_symbols: 1,
            },
        ).append_symbol(SymbolRecord::Name { name: zero_padded(file_name, 18) })
    }

    /// The symbol of a section and, behind it, the record that holds the
    /// section's length and relocation count.
    pub open spec fn append_section_definition(
        self,
        name: Seq<u8>,
        section_number: u16,
        length: u32,
        number_of_relocations: u16,
    ) -> CoffContents {
        self.append_named_symbol(
            name,
            0,
            section_number,
            0,
            IMAGE_SYM_CLASS_STATIC,
            1,
        ).append_symbol(
            SymbolRecord::Section {
                length,
                number_of_relocations,
                number_of_line_numbers: 0,
                checksum: 0,
                number: 0,
                selection: 0,
            },
        )
    }

    /// The two records that define the `.data` section, as it stands.
    pub open spec fn append_data_section_definition(self) -> CoffContents {
        self.append_symbol(
            SymbolRecord::ShortNamed {
                name: data_section_name(),
                value: 0,
                section_number: 1,
                symbol_type: 0,
                storage_class: IMAGE_SYM_CLASS_STATIC,
                number_of_auxillary_symbols: 1,
            },
        ).append_symbol(
            SymbolRecord::Section {
                length: self.data.len() as u32,
                number_of_relocations: 0,
                number_of_line_numbers: 0,
                checksum: 0,
                number: 0,
                selection: 0,
            },
        )
    }

    /// The two records that define the `.text` section, as it stands.
    pub open spec fn append_text_section_definition(self) -> CoffContents {
        self.append_symbol(
            SymbolRecord::ShortNamed {
                name: text_section_name(),
                value: 0,
                section_number: 2,
                symbol_type: 0,
                storage_class: IMAGE_SYM_CLASS_STATIC,
                number_of_auxillary_symbols: 1,
            },
        ).append_symbol(
            SymbolRecord::Section {
                length: self.text.len() as u32,
                number_of_relocations: self.relocations.len() as u16,
                number_of_line_numbers: 0,
                checksum: 0,
                number: 0,
                selection: 0,
            },
        )
    }

    /// A symbol of storage class static, without auxiliary records.
    pub open spec fn append_static_symbol(
        self,
        name: Seq<u8>,
        value: u32,
        section_number: u16,
    ) -> CoffContents {
        self.append_named_symbol(name, value, section_number, 0, IMAGE_SYM_CLASS_STATIC, 0)
    }

    /// A symbol of storage class external, without auxiliary records.
    pub open spec fn append_external_symbol(
        self,
        name: Seq<u8>,
        value: u32,
        section_number: u16,
    ) -> CoffContents {
        self.append_named_symbol(name, value, section_number, 0, IMAGE_SYM_CLASS_EXTERNAL, 0)
    }
}

impl Coff {
    /// Whether the symbol table can take `count` more records: their number
    /// is a 32-bit field.
    pub open spec fn can_take_symbols(self, count: int) -> bool {
        self.header.number_of_symbols + count <= u32::MAX
    }

    /// Whether the string table can take `name` with its terminator: its
    /// length is a 32-bit field.
    pub open spec fn can_take_string(self, name: Seq<u8>) -> bool {
        self.strings_table_length + name.len() + 1 <= u32::MAX
    }

    /// Whether a symbol named `name` can be added: there is room for its
    /// record and, if the name is longer than 8 bytes, for the name.
    pub open spec fn can_take_named_symbol(self, name: Seq<u8>) -> bool {
        &&& self.can_take_symbols(1)
        &&& name.len() > 8 ==> self.can_take_string(name)
    }
}

fn short_named_symbol(
    name: &str,
    value: u32,
    section_number: u16,
    symbol_type: u16,
    storage_class: u8,
    number_of_auxillary_symbols: u8,
) -> (symbol: CoffSymbol)
    requires
        name.spec_bytes().len() <= 8,
    ensures
        symbol@ == (SymbolRecord::ShortNamed {
            name: zero_padded(name.spec_bytes(), 8),
            value,
            section_number,
            symbol_type,
            storage_class,
            number_of_auxillary_symbols,
        }),
{
    CoffSymbol::ShortNamed(
        CoffSymbolShortNamed {
            name: get_8_padded_u8_array_from_string(name),
            value,
            section_number,
            symbol_type,
            storage_class,
            number_of_auxillary_symbols,
        },
    )
}

fn long_named_symbol(
    pointer_to_string_table: u32,
    value: u32,
    section_number: u16,
    symbol_type: u16,
    storage_class: u8,
    number_of_auxillary_symbols: u8,
) -> (symbol: CoffSymbol)
    ensures
        symbol@ == (SymbolRecord::LongNamed {
            pointer_to_string_table,
            value,
            section_number,
            symbol_type,
            storage_class,
            number_of_auxillary_symbols,
        }),
{
    CoffSymbol::LongNamed(
        CoffSymbolLongNamed {
            pointer_to_string_table,
            value,
            section_number,
            symbol_type,
            storage_class,
            number_of_auxillary_symbols,
        },
    )
}

fn name_symbol(name: &str) -> (symbol: CoffSymbol)
    ensures
        symbol@ == (SymbolRecord::Name { name: zero_padded(name.spec_bytes(), 18) }),
{
    CoffSymbol::Name(CoffSymbolName(get_truncated_18_padded_u8_array_from_string(name)))
}

fn section_symbol(
    length: u32,
    number_of_relocations: u16,
    number_of_line_numbers: u16,
    checksum: u32,
    number: u16,
    selection: u8,
) -> (symbol: CoffSymbol)
    ensures
        symbol@ == (SymbolRecord::Section {
            length,
            number_of_relocations,
            number_of_line_numbers,
            checksum,
            number,
            selection,
        }),
{
    CoffSymbol::Section(
        CoffSymbolSection {
            length,
            number_of_relocations,
            number_of_line_numbers,
            checksum,
            number,
            selection,
        },
    )
}

fn add_symbol(coff: &mut Coff, entry: CoffSymbol)
    requires
        old(coff).wf(),
        old(coff).can_take_symbols(1),
    ensures
        final(coff).wf(),
        final(coff)@ == old(coff)@.append_symbol(entry@),
        final(coff).header.number_of_symbols == old(coff).header.number_of_symbols + 1,
        final(coff).strings_table_length == old(coff).strings_table_length,
{
    coff.symbols.push(entry);
    coff.header.number_of_symbols += 1;
    set_current_timestamp(coff);
    assert(coff@.symbols =~= old(coff)@.symbols.push(entry@));
}

/// Appends the zero-terminated `entry` to the string table and returns the
/// offset, from the start of the table in the file, at which it begins.
fn add_string(coff: &mut Coff, entry: &str) -> (pointer: u32)
    requires
        old(coff).wf(),
        old(coff).can_take_string(entry.spec_bytes()),
    ensures
        final(coff).wf(),
        final(coff)@ == old(coff)@.append_string(entry.spec_bytes()),
        pointer == old(coff)@.next_string_offset(),
        final(coff).header.number_of_symbols == old(coff).header.number_of_symbols,
{
    let mut new_string = string_to_bytes_zero_terminated(entry);
    let pointer = coff.strings_table_length;
    coff.strings_table_length += new_string.len() as u32;
    coff.strings.append(&mut new_string);
    set_current_timestamp(coff);
    pointer
}

fn add_named_symbol(
    coff: &mut Coff,
    name: &str,
    value: u32,
    section_number: u16,
    symbol_type: u16,
    storage_class: u8,
    number_of_auxillary_symbols: u8,
)
    requires
        old(coff).wf(),
        old(coff).can_take_named_symbol(name.spec_bytes()),
    ensures
        final(coff).wf(),
        final(coff)@ == old(coff)@.append_named_symbol(
            name.spec_bytes(),
            value,
            section_number,
            symbol_type,
            storage_class,
            number_of_auxillary_symbols,
        ),
        final(coff).header.number_of_symbols == old(coff).header.number_of_symbols + 1,
{
    if name.len() <= 8 {
        add_symbol(
            coff,
            short_named_symbol(
                name,
                value,
                section_number,
                symbol_type,
                storage_class,
                number_of_auxillary_symbols,
            ),
        );
    } else {
        let name_pointer = add_string(coff, name);
        add_symbol(
            coff,
            long_named_symbol(
                name_pointer,
                value,
                section_number,
                symbol_type,
                storage_class,
                number_of_auxillary_symbols,
            ),
        );
    }
}

/// The bytes that the name `.file` leaves in a name field.
pub proof fn lemma_file_symbol_name()
    ensures
        ".file".spec_bytes().len() == 5,
        zero_padded(".file".spec_bytes(), 8) == file_symbol_name(),
{
    reveal_strlit(".file");
    vstd::utf8::is_ascii_chars_encode_utf8(".file"@);
    assert(zero_padded(".file".spec_bytes(), 8) =~= file_symbol_name());
}

/// Adds the `.file` debug symbol and the record with the source file's name,
/// cut to 18 bytes.
pub fn add_debug_file_name_symbols(coff: &mut Coff, file_name: &str)
    requires
        old(coff).wf(),
        old(coff).can_take_symbols(2),
    ensures
        final(coff).wf(),
        final(coff)@ == old(coff)@.append_debug_file_name(file_name.spec_bytes()),
{
    proof {
        lemma_file_symbol_name();
    }
    add_named_symbol(coff, ".file", 0, IMAGE_SYM_DEBUG, 0, IMAGE_SYM_CLASS_FILE, 1);
    add_symbol(coff, name_symbol(file_name));
}

fn add_section_symbols(
    coff: &mut Coff,
    section_name: &str,
    section_number: u16,
    section_length: u32,
    number_of_relocations: u16,
)
    requires
        old(coff).wf(),
        old(coff).can_take_symbols(2),
        section_name.spec_bytes().len() > 8 ==> old(coff).can_take_string(
            section_name.spec_bytes(),
        ),
    ensures
        final(coff).wf(),
        final(coff)@ == old(coff)@.append_section_definition(
            section_name.spec_bytes(),
            section_number,
            section_length,
            number_of_relocations,
        ),
{
    add_named_symbol(coff, section_name, 0, section_number, 0, IMAGE_SYM_CLASS_STATIC, 1);
    add_symbol(coff, section_symbol(section_length, number_of_relocations, 0, 0, 0, 0));
}

/// Adds the two records that define the `.data` section: section number 1,
/// with the length that `.data` has now.
pub fn add_data_section_header_symbols(coff: &mut Coff)
    requires
        old(coff).wf(),
        old(coff).can_take_symbols(2),
    ensures
        final(coff).wf(),
        final(coff)@ == old(coff)@.append_data_section_definition(),
{
    proof {
        crate::machine_code::coff::lemma_section_names();
    }
    let section_size = coff.data_section_header.size_of_section;
    let number_of_relocations = coff.data_section_header.number_of_relocations;
    add_section_symbols(coff, ".data", 1, section_size, number_of_relocations);
}

/// Adds the two records that define the `.text` section: section number 2,
/// with the length and the number of relocations that `.text` has now.
pub fn add_text_section_header_symbols(coff: &mut Coff)
    requires
        old(coff).wf(),
        old(coff).can_take_symbols(2),
    ensures
        final(coff).wf(),
        final(coff)@ == old(coff)@.append_text_section_definition(),
{
    proof {
        crate::machine_code::coff::lemma_section_names();
    }
    let section_size = coff.text_section_header.size_of_section;
    let number_of_relocations = coff.text_section_header.number_of_relocations;
    add_section_symbols(coff, ".text", 2, section_size, number_of_relocations);
}

/// Adds a static symbol whose value is a constant, not an address.
pub fn add_absolute_static_symbol(coff: &mut Coff, name: &str, value: u32)
    requires
        old(coff).wf(),
        old(coff).can_take_named_symbol(name.spec_bytes()),
    ensures
        final(coff).wf(),
        final(coff)@ == old(coff)@.append_static_symbol(
            name.spec_bytes(),
            value,
            IMAGE_SYM_ABSOLUTE,
        ),
{
    add_static_symbol(coff, name, value, IMAGE_SYM_ABSOLUTE);
}

/// Adds an external symbol whose value is a constant, not an address.
pub fn add_absolute_external_symbol(coff: &mut Coff, name: &str, value: u32)
    requires
        old(coff).wf(),
        old(coff).can_take_named_symbol(name.spec_bytes()),
    ensures
        final(coff).wf(),
        final(coff)@ == old(coff)@.append_external_symbol(
            name.spec_bytes(),
            value,
            IMAGE_SYM_ABSOLUTE,
        ),
{
    add_external_symbol(coff, name, value, IMAGE_SYM_ABSOLUTE);
}

/// Adds a static symbol for the item at offset `value` of `.data`.
pub fn add_data_section_static_symbol(coff: &mut Coff, name: &str, value: u32)
    requires
        old(coff).wf(),
        old(coff).can_take_named_symbol(name.spec_bytes()),
    ensures
        final(coff).wf(),
        final(coff)@ == old(coff)@.append_static_symbol(name.spec_bytes(), value, 1),
{
    add_static_symbol(coff, name, value, 1);
}

/// Adds an external symbol that another object defines: section 0, value 0.
pub fn add_foreign_external_symbol(coff: &mut Coff, name: &str)
    requires
        old(coff).wf(),
        old(coff).can_take_named_symbol(name.spec_bytes()),
    ensures
        final(coff).wf(),
        final(coff)@ == old(coff)@.append_external_symbol(name.spec_bytes(), 0, 0),
{
    add_external_symbol(coff, name, 0, 0);
}

/// Adds an external symbol for the code at offset `value` of `.text`.
pub fn add_text_section_external_symbol(coff: &mut Coff, name: &str, value: u32)
    requires
        old(coff).wf(),
        old(coff).can_take_named_symbol(name.spec_bytes()),
    ensures
        final(coff).wf(),
        final(coff)@ == old(coff)@.append_external_symbol(name.spec_bytes(), value, 2),
{
    add_external_symbol(coff, name, value, 2);
}

/// Adds a static symbol for the code at offset `value` of `.text`.
pub fn add_text_section_static_symbol(coff: &mut Coff, name: &str, value: u32)
    requires
        old(coff).wf(),
        old(coff).can_take_named_symbol(name.spec_bytes()),
    ensures
        final(coff).wf(),
        final(coff)@ == old(coff)@.append_static_symbol(name.spec_bytes(), value, 2),
{
    add_static_symbol(coff, name, value, 2);
}

fn add_static_symbol(coff: &mut Coff, name: &str, value: u32, section_number: u16)
    requires
        old(coff).wf(),
        old(coff).can_take_named_symbol(name.spec_bytes()),
    ensures
        final(coff).wf(),
        final(coff)@ == old(coff)@.append_static_symbol(name.spec_bytes(), value, section_number),
{
    add_named_symbol(coff, name, value, section_number, 0, IMAGE_SYM_CLASS_STATIC, 0);
}

fn add_external_symbol(coff: &mut Coff, name: &str, value: u32, section_number: u16)
    requires
        old(coff).wf(),
        old(coff).can_take_named_symbol(name.spec_bytes()),
    ensures
        final(coff).wf(),
        final(coff)@ == old(coff)@.append_external_symbol(
            name.spec_bytes(),
            value,
            section_number,
        ),
{
    add_named_symbol(coff, name, value, section_number, 0, IMAGE_SYM_CLASS_EXTERNAL, 0);
}

} // verus!
