//! The in-memory COFF object: two section headers, the `.data` and `.text`
//! bytes, relocations, symbols and the string table, together with the byte
//! layout that a linker reads.

pub mod files;
pub mod headers;
pub mod layout;
pub mod relocations;
pub mod sections;
pub mod symbols;

use crate::machine_code::coff::headers::{header, initial_base_dynamic_data_pointer, section_header};
use crate::machine_code::utilities::{
    get_current_timestamp,
    u16_le_bytes,
    u32_le_bytes,
    zero_padded,
};
use vstd::prelude::*;
use vstd::string::StringSliceAdditionalSpecFns;

verus! {

/// Machine type of x64 in the file header.
pub const IMAGE_FILE_MACHINE_AMD64: u16 = 0x8664;

pub const IMAGE_SCN_CNT_INITIALISED_DATA: u32 = 0x00000040;

pub const IMAGE_SCN_CNT_CODE: u32 = 0x00000020;

pub const IMAGE_SCN_ALIGN_4BYTES: u32 = 0x00300000;

pub const IMAGE_SCN_ALIGN_16BYTES: u32 = 0x00500000;

pub const IMAGE_SCN_MEM_EXECUTE: u32 = 0x20000000;

pub const IMAGE_SCN_MEM_READ: u32 = 0x40000000;

pub const IMAGE_SCN_MEM_WRITE: u32 = 0x80000000;

/// Size of the serialised file header.
pub const HEADER_SIZE: u32 = 20;

/// Size of one serialised section header.
pub const SECTION_HEADER_SIZE: u32 = 40;

/// Size of one serialised relocation entry.
pub const RELOCATION_ENTRY_SIZE: u32 = 10;

/// Size of one serialised symbol table record.
pub const SYMBOL_SIZE: u32 = 18;

/// Characteristics of the `.data` section: initialised data, 4-byte aligned,
/// readable and writable.
pub const DATA_SECTION_FLAGS: u32 = IMAGE_SCN_CNT_INITIALISED_DATA | IMAGE_SCN_ALIGN_4BYTES
    | IMAGE_SCN_MEM_READ | IMAGE_SCN_MEM_WRITE;

/// Characteristics of the `.text` section: code, 16-byte aligned, executable
/// and readable.
pub const TEXT_SECTION_FLAGS: u32 = IMAGE_SCN_CNT_CODE | IMAGE_SCN_ALIGN_16BYTES
    | IMAGE_SCN_MEM_EXECUTE | IMAGE_SCN_MEM_READ;

/// The file header.
pub struct CoffHeader {
    pub magic: u16,
    pub number_of_sections: u16,
    pub time_date_stamp: u32,
    pub pointer_to_symbol_table: u32,
    pub number_of_symbols: u32,
    pub size_of_optional_header: u16,
    pub flags: u16,
}

/// The header of one section.
pub struct CoffSectionHeader {
    pub short_name: [u8; 8],
    pub physical_address: u32,
    pub virtual_address: u32,
    pub size_of_section: u32,
    pub pointer_to_section: u32,
    pub pointer_to_relocations: u32,
    pub pointer_to_line_numbers: u32,
    pub number_of_relocations: u16,
    pub number_of_line_numbers: u16,
    pub flags: u32,
}

/// One relocation: where in `.text` the linker patches, and against which
/// symbol.
pub struct CoffRelocationEntry {
    pub pointer_to_reference: u32,
    pub symbol_index: u32,
    pub relocation_type: u16,
}

/// A symbol whose name fits the 8-byte name field.
pub struct CoffSymbolShortNamed {
    pub name: [u8; 8],
    pub value: u32,
    pub section_number: u16,
    pub symbol_type: u16,
    pub storage_class: u8,
    pub number_of_auxillary_symbols: u8,
}

/// A symbol whose name lives in the string table. In the file the record
/// starts with four zero bytes, by which a reader tells it from a short-named
/// one.
pub struct CoffSymbolLongNamed {
    pub pointer_to_string_table: u32,
    pub value: u32,
    pub section_number: u16,
    pub symbol_type: u16,
    pub storage_class: u8,
    pub number_of_auxillary_symbols: u8,
}

/// An auxiliary record that holds a file name.
pub struct CoffSymbolName(pub [u8; 18]);

/// An auxiliary record that describes a section. In the file three unused
/// zero bytes follow its fields.
pub struct CoffSymbolSection {
    pub length: u32,
    pub number_of_relocations: u16,
    pub number_of_line_numbers: u16,
    pub checksum: u32,
    pub number: u16,
    pub selection: u8,
}

/// One 18-byte record of the symbol table, in one of its four shapes.
pub enum CoffSymbol {
    ShortNamed(CoffSymbolShortNamed),
    LongNamed(CoffSymbolLongNamed),
    Name(CoffSymbolName),
    Section(CoffSymbolSection),
}

/// A COFF object under construction.
pub struct Coff {
    pub header: CoffHeader,
    pub data_section_header: CoffSectionHeader,
    pub text_section_header: CoffSectionHeader,
    pub data_section: Vec<u8>,
    pub text_section: Vec<u8>,
    pub relocations: Vec<CoffRelocationEntry>,
    pub symbols: Vec<CoffSymbol>,
    pub strings_table_length: u32,
    pub strings: Vec<u8>,
    /// For each relocation, in order, the value that was written into `.text`
    /// at the place it names.
    pub relocation_values: Ghost<Seq<u32>>,
}

/// What a COFF object holds, apart from its headers and time stamp.
pub struct CoffContents {
    pub data: Seq<u8>,
    pub text: Seq<u8>,
    pub relocations: Seq<CoffRelocationEntry>,
    pub relocation_values: Seq<u32>,
    pub symbols: Seq<SymbolRecord>,
    pub strings: Seq<u8>,
}

impl CoffHeader {
    /// The 20 bytes of the header in the file.
    pub open spec fn bytes(self) -> Seq<u8> {
        u16_le_bytes(self.magic) + u16_le_bytes(self.number_of_sections) + u32_le_bytes(
            self.time_date_stamp,
        ) + u32_le_bytes(self.pointer_to_symbol_table) + u32_le_bytes(self.number_of_symbols)
            + u16_le_bytes(self.size_of_optional_header) + u16_le_bytes(self.flags)
    }
}

impl CoffSectionHeader {
    /// The 40 bytes of the section header in the file.
    pub open spec fn bytes(self) -> Seq<u8> {
        self.short_name@ + u32_le_bytes(self.physical_address) + u32_le_bytes(self.virtual_address)
            + u32_le_bytes(self.size_of_section) + u32_le_bytes(self.pointer_to_section)
            + u32_le_bytes(self.pointer_to_relocations) + u32_le_bytes(
            self.pointer_to_line_numbers,
        ) + u16_le_bytes(self.number_of_relocations) + u16_le_bytes(self.number_of_line_numbers)
            + u32_le_bytes(self.flags)
    }
}

impl CoffRelocationEntry {
    /// The 10 bytes of the entry in the file.
    pub open spec fn bytes(self) -> Seq<u8> {
        u32_le_bytes(self.pointer_to_reference) + u32_le_bytes(self.symbol_index) + u16_le_bytes(
            self.relocation_type,
        )
    }
}

/// One symbol table record as a plain value: a name field is the sequence of
/// its bytes.
pub enum SymbolRecord {
    ShortNamed {
        name: Seq<u8>,
        value: u32,
        section_number: u16,
        symbol_type: u16,
        storage_class: u8,
        number_of_auxillary_symbols: u8,
    },
    LongNamed {
        pointer_to_string_table: u32,
        value: u32,
        section_number: u16,
        symbol_type: u16,
        storage_class: u8,
        number_of_auxillary_symbols: u8,
    },
    Name { name: Seq<u8> },
    Section {
        length: u32,
        number_of_relocations: u16,
        number_of_line_numbers: u16,
        checksum: u32,
        number: u16,
        selection: u8,
    },
}

impl SymbolRecord {
    /// The bytes of the record in the file: 18 of them where a name field has
    /// its full width.
    pub open spec fn bytes(self) -> Seq<u8> {
        match self {
            SymbolRecord::ShortNamed {
                name,
                value,
                section_number,
                symbol_type,
                storage_class,
                number_of_auxillary_symbols,
            } => name + u32_le_bytes(value) + u16_le_bytes(section_number) + u16_le_bytes(
                symbol_type,
            ) + seq![storage_class, number_of_auxillary_symbols],
            SymbolRecord::LongNamed {
                pointer_to_string_table,
                value,
                section_number,
                symbol_type,
                storage_class,
                number_of_auxillary_symbols,
            } => seq![0u8, 0u8, 0u8, 0u8] + u32_le_bytes(pointer_to_string_table) + u32_le_bytes(
                value,
            ) + u16_le_bytes(section_number) + u16_le_bytes(symbol_type)
                + seq![storage_class, number_of_auxillary_symbols],
            SymbolRecord::Name { name } => name,
            SymbolRecord::Section {
                length,
                number_of_relocations,
                number_of_line_numbers,
                checksum,
                number,
                selection,
            } => u32_le_bytes(length) + u16_le_bytes(number_of_relocations) + u16_le_bytes(
                number_of_line_numbers,
            ) + u32_le_bytes(checksum) + u16_le_bytes(number) + seq![selection, 0u8, 0u8, 0u8],
        }
    }

    /// Name fields have the width that the file format gives them.
    pub open spec fn wf(self) -> bool {
        match self {
            SymbolRecord::ShortNamed { name, .. } => name.len() == 8,
            SymbolRecord::Name { name } => name.len() == 18,
            _ => true,
        }
    }
}

impl View for CoffSymbol {
    type V = SymbolRecord;

    open spec fn view(&self) -> SymbolRecord {
        match *self {
            CoffSymbol::ShortNamed(symbol) => SymbolRecord::ShortNamed {
                name: symbol.name@,
                value: symbol.value,
                section_number: symbol.section_number,
                symbol_type: symbol.symbol_type,
                storage_class: symbol.storage_class,
                number_of_auxillary_symbols: symbol.number_of_auxillary_symbols,
            },
            CoffSymbol::LongNamed(symbol) => SymbolRecord::LongNamed {
                pointer_to_string_table: symbol.pointer_to_string_table,
                value: symbol.value,
                section_number: symbol.section_number,
                symbol_type: symbol.symbol_type,
                storage_class: symbol.storage_class,
                number_of_auxillary_symbols: symbol.number_of_auxillary_symbols,
            },
            CoffSymbol::Name(symbol) => SymbolRecord::Name { name: symbol.0@ },
            CoffSymbol::Section(symbol) => SymbolRecord::Section {
                length: symbol.length,
                number_of_relocations: symbol.number_of_relocations,
                number_of_line_numbers: symbol.number_of_line_numbers,
                checksum: symbol.checksum,
                number: symbol.number,
                selection: symbol.selection,
            },
        }
    }
}

/// The records that a vector of symbols holds, as plain values.
pub open spec fn symbol_records(symbols: Seq<CoffSymbol>) -> Seq<SymbolRecord> {
    Seq::new(symbols.len(), |i: int| symbols[i]@)
}

/// The relocation table in the file: the entries' bytes, in order.
pub open spec fn relocations_bytes(relocations: Seq<CoffRelocationEntry>) -> Seq<u8>
    decreases relocations.len(),
{
    if relocations.len() == 0 {
        Seq::empty()
    } else {
        relocations_bytes(relocations.drop_last()) + relocations.last().bytes()
    }
}

/// The symbol table in the file: the records' bytes, in order.
pub open spec fn symbols_bytes(symbols: Seq<SymbolRecord>) -> Seq<u8>
    decreases symbols.len(),
{
    if symbols.len() == 0 {
        Seq::empty()
    } else {
        symbols_bytes(symbols.drop_last()) + symbols.last().bytes()
    }
}

/// The name field of the `.data` section header.
pub open spec fn data_section_name() -> Seq<u8> {
    seq![0x2Eu8, 0x64u8, 0x61u8, 0x74u8, 0x61u8, 0u8, 0u8, 0u8]
}

/// The name field of the `.text` section header.
pub open spec fn text_section_name() -> Seq<u8> {
    seq![0x2Eu8, 0x74u8, 0x65u8, 0x78u8, 0x74u8, 0u8, 0u8, 0u8]
}

impl CoffContents {
    /// The offset in the file at which the first symbol record begins.
    pub open spec fn symbol_table_offset(self) -> int {
        HEADER_SIZE + 2 * SECTION_HEADER_SIZE + self.data.len() + self.text.len()
            + RELOCATION_ENTRY_SIZE * self.relocations.len()
    }

    /// Every relocation names four bytes of `.text`, and they hold the value
    /// that was written for it.
    pub open spec fn relocations_patched(self) -> bool {
        &&& self.relocation_values.len() == self.relocations.len()
        &&& forall|i: int|
            0 <= i < self.relocations.len() ==> {
                let at = (#[trigger] self.relocations[i]).pointer_to_reference as int;
                &&& at + 4 <= self.text.len()
                &&& self.text.subrange(at, at + 4) == u32_le_bytes(self.relocation_values[i])
            }
    }

    /// `bytes` at the end of `.data`.
    pub open spec fn append_data(self, bytes: Seq<u8>) -> CoffContents {
        CoffContents { data: self.data + bytes, ..self }
    }

    /// `bytes` at the end of `.text`.
    pub open spec fn append_text(self, bytes: Seq<u8>) -> CoffContents {
        CoffContents { text: self.text + bytes, ..self }
    }

    /// Four bytes of `.text` that hold `initial_value`, and a relocation of
    /// the given type against `symbol_index` that names them.
    pub open spec fn append_relocated_value(
        self,
        symbol_index: u32,
        initial_value: u32,
        relocation_type: u16,
    ) -> CoffContents {
        CoffContents {
            text: self.text + u32_le_bytes(initial_value),
            relocations: self.relocations.push(
                CoffRelocationEntry {
                    pointer_to_reference: self.text.len() as u32,
                    symbol_index,
                    relocation_type,
                },
            ),
            relocation_values: self.relocation_values.push(initial_value),
            ..self
        }
    }

    /// `symbol` at the end of the symbol table.
    pub open spec fn append_symbol(self, symbol: SymbolRecord) -> CoffContents {
        CoffContents { symbols: self.symbols.push(symbol), ..self }
    }

    /// The zero-terminated `name` at the end of the string table.
    pub open spec fn append_string(self, name: Seq<u8>) -> CoffContents {
        CoffContents { strings: self.strings + name.push(0u8), ..self }
    }

    /// A symbol named `name`. A name of at most 8 bytes stands in the record
    /// itself, zero-padded. A longer one goes to the string table, zero
    /// terminated, and the record holds the offset at which it begins there.
    pub open spec fn append_named_symbol(
        self,
        name: Seq<u8>,
        value: u32,
        section_number: u16,
        symbol_type: u16,
        storage_class: u8,
        number_of_auxillary_symbols: u8,
    ) -> CoffContents {
        if name.len() <= 8 {
            self.append_symbol(
                SymbolRecord::ShortNamed {
                    name: zero_padded(name, 8),
                    value,
                    section_number,
                    symbol_type,
                    storage_class,
                    number_of_auxillary_symbols,
                },
            )
        } else {
            self.append_string(name).append_symbol(
                SymbolRecord::LongNamed {
                    pointer_to_string_table: self.next_string_offset() as u32,
                    value,
                    section_number,
                    symbol_type,
                    storage_class,
                    number_of_auxillary_symbols,
                },
            )
        }
    }

    /// The offset, counted from the start of the string table in the file, at
    /// which the next name will begin. The table starts with its own 4-byte
    /// length.
    pub open spec fn next_string_offset(self) -> int {
        4 + self.strings.len() as int
    }
}

impl CoffContents {
    /// Every size and count is within the width of the header field that
    /// holds it.
    pub open spec fn fits(self) -> bool {
        &&& self.symbol_table_offset() <= u32::MAX
        &&& self.relocations.len() <= u16::MAX
        &&& self.symbols.len() <= u32::MAX
        &&& self.next_string_offset() <= u32::MAX
    }

    /// `self` holds what `earlier` holds, and behind it what was appended
    /// since.
    pub open spec fn extends(self, earlier: CoffContents) -> bool {
        &&& earlier.data.is_prefix_of(self.data)
        &&& earlier.text.is_prefix_of(self.text)
        &&& earlier.relocations.is_prefix_of(self.relocations)
        &&& earlier.relocation_values.is_prefix_of(self.relocation_values)
        &&& earlier.symbols.is_prefix_of(self.symbols)
        &&& earlier.strings.is_prefix_of(self.strings)
    }
}

impl View for Coff {
    type V = CoffContents;

    open spec fn view(&self) -> CoffContents {
        CoffContents {
            data: self.data_section@,
            text: self.text_section@,
            relocations: self.relocations@,
            relocation_values: self.relocation_values@,
            symbols: symbol_records(self.symbols@),
            strings: self.strings@,
        }
    }
}

impl Coff {
    /// The headers agree with what the object holds: every size, count and
    /// file offset in them is the one that the serialised layout has.
    pub open spec fn wf(self) -> bool {
        let base = HEADER_SIZE + 2 * SECTION_HEADER_SIZE;
        &&& self.header.magic == IMAGE_FILE_MACHINE_AMD64
        &&& self.header.number_of_sections == 2
        &&& self.header.pointer_to_symbol_table == self@.symbol_table_offset()
        &&& self.header.number_of_symbols == self@.symbols.len()
        &&& self.header.size_of_optional_header == 0
        &&& self.header.flags == 0
        &&& self.data_section_header.short_name@ == data_section_name()
        &&& self.data_section_header.physical_address == 0
        &&& self.data_section_header.virtual_address == 0
        &&& self.data_section_header.size_of_section == self@.data.len()
        &&& self.data_section_header.pointer_to_section == base
        &&& self.data_section_header.pointer_to_relocations == base + self@.data.len()
        &&& self.data_section_header.pointer_to_line_numbers == 0
        &&& self.data_section_header.number_of_relocations == 0
        &&& self.data_section_header.number_of_line_numbers == 0
        &&& self.data_section_header.flags == DATA_SECTION_FLAGS
        &&& self.text_section_header.short_name@ == text_section_name()
        &&& self.text_section_header.physical_address == 0
        &&& self.text_section_header.virtual_address == 0
        &&& self.text_section_header.size_of_section == self@.text.len()
        &&& self.text_section_header.pointer_to_section == base + self@.data.len()
        &&& self.text_section_header.pointer_to_relocations == base + self@.data.len()
            + self@.text.len()
        &&& self.text_section_header.pointer_to_line_numbers == 0
        &&& self.text_section_header.number_of_relocations == self@.relocations.len()
        &&& self.text_section_header.number_of_line_numbers == 0
        &&& self.text_section_header.flags == TEXT_SECTION_FLAGS
        &&& self.strings_table_length == self@.next_string_offset()
        &&& self@.relocations_patched()
    }

    /// The object file, byte for byte.
    pub open spec fn bytes(self) -> Seq<u8> {
        self.header.bytes() + self.data_section_header.bytes() + self.text_section_header.bytes()
            + self.data_section@ + self.text_section@ + relocations_bytes(self.relocations@)
            + symbols_bytes(self@.symbols) + u32_le_bytes(self.strings_table_length)
            + self.strings@
    }
}

/// The bytes that the names `.data` and `.text` leave in a name field.
pub proof fn lemma_section_names()
    ensures
        ".data".spec_bytes().len() == 5,
        ".text".spec_bytes().len() == 5,
        zero_padded(".data".spec_bytes(), 8) == data_section_name(),
        zero_padded(".text".spec_bytes(), 8) == text_section_name(),
{
    reveal_strlit(".data");
    reveal_strlit(".text");
    vstd::utf8::is_ascii_chars_encode_utf8(".data"@);
    vstd::utf8::is_ascii_chars_encode_utf8(".text"@);
    assert(zero_padded(".data".spec_bytes(), 8) =~= data_section_name());
    assert(zero_padded(".text".spec_bytes(), 8) =~= text_section_name());
}

/// An empty object: no section contents, relocations, symbols or names, and
/// headers that say so.
pub fn create_coff() -> (coff: Coff)
    ensures
        coff.wf(),
        coff@ == (CoffContents {
            data: Seq::empty(),
            text: Seq::empty(),
            relocations: Seq::empty(),
            relocation_values: Seq::empty(),
            symbols: Seq::empty(),
            strings: Seq::empty(),
        }),
{
    proof {
        lemma_section_names();
    }
    let coff = Coff {
        header: header(
            IMAGE_FILE_MACHINE_AMD64,
            2,
            get_current_timestamp(),
            initial_base_dynamic_data_pointer(),
            0,
            0,
            0,
        ),
        data_section_header: section_header(
            ".data",
            0,
            0,
            0,
            initial_base_dynamic_data_pointer(),
            initial_base_dynamic_data_pointer(),
            0,
            0,
            0,
            DATA_SECTION_FLAGS,
        ),
        text_section_header: section_header(
            ".text",
            0,
            0,
            0,
            initial_base_dynamic_data_pointer(),
            initial_base_dynamic_data_pointer(),
            0,
            0,
            0,
            TEXT_SECTION_FLAGS,
        ),
        data_section: Vec::new(),
        text_section: Vec::new(),
        relocations: Vec::new(),
        symbols: Vec::new(),
        strings_table_length: 0x4,
        strings: Vec::new(),
        relocation_values: Ghost(Seq::empty()),
    };
    assert(coff@.symbols =~= Seq::empty());
    coff
}

} // verus!
