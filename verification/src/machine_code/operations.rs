//! The AMD64 instruction encoder. Each operation appends the bytes of one
//! instruction to `.text`; an operand that the linker has to fill in is
//! written as a placeholder with a relocation that names it.

use crate::machine_code::coff::relocations::{
    add_relocatable_entry_and_text_section_inital_entry,
    RelocatableValue,
    IMAGE_REL_AMD64_ADDR32,
    IMAGE_REL_AMD64_REL32,
};
use crate::machine_code::coff::sections::{add_entries_to_text_section, add_entry_to_text_section};
use crate::machine_code::coff::{Coff, RELOCATION_ENTRY_SIZE};
use crate::machine_code::registers::{
    has_high_bit,
    low_three_bits,
    register_has_high_bit,
    remove_register_high_bit,
};
use crate::machine_code::utilities::{u32_le_bytes, u32_to_bytes};
use vstd::prelude::*;

verus! {

/// ModR/M mode: the operand is in memory at the register's value plus an
/// 8-bit displacement.
pub const MOD_REGISTER_INDIRECT: u8 = 0x01;

/// ModR/M mode: the operand is the register itself.
pub const MOD_REGISTER_DIRECT: u8 = 0x03;

/// REX prefix that extends the ModR/M r/m field.
pub const REX_B: u8 = 0x41;

/// REX prefix that extends the ModR/M reg field.
pub const REX_R: u8 = 0x44;

/// REX prefix that selects 64-bit operands.
pub const REX_W: u8 = 0x48;

pub const OP_ADD: u8 = 0x83;

pub const OP_LEA: u8 = 0x8D;

pub const OP_XOR: u8 = 0x31;

pub const OP_PUSH: u8 = 0x50;

pub const OP_POP: u8 = 0x58;

pub const OP_MOV_R_TO_RM: u8 = 0x89;

pub const OP_MOV_RM_TO_R: u8 = 0x8B;

pub const OP_MOV_IMM_TO_R: u8 = 0xB8;

pub const OP_MOV_IMM_TO_RM: u8 = 0xC7;

pub const OP_CALL: u8 = 0xE8;

pub const OP_RET: u8 = 0xC3;

/// Opcode extension in the ModR/M reg field that turns `OP_ADD` into SUB.
pub const SECONDARY_ADD_OP_SUB: u8 = 0x5;

pub const SECONDARY_OP_NONE: u8 = 0x0;

/// The SIB byte that selects the stack pointer as base, without index.
pub const SIB_STACK_POINTER_BASE: u8 = 0x24;

/// The ModR/M byte: mode in bits 7 and 6, reg in bits 5 to 3, r/m in bits 2
/// to 0. A part that is wider than its field spills into the next.
pub open spec fn mod_rm_byte(mod_part: u8, reg_part: u8, r_m_part: u8) -> u8 {
    mod_part << 6 | reg_part << 3 | r_m_part
}

/// The opcode byte of an instruction that holds its register in the opcode.
pub open spec fn opcode_plus_register(opcode: u8, register: u8) -> u8 {
    (opcode + register) as u8
}

// The bytes of each instruction, as the operation of the same name writes
// them.

pub open spec fn push_reg_code(register: u8) -> Seq<u8> {
    seq![opcode_plus_register(OP_PUSH, register)]
}

pub open spec fn pop_reg_code(register: u8) -> Seq<u8> {
    seq![opcode_plus_register(OP_POP, register)]
}

pub open spec fn sub_byte_value_from_reg_code(value: u8, register: u8) -> Seq<u8> {
    seq![
        REX_W,
        OP_ADD,
        mod_rm_byte(MOD_REGISTER_DIRECT, SECONDARY_ADD_OP_SUB, register),
        value,
    ]
}

pub open spec fn add_byte_value_to_reg_code(value: u8, register: u8) -> Seq<u8> {
    seq![REX_W, OP_ADD, mod_rm_byte(MOD_REGISTER_DIRECT, SECONDARY_OP_NONE, register), value]
}

pub open spec fn mov_dword_value_to_reg_code(value: u32, register: u8) -> Seq<u8> {
    seq![opcode_plus_register(OP_MOV_IMM_TO_R, register)] + u32_le_bytes(value)
}

pub open spec fn mov_from_dword_reg_to_reg_code(register_from: u8, register_to: u8) -> Seq<u8> {
    seq![OP_MOV_R_TO_RM, mod_rm_byte(MOD_REGISTER_DIRECT, register_from, register_to)]
}

pub open spec fn mov_from_qword_reg_to_reg_code(register_from: u8, register_to: u8) -> Seq<u8> {
    seq![REX_W, OP_MOV_R_TO_RM, mod_rm_byte(MOD_REGISTER_DIRECT, register_from, register_to)]
}

pub open spec fn mov_dword_value_into_reg_plus_offset_pointer_code(
    value: u32,
    address_register: u8,
    address_offset: u8,
) -> Seq<u8> {
    seq![
        REX_W,
        OP_MOV_IMM_TO_RM,
        mod_rm_byte(MOD_REGISTER_INDIRECT, 0, address_register),
        SIB_STACK_POINTER_BASE,
        address_offset,
    ] + u32_le_bytes(value)
}

pub open spec fn mov_dword_reg_plus_offset_pointer_to_reg_code(
    address_register: u8,
    address_offset: u8,
    into_register: u8,
) -> Seq<u8> {
    let prefix = if has_high_bit(into_register) {
        seq![REX_R]
    } else {
        Seq::<u8>::empty()
    };
    prefix + seq![
        OP_MOV_RM_TO_R,
        mod_rm_byte(MOD_REGISTER_INDIRECT, low_three_bits(into_register), address_register),
        address_offset,
    ]
}

pub open spec fn mov_qword_reg_plus_offset_pointer_to_reg_code(
    address_register: u8,
    address_offset: u8,
    into_register: u8,
) -> Seq<u8> {
    seq![
        REX_W,
        OP_MOV_RM_TO_R,
        mod_rm_byte(MOD_REGISTER_INDIRECT, into_register, address_register),
        address_offset,
    ]
}

pub open spec fn mov_reg_to_reg_plus_offset_qword_pointer_code(
    from_register: u8,
    into_address_register: u8,
    into_address_offset: u8,
) -> Seq<u8> {
    seq![
        REX_W,
        OP_MOV_R_TO_RM,
        mod_rm_byte(MOD_REGISTER_INDIRECT, from_register, into_address_register),
        into_address_offset,
    ]
}

pub open spec fn mov_reg_to_reg_plus_offset_dword_pointer_code(
    from_register: u8,
    into_address_register: u8,
    into_address_offset: u8,
) -> Seq<u8> {
    seq![
        OP_MOV_R_TO_RM,
        mod_rm_byte(MOD_REGISTER_INDIRECT, from_register, into_address_register),
        into_address_offset,
    ]
}

pub open spec fn call_addr_code(address: u32) -> Seq<u8> {
    seq![OP_CALL] + u32_le_bytes(address)
}

/// The bytes of LEA in front of its 32-bit displacement.
pub open spec fn lea_reg_plus_offset_pointer_to_reg_code(
    address_register: u8,
    into_register: u8,
) -> Seq<u8> {
    seq![REX_W, OP_LEA, mod_rm_byte(0, into_register, address_register)]
}

/// The REX prefix of the 64-bit XOR: W and B always, R for an extended
/// source register.
pub open spec fn xor_rex_prefix(register_from: u8) -> u8 {
    if has_high_bit(register_from) {
        0x4D
    } else {
        0x49
    }
}

pub open spec fn xor_qword_reg_into_reg_code(register_from: u8, register_into: u8) -> Seq<u8> {
    seq![
        xor_rex_prefix(register_from),
        OP_XOR,
        mod_rm_byte(
            MOD_REGISTER_DIRECT,
            low_three_bits(register_from),
            low_three_bits(register_into),
        ),
    ]
}

pub open spec fn ret_code() -> Seq<u8> {
    seq![OP_RET]
}

fn mod_rm(mod_part: u8, reg_part: u8, r_m_part: u8) -> (byte: u8)
    ensures
        byte == mod_rm_byte(mod_part, reg_part, r_m_part),
{
    mod_part << 6 | reg_part << 3 | r_m_part
}

/// PUSH of a 64-bit register: `50+rd`.
pub fn add_push_reg_op(coff: &mut Coff, register: u8)
    requires
        old(coff).wf(),
        old(coff).can_grow_by(1),
        OP_PUSH + register <= u8::MAX,
    ensures
        final(coff).wf(),
        final(coff)@ == old(coff)@.append_text(push_reg_code(register)),
{
    add_entry_to_text_section(coff, OP_PUSH + register);
}

/// POP of a 64-bit register: `58+rd`.
pub fn add_pop_reg_op(coff: &mut Coff, register: u8)
    requires
        old(coff).wf(),
        old(coff).can_grow_by(1),
        OP_POP + register <= u8::MAX,
    ensures
        final(coff).wf(),
        final(coff)@ == old(coff)@.append_text(pop_reg_code(register)),
{
    add_entry_to_text_section(coff, OP_POP + register);
}

/// 64-bit SUB of an 8-bit immediate from a register: `REX.W 83 /5 ib`.
pub fn add_sub_byte_value_from_reg_op(coff: &mut Coff, value: u8, register: u8)
    requires
        old(coff).wf(),
        old(coff).can_grow_by(4),
    ensures
        final(coff).wf(),
        final(coff)@ == old(coff)@.append_text(sub_byte_value_from_reg_code(value, register)),
{
    add_entry_to_text_section(coff, REX_W);
    add_entry_to_text_section(coff, OP_ADD);
    add_entry_to_text_section(coff, mod_rm(MOD_REGISTER_DIRECT, SECONDARY_ADD_OP_SUB, register));
    add_entry_to_text_section(coff, value);
    assert(coff@.text =~= old(coff)@.text + sub_byte_value_from_reg_code(value, register));
}

/// 64-bit ADD of an 8-bit immediate to a register: `REX.W 83 /0 ib`.
pub fn add_add_byte_value_to_reg_op(coff: &mut Coff, value: u8, register: u8)
    requires
        old(coff).wf(),
        old(coff).can_grow_by(4),
    ensures
        final(coff).wf(),
        final(coff)@ == old(coff)@.append_text(add_byte_value_to_reg_code(value, register)),
{
    add_entry_to_text_section(coff, REX_W);
    add_entry_to_text_section(coff, OP_ADD);
    add_entry_to_text_section(coff, mod_rm(MOD_REGISTER_DIRECT, SECONDARY_OP_NONE, register));
    add_entry_to_text_section(coff, value);
    assert(coff@.text =~= old(coff)@.text + add_byte_value_to_reg_code(value, register));
}

/// MOV of a 32-bit address into a register: `B8+rd` and an operand that the
/// linker replaces by the symbol's address.
pub fn add_mov_dword_relocatable_value_to_reg_op(
    coff: &mut Coff,
    relocatable_value: RelocatableValue,
    register: u8,
)
    requires
        old(coff).wf(),
        old(coff).can_grow_by(5 + RELOCATION_ENTRY_SIZE),
        old(coff).can_take_relocation(),
        OP_MOV_IMM_TO_R + register <= u8::MAX,
    ensures
        final(coff).wf(),
        final(coff)@ == old(coff)@.append_text(
            seq![opcode_plus_register(OP_MOV_IMM_TO_R, register)],
        ).append_relocated_value(
            relocatable_value.symbol_index,
            relocatable_value.initial_value_to_use,
            IMAGE_REL_AMD64_ADDR32,
        ),
{
    add_entry_to_text_section(coff, OP_MOV_IMM_TO_R + register);
    add_relocatable_entry_and_text_section_inital_entry(
        coff,
        relocatable_value,
        IMAGE_REL_AMD64_ADDR32,
    );
}

/// MOV of a 32-bit immediate into a register: `B8+rd id`.
pub fn add_mov_dword_value_to_reg_op(coff: &mut Coff, value: u32, register: u8)
    requires
        old(coff).wf(),
        old(coff).can_grow_by(5),
        OP_MOV_IMM_TO_R + register <= u8::MAX,
    ensures
        final(coff).wf(),
        final(coff)@ == old(coff)@.append_text(mov_dword_value_to_reg_code(value, register)),
{
    add_entry_to_text_section(coff, OP_MOV_IMM_TO_R + register);
    add_entries_to_text_section(coff, u32_to_bytes(&value));
    assert(coff@.text =~= old(coff)@.text + mov_dword_value_to_reg_code(value, register));
}

/// 64-bit MOV from register to register: `REX.W 89 /r`.
pub fn add_mov_from_qword_reg_to_reg_op(coff: &mut Coff, register_from: u8, register_to: u8)
    requires
        old(coff).wf(),
        old(coff).can_grow_by(3),
    ensures
        final(coff).wf(),
        final(coff)@ == old(coff)@.append_text(
            mov_from_qword_reg_to_reg_code(register_from, register_to),
        ),
{
    add_entry_to_text_section(coff, REX_W);
    add_mov_from_dword_reg_to_reg_op(coff, register_from, register_to);
    assert(coff@.text =~= old(coff)@.text + mov_from_qword_reg_to_reg_code(
        register_from,
        register_to,
    ));
}

/// 32-bit MOV from register to register: `89 /r`.
pub fn add_mov_from_dword_reg_to_reg_op(coff: &mut Coff, register_from: u8, register_to: u8)
    requires
        old(coff).wf(),
        old(coff).can_grow_by(2),
    ensures
        final(coff).wf(),
        final(coff)@ == old(coff)@.append_text(
            mov_from_dword_reg_to_reg_code(register_from, register_to),
        ),
{
    add_entry_to_text_section(coff, OP_MOV_R_TO_RM);
    add_entry_to_text_section(coff, mod_rm(MOD_REGISTER_DIRECT, register_from, register_to));
    assert(coff@.text =~= old(coff)@.text + mov_from_dword_reg_to_reg_code(
        register_from,
        register_to,
    ));
}

/// Store of a 32-bit immediate at the address register plus an 8-bit offset:
/// `REX.W C7 /0`, the SIB byte `24`, the offset and the immediate. The SIB
/// byte is always written, so the encoding is right for the stack pointer as
/// address register only.
pub fn add_mov_dword_value_into_reg_plus_offset_pointer_op(
    coff: &mut Coff,
    value: u32,
    address_register: u8,
    address_offset: u8,
)
    requires
        old(coff).wf(),
        old(coff).can_grow_by(9),
    ensures
        final(coff).wf(),
        final(coff)@ == old(coff)@.append_text(
            mov_dword_value_into_reg_plus_offset_pointer_code(
                value,
                address_register,
                address_offset,
            ),
        ),
{
    add_entry_to_text_section(coff, REX_W);
    add_entry_to_text_section(coff, OP_MOV_IMM_TO_RM);
    add_entry_to_text_section(coff, mod_rm(MOD_REGISTER_INDIRECT, 0, address_register));
    add_entry_to_text_section(coff, SIB_STACK_POINTER_BASE);
    add_entry_to_text_section(coff, address_offset);
    add_entries_to_text_section(coff, u32_to_bytes(&value));
    assert(coff@.text =~= old(coff)@.text + mov_dword_value_into_reg_plus_offset_pointer_code(
        value,
        address_register,
        address_offset,
    ));
}

/// 32-bit load from the address register plus an 8-bit offset: `8B /r ib`,
/// behind REX.R where the destination is an extended register.
pub fn add_mov_dword_reg_plus_offset_pointer_to_reg_op(
    coff: &mut Coff,
    address_register: u8,
    address_offset: u8,
    into_register: u8,
)
    requires
        old(coff).wf(),
        old(coff).can_grow_by(
            if has_high_bit(into_register) {
                4
            } else {
                3
            },
        ),
    ensures
        final(coff).wf(),
        final(coff)@ == old(coff)@.append_text(
            mov_dword_reg_plus_offset_pointer_to_reg_code(
                address_register,
                address_offset,
                into_register,
            ),
        ),
{
    if register_has_high_bit(into_register) {
        add_entry_to_text_section(coff, REX_R);
    }
    add_entry_to_text_section(coff, OP_MOV_RM_TO_R);
    add_entry_to_text_section(
        coff,
        mod_rm(
            MOD_REGISTER_INDIRECT,
            remove_register_high_bit(into_register),
            address_register,
        ),
    );
    add_entry_to_text_section(coff, address_offset);
    assert(coff@.text =~= old(coff)@.text + mov_dword_reg_plus_offset_pointer_to_reg_code(
        address_register,
        address_offset,
        into_register,
    ));
}

/// 64-bit load from the address register plus an 8-bit offset:
/// `REX.W 8B /r ib`. No REX.R is written, so the encoding is right for a
/// destination below R8 only.
pub fn add_mov_qword_reg_plus_offset_pointer_to_reg_op(
    coff: &mut Coff,
    address_register: u8,
    address_offset: u8,
    into_register: u8,
)
    requires
        old(coff).wf(),
        old(coff).can_grow_by(4),
    ensures
        final(coff).wf(),
        final(coff)@ == old(coff)@.append_text(
            mov_qword_reg_plus_offset_pointer_to_reg_code(
                address_register,
                address_offset,
                into_register,
            ),
        ),
{
    add_entry_to_text_section(coff, REX_W);
    add_entry_to_text_section(coff, OP_MOV_RM_TO_R);
    add_entry_to_text_section(
        coff,
        mod_rm(MOD_REGISTER_INDIRECT, into_register, address_register),
    );
    add_entry_to_text_section(coff, address_offset);
    assert(coff@.text =~= old(coff)@.text + mov_qword_reg_plus_offset_pointer_to_reg_code(
        address_register,
        address_offset,
        into_register,
    ));
}

/// 64-bit store of a register at the address register plus an 8-bit offset:
/// `REX.W 89 /r ib`.
pub fn add_mov_reg_to_reg_plus_offset_qword_pointer_op(
    coff: &mut Coff,
    from_register: u8,
    into_address_register: u8,
    into_address_offset: u8,
)
    requires
        old(coff).wf(),
        old(coff).can_grow_by(4),
    ensures
        final(coff).wf(),
        final(coff)@ == old(coff)@.append_text(
            mov_reg_to_reg_plus_offset_qword_pointer_code(
                from_register,
                into_address_register,
                into_address_offset,
            ),
        ),
{
    add_entry_to_text_section(coff, REX_W);
    add_entry_to_text_section(coff, OP_MOV_R_TO_RM);
    add_entry_to_text_section(
        coff,
        mod_rm(MOD_REGISTER_INDIRECT, from_register, into_address_register),
    );
    add_entry_to_text_section(coff, into_address_offset);
    assert(coff@.text =~= old(coff)@.text + mov_reg_to_reg_plus_offset_qword_pointer_code(
        from_register,
        into_address_register,
        into_address_offset,
    ));
}

/// 32-bit store of a register at the address register plus an 8-bit offset:
/// `89 /r ib`.
pub fn add_mov_reg_to_reg_plus_offset_dword_pointer_op(
    coff: &mut Coff,
    from_register: u8,
    into_address_register: u8,
    into_address_offset: u8,
)
    requires
        old(coff).wf(),
        old(coff).can_grow_by(3),
    ensures
        final(coff).wf(),
        final(coff)@ == old(coff)@.append_text(
            mov_reg_to_reg_plus_offset_dword_pointer_code(
                from_register,
                into_address_register,
                into_address_offset,
            ),
        ),
{
    add_entry_to_text_section(coff, OP_MOV_R_TO_RM);
    add_entry_to_text_section(
        coff,
        mod_rm(MOD_REGISTER_INDIRECT, from_register, into_address_register),
    );
    add_entry_to_text_section(coff, into_address_offset);
    assert(coff@.text =~= old(coff)@.text + mov_reg_to_reg_plus_offset_dword_pointer_code(
        from_register,
        into_address_register,
        into_address_offset,
    ));
}

/// Near CALL: `E8` and a 32-bit displacement that the linker computes from
/// the symbol's address.
pub fn add_call_relocatable_addr_op(coff: &mut Coff, relocatable_address: RelocatableValue)
    requires
        old(coff).wf(),
        old(coff).can_grow_by(5 + RELOCATION_ENTRY_SIZE),
        old(coff).can_take_relocation(),
    ensures
        final(coff).wf(),
        final(coff)@ == old(coff)@.append_text(seq![OP_CALL]).append_relocated_value(
            relocatable_address.symbol_index,
            relocatable_address.initial_value_to_use,
            IMAGE_REL_AMD64_REL32,
        ),
{
    add_entry_to_text_section(coff, OP_CALL);
    add_relocatable_entry_and_text_section_inital_entry(
        coff,
        relocatable_address,
        IMAGE_REL_AMD64_REL32,
    );
}

/// Near CALL with a displacement that is known: `E8 cd`.
pub fn add_call_addr_op(coff: &mut Coff, address: u32)
    requires
        old(coff).wf(),
        old(coff).can_grow_by(5),
    ensures
        final(coff).wf(),
        final(coff)@ == old(coff)@.append_text(call_addr_code(address)),
{
    add_entry_to_text_section(coff, OP_CALL);
    add_entries_to_text_section(coff, u32_to_bytes(&address));
    assert(coff@.text =~= old(coff)@.text + call_addr_code(address));
}

/// LEA of an address into a register: `REX.W 8D /r` with mode 0 and a 32-bit
/// displacement that the linker computes from the symbol's address.
pub fn add_lea_reg_plus_offset_pointer_to_reg_op(
    coff: &mut Coff,
    address_register: u8,
    relocatable_address_offset: RelocatableValue,
    into_register: u8,
)
    requires
        old(coff).wf(),
        old(coff).can_grow_by(7 + RELOCATION_ENTRY_SIZE),
        old(coff).can_take_relocation(),
    ensures
        final(coff).wf(),
        final(coff)@ == old(coff)@.append_text(
            lea_reg_plus_offset_pointer_to_reg_code(address_register, into_register),
        ).append_relocated_value(
            relocatable_address_offset.symbol_index,
            relocatable_address_offset.initial_value_to_use,
            IMAGE_REL_AMD64_REL32,
        ),
{
    add_entry_to_text_section(coff, REX_W);
    add_entry_to_text_section(coff, OP_LEA);
    add_entry_to_text_section(coff, mod_rm(0, into_register, address_register));
    assert(coff@.text =~= old(coff)@.text + lea_reg_plus_offset_pointer_to_reg_code(
        address_register,
        into_register,
    ));
    add_relocatable_entry_and_text_section_inital_entry(
        coff,
        relocatable_address_offset,
        IMAGE_REL_AMD64_REL32,
    );
}

/// 64-bit XOR of a register into a register: `REX 31 /r`, with the low three
/// bits of both registers in the ModR/M byte.
pub fn add_xor_qword_reg_into_reg_op(coff: &mut Coff, register_from: u8, register_into: u8)
    requires
        old(coff).wf(),
        old(coff).can_grow_by(3),
    ensures
        final(coff).wf(),
        final(coff)@ == old(coff)@.append_text(
            xor_qword_reg_into_reg_code(register_from, register_into),
        ),
{
    let mut rex = REX_W | REX_B;
    assert(0x48u8 | 0x41u8 == 0x49u8) by (bit_vector);
    if register_has_high_bit(register_from) {
        rex = rex | REX_R;
        assert(0x49u8 | 0x44u8 == 0x4Du8) by (bit_vector);
    }
    add_entry_to_text_section(coff, rex);
    add_entry_to_text_section(coff, OP_XOR);
    add_entry_to_text_section(
        coff,
        mod_rm(
            MOD_REGISTER_DIRECT,
            remove_register_high_bit(register_from),
            remove_register_high_bit(register_into),
        ),
    );
    assert(coff@.text =~= old(coff)@.text + xor_qword_reg_into_reg_code(
        register_from,
        register_into,
    ));
}

/// Near return: `C3`.
pub fn add_ret_op(coff: &mut Coff)
    requires
        old(coff).wf(),
        old(coff).can_grow_by(1),
    ensures
        final(coff).wf(),
        final(coff)@ == old(coff)@.append_text(ret_code()),
{
    add_entry_to_text_section(coff, OP_RET);
}

} // verus!
