//! Codes of the AMD64 general-purpose registers that the encoder uses.

use vstd::prelude::*;

verus! {

pub const REG_AX: u8 = 0x00;

pub const REG_CX: u8 = 0x01;

pub const REG_DX: u8 = 0x02;

pub const REG_SP: u8 = 0x04;

pub const REG_BP: u8 = 0x05;

/// In the r/m field with mod 0 this code selects RIP-relative addressing.
pub const REG_IP: u8 = 0x05;

pub const REG_R8: u8 = 0x08;

pub const REG_R9: u8 = 0x09;

/// Whether a register code is one of R8 to R15, which need a REX bit.
pub open spec fn has_high_bit(register: u8) -> bool {
    register as int / 8 % 2 == 1
}

/// The three bits of a register code that fit a ModR/M field.
pub open spec fn low_three_bits(register: u8) -> u8 {
    (register as int % 8) as u8
}

/// Tells the extended registers (R8 and above) from the others.
pub fn register_has_high_bit(register: u8) -> (high: bool)
    ensures
        high == has_high_bit(register),
{
    assert((register & 0x8 == 0x8) == (register / 8 % 2 == 1)) by (bit_vector);
    register & 0x8 == 0x8
}

/// The register code without its extension bit.
pub fn remove_register_high_bit(register: u8) -> (low: u8)
    ensures
        low == low_three_bits(register),
{
    assert(register & 0x7 == register % 8) by (bit_vector);
    register & 0x7
}

} // verus!
