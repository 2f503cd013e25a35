//! Conversions between host values and the little-endian, zero-padded byte
//! layouts that a COFF object uses, and the wall-clock time stamp.

use std::time::{Duration, SystemTime, SystemTimeError, UNIX_EPOCH};
use vstd::prelude::*;
use vstd::string::StringSliceAdditionalSpecFns;

verus! {

/// The two bytes of `x`, least significant first.
pub open spec fn u16_le_bytes(x: u16) -> Seq<u8> {
    seq![(x as int % 0x100) as u8, (x as int / 0x100 % 0x100) as u8]
}

/// The four bytes of `x`, least significant first.
pub open spec fn u32_le_bytes(x: u32) -> Seq<u8> {
    seq![
        (x as int % 0x100) as u8,
        (x as int / 0x100 % 0x100) as u8,
        (x as int / 0x1_0000 % 0x100) as u8,
        (x as int / 0x100_0000 % 0x100) as u8,
    ]
}

/// The value that two little-endian bytes stand for.
pub open spec fn u16_from_le_bytes(bytes: Seq<u8>) -> int
    recommends
        bytes.len() == 2,
{
    bytes[0] as int + 0x100 * (bytes[1] as int)
}

/// The value that four little-endian bytes stand for.
pub open spec fn u32_from_le_bytes(bytes: Seq<u8>) -> int
    recommends
        bytes.len() == 4,
{
    bytes[0] as int + 0x100 * (bytes[1] as int) + 0x1_0000 * (bytes[2] as int) + 0x100_0000 * (
    bytes[3] as int)
}

/// Reading back what `u16_le_bytes` wrote gives the value again.
pub proof fn lemma_u16_le_bytes_round_trip(x: u16)
    ensures
        u16_le_bytes(x).len() == 2,
        u16_from_le_bytes(u16_le_bytes(x)) == x,
{
}

/// Reading back what `u32_le_bytes` wrote gives the value again.
pub proof fn lemma_u32_le_bytes_round_trip(x: u32)
    ensures
        u32_le_bytes(x).len() == 4,
        u32_from_le_bytes(u32_le_bytes(x)) == x,
{
}

/// `bytes` cut or filled with zero bytes to exactly `width` bytes.
pub open spec fn zero_padded(bytes: Seq<u8>, width: nat) -> Seq<u8> {
    Seq::new(
        width,
        |i: int|
            if i < bytes.len() {
                bytes[i]
            } else {
                0u8
            },
    )
}

/// An array of `N` bytes: those of `from`, as far as they fit, and zero
/// bytes behind them.
fn fill_padded<const N: usize>(from: &[u8]) -> (to: [u8; N])
    ensures
        to@ == zero_padded(from@, N as nat),
{
    let mut to: [u8; N] = [0u8;N];
    let count: usize = if from.len() < N {
        from.len()
    } else {
        N
    };
    let mut i: usize = 0;
    while i < count
        invariant
            i <= count,
            count <= N,
            count <= from@.len(),
            to@.len() == N,
            forall|k: int| 0 <= k < i ==> to@[k] == from@[k],
            forall|k: int| i <= k < N ==> to@[k] == 0u8,
        decreases count - i,
    {
        to[i] = from[i];
        i = i + 1;
    }
    assert(to@ =~= zero_padded(from@, N as nat));
    to
}

/// The 8-byte name field of a symbol or section header: the bytes of `from`
/// followed by zero bytes. A longer name does not fit the field.
pub fn get_8_padded_u8_array_from_string(from: &str) -> (to: [u8; 8])
    requires
        from.spec_bytes().len() <= 8,
    ensures
        to@ == zero_padded(from.spec_bytes(), 8),
{
    fill_padded::<8>(from.as_bytes())
}

/// The 18-byte field of a file-name record: the first 18 bytes of `from`,
/// followed by zero bytes where `from` is shorter.
pub fn get_truncated_18_padded_u8_array_from_string(from: &str) -> (to: [u8; 18])
    ensures
        to@ == zero_padded(from.spec_bytes(), 18),
{
    fill_padded::<18>(from.as_bytes())
}

/// The 18-byte field of a file-name record for a name that fits it: the
/// bytes of `from` followed by zero bytes.
pub fn get_18_padded_u8_array_from_string(from: &str) -> (to: [u8; 18])
    requires
        from.spec_bytes().len() <= 18,
    ensures
        to@ == zero_padded(from.spec_bytes(), 18),
{
    fill_padded::<18>(from.as_bytes())
}

/// The bytes of `entry` followed by one zero byte.
pub fn string_to_bytes_zero_terminated(entry: &str) -> (bytes: Vec<u8>)
    ensures
        bytes@ == entry.spec_bytes().push(0u8),
{
    let mut new_string = string_to_bytes(entry);
    new_string.push(0x0);
    new_string
}

/// The UTF-8 bytes of `entry`, with nothing added.
pub fn string_to_bytes(entry: &str) -> (bytes: Vec<u8>)
    ensures
        bytes@ == entry.spec_bytes(),
{
    entry.as_bytes_vec()
}

/// Little-endian encoding of a 16-bit value.
pub fn u16_to_bytes(entry: &u16) -> (bytes: Vec<u8>)
    ensures
        bytes@ == u16_le_bytes(*entry),
{
    let x: u16 = *entry;
    let b0: u8 = (x & 0xff) as u8;
    let b1: u8 = ((x >> 8) & 0xff) as u8;
    proof {
        assert(x & 0xff == x % 0x100) by (bit_vector);
        assert((x >> 8) & 0xff == x / 0x100 % 0x100) by (bit_vector);
    }
    let mut bytes: Vec<u8> = Vec::new();
    bytes.push(b0);
    bytes.push(b1);
    assert(bytes@ =~= u16_le_bytes(x));
    bytes
}

/// Little-endian encoding of a 32-bit value.
pub fn u32_to_bytes(entry: &u32) -> (bytes: Vec<u8>)
    ensures
        bytes@ == u32_le_bytes(*entry),
{
    let x: u32 = *entry;
    let b0: u8 = (x & 0xff) as u8;
    let b1: u8 = ((x >> 8) & 0xff) as u8;
    let b2: u8 = ((x >> 16) & 0xff) as u8;
    let b3: u8 = ((x >> 24) & 0xff) as u8;
    proof {
        assert(x & 0xff == x % 0x100) by (bit_vector);
        assert((x >> 8) & 0xff == x / 0x100 % 0x100) by (bit_vector);
        assert((x >> 16) & 0xff == x / 0x1_0000 % 0x100) by (bit_vector);
        assert((x >> 24) & 0xff == x / 0x100_0000 % 0x100) by (bit_vector);
    }
    let mut bytes: Vec<u8> = Vec::new();
    bytes.push(b0);
    bytes.push(b1);
    bytes.push(b2);
    bytes.push(b3);
    assert(bytes@ =~= u32_le_bytes(x));
    bytes
}

/// An owned copy of `value`.
pub fn string(value: &str) -> (owned: String)
    ensures
        owned@ == value@,
{
    value.to_owned()
}

/// `std::time::SystemTime`: an instant by the system clock. Nothing of what
/// it holds is visible here.
#[verifier::external_type_specification]
#[verifier::external_body]
pub struct ExSystemTime(std::time::SystemTime);

/// `std::time::SystemTimeError`: what `SystemTime::duration_since` returns
/// where the second instant is the later one. Nothing of what it holds is
/// visible here.
#[verifier::external_type_specification]
#[verifier::external_body]
pub struct ExSystemTimeError(std::time::SystemTimeError);

/// `std::time::UNIX_EPOCH`: the instant from which time stamps count. Nothing
/// is claimed of it.
#[verifier::external_body]
fn unix_epoch() -> SystemTime {
    UNIX_EPOCH
}

/// `SystemTime::now` reads the system clock, so nothing is claimed of the
/// instant it returns.
pub assume_specification[ SystemTime::now ]() -> (now: SystemTime);

/// `SystemTime::duration_since` measures from `earlier` to `this`, and fails
/// where `earlier` is the later of the two. Both outcomes are left open.
pub assume_specification[ SystemTime::duration_since ](
    this: &SystemTime,
    earlier: SystemTime,
) -> (elapsed: Result<Duration, SystemTimeError>);

/// `Duration::as_secs` gives the whole seconds of a duration. Nothing is
/// claimed of their number.
pub assume_specification[ Duration::as_secs ](duration: &Duration) -> (seconds: u64);

/// The low 32 bits of a count of seconds, as the header's time stamp holds them.
pub fn timestamp_from_seconds(seconds: u64) -> (stamp: u32)
    ensures
        stamp == seconds % 0x1_0000_0000,
{
    let low: u64 = seconds & 0xffff_ffff;
    assert(seconds & 0xffff_ffff == seconds % 0x1_0000_0000) by (bit_vector);
    low as u32
}

/// The time stamp that stands for a reading of the clock: the low 32 bits of
/// the seconds since 1970-01-01 00:00:00 GMT, and 0 for a clock that stands
/// before that instant.
pub open spec fn timestamp_of_reading(seconds_since_epoch: Option<u64>) -> u32 {
    match seconds_since_epoch {
        Some(seconds) => (seconds % 0x1_0000_0000) as u32,
        None => 0,
    }
}

/// The time stamp for a reading of the clock, whatever the clock gave.
pub fn timestamp_from_reading(seconds_since_epoch: Option<u64>) -> (stamp: u32)
    ensures
        stamp == timestamp_of_reading(seconds_since_epoch),
{
    match seconds_since_epoch {
        Some(seconds) => timestamp_from_seconds(seconds),
        None => 0,
    }
}

/// Reads the system clock: the whole seconds since 1970-01-01 00:00:00 GMT,
/// or nothing where the clock stands before that instant. What comes back is
/// the clock's matter, so nothing is said of it.
fn seconds_since_epoch() -> Option<u64> {
    let now = SystemTime::now();
    match now.duration_since(unix_epoch()) {
        Ok(elapsed) => Some(elapsed.as_secs()),
        Err(_) => None,
    }
}

/// Seconds since 1970-01-01 00:00:00 GMT by the system clock, cut to 32 bits.
/// A clock that stands before that instant gives 0. The value is the one
/// that `timestamp_from_reading` gives for the reading of the moment; since
/// any reading is possible, nothing is promised of it.
pub fn get_current_timestamp() -> u32 {
    timestamp_from_reading(seconds_since_epoch())
}

} // verus!
