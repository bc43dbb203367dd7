//! The persisted layout of a stream's record.
//!
//! A record is 121 bytes: the payer, the payee and the asset (32 bytes each),
//! then the start time, the rate and the deposit (8 bytes each, little
//! endian, the start time in two's complement), then one byte that is 1 while
//! the record is active and 0 otherwise.

use vstd::prelude::*;
use vstd::bytes::{
    lemma_auto_spec_u64_to_from_le_bytes, spec_u64_from_le_bytes, spec_u64_to_le_bytes,
    u64_from_le_bytes, u64_to_le_bytes,
};
use vstd::slice::slice_subrange;
use crate::address::Address;
use crate::state::StreamState;

verus! {

/// Number of bytes in a persisted record.
pub const RECORD_LEN: usize = 121;

/// Number of bytes that the store puts before a persisted record to tell its kind.
pub const DISCRIMINATOR_LEN: usize = 8;

/// Number of bytes to reserve for a stored record.
pub const RECORD_SPACE: usize = 8 + 32 + 32 + 32 + 8 + 8 + 8 + 1;

/// The unsigned 64-bit number with the same bits as `x`.
pub open spec fn bits_of(x: i64) -> u64 {
    if x >= 0 {
        x as u64
    } else {
        (x + 0x1_0000_0000_0000_0000) as u64
    }
}

/// The signed 64-bit number with the same bits as `x`.
pub open spec fn signed_of(x: u64) -> i64 {
    if x <= i64::MAX {
        x as i64
    } else {
        (x - 0x1_0000_0000_0000_0000) as i64
    }
}

/// The byte that stands for a flag.
pub open spec fn flag_byte(flag: bool) -> u8 {
    if flag {
        1
    } else {
        0
    }
}

/// The bytes of the record `state`.
pub open spec fn encoded(state: StreamState) -> Seq<u8> {
    state.sender@ + state.recipient@ + state.mint@ + spec_u64_to_le_bytes(
        bits_of(state.start_time),
    ) + spec_u64_to_le_bytes(state.rate_per_second) + spec_u64_to_le_bytes(state.total_deposit)
        + seq![flag_byte(state.active)]
}

/// Whether `bytes` are the bytes of some record: there are 121 of them and
/// the last is 0 or 1.
pub open spec fn decodable(bytes: Seq<u8>) -> bool {
    bytes.len() == RECORD_LEN && bytes[120] <= 1
}

/// The same bits as an unsigned number.
fn to_bits(x: i64) -> (bits: u64)
    ensures
        bits == bits_of(x),
{
    if x >= 0 {
        x as u64
    } else {
        (x as i128 + 0x1_0000_0000_0000_0000i128) as u64
    }
}

/// The same bits as a signed number.
fn to_signed(x: u64) -> (signed: i64)
    ensures
        signed == signed_of(x),
        bits_of(signed) == x,
{
    if x <= 0x7fff_ffff_ffff_ffffu64 {
        x as i64
    } else {
        (x as i128 - 0x1_0000_0000_0000_0000i128) as i64
    }
}

/// Reads the address that starts at `offset`.
fn read_address(bytes: &[u8], offset: usize) -> (address: Address)
    requires
        offset + 32 <= bytes@.len(),
    ensures
        address@ == bytes@.subrange(offset as int, offset + 32),
{
    let len: usize = bytes.len();
    let mut raw: [u8; 32] = [0u8; 32];
    let mut i: usize = 0;
    while i < 32
        invariant
            0 <= i <= 32,
            offset + 32 <= len == bytes@.len(),
            forall|j: int| 0 <= j < i ==> raw@[j] == bytes@[offset + j],
        decreases 32 - i,
    {
        raw[i] = bytes[offset + i];
        i += 1;
    }
    let address = Address::new(raw);
    assert(address@ =~= bytes@.subrange(offset as int, offset + 32));
    address
}

/// Reads the little-endian number that starts at `offset`.
fn read_u64(bytes: &[u8], offset: usize) -> (x: u64)
    requires
        offset + 8 <= bytes@.len(),
    ensures
        x == spec_u64_from_le_bytes(bytes@.subrange(offset as int, offset + 8)),
        spec_u64_to_le_bytes(x) == bytes@.subrange(offset as int, offset + 8),
{
    proof {
        lemma_auto_spec_u64_to_from_le_bytes();
    }
    let len: usize = bytes.len();
    u64_from_le_bytes(slice_subrange(bytes, offset, offset + 8))
}

/// The persisted bytes of a record.
pub fn encode(state: &StreamState) -> (bytes: Vec<u8>)
    ensures
        bytes@ == encoded(*state),
        bytes@.len() == RECORD_LEN,
        decodable(bytes@),
{
    proof {
        lemma_auto_spec_u64_to_from_le_bytes();
    }
    let mut bytes: Vec<u8> = state.sender.to_vec();
    let mut recipient = state.recipient.to_vec();
    let mut mint = state.mint.to_vec();
    let mut start_time = u64_to_le_bytes(to_bits(state.start_time));
    let mut rate = u64_to_le_bytes(state.rate_per_second);
    let mut deposit = u64_to_le_bytes(state.total_deposit);
    bytes.append(&mut recipient);
    bytes.append(&mut mint);
    bytes.append(&mut start_time);
    bytes.append(&mut rate);
    bytes.append(&mut deposit);
    bytes.push(if state.active { 1u8 } else { 0u8 });
    assert(bytes@ =~= encoded(*state));
    bytes
}

/// The record that `bytes` persist, if they persist one.
pub fn decode(bytes: &[u8]) -> (state: Option<StreamState>)
    ensures
        state is Some <==> decodable(bytes@),
        state matches Some(record) ==> encoded(record) == bytes@,
{
    if bytes.len() != 121 || bytes[120] > 1 {
        return None;
    }
    let record = StreamState {
        sender: read_address(bytes, 0),
        recipient: read_address(bytes, 32),
        mint: read_address(bytes, 64),
        start_time: to_signed(read_u64(bytes, 96)),
        rate_per_second: read_u64(bytes, 104),
        total_deposit: read_u64(bytes, 112),
        active: bytes[120] == 1,
    };
    assert(encoded(record) =~= bytes@);
    Some(record)
}

/// Two records with the same bytes are the same record.
pub proof fn lemma_encoding_is_injective(a: StreamState, b: StreamState)
    requires
        encoded(a) == encoded(b),
    ensures
        a == b,
{
    lemma_auto_spec_u64_to_from_le_bytes();
    let x = encoded(a);
    let y = encoded(b);
    assert(a.sender@ =~= x.subrange(0, 32));
    assert(b.sender@ =~= y.subrange(0, 32));
    assert(a.recipient@ =~= x.subrange(32, 64));
    assert(b.recipient@ =~= y.subrange(32, 64));
    assert(a.mint@ =~= x.subrange(64, 96));
    assert(b.mint@ =~= y.subrange(64, 96));
    assert(spec_u64_to_le_bytes(bits_of(a.start_time)) =~= x.subrange(96, 104));
    assert(spec_u64_to_le_bytes(bits_of(b.start_time)) =~= y.subrange(96, 104));
    assert(spec_u64_to_le_bytes(a.rate_per_second) =~= x.subrange(104, 112));
    assert(spec_u64_to_le_bytes(b.rate_per_second) =~= y.subrange(104, 112));
    assert(spec_u64_to_le_bytes(a.total_deposit) =~= x.subrange(112, 120));
    assert(spec_u64_to_le_bytes(b.total_deposit) =~= y.subrange(112, 120));
    assert(x[120] == flag_byte(a.active));
    assert(y[120] == flag_byte(b.active));
    Address::lemma_view_injective(a.sender, b.sender);
    Address::lemma_view_injective(a.recipient, b.recipient);
    Address::lemma_view_injective(a.mint, b.mint);
    assert(bits_of(a.start_time) == spec_u64_from_le_bytes(
        spec_u64_to_le_bytes(bits_of(a.start_time)),
    ));
    assert(bits_of(b.start_time) == spec_u64_from_le_bytes(
        spec_u64_to_le_bytes(bits_of(b.start_time)),
    ));
    assert(a.rate_per_second == spec_u64_from_le_bytes(spec_u64_to_le_bytes(a.rate_per_second)));
    assert(b.rate_per_second == spec_u64_from_le_bytes(spec_u64_to_le_bytes(b.rate_per_second)));
    assert(a.total_deposit == spec_u64_from_le_bytes(spec_u64_to_le_bytes(a.total_deposit)));
    assert(b.total_deposit == spec_u64_from_le_bytes(spec_u64_to_le_bytes(b.total_deposit)));
}

} // verus!
