//! The drawn choice: derived from the host clock's reading through a Keccak-256 digest.

use vstd::prelude::*;
use crate::choice::Choice;

verus! {

/// The Keccak-256 digest of a sequence of bytes: thirty-two bytes that depend on the
/// input alone.
pub uninterp spec fn keccak256_of(data: Seq<u8>) -> Seq<u8>;

/// Calls `anchor_lang::solana_program::keccak::hashv` on the one slice `data` and hands
/// out the digest's bytes (`Hash::to_bytes`). Trusted: the result is the Keccak-256
/// digest of `data`, the same for the same bytes on every call.
#[verifier::external_body]
fn keccak256(data: &[u8]) -> (digest: [u8; 32])
    ensures
        digest@ == keccak256_of(data@),
{
    anchor_lang::solana_program::keccak::hashv(&[data]).to_bytes()
}

/// A timestamp as the unsigned number with the same sixty-four bits (two's
/// complement).
pub open spec fn spec_unsigned_bits(timestamp: i64) -> int {
    if timestamp >= 0 {
        timestamp as int
    } else {
        timestamp + 0x1_0000_0000_0000_0000
    }
}

/// The eight bytes of a timestamp, least significant first.
pub open spec fn spec_le_bytes(timestamp: i64) -> Seq<u8> {
    let u = spec_unsigned_bits(timestamp);
    seq![
        (u % 0x100) as u8,
        (u / 0x100 % 0x100) as u8,
        (u / 0x1_0000 % 0x100) as u8,
        (u / 0x100_0000 % 0x100) as u8,
        (u / 0x1_0000_0000 % 0x100) as u8,
        (u / 0x100_0000_0000 % 0x100) as u8,
        (u / 0x1_0000_0000_0000 % 0x100) as u8,
        (u / 0x100_0000_0000_0000 % 0x100) as u8,
    ]
}

/// The choice that a digest's first byte selects: the byte modulo three, as a place in
/// the sequence Rock, Paper, Scissors.
pub open spec fn spec_choice_of_byte(first: u8) -> Choice {
    if first % 3 == 0 {
        Choice::Rock
    } else if first % 3 == 1 {
        Choice::Paper
    } else {
        Choice::Scissors
    }
}

/// The choice drawn at a timestamp.
pub open spec fn spec_draw(timestamp: i64) -> Choice {
    spec_choice_of_byte(keccak256_of(spec_le_bytes(timestamp))[0])
}

/// Encodes a timestamp as eight bytes, least significant first.
pub fn timestamp_le_bytes(timestamp: i64) -> (r: [u8; 8])
    ensures
        r@ == spec_le_bytes(timestamp),
{
    let u: u64 = if timestamp >= 0 {
        timestamp as u64
    } else {
        let low: u64 = (timestamp - i64::MIN) as u64;
        low + 0x8000_0000_0000_0000u64
    };
    assert(u == spec_unsigned_bits(timestamp));
    let r: [u8; 8] = [
        (u % 0x100) as u8,
        (u / 0x100 % 0x100) as u8,
        (u / 0x1_0000 % 0x100) as u8,
        (u / 0x100_0000 % 0x100) as u8,
        (u / 0x1_0000_0000 % 0x100) as u8,
        (u / 0x100_0000_0000 % 0x100) as u8,
        (u / 0x1_0000_0000_0000 % 0x100) as u8,
        (u / 0x100_0000_0000_0000 % 0x100) as u8,
    ];
    assert(r@ =~= spec_le_bytes(timestamp));
    r
}

/// Selects a choice by the first byte of a digest.
pub fn choice_from_digest(digest: &[u8; 32]) -> (r: Choice)
    ensures
        r == spec_choice_of_byte(digest@[0]),
{
    let words: [Choice; 3] = [Choice::Rock, Choice::Paper, Choice::Scissors];
    let index: usize = (digest[0] % 3) as usize;
    words[index]
}

/// Draws the choice for a reading of the host clock, in seconds: the same reading
/// always gives the same choice.
pub fn draw_choice(timestamp: i64) -> (r: Choice)
    ensures
        r == spec_draw(timestamp),
{
    let encoded: [u8; 8] = timestamp_le_bytes(timestamp);
    let digest: [u8; 32] = keccak256(encoded.as_slice());
    choice_from_digest(&digest)
}

} // verus!
