//! The persistent records of the game and the ownership guard in front of them.

use vstd::prelude::*;
use crate::choice::{Choice, GameError};

verus! {

/// The number of bytes in an identity.
pub const IDENTITY_BYTES: usize = 32;

/// The authenticated identity of a caller or of an owner: thirty-two bytes.
#[derive(Clone, Copy, Debug)]
pub struct Identity {
    pub bytes: [u8; 32],
}

impl View for Identity {
    type V = Seq<u8>;

    open spec fn view(&self) -> Seq<u8> {
        self.bytes@
    }
}

impl Identity {
    /// The identity that consists of the given bytes.
    pub fn new(bytes: [u8; 32]) -> (r: Identity)
        ensures
            r.bytes == bytes,
            r@ == bytes@,
    {
        Identity { bytes }
    }

    /// Whether two identities are the same, byte for byte.
    pub fn same_as(&self, other: &Identity) -> (r: bool)
        ensures
            r == (self@ == other@),
            r == (*self == *other),
    {
        let mut i: usize = 0;
        while i < IDENTITY_BYTES
            invariant
                i <= IDENTITY_BYTES,
                forall|j: int| 0 <= j < i ==> self.bytes@[j] == other.bytes@[j],
            decreases IDENTITY_BYTES - i,
        {
            if self.bytes[i] != other.bytes[i] {
                return false;
            }
            i += 1;
        }
        assert(self.bytes@ =~= other.bytes@);
        assert(self.bytes =~= other.bytes);
        true
    }
}

/// The party that invokes an operation: its identity, which the host has
/// authenticated, and the balance that it holds outside the game.
#[derive(Clone, Copy, Debug)]
pub struct Signer {
    pub key: Identity,
    pub lamports: u64,
}

/// The record of one player's game: who owns it and which choice is committed.
#[derive(Clone, Copy, Debug)]
pub struct RpsAccount {
    pub answer: Choice,
    pub owner: Identity,
}

/// The escrow that holds the reward until a settlement pays it out.
#[derive(Clone, Copy, Debug)]
pub struct RpsReward {
    pub balance: u64,
}

impl RpsAccount {
    /// A game account of `owner` with `answer` committed.
    pub fn new(owner: Identity, answer: Choice) -> (r: RpsAccount)
        ensures
            r.owner == owner,
            r.answer == answer,
    {
        RpsAccount { answer, owner }
    }
}

impl RpsReward {
    /// An escrow that holds nothing yet.
    pub fn new() -> (r: RpsReward)
        ensures
            r.balance == 0,
    {
        RpsReward { balance: 0 }
    }
}

/// The guard before every change to a game account and before every settlement:
/// passes for the account's owner and for nobody else.
pub fn verify_owner(caller: &Identity, account: &RpsAccount) -> (r: Result<(), GameError>)
    ensures
        caller@ == account.owner@ ==> r == Ok::<(), GameError>(()),
        caller@ != account.owner@ ==> r == Err::<(), GameError>(GameError::InvalidSigner),
{
    if caller.same_as(&account.owner) {
        Ok(())
    } else {
        Err(GameError::InvalidSigner)
    }
}

} // verus!
