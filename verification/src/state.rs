//! The bet record: the terms and status of one proposition.

use vstd::prelude::*;
use crate::addr::{Addr, ADDR_LEN};

verus! {

/// The longest description, in bytes, a bet record can carry.
pub const MAX_DESCRIPTION_LEN: usize = 32;

/// Whether the opponent's matching stake has arrived.
///
/// A record in state `Open` still awaits the opponent; `Accepted` means both
/// stakes sit in the vault. A closed bet has no state: closing an escrow
/// removes its record from the ledger altogether.
#[derive(Clone, Copy, Debug, PartialEq, Eq, Structural)]
pub enum BetState {
    Open,
    Accepted,
}

/// One live proposition: who proposed it, who may match it, who resolves it,
/// the stake each side owes, and how far the escrow has progressed.
///
/// The two salts (`bump` fields) are the derivation proofs: they let any later
/// operation reproduce the record's own address and the vault's address from
/// the stored terms without searching again.
pub struct Bet {
    /// The party who proposed and initially funded the bet.
    pub maker: Addr,
    /// The party invited to match the stake.
    pub opponent: Addr,
    /// The party authorized to resolve the outcome.
    pub judge: Addr,
    /// The stake each party must deposit.
    pub amount: u64,
    /// Proposition text, at most [`MAX_DESCRIPTION_LEN`] bytes; part of the
    /// derivation input.
    pub description: Vec<u8>,
    /// How far the escrow has progressed.
    pub state: BetState,
    /// Salt reproducing the record's own address.
    pub bump: u8,
    /// Salt reproducing the vault's address and its transfer authority.
    pub vault_bump: u8,
}

/// The mathematical image of a [`Bet`] record.
#[verifier::ext_equal]
pub struct BetV {
    pub maker: Seq<u8>,
    pub opponent: Seq<u8>,
    pub judge: Seq<u8>,
    pub amount: u64,
    pub description: Seq<u8>,
    pub state: BetState,
    pub bump: u8,
    pub vault_bump: u8,
}

impl View for Bet {
    type V = BetV;

    open spec fn view(&self) -> BetV {
        BetV {
            maker: self.maker@,
            opponent: self.opponent@,
            judge: self.judge@,
            amount: self.amount,
            description: self.description@,
            state: self.state,
            bump: self.bump,
            vault_bump: self.vault_bump,
        }
    }
}

impl BetV {
    /// Validity of a stored record: three 32-byte identities, a bounded
    /// description, and a positive stake.
    pub open spec fn wf(self) -> bool {
        &&& self.maker.len() == ADDR_LEN
        &&& self.opponent.len() == ADDR_LEN
        &&& self.judge.len() == ADDR_LEN
        &&& self.description.len() <= MAX_DESCRIPTION_LEN
        &&& self.amount > 0
    }

    /// True once the opponent's matching stake has arrived.
    pub open spec fn deposited(self) -> bool {
        self.state is Accepted
    }
}

/// The mathematical image of a record slot: the record stored at a derived
/// address, if the ledger holds a live one there.
pub open spec fn bet_slot_view(b: Option<Bet>) -> Option<BetV> {
    match b {
        Some(r) => Some(r@),
        None => None,
    }
}

/// The custody invariant tying the vault's balance to the record it serves:
/// a closed record leaves the vault empty, an open record has exactly the
/// maker's stake in custody, and an accepted record exactly both stakes.
/// Any other balance indicates a protocol bug.
pub open spec fn custody_inv(bet: Option<BetV>, vault_lamports: u64) -> bool {
    match bet {
        None => vault_lamports == 0,
        Some(r) => vault_lamports == if r.deposited() {
            2 * r.amount
        } else {
            r.amount as int
        },
    }
}

impl Bet {
    /// Exec mirror of [`BetV::deposited`].
    pub fn is_deposited(&self) -> (r: bool)
        ensures
            r == self@.deposited(),
    {
        match self.state {
            BetState::Accepted => true,
            BetState::Open => false,
        }
    }
}

} // verus!
