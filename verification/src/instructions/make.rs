//! `Make`: the maker proposes a bet and funds the vault with their stake.
//!
//! Funds leave the maker's general balance immediately upon proposal, before
//! any acceptance: the maker must have skin in the game from the start.

use vstd::prelude::*;
use crate::addr::{Account, AccountV, Addr, addr_eq, ADDR_LEN};
use crate::derivation::{
    bet_seeds, derive_bet_address, derive_vault_address, pda_search, record_resolves,
    vault_resolves, vault_seeds,
};
use crate::error::ErrorCode;
use crate::state::{bet_slot_view, Bet, BetState, BetV, MAX_DESCRIPTION_LEN};

verus! {

/// The accounts a `Make` operation touches: the authenticated maker, the two
/// invited identities, the record slot at the supplied record address, and
/// the vault. The slot holds the record currently stored at `bet_addr`, or
/// nothing when that address is free.
pub struct Make {
    /// The escrow program's own identity, the root of every derivation.
    pub program: Addr,
    /// The authenticated caller, who funds the first stake.
    pub maker: Account,
    /// The party invited to match the stake.
    pub opponent: Addr,
    /// The party proposed as judge.
    pub judge: Addr,
    /// The supplied record address; must re-derive from the terms.
    pub bet_addr: Addr,
    /// The record slot at `bet_addr`.
    pub bet: Option<Bet>,
    /// The custodial vault account.
    pub vault: Account,
}

/// The mathematical image of a [`Make`] context.
#[verifier::ext_equal]
pub struct MakeV {
    pub program: Seq<u8>,
    pub maker: AccountV,
    pub opponent: Seq<u8>,
    pub judge: Seq<u8>,
    pub bet_addr: Seq<u8>,
    pub bet: Option<BetV>,
    pub vault: AccountV,
}

impl View for Make {
    type V = MakeV;

    open spec fn view(&self) -> MakeV {
        MakeV {
            program: self.program@,
            maker: self.maker@,
            opponent: self.opponent@,
            judge: self.judge@,
            bet_addr: self.bet_addr@,
            bet: bet_slot_view(self.bet),
            vault: self.vault@,
        }
    }
}

impl MakeV {
    /// Validity of the supplied accounts: well-formed addresses, and balances
    /// whose sum the ledger keeps below the total supply, so that a transfer
    /// between them cannot overflow.
    pub open spec fn wf(self) -> bool {
        &&& self.program.len() == ADDR_LEN
        &&& self.maker.wf()
        &&& self.opponent.len() == ADDR_LEN
        &&& self.judge.len() == ADDR_LEN
        &&& self.bet_addr.len() == ADDR_LEN
        &&& self.vault.wf()
        &&& self.maker.lamports + self.vault.lamports <= u64::MAX
    }

    /// The supplied record address is the one derived from the terms.
    pub open spec fn record_search_ok(self, description: Seq<u8>) -> bool {
        &&& pda_search(
            self.program,
            bet_seeds(self.maker.addr, self.opponent, self.judge, description),
        ) matches Some(p)
        &&& p.0 == self.bet_addr
    }

    /// The salt found for the record address.
    pub open spec fn record_bump(self, description: Seq<u8>) -> u8 {
        pda_search(
            self.program,
            bet_seeds(self.maker.addr, self.opponent, self.judge, description),
        )->Some_0.1
    }

    /// The supplied vault address is the one derived from the record address.
    pub open spec fn vault_search_ok(self) -> bool {
        &&& pda_search(self.program, vault_seeds(self.bet_addr)) matches Some(p)
        &&& p.0 == self.vault.addr
    }

    /// The salt found for the vault address.
    pub open spec fn vault_bump_found(self) -> u8 {
        pda_search(self.program, vault_seeds(self.bet_addr))->Some_0.1
    }

    /// When a `Make` succeeds: both supplied addresses re-derive from the
    /// terms, and no live record sits at the record address.
    pub open spec fn checks(self, description: Seq<u8>) -> bool {
        &&& self.record_search_ok(description)
        &&& self.vault_search_ok()
        &&& self.bet is None
    }

    /// The error reported for a `Make` whose checks fail: a stale address
    /// first, then a live duplicate.
    pub open spec fn error(self, description: Seq<u8>) -> ErrorCode {
        if !self.record_search_ok(description) {
            ErrorCode::RecordNotFound
        } else if !self.vault_search_ok() {
            ErrorCode::RecordNotFound
        } else {
            ErrorCode::DuplicateBet
        }
    }

    /// The record a successful `Make` writes: the terms as given, no deposit
    /// yet, and the two salts found by derivation.
    pub open spec fn new_record(self, description: Seq<u8>, amount: u64) -> BetV {
        BetV {
            maker: self.maker.addr,
            opponent: self.opponent,
            judge: self.judge,
            amount: amount,
            description: description,
            state: BetState::Open,
            bump: self.record_bump(description),
            vault_bump: self.vault_bump_found(),
        }
    }

    /// The state after the record is written, before any funds move.
    pub open spec fn create_post(self, description: Seq<u8>, amount: u64) -> MakeV {
        MakeV { bet: Some(self.new_record(description, amount)), ..self }
    }

    /// The state after `amount` moved from the maker to the vault.
    pub open spec fn deposit_post(self, amount: u64) -> MakeV {
        MakeV {
            maker: AccountV {
                lamports: (self.maker.lamports - amount) as u64,
                ..self.maker
            },
            vault: AccountV {
                lamports: (self.vault.lamports + amount) as u64,
                ..self.vault
            },
            ..self
        }
    }

    /// The state after a whole successful `Make`: record written and the
    /// maker's stake in the vault.
    pub open spec fn post(self, description: Seq<u8>, amount: u64) -> MakeV {
        self.create_post(description, amount).deposit_post(amount)
    }
}

impl Make {
    /// Allocates the bet record at the derived address.
    ///
    /// Succeeds exactly when both supplied addresses re-derive from the terms
    /// and the record address is free; then the slot holds the populated
    /// record, open and undeposited, with its two derivation salts, and both
    /// stored salts are known to reproduce the supplied addresses. No funds
    /// move here. On failure nothing changes.
    pub fn create_bet(&mut self, description: Vec<u8>, amount: u64) -> (r: Result<(), ErrorCode>)
        requires
            old(self)@.wf(),
            amount > 0,
            description@.len() <= MAX_DESCRIPTION_LEN,
        ensures
            r is Ok <==> old(self)@.checks(description@),
            r is Ok ==> final(self)@ == old(self)@.create_post(description@, amount),
            r is Ok ==> record_resolves(
                old(self)@.program,
                old(self)@.bet_addr,
                old(self)@.new_record(description@, amount),
            ) && vault_resolves(
                old(self)@.program,
                old(self)@.bet_addr,
                old(self)@.vault.addr,
                old(self)@.vault_bump_found(),
            ),
            r matches Err(e) ==> final(self)@ == old(self)@ && e == old(self)@.error(description@),
    {
        let bump: u8;
        match derive_bet_address(
            &self.program,
            &self.maker.addr,
            &self.opponent,
            &self.judge,
            &description,
        ) {
            Some((a, b)) => {
                if !addr_eq(&a, &self.bet_addr) {
                    return Err(ErrorCode::RecordNotFound);
                }
                bump = b;
            },
            None => {
                return Err(ErrorCode::RecordNotFound);
            },
        }
        let vault_bump: u8;
        match derive_vault_address(&self.program, &self.bet_addr) {
            Some((a, b)) => {
                if !addr_eq(&a, &self.vault.addr) {
                    return Err(ErrorCode::RecordNotFound);
                }
                vault_bump = b;
            },
            None => {
                return Err(ErrorCode::RecordNotFound);
            },
        }
        if self.bet.is_some() {
            return Err(ErrorCode::DuplicateBet);
        }
        let record = Bet {
            maker: self.maker.addr.dup(),
            opponent: self.opponent.dup(),
            judge: self.judge.dup(),
            amount,
            description,
            state: BetState::Open,
            bump,
            vault_bump,
        };
        self.bet = Some(record);
        assert(self@ =~= old(self)@.create_post(description@, amount));
        Ok(())
    }

    /// Moves the maker's stake into the vault.
    ///
    /// The ledger guarantees the maker can fund the transfer, so the deposit
    /// always succeeds; the maker's balance falls and the vault's balance
    /// rises by exactly `amount`.
    pub fn deposit(&mut self, amount: u64) -> (r: Result<(), ErrorCode>)
        requires
            old(self)@.wf(),
            old(self)@.maker.lamports >= amount,
        ensures
            r is Ok,
            final(self)@ == old(self)@.deposit_post(amount),
    {
        self.maker.lamports = self.maker.lamports - amount;
        self.vault.lamports = self.vault.lamports + amount;
        assert(self@ =~= old(self)@.deposit_post(amount));
        Ok(())
    }
}

} // verus!
