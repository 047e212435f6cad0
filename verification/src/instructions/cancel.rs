//! `Cancel`: the maker withdraws an open offer and is refunded.
//!
//! Only the stored maker may cancel, and only while the opponent has not
//! matched the stake; once both deposits are in, only the judge can resolve
//! the escrow.

use vstd::prelude::*;
use crate::addr::{Account, AccountV, Addr, ADDR_LEN};
use crate::derivation::{authorize, record_resolves, resolve_record, resolve_vault, vault_resolves};
use crate::error::ErrorCode;
use crate::state::{bet_slot_view, Bet, BetV};

verus! {

/// The accounts a `Cancel` operation touches.
pub struct Cancel {
    /// The escrow program's own identity.
    pub program: Addr,
    /// The authenticated caller; must be the stored maker, and receives the
    /// refund.
    pub maker: Account,
    /// The supplied record address; must re-derive from the stored terms.
    pub bet_addr: Addr,
    /// The record slot at `bet_addr`.
    pub bet: Option<Bet>,
    /// The custodial vault account.
    pub vault: Account,
}

/// The mathematical image of a [`Cancel`] context.
#[verifier::ext_equal]
pub struct CancelV {
    pub program: Seq<u8>,
    pub maker: AccountV,
    pub bet_addr: Seq<u8>,
    pub bet: Option<BetV>,
    pub vault: AccountV,
}

impl View for Cancel {
    type V = CancelV;

    open spec fn view(&self) -> CancelV {
        CancelV {
            program: self.program@,
            maker: self.maker@,
            bet_addr: self.bet_addr@,
            bet: bet_slot_view(self.bet),
            vault: self.vault@,
        }
    }
}

impl CancelV {
    /// Validity of the supplied accounts: well-formed addresses, and balances
    /// whose sum the ledger keeps below the total supply.
    pub open spec fn wf(self) -> bool {
        &&& self.program.len() == ADDR_LEN
        &&& self.maker.wf()
        &&& self.bet_addr.len() == ADDR_LEN
        &&& self.vault.wf()
        &&& self.maker.lamports + self.vault.lamports <= u64::MAX
    }

    /// The stake the record demands of each party.
    pub open spec fn stake(self) -> u64 {
        self.bet->Some_0.amount
    }

    /// When a `Cancel` succeeds: a live record whose stored fields re-derive
    /// both supplied addresses, called by the stored maker, before the
    /// opponent deposited, with the vault able to fund the refund.
    pub open spec fn checks(self) -> bool {
        &&& self.bet matches Some(r)
        &&& r.maker == self.maker.addr
        &&& record_resolves(self.program, self.bet_addr, r)
        &&& vault_resolves(self.program, self.bet_addr, self.vault.addr, r.vault_bump)
        &&& !r.deposited()
        &&& self.vault.lamports >= r.amount
    }

    /// The error reported for a `Cancel` whose checks fail, in the order the
    /// engine tests them.
    pub open spec fn error(self) -> ErrorCode {
        if self.bet is None {
            ErrorCode::RecordNotFound
        } else if self.bet->Some_0.maker != self.maker.addr {
            ErrorCode::Unauthorized
        } else if !record_resolves(self.program, self.bet_addr, self.bet->Some_0) {
            ErrorCode::RecordNotFound
        } else if !vault_resolves(
            self.program,
            self.bet_addr,
            self.vault.addr,
            self.bet->Some_0.vault_bump,
        ) {
            ErrorCode::RecordNotFound
        } else if self.bet->Some_0.deposited() {
            ErrorCode::TakerAlreadyDeposited
        } else {
            ErrorCode::InsufficientVaultBalance
        }
    }

    /// The state after a successful `Cancel`: the stake back with the maker,
    /// the vault drained by the stake, and the record closed.
    pub open spec fn post(self) -> CancelV {
        CancelV {
            maker: AccountV {
                lamports: (self.maker.lamports + self.stake()) as u64,
                ..self.maker
            },
            vault: AccountV {
                lamports: (self.vault.lamports - self.stake()) as u64,
                ..self.vault
            },
            bet: None,
            ..self
        }
    }
}

impl Cancel {
    /// Refunds the maker's stake and closes the record.
    ///
    /// The vault's outgoing transfer is authorized by re-deriving the vault
    /// address from the record's address and stored salt, never by a party's
    /// personal signature. On any failed check nothing changes.
    pub fn refund_to_maker(&mut self) -> (r: Result<(), ErrorCode>)
        requires
            old(self)@.wf(),
        ensures
            r is Ok <==> old(self)@.checks(),
            r is Ok ==> final(self)@ == old(self)@.post(),
            r matches Err(e) ==> final(self)@ == old(self)@ && e == old(self)@.error(),
    {
        let amount: u64;
        match &self.bet {
            None => {
                return Err(ErrorCode::RecordNotFound);
            },
            Some(bet) => {
                if let Err(e) = authorize(&self.maker.addr, &bet.maker) {
                    return Err(e);
                }
                if !resolve_record(&self.program, &self.bet_addr, bet) {
                    return Err(ErrorCode::RecordNotFound);
                }
                if !resolve_vault(&self.program, &self.bet_addr, &self.vault.addr, bet.vault_bump)
                {
                    return Err(ErrorCode::RecordNotFound);
                }
                if bet.is_deposited() {
                    return Err(ErrorCode::TakerAlreadyDeposited);
                }
                if self.vault.lamports < bet.amount {
                    return Err(ErrorCode::InsufficientVaultBalance);
                }
                amount = bet.amount;
            },
        }
        self.vault.lamports = self.vault.lamports - amount;
        self.maker.lamports = self.maker.lamports + amount;
        self.bet = None;
        assert(self@ =~= old(self)@.post());
        Ok(())
    }
}

} // verus!
