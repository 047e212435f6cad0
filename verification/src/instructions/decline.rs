//! `Decline`: the invited opponent turns the offer down; the maker is
//! refunded and the record closed.

use vstd::prelude::*;
use crate::addr::{Account, AccountV, Addr, addr_eq, ADDR_LEN};
use crate::derivation::{authorize, record_resolves, resolve_record, resolve_vault, vault_resolves};
use crate::error::ErrorCode;
use crate::state::{bet_slot_view, Bet, BetV};

verus! {

/// The accounts a `Decline` operation touches.
pub struct Decline {
    /// The escrow program's own identity.
    pub program: Addr,
    /// The authenticated caller; must be the stored opponent.
    pub opponent: Addr,
    /// The refund recipient; must be the stored maker.
    pub maker: Account,
    /// The supplied record address; must re-derive from the stored terms.
    pub bet_addr: Addr,
    /// The record slot at `bet_addr`.
    pub bet: Option<Bet>,
    /// The custodial vault account.
    pub vault: Account,
}

/// The mathematical image of a [`Decline`] context.
#[verifier::ext_equal]
pub struct DeclineV {
    pub program: Seq<u8>,
    pub opponent: Seq<u8>,
    pub maker: AccountV,
    pub bet_addr: Seq<u8>,
    pub bet: Option<BetV>,
    pub vault: AccountV,
}

impl View for Decline {
    type V = DeclineV;

    open spec fn view(&self) -> DeclineV {
        DeclineV {
            program: self.program@,
            opponent: self.opponent@,
            maker: self.maker@,
            bet_addr: self.bet_addr@,
            bet: bet_slot_view(self.bet),
            vault: self.vault@,
        }
    }
}

impl DeclineV {
    /// Validity of the supplied accounts: well-formed addresses, and balances
    /// whose sum the ledger keeps below the total supply.
    pub open spec fn wf(self) -> bool {
        &&& self.program.len() == ADDR_LEN
        &&& self.opponent.len() == ADDR_LEN
        &&& self.maker.wf()
        &&& self.bet_addr.len() == ADDR_LEN
        &&& self.vault.wf()
        &&& self.maker.lamports + self.vault.lamports <= u64::MAX
    }

    /// The stake the record demands of each party.
    pub open spec fn stake(self) -> u64 {
        self.bet->Some_0.amount
    }

    /// When a `Decline` succeeds: a live record whose stored fields
    /// re-derive both supplied addresses, called by the stored opponent,
    /// refunding the stored maker, before the opponent deposited, with the
    /// vault able to fund the refund.
    pub open spec fn checks(self) -> bool {
        &&& self.bet matches Some(r)
        &&& r.opponent == self.opponent
        &&& r.maker == self.maker.addr
        &&& record_resolves(self.program, self.bet_addr, r)
        &&& vault_resolves(self.program, self.bet_addr, self.vault.addr, r.vault_bump)
        &&& !r.deposited()
        &&& self.vault.lamports >= r.amount
    }

    /// The error reported for a `Decline` whose checks fail, in the order
    /// the engine tests them.
    pub open spec fn error(self) -> ErrorCode {
        if self.bet is None {
            ErrorCode::RecordNotFound
        } else if self.bet->Some_0.opponent != self.opponent {
            ErrorCode::Unauthorized
        } else if self.bet->Some_0.maker != self.maker.addr {
            ErrorCode::RecordNotFound
        } else if !record_resolves(self.program, self.bet_addr, self.bet->Some_0) {
            ErrorCode::RecordNotFound
        } else if !vault_resolves(
            self.program,
            self.bet_addr,
            self.vault.addr,
            self.bet->Some_0.vault_bump,
        ) {
            ErrorCode::RecordNotFound
        } else if self.bet->Some_0.deposited() {
            ErrorCode::TakerAlreadyDeposited
        } else {
            ErrorCode::InsufficientVaultBalance
        }
    }

    /// The state after a successful `Decline`: the stake back with the
    /// maker, the vault drained by the stake, and the record closed.
    pub open spec fn post(self) -> DeclineV {
        DeclineV {
            maker: AccountV {
                lamports: (self.maker.lamports + self.stake()) as u64,
                ..self.maker
            },
            vault: AccountV {
                lamports: (self.vault.lamports - self.stake()) as u64,
                ..self.vault
            },
            bet: None,
            ..self
        }
    }
}

impl Decline {
    /// Declines the bet: refunds the maker's stake from the vault and closes
    /// the record.
    ///
    /// Symmetric with `Cancel`: once the opponent's stake has landed only
    /// the judge can resolve the escrow, so a late decline fails with
    /// `TakerAlreadyDeposited`. On any failed check nothing changes.
    pub fn decline(&mut self) -> (r: Result<(), ErrorCode>)
        requires
            old(self)@.wf(),
        ensures
            r is Ok <==> old(self)@.checks(),
            r is Ok ==> final(self)@ == old(self)@.post(),
            r matches Err(e) ==> final(self)@ == old(self)@ && e == old(self)@.error(),
    {
        let amount: u64;
        match &self.bet {
            None => {
                return Err(ErrorCode::RecordNotFound);
            },
            Some(bet) => {
                if let Err(e) = authorize(&self.opponent, &bet.opponent) {
                    return Err(e);
                }
                if !addr_eq(&self.maker.addr, &bet.maker) {
                    return Err(ErrorCode::RecordNotFound);
                }
                if !resolve_record(&self.program, &self.bet_addr, bet) {
                    return Err(ErrorCode::RecordNotFound);
                }
                if !resolve_vault(&self.program, &self.bet_addr, &self.vault.addr, bet.vault_bump)
                {
                    return Err(ErrorCode::RecordNotFound);
                }
                if bet.is_deposited() {
                    return Err(ErrorCode::TakerAlreadyDeposited);
                }
                if self.vault.lamports < bet.amount {
                    return Err(ErrorCode::InsufficientVaultBalance);
                }
                amount = bet.amount;
            },
        }
        self.vault.lamports = self.vault.lamports - amount;
        self.maker.lamports = self.maker.lamports + amount;
        self.bet = None;
        assert(self@ =~= old(self)@.post());
        Ok(())
    }
}

} // verus!
