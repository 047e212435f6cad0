//! `Take`: the invited opponent matches the stake and the bet is accepted.

use vstd::prelude::*;
use crate::addr::{Account, AccountV, Addr, addr_eq, ADDR_LEN};
use crate::derivation::{authorize, record_resolves, resolve_record, resolve_vault, vault_resolves};
use crate::error::ErrorCode;
use crate::state::{bet_slot_view, Bet, BetState, BetV};

verus! {

/// The accounts a `Take` operation touches.
pub struct Take {
    /// The escrow program's own identity.
    pub program: Addr,
    /// The authenticated caller; must be the stored opponent, and funds the
    /// matching stake.
    pub opponent: Account,
    /// The judge identity named in the call; must match the stored judge, a
    /// defense against substituted accounts.
    pub judge: Addr,
    /// The supplied record address; must re-derive from the stored terms.
    pub bet_addr: Addr,
    /// The record slot at `bet_addr`.
    pub bet: Option<Bet>,
    /// The custodial vault account.
    pub vault: Account,
}

/// The mathematical image of a [`Take`] context.
#[verifier::ext_equal]
pub struct TakeV {
    pub program: Seq<u8>,
    pub opponent: AccountV,
    pub judge: Seq<u8>,
    pub bet_addr: Seq<u8>,
    pub bet: Option<BetV>,
    pub vault: AccountV,
}

impl View for Take {
    type V = TakeV;

    open spec fn view(&self) -> TakeV {
        TakeV {
            program: self.program@,
            opponent: self.opponent@,
            judge: self.judge@,
            bet_addr: self.bet_addr@,
            bet: bet_slot_view(self.bet),
            vault: self.vault@,
        }
    }
}

impl TakeV {
    /// Validity of the supplied accounts: well-formed addresses, and balances
    /// whose sum the ledger keeps below the total supply.
    pub open spec fn wf(self) -> bool {
        &&& self.program.len() == ADDR_LEN
        &&& self.opponent.wf()
        &&& self.judge.len() == ADDR_LEN
        &&& self.bet_addr.len() == ADDR_LEN
        &&& self.vault.wf()
        &&& self.opponent.lamports + self.vault.lamports <= u64::MAX
    }

    /// The stake the record demands of each party.
    pub open spec fn stake(self) -> u64 {
        self.bet->Some_0.amount
    }

    /// When a `Take` succeeds: a live record whose stored fields re-derive
    /// both supplied addresses, called by the stored opponent, naming the
    /// stored judge, before any earlier acceptance.
    pub open spec fn checks(self) -> bool {
        &&& self.bet matches Some(r)
        &&& r.opponent == self.opponent.addr
        &&& r.judge == self.judge
        &&& record_resolves(self.program, self.bet_addr, r)
        &&& vault_resolves(self.program, self.bet_addr, self.vault.addr, r.vault_bump)
        &&& !r.deposited()
    }

    /// The error reported for a `Take` whose checks fail, in the order the
    /// engine tests them.
    pub open spec fn error(self) -> ErrorCode {
        if self.bet is None {
            ErrorCode::RecordNotFound
        } else if self.bet->Some_0.opponent != self.opponent.addr {
            ErrorCode::Unauthorized
        } else if self.bet->Some_0.judge != self.judge {
            ErrorCode::RecordNotFound
        } else if !record_resolves(self.program, self.bet_addr, self.bet->Some_0) {
            ErrorCode::RecordNotFound
        } else if !vault_resolves(
            self.program,
            self.bet_addr,
            self.vault.addr,
            self.bet->Some_0.vault_bump,
        ) {
            ErrorCode::RecordNotFound
        } else {
            ErrorCode::TakerAlreadyDeposited
        }
    }

    /// The state after a successful `Take`: the matching stake in the vault
    /// and the record accepted.
    pub open spec fn post(self) -> TakeV {
        TakeV {
            opponent: AccountV {
                lamports: (self.opponent.lamports - self.stake()) as u64,
                ..self.opponent
            },
            vault: AccountV {
                lamports: (self.vault.lamports + self.stake()) as u64,
                ..self.vault
            },
            bet: Some(BetV { state: BetState::Accepted, ..self.bet->Some_0 }),
            ..self
        }
    }
}

impl Take {
    /// Accepts the bet: deposits the opponent's matching stake into the
    /// vault and marks the record accepted.
    ///
    /// The ledger guarantees the authenticated opponent can fund the
    /// transfer. On any failed check nothing changes.
    pub fn take_bet(&mut self) -> (r: Result<(), ErrorCode>)
        requires
            old(self)@.wf(),
            old(self)@.bet matches Some(b) ==> old(self)@.opponent.lamports >= b.amount,
        ensures
            r is Ok <==> old(self)@.checks(),
            r is Ok ==> final(self)@ == old(self)@.post(),
            r matches Err(e) ==> final(self)@ == old(self)@ && e == old(self)@.error(),
    {
        let amount: u64;
        match &self.bet {
            None => {
                return Err(ErrorCode::RecordNotFound);
            },
            Some(bet) => {
                if let Err(e) = authorize(&self.opponent.addr, &bet.opponent) {
                    return Err(e);
                }
                if !addr_eq(&self.judge, &bet.judge) {
                    return Err(ErrorCode::RecordNotFound);
                }
                if !resolve_record(&self.program, &self.bet_addr, bet) {
                    return Err(ErrorCode::RecordNotFound);
                }
                if !resolve_vault(&self.program, &self.bet_addr, &self.vault.addr, bet.vault_bump)
                {
                    return Err(ErrorCode::RecordNotFound);
                }
                if bet.is_deposited() {
                    return Err(ErrorCode::TakerAlreadyDeposited);
                }
                amount = bet.amount;
            },
        }
        self.opponent.lamports = self.opponent.lamports - amount;
        self.vault.lamports = self.vault.lamports + amount;
        match &mut self.bet {
            Some(bet) => {
                bet.state = BetState::Accepted;
            },
            None => {},
        }
        assert(self@ =~= old(self)@.post());
        Ok(())
    }
}

} // verus!
