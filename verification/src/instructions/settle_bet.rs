//! `SettleBet`: the judge resolves an accepted bet, paying the whole pot to
//! the winner or refunding each party its own stake.
//!
//! Settlement demands `deposited == true` in every branch: a bet that was
//! never accepted cannot be settled, and the attempt fails with
//! `PlayersNotDeposited`. (Before acceptance the maker's `Cancel` or the
//! opponent's `Decline` are the ways out.) With that precondition in place,
//! `InsufficientVaultBalance` can only signal a breach of the custody
//! invariant: an accepted bet whose vault does not hold both stakes.

use vstd::prelude::*;
use crate::addr::{Account, AccountV, Addr, addr_eq, ADDR_LEN};
use crate::derivation::{authorize, record_resolves, resolve_record, resolve_vault, vault_resolves};
use crate::error::ErrorCode;
use crate::state::{bet_slot_view, Bet, BetV};

verus! {

/// The winner selector naming the maker.
pub const WINNER_MAKER: u8 = 1;

/// The winner selector naming the taker.
pub const WINNER_TAKER: u8 = 2;

/// The accounts a `SettleBet` operation touches.
pub struct SettleBet {
    /// The escrow program's own identity.
    pub program: Addr,
    /// The authenticated caller; must be the stored judge.
    pub judge: Addr,
    /// The maker's account; must be the stored maker.
    pub maker: Account,
    /// The taker's account; must be the stored opponent.
    pub taker: Account,
    /// The supplied record address; must re-derive from the stored terms.
    pub bet_addr: Addr,
    /// The record slot at `bet_addr`.
    pub bet: Option<Bet>,
    /// The custodial vault account.
    pub vault: Account,
}

/// The mathematical image of a [`SettleBet`] context.
#[verifier::ext_equal]
pub struct SettleBetV {
    pub program: Seq<u8>,
    pub judge: Seq<u8>,
    pub maker: AccountV,
    pub taker: AccountV,
    pub bet_addr: Seq<u8>,
    pub bet: Option<BetV>,
    pub vault: AccountV,
}

impl View for SettleBet {
    type V = SettleBetV;

    open spec fn view(&self) -> SettleBetV {
        SettleBetV {
            program: self.program@,
            judge: self.judge@,
            maker: self.maker@,
            taker: self.taker@,
            bet_addr: self.bet_addr@,
            bet: bet_slot_view(self.bet),
            vault: self.vault@,
        }
    }
}

impl SettleBetV {
    /// Validity of the supplied accounts: well-formed addresses, and balances
    /// whose sum the ledger keeps below the total supply.
    pub open spec fn wf(self) -> bool {
        &&& self.program.len() == ADDR_LEN
        &&& self.judge.len() == ADDR_LEN
        &&& self.maker.wf()
        &&& self.taker.wf()
        &&& self.bet_addr.len() == ADDR_LEN
        &&& self.vault.wf()
        &&& self.maker.lamports + self.taker.lamports + self.vault.lamports <= u64::MAX
    }

    /// The stake the record demands of each party.
    pub open spec fn stake(self) -> u64 {
        self.bet->Some_0.amount
    }

    /// The checks every settlement path shares: a live record whose stored
    /// fields re-derive both supplied addresses, called by the stored judge,
    /// with the stored parties supplied as recipients, after both stakes
    /// arrived.
    pub open spec fn base_checks(self) -> bool {
        &&& self.bet matches Some(r)
        &&& r.judge == self.judge
        &&& r.maker == self.maker.addr
        &&& r.opponent == self.taker.addr
        &&& record_resolves(self.program, self.bet_addr, r)
        &&& vault_resolves(self.program, self.bet_addr, self.vault.addr, r.vault_bump)
        &&& r.deposited()
    }

    /// The error reported when the shared checks fail, in the order the
    /// engine tests them.
    pub open spec fn base_error(self) -> ErrorCode {
        if self.bet is None {
            ErrorCode::RecordNotFound
        } else if self.bet->Some_0.judge != self.judge {
            ErrorCode::Unauthorized
        } else if self.bet->Some_0.maker != self.maker.addr {
            ErrorCode::RecordNotFound
        } else if self.bet->Some_0.opponent != self.taker.addr {
            ErrorCode::RecordNotFound
        } else if !record_resolves(self.program, self.bet_addr, self.bet->Some_0) {
            ErrorCode::RecordNotFound
        } else if !vault_resolves(
            self.program,
            self.bet_addr,
            self.vault.addr,
            self.bet->Some_0.vault_bump,
        ) {
            ErrorCode::RecordNotFound
        } else {
            ErrorCode::PlayersNotDeposited
        }
    }

    /// When a refund settlement succeeds: the shared checks, and a vault
    /// that actually holds both stakes.
    pub open spec fn refund_checks(self) -> bool {
        &&& self.base_checks()
        &&& self.vault.lamports >= self.stake() + self.stake()
    }

    /// The state after the whole pot went to the maker or the taker: the
    /// vault drained to zero and the record closed.
    pub open spec fn winner_post(self, winner: u8) -> SettleBetV {
        if winner == WINNER_MAKER {
            SettleBetV {
                maker: AccountV {
                    lamports: (self.maker.lamports + self.vault.lamports) as u64,
                    ..self.maker
                },
                vault: AccountV { lamports: 0, ..self.vault },
                bet: None,
                ..self
            }
        } else {
            SettleBetV {
                taker: AccountV {
                    lamports: (self.taker.lamports + self.vault.lamports) as u64,
                    ..self.taker
                },
                vault: AccountV { lamports: 0, ..self.vault },
                bet: None,
                ..self
            }
        }
    }

    /// The state after a refund settlement: each party its own stake back,
    /// the vault drained by both stakes, and the record closed.
    pub open spec fn refund_post(self) -> SettleBetV {
        SettleBetV {
            maker: AccountV {
                lamports: (self.maker.lamports + self.stake()) as u64,
                ..self.maker
            },
            taker: AccountV {
                lamports: (self.taker.lamports + self.stake()) as u64,
                ..self.taker
            },
            vault: AccountV {
                lamports: (self.vault.lamports - self.stake() - self.stake()) as u64,
                ..self.vault
            },
            bet: None,
            ..self
        }
    }

    /// Success condition of a whole `settle_bet` call for a given selector.
    pub open spec fn settle_checks(self, winner: u8) -> bool {
        if winner == WINNER_MAKER || winner == WINNER_TAKER {
            self.base_checks()
        } else {
            self.refund_checks()
        }
    }

    /// Outcome state of a whole successful `settle_bet` call.
    pub open spec fn settle_post(self, winner: u8) -> SettleBetV {
        if winner == WINNER_MAKER || winner == WINNER_TAKER {
            self.winner_post(winner)
        } else {
            self.refund_post()
        }
    }

    /// The error of a whole failed `settle_bet` call.
    pub open spec fn settle_error(self, winner: u8) -> ErrorCode {
        if winner == WINNER_MAKER || winner == WINNER_TAKER {
            self.base_error()
        } else if !self.base_checks() {
            self.base_error()
        } else {
            ErrorCode::InsufficientVaultBalance
        }
    }
}

impl SettleBet {
    /// Pays the entire vault balance — both stakes, under the custody
    /// invariant — to the selected winner and closes the record.
    pub fn select_winner(&mut self, winner: u8) -> (r: Result<(), ErrorCode>)
        requires
            old(self)@.wf(),
            winner == WINNER_MAKER || winner == WINNER_TAKER,
        ensures
            r is Ok <==> old(self)@.base_checks(),
            r is Ok ==> final(self)@ == old(self)@.winner_post(winner),
            r matches Err(e) ==> final(self)@ == old(self)@ && e == old(self)@.base_error(),
    {
        if let Err(e) = self.check_settlement() {
            return Err(e);
        }
        let pot = self.vault.lamports;
        self.vault.lamports = 0;
        if winner == WINNER_MAKER {
            self.maker.lamports = self.maker.lamports + pot;
        } else {
            self.taker.lamports = self.taker.lamports + pot;
        }
        self.bet = None;
        assert(self@ =~= old(self)@.winner_post(winner));
        Ok(())
    }

    /// Refunds each party its own stake and closes the record.
    ///
    /// The vault must actually hold both stakes before anything moves;
    /// otherwise the operation fails with `InsufficientVaultBalance` and no
    /// partial refund is paid.
    pub fn refund_bet(&mut self) -> (r: Result<(), ErrorCode>)
        requires
            old(self)@.wf(),
        ensures
            r is Ok <==> old(self)@.refund_checks(),
            r is Ok ==> final(self)@ == old(self)@.refund_post(),
            r matches Err(e) ==> final(self)@ == old(self)@ && e == (if old(
                self,
            )@.base_checks() {
                ErrorCode::InsufficientVaultBalance
            } else {
                old(self)@.base_error()
            }),
    {
        if let Err(e) = self.check_settlement() {
            return Err(e);
        }
        let amount: u64;
        match &self.bet {
            Some(bet) => {
                amount = bet.amount;
            },
            None => {
                return Err(ErrorCode::RecordNotFound);
            },
        }
        if self.vault.lamports < amount || self.vault.lamports - amount < amount {
            return Err(ErrorCode::InsufficientVaultBalance);
        }
        self.vault.lamports = self.vault.lamports - amount - amount;
        self.maker.lamports = self.maker.lamports + amount;
        self.taker.lamports = self.taker.lamports + amount;
        self.bet = None;
        assert(self@ =~= old(self)@.refund_post());
        Ok(())
    }

    /// Runs the checks every settlement path shares, changing nothing.
    fn check_settlement(&self) -> (r: Result<(), ErrorCode>)
        requires
            self@.wf(),
        ensures
            r is Ok <==> self@.base_checks(),
            r matches Err(e) ==> e == self@.base_error(),
    {
        match &self.bet {
            None => Err(ErrorCode::RecordNotFound),
            Some(bet) => {
                if let Err(e) = authorize(&self.judge, &bet.judge) {
                    return Err(e);
                }
                if !addr_eq(&self.maker.addr, &bet.maker) {
                    return Err(ErrorCode::RecordNotFound);
                }
                if !addr_eq(&self.taker.addr, &bet.opponent) {
                    return Err(ErrorCode::RecordNotFound);
                }
                if !resolve_record(&self.program, &self.bet_addr, bet) {
                    return Err(ErrorCode::RecordNotFound);
                }
                if !resolve_vault(&self.program, &self.bet_addr, &self.vault.addr, bet.vault_bump)
                {
                    return Err(ErrorCode::RecordNotFound);
                }
                if !bet.is_deposited() {
                    return Err(ErrorCode::PlayersNotDeposited);
                }
                Ok(())
            },
        }
    }
}

} // verus!
