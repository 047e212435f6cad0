//! The protocol's guarantees across operations, stated and proved over the
//! mathematical outcomes that the operation contracts pin down.
//!
//! Each lemma speaks about the specification-level pre- and post-states of
//! the operations (`checks`, `post`, `error`), so it covers every execution
//! the contracts allow. Where a lemma's hypothesis says that the stored
//! salts re-derive the supplied addresses, that fact is exactly what a
//! successful `make` guarantees in its own contract.

use vstd::prelude::*;
use crate::addr::AccountV;
use crate::derivation::{record_resolves, vault_resolves};
use crate::error::ErrorCode;
use crate::instructions::cancel::CancelV;
use crate::instructions::decline::DeclineV;
use crate::instructions::make::MakeV;
use crate::instructions::settle_bet::{SettleBetV, WINNER_MAKER, WINNER_TAKER};
use crate::instructions::take::TakeV;
use crate::state::custody_inv;

verus! {

/// After `make(description, amount)` from an empty vault, the vault holds
/// exactly the stake and the record is live and undeposited.
pub proof fn lemma_make_funds_vault(m: MakeV, description: Seq<u8>, amount: u64)
    ensures
        (m.wf() && amount > 0 && m.maker.lamports >= amount && m.vault.lamports == 0
            && m.checks(description)) ==> {
            let p = m.post(description, amount);
            &&& p.vault.lamports == amount
            &&& p.maker.lamports == m.maker.lamports - amount
            &&& p.bet matches Some(r) && !r.deposited() && r.amount == amount
        },
{
}

/// Cancelling right after a successful `make` undoes it: the maker ends
/// with the balance they started with, the vault is emptied, and the record
/// no longer resolves.
pub proof fn lemma_cancel_after_make(m: MakeV, c: CancelV, description: Seq<u8>, amount: u64)
    ensures
        ({
            let p = m.post(description, amount);
            (m.wf() && amount > 0 && m.maker.lamports >= amount && m.vault.lamports == 0
                && m.checks(description)
                && record_resolves(m.program, m.bet_addr, m.new_record(description, amount))
                && vault_resolves(m.program, m.bet_addr, m.vault.addr, m.vault_bump_found())
                && c == (CancelV {
                program: m.program,
                maker: p.maker,
                bet_addr: m.bet_addr,
                bet: p.bet,
                vault: p.vault,
            })) ==> {
                &&& c.wf()
                &&& c.checks()
                &&& c.post().maker.lamports == m.maker.lamports
                &&& c.post().vault.lamports == 0
                &&& c.post().bet is None
            }
        }),
{
}

/// After `take`, the vault holds both stakes and the record is deposited:
/// taking a bet whose vault held exactly the maker's stake doubles it.
pub proof fn lemma_take_fills_vault(t: TakeV)
    ensures
        (t.wf() && t.checks() && t.vault.lamports == t.stake() && t.opponent.lamports
            >= t.stake()) ==> {
            let p = t.post();
            &&& p.vault.lamports == 2 * t.stake()
            &&& p.opponent.lamports == t.opponent.lamports - t.stake()
            &&& p.bet matches Some(r) && r.deposited() && r.amount == t.stake()
        },
{
}

/// A cancel attempted after the opponent has deposited fails with
/// `TakerAlreadyDeposited`; by the cancel contract a failed cancel changes
/// no balances. The hypothesis is exactly the state a successful `take`
/// leaves behind: a live, resolving, deposited record.
pub proof fn lemma_cancel_after_take_fails(t: TakeV, c: CancelV, maker: AccountV)
    ensures
        ({
            let p = t.post();
            (t.wf() && t.checks() && t.opponent.lamports >= t.stake() && maker.addr
                == t.bet->Some_0.maker && c == (CancelV {
                program: t.program,
                maker: maker,
                bet_addr: t.bet_addr,
                bet: p.bet,
                vault: p.vault,
            })) ==> {
                &&& !c.checks()
                &&& c.error() == ErrorCode::TakerAlreadyDeposited
            }
        }),
{
}

/// Declining right after a successful `make` refunds the maker in full,
/// empties the vault and closes the record; and a decline attempted after
/// the opponent has deposited fails with `TakerAlreadyDeposited`.
pub proof fn lemma_decline_after_make(m: MakeV, d: DeclineV, description: Seq<u8>, amount: u64)
    ensures
        ({
            let p = m.post(description, amount);
            (m.wf() && amount > 0 && m.maker.lamports >= amount && m.vault.lamports == 0
                && m.checks(description)
                && record_resolves(m.program, m.bet_addr, m.new_record(description, amount))
                && vault_resolves(m.program, m.bet_addr, m.vault.addr, m.vault_bump_found())
                && d == (DeclineV {
                program: m.program,
                opponent: m.opponent,
                maker: p.maker,
                bet_addr: m.bet_addr,
                bet: p.bet,
                vault: p.vault,
            })) ==> {
                &&& d.wf()
                &&& d.checks()
                &&& d.post().maker.lamports == m.maker.lamports
                &&& d.post().vault.lamports == 0
                &&& d.post().bet is None
            }
        }),
{
}

/// A decline attempted once the record is deposited fails with
/// `TakerAlreadyDeposited`, whoever else is in order.
pub proof fn lemma_decline_after_take_fails(t: TakeV, d: DeclineV, maker: AccountV)
    ensures
        ({
            let p = t.post();
            (t.wf() && t.checks() && t.opponent.lamports >= t.stake() && maker.addr
                == t.bet->Some_0.maker && d == (DeclineV {
                program: t.program,
                opponent: t.opponent.addr,
                maker: maker,
                bet_addr: t.bet_addr,
                bet: p.bet,
                vault: p.vault,
            })) ==> {
                &&& !d.checks()
                &&& d.error() == ErrorCode::TakerAlreadyDeposited
            }
        }),
{
}

/// Settling after a successful `take`, in each of the three ways:
/// the maker selector pays the maker the whole pot (both stakes), the taker
/// selector pays it to the taker, and any other selector refunds each party
/// its own stake. In every branch the vault is emptied and the record
/// closed.
pub proof fn lemma_settle_after_take(t: TakeV, s: SettleBetV, maker: AccountV)
    ensures
        ({
            let p = t.post();
            let r = t.bet->Some_0;
            (t.wf() && t.checks() && t.vault.lamports == t.stake() && t.opponent.lamports
                >= t.stake() && maker.addr == r.maker && maker.addr.len() == 32
                && maker.lamports + p.opponent.lamports + p.vault.lamports <= u64::MAX && s == (
            SettleBetV {
                program: t.program,
                judge: r.judge,
                maker: maker,
                taker: p.opponent,
                bet_addr: t.bet_addr,
                bet: p.bet,
                vault: p.vault,
            })) ==> {
                &&& s.wf()
                &&& s.base_checks()
                &&& s.refund_checks()
                &&& s.settle_post(WINNER_MAKER).maker.lamports == maker.lamports + 2 * t.stake()
                &&& s.settle_post(WINNER_MAKER).vault.lamports == 0
                &&& s.settle_post(WINNER_MAKER).bet is None
                &&& s.settle_post(WINNER_TAKER).taker.lamports == p.opponent.lamports + 2
                    * t.stake()
                &&& s.settle_post(WINNER_TAKER).vault.lamports == 0
                &&& s.settle_post(0).maker.lamports == maker.lamports + t.stake()
                &&& s.settle_post(0).taker.lamports == p.opponent.lamports + t.stake()
                &&& s.settle_post(0).vault.lamports == 0
                &&& s.settle_post(0).bet is None
            }
        }),
{
}

/// Every successful operation keeps the vault holding exactly what its
/// record owes: nothing once the record is closed, one stake while it is
/// open, both stakes once it is accepted. Under the same invariant an
/// accepted bet always has the funds for a refund settlement, so
/// `InsufficientVaultBalance` signals nothing but a breach.
pub proof fn lemma_custody_invariant(
    m: MakeV,
    t: TakeV,
    c: CancelV,
    d: DeclineV,
    s: SettleBetV,
    description: Seq<u8>,
    amount: u64,
    winner: u8,
)
    ensures
        (m.wf() && amount > 0 && m.maker.lamports >= amount && m.checks(description)
            && custody_inv(m.bet, m.vault.lamports)) ==> custody_inv(
            m.post(description, amount).bet,
            m.post(description, amount).vault.lamports,
        ),
        (t.wf() && t.checks() && t.opponent.lamports >= t.stake() && custody_inv(
            t.bet,
            t.vault.lamports,
        )) ==> custody_inv(t.post().bet, t.post().vault.lamports),
        (c.wf() && c.checks() && custody_inv(c.bet, c.vault.lamports)) ==> custody_inv(
            c.post().bet,
            c.post().vault.lamports,
        ),
        (d.wf() && d.checks() && custody_inv(d.bet, d.vault.lamports)) ==> custody_inv(
            d.post().bet,
            d.post().vault.lamports,
        ),
        (s.wf() && s.settle_checks(winner) && custody_inv(s.bet, s.vault.lamports))
            ==> custody_inv(s.settle_post(winner).bet, s.settle_post(winner).vault.lamports),
        (s.wf() && s.base_checks() && custody_inv(s.bet, s.vault.lamports))
            ==> s.refund_checks(),
{
}

/// A settlement invoked by any identity other than the stored judge fails
/// with `Unauthorized`; by the settle contract a failed settlement changes
/// no balances.
pub proof fn lemma_settle_wrong_judge_fails(s: SettleBetV, winner: u8)
    ensures
        (s.bet matches Some(r) && s.judge != r.judge) ==> {
            &&& !s.settle_checks(winner)
            &&& s.settle_error(winner) == ErrorCode::Unauthorized
        },
{
}


} // verus!
