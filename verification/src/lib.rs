//! A peer-to-peer escrow protocol: two parties stake equal amounts on a
//! proposition, a judge later decides the outcome, and the engine custodies
//! and releases the stakes according to a fixed set of rules.
//!
//! A maker creates a bet record and funds the vault with their stake
//! ([`make`]). The named opponent either matches the stake ([`take`]) or
//! declines ([`decline`]), or the maker withdraws the offer before
//! acceptance ([`cancel`]). Once both stakes are in the vault, only the
//! named judge may resolve the bet ([`settle_bet`]), releasing the pot to
//! the winner or refunding both parties. Record and vault identities are
//! derived deterministically from the terms, so every operation re-derives
//! the expected addresses from stored state and rejects any mismatch; no
//! registry or lookup index exists.
//!
//! The execution environment stays outside: it authenticates callers,
//! persists the accounts handed to these operations, and applies the
//! resulting balances atomically. Each operation here is a single sequence
//! of validation and update that either fully applies or, on the first
//! failed check, changes nothing.

pub mod addr;
pub mod error;
pub mod state;
pub mod derivation;
pub mod instructions;
pub mod laws;

use vstd::prelude::*;
use crate::derivation::{record_resolves, vault_resolves};
use crate::error::ErrorCode;
use crate::instructions::cancel::Cancel;
use crate::instructions::decline::Decline;
use crate::instructions::make::Make;
use crate::instructions::settle_bet::SettleBet;
use crate::instructions::take::Take;
use crate::state::MAX_DESCRIPTION_LEN;

verus! {

/// The maker proposes a new bet and deposits their stake.
///
/// Succeeds exactly when the supplied record and vault addresses re-derive
/// from the terms and no live record sits at the record address; then the
/// record is populated (open, undeposited, with both derivation salts) and
/// the stake has moved from the maker to the vault, which holds exactly the
/// stake when it started empty. On failure nothing changes and the error
/// names the first failed check.
pub fn make(ctx: &mut Make, description: Vec<u8>, amount: u64) -> (r: Result<(), ErrorCode>)
    requires
        old(ctx)@.wf(),
        amount > 0,
        description@.len() <= MAX_DESCRIPTION_LEN,
        old(ctx)@.maker.lamports >= amount,
    ensures
        r is Ok <==> old(ctx)@.checks(description@),
        r is Ok ==> final(ctx)@ == old(ctx)@.post(description@, amount),
        r is Ok ==> record_resolves(
            old(ctx)@.program,
            old(ctx)@.bet_addr,
            old(ctx)@.new_record(description@, amount),
        ) && vault_resolves(
            old(ctx)@.program,
            old(ctx)@.bet_addr,
            old(ctx)@.vault.addr,
            old(ctx)@.vault_bump_found(),
        ),
        r is Ok && old(ctx)@.vault.lamports == 0 ==> final(ctx)@.vault.lamports == amount,
        r matches Err(e) ==> final(ctx)@ == old(ctx)@ && e == old(ctx)@.error(description@),
{
    match ctx.create_bet(description, amount) {
        Ok(()) => {},
        Err(e) => {
            return Err(e);
        },
    }
    ctx.deposit(amount)
}

/// The maker cancels their open bet and is refunded their stake.
pub fn cancel(ctx: &mut Cancel) -> (r: Result<(), ErrorCode>)
    requires
        old(ctx)@.wf(),
    ensures
        r is Ok <==> old(ctx)@.checks(),
        r is Ok ==> final(ctx)@ == old(ctx)@.post(),
        r matches Err(e) ==> final(ctx)@ == old(ctx)@ && e == old(ctx)@.error(),
{
    ctx.refund_to_maker()
}

/// The opponent accepts the bet and sends their stake into the vault.
pub fn take(ctx: &mut Take) -> (r: Result<(), ErrorCode>)
    requires
        old(ctx)@.wf(),
        old(ctx)@.bet matches Some(b) ==> old(ctx)@.opponent.lamports >= b.amount,
    ensures
        r is Ok <==> old(ctx)@.checks(),
        r is Ok ==> final(ctx)@ == old(ctx)@.post(),
        r matches Err(e) ==> final(ctx)@ == old(ctx)@ && e == old(ctx)@.error(),
{
    ctx.take_bet()
}

/// The opponent declines the bet; the maker is refunded.
pub fn decline(ctx: &mut Decline) -> (r: Result<(), ErrorCode>)
    requires
        old(ctx)@.wf(),
    ensures
        r is Ok <==> old(ctx)@.checks(),
        r is Ok ==> final(ctx)@ == old(ctx)@.post(),
        r matches Err(e) ==> final(ctx)@ == old(ctx)@ && e == old(ctx)@.error(),
{
    ctx.decline()
}

/// The judge settles an accepted bet: selector 1 pays the pot to the maker,
/// 2 pays it to the taker, and any other value refunds each party its own
/// stake.
pub fn settle_bet(ctx: &mut SettleBet, winner: u8) -> (r: Result<(), ErrorCode>)
    requires
        old(ctx)@.wf(),
    ensures
        r is Ok <==> old(ctx)@.settle_checks(winner),
        r is Ok ==> final(ctx)@ == old(ctx)@.settle_post(winner),
        r matches Err(e) ==> final(ctx)@ == old(ctx)@ && e == old(ctx)@.settle_error(winner),
{
    match winner {
        1 | 2 => ctx.select_winner(winner),
        _ => ctx.refund_bet(),
    }
}


} // verus!
