use peer_to_peer_betting::addr::{Account, Addr};
use peer_to_peer_betting::derivation::{authorize, derive_bet_address, derive_vault_address};
use peer_to_peer_betting::error::ErrorCode;
use peer_to_peer_betting::instructions::cancel::Cancel;
use peer_to_peer_betting::instructions::decline::Decline;
use peer_to_peer_betting::instructions::make::Make;
use peer_to_peer_betting::instructions::settle_bet::SettleBet;
use peer_to_peer_betting::instructions::take::Take;
use peer_to_peer_betting::state::{Bet, BetState};
use peer_to_peer_betting::{cancel, decline, make, settle_bet, take};

fn addr(tag: u8) -> Addr {
    Addr::new(vec![tag; 32])
}

/// A freshly made bet: the maker has proposed with the given stake and the
/// vault holds it. Returns the populated record, the two derived addresses,
/// and the maker's remaining balance.
fn made_bet(
    program: &Addr,
    maker: &Addr,
    opponent: &Addr,
    judge: &Addr,
    description: &[u8],
    maker_start: u64,
    amount: u64,
) -> (Bet, Addr, Addr, u64) {
    let (bet_addr, _) = derive_bet_address(program, maker, opponent, judge, &description.to_vec())
        .expect("no record address for these terms");
    let (vault_addr, _) =
        derive_vault_address(program, &bet_addr).expect("no vault address for this record");
    let mut ctx = Make {
        program: program.dup(),
        maker: Account { addr: maker.dup(), lamports: maker_start },
        opponent: opponent.dup(),
        judge: judge.dup(),
        bet_addr: bet_addr.dup(),
        bet: None,
        vault: Account { addr: vault_addr.dup(), lamports: 0 },
    };
    make(&mut ctx, description.to_vec(), amount).expect("make failed");
    assert_eq!(ctx.vault.lamports, amount);
    let record = ctx.bet.expect("make left no record");
    (record, bet_addr, vault_addr, ctx.maker.lamports)
}

#[test]
fn derivation_deterministic() {
    let program = addr(9);
    let (m, o, j) = (addr(1), addr(2), addr(3));
    let desc = b"match outcome".to_vec();
    let (a1, b1) = derive_bet_address(&program, &m, &o, &j, &desc).unwrap();
    let (a2, b2) = derive_bet_address(&program, &m, &o, &j, &desc).unwrap();
    assert_eq!(a1.bytes, a2.bytes);
    assert_eq!(b1, b2);
    let (v1, vb1) = derive_vault_address(&program, &a1).unwrap();
    let (v2, vb2) = derive_vault_address(&program, &a2).unwrap();
    assert_eq!(v1.bytes, v2.bytes);
    assert_eq!(vb1, vb2);
}

#[test]
fn derivation_depends_on_terms() {
    let program = addr(9);
    let (m, o, j) = (addr(1), addr(2), addr(3));
    let (a1, _) = derive_bet_address(&program, &m, &o, &j, &b"first".to_vec()).unwrap();
    let (a2, _) = derive_bet_address(&program, &m, &o, &j, &b"second".to_vec()).unwrap();
    assert_ne!(a1.bytes, a2.bytes);
    assert_eq!(a1.bytes.len(), 32);
    assert_ne!(a1.bytes, m.bytes);
    let (v1, _) = derive_vault_address(&program, &a1).unwrap();
    assert_ne!(v1.bytes, a1.bytes);
}

#[test]
fn authorize_checks_identity() {
    assert!(authorize(&addr(4), &addr(4)).is_ok());
    let err = authorize(&addr(4), &addr(5)).unwrap_err();
    assert_eq!(err, ErrorCode::Unauthorized);
    assert_eq!(err.describe(), "unauthorized caller");
    assert_eq!(ErrorCode::TakerAlreadyDeposited.describe(), "the taker has already deposited");
}

#[test]
fn make_funds_vault() {
    let program = addr(9);
    let (m, o, j) = (addr(1), addr(2), addr(3));
    let (record, _, _, maker_left) =
        made_bet(&program, &m, &o, &j, b"who wins", 5_000, 1_200);
    assert_eq!(maker_left, 3_800);
    assert!(matches!(record.state, BetState::Open));
    assert_eq!(record.amount, 1_200);
    assert_eq!(record.description, b"who wins".to_vec());
}

#[test]
fn make_rejects_duplicate() {
    let program = addr(9);
    let (m, o, j) = (addr(1), addr(2), addr(3));
    let (record, bet_addr, vault_addr, maker_left) =
        made_bet(&program, &m, &o, &j, b"again", 5_000, 1_000);
    let mut ctx = Make {
        program: program.dup(),
        maker: Account { addr: m.dup(), lamports: maker_left },
        opponent: o.dup(),
        judge: j.dup(),
        bet_addr: bet_addr.dup(),
        bet: Some(record),
        vault: Account { addr: vault_addr.dup(), lamports: 1_000 },
    };
    let err = make(&mut ctx, b"again".to_vec(), 1_000).unwrap_err();
    assert_eq!(err, ErrorCode::DuplicateBet);
    assert_eq!(ctx.maker.lamports, maker_left);
    assert_eq!(ctx.vault.lamports, 1_000);
}

#[test]
fn make_rejects_stale_record_address() {
    let program = addr(9);
    let (m, o, j) = (addr(1), addr(2), addr(3));
    let mut ctx = Make {
        program: program.dup(),
        maker: Account { addr: m.dup(), lamports: 5_000 },
        opponent: o.dup(),
        judge: j.dup(),
        bet_addr: addr(8),
        bet: None,
        vault: Account { addr: addr(7), lamports: 0 },
    };
    let err = make(&mut ctx, b"forged".to_vec(), 1_000).unwrap_err();
    assert_eq!(err, ErrorCode::RecordNotFound);
    assert_eq!(ctx.maker.lamports, 5_000);
}

#[test]
fn cancel_after_make_refunds_maker() {
    let program = addr(9);
    let (m, o, j) = (addr(1), addr(2), addr(3));
    let (record, bet_addr, vault_addr, maker_left) =
        made_bet(&program, &m, &o, &j, b"called off", 5_000, 1_000);
    let mut ctx = Cancel {
        program: program.dup(),
        maker: Account { addr: m.dup(), lamports: maker_left },
        bet_addr,
        bet: Some(record),
        vault: Account { addr: vault_addr, lamports: 1_000 },
    };
    cancel(&mut ctx).unwrap();
    assert_eq!(ctx.maker.lamports, 5_000);
    assert_eq!(ctx.vault.lamports, 0);
    assert!(ctx.bet.is_none());
}

#[test]
fn cancel_by_stranger_fails() {
    let program = addr(9);
    let (m, o, j) = (addr(1), addr(2), addr(3));
    let (record, bet_addr, vault_addr, _) =
        made_bet(&program, &m, &o, &j, b"not yours", 5_000, 1_000);
    let mut ctx = Cancel {
        program: program.dup(),
        maker: Account { addr: addr(6), lamports: 100 },
        bet_addr,
        bet: Some(record),
        vault: Account { addr: vault_addr, lamports: 1_000 },
    };
    assert_eq!(cancel(&mut ctx).unwrap_err(), ErrorCode::Unauthorized);
    assert_eq!(ctx.maker.lamports, 100);
    assert_eq!(ctx.vault.lamports, 1_000);
}

#[test]
fn cancel_of_closed_record_fails() {
    let program = addr(9);
    let m = addr(1);
    let mut ctx = Cancel {
        program: program.dup(),
        maker: Account { addr: m.dup(), lamports: 100 },
        bet_addr: addr(8),
        bet: None,
        vault: Account { addr: addr(7), lamports: 0 },
    };
    assert_eq!(cancel(&mut ctx).unwrap_err(), ErrorCode::RecordNotFound);
}

/// An accepted bet: made with `maker_start`/`opp_start` balances, then
/// taken. Returns the take context after acceptance and the maker's balance.
fn taken_bet(
    program: &Addr,
    m: &Addr,
    o: &Addr,
    j: &Addr,
    description: &[u8],
    amount: u64,
    maker_start: u64,
    opp_start: u64,
) -> (Take, u64) {
    let (record, bet_addr, vault_addr, maker_left) =
        made_bet(program, m, o, j, description, maker_start, amount);
    let mut ctx = Take {
        program: program.dup(),
        opponent: Account { addr: o.dup(), lamports: opp_start },
        judge: j.dup(),
        bet_addr,
        bet: Some(record),
        vault: Account { addr: vault_addr, lamports: amount },
    };
    take(&mut ctx).expect("take failed");
    (ctx, maker_left)
}

#[test]
fn take_fills_vault() {
    let program = addr(9);
    let (m, o, j) = (addr(1), addr(2), addr(3));
    let (ctx, _) = taken_bet(&program, &m, &o, &j, b"double up", 1_000, 5_000, 3_000);
    assert_eq!(ctx.vault.lamports, 2_000);
    assert_eq!(ctx.opponent.lamports, 2_000);
    let record = ctx.bet.unwrap();
    assert!(matches!(record.state, BetState::Accepted));
}

#[test]
fn take_with_substituted_judge_fails() {
    let program = addr(9);
    let (m, o, j) = (addr(1), addr(2), addr(3));
    let (record, bet_addr, vault_addr, _) =
        made_bet(&program, &m, &o, &j, b"wrong judge", 5_000, 1_000);
    let mut ctx = Take {
        program: program.dup(),
        opponent: Account { addr: o.dup(), lamports: 3_000 },
        judge: addr(6),
        bet_addr,
        bet: Some(record),
        vault: Account { addr: vault_addr, lamports: 1_000 },
    };
    assert_eq!(take(&mut ctx).unwrap_err(), ErrorCode::RecordNotFound);
    assert_eq!(ctx.vault.lamports, 1_000);
}

#[test]
fn take_by_stranger_fails() {
    let program = addr(9);
    let (m, o, j) = (addr(1), addr(2), addr(3));
    let (record, bet_addr, vault_addr, _) =
        made_bet(&program, &m, &o, &j, b"invited only", 5_000, 1_000);
    let mut ctx = Take {
        program: program.dup(),
        opponent: Account { addr: addr(6), lamports: 3_000 },
        judge: j.dup(),
        bet_addr,
        bet: Some(record),
        vault: Account { addr: vault_addr, lamports: 1_000 },
    };
    assert_eq!(take(&mut ctx).unwrap_err(), ErrorCode::Unauthorized);
}

#[test]
fn take_twice_fails() {
    let program = addr(9);
    let (m, o, j) = (addr(1), addr(2), addr(3));
    let (mut ctx, _) = taken_bet(&program, &m, &o, &j, b"once only", 1_000, 5_000, 3_000);
    assert_eq!(take(&mut ctx).unwrap_err(), ErrorCode::TakerAlreadyDeposited);
    assert_eq!(ctx.vault.lamports, 2_000);
    assert_eq!(ctx.opponent.lamports, 2_000);
}

#[test]
fn cancel_after_take_fails() {
    let program = addr(9);
    let (m, o, j) = (addr(1), addr(2), addr(3));
    let (tctx, maker_left) = taken_bet(&program, &m, &o, &j, b"too late", 1_000, 5_000, 3_000);
    let mut ctx = Cancel {
        program: program.dup(),
        maker: Account { addr: m.dup(), lamports: maker_left },
        bet_addr: tctx.bet_addr,
        bet: tctx.bet,
        vault: tctx.vault,
    };
    assert_eq!(cancel(&mut ctx).unwrap_err(), ErrorCode::TakerAlreadyDeposited);
    assert_eq!(ctx.maker.lamports, 4_000);
    assert_eq!(ctx.vault.lamports, 2_000);
    assert!(ctx.bet.is_some());
}

#[test]
fn decline_after_make_refunds_maker() {
    let program = addr(9);
    let (m, o, j) = (addr(1), addr(2), addr(3));
    let (record, bet_addr, vault_addr, maker_left) =
        made_bet(&program, &m, &o, &j, b"no thanks", 5_000, 1_000);
    let mut ctx = Decline {
        program: program.dup(),
        opponent: o.dup(),
        maker: Account { addr: m.dup(), lamports: maker_left },
        bet_addr,
        bet: Some(record),
        vault: Account { addr: vault_addr, lamports: 1_000 },
    };
    decline(&mut ctx).unwrap();
    assert_eq!(ctx.maker.lamports, 5_000);
    assert_eq!(ctx.vault.lamports, 0);
    assert!(ctx.bet.is_none());
}

#[test]
fn decline_after_take_fails() {
    let program = addr(9);
    let (m, o, j) = (addr(1), addr(2), addr(3));
    let (tctx, maker_left) = taken_bet(&program, &m, &o, &j, b"changed mind", 1_000, 5_000, 3_000);
    let mut ctx = Decline {
        program: program.dup(),
        opponent: o.dup(),
        maker: Account { addr: m.dup(), lamports: maker_left },
        bet_addr: tctx.bet_addr,
        bet: tctx.bet,
        vault: tctx.vault,
    };
    assert_eq!(decline(&mut ctx).unwrap_err(), ErrorCode::TakerAlreadyDeposited);
    assert_eq!(ctx.maker.lamports, 4_000);
    assert_eq!(ctx.vault.lamports, 2_000);
}

/// A settle context over an accepted bet with the given party balances.
fn settle_ctx(program: &Addr, m: &Addr, o: &Addr, j: &Addr, description: &[u8]) -> SettleBet {
    let (tctx, maker_left) = taken_bet(program, m, o, j, description, 1_000, 5_000, 3_000);
    SettleBet {
        program: program.dup(),
        judge: j.dup(),
        maker: Account { addr: m.dup(), lamports: maker_left },
        taker: Account { addr: o.dup(), lamports: tctx.opponent.lamports },
        bet_addr: tctx.bet_addr,
        bet: tctx.bet,
        vault: tctx.vault,
    }
}

#[test]
fn settle_maker_wins() {
    let program = addr(9);
    let (m, o, j) = (addr(1), addr(2), addr(3));
    let mut ctx = settle_ctx(&program, &m, &o, &j, b"maker wins");
    settle_bet(&mut ctx, 1).unwrap();
    assert_eq!(ctx.maker.lamports, 6_000);
    assert_eq!(ctx.taker.lamports, 2_000);
    assert_eq!(ctx.vault.lamports, 0);
    assert!(ctx.bet.is_none());
}

#[test]
fn settle_taker_wins() {
    let program = addr(9);
    let (m, o, j) = (addr(1), addr(2), addr(3));
    let mut ctx = settle_ctx(&program, &m, &o, &j, b"taker wins");
    settle_bet(&mut ctx, 2).unwrap();
    assert_eq!(ctx.maker.lamports, 4_000);
    assert_eq!(ctx.taker.lamports, 4_000);
    assert_eq!(ctx.vault.lamports, 0);
    assert!(ctx.bet.is_none());
}

#[test]
fn settle_draw_refunds_both() {
    let program = addr(9);
    let (m, o, j) = (addr(1), addr(2), addr(3));
    let mut ctx = settle_ctx(&program, &m, &o, &j, b"a draw");
    settle_bet(&mut ctx, 0).unwrap();
    assert_eq!(ctx.maker.lamports, 5_000);
    assert_eq!(ctx.taker.lamports, 3_000);
    assert_eq!(ctx.vault.lamports, 0);
    assert!(ctx.bet.is_none());
}

#[test]
fn settle_by_stranger_fails() {
    let program = addr(9);
    let (m, o, j) = (addr(1), addr(2), addr(3));
    let mut ctx = settle_ctx(&program, &m, &o, &j, b"not the judge");
    ctx.judge = addr(6);
    assert_eq!(settle_bet(&mut ctx, 1).unwrap_err(), ErrorCode::Unauthorized);
    assert_eq!(ctx.maker.lamports, 4_000);
    assert_eq!(ctx.taker.lamports, 2_000);
    assert_eq!(ctx.vault.lamports, 2_000);
    assert!(ctx.bet.is_some());
}

#[test]
fn settle_before_take_fails() {
    let program = addr(9);
    let (m, o, j) = (addr(1), addr(2), addr(3));
    let (record, bet_addr, vault_addr, maker_left) =
        made_bet(&program, &m, &o, &j, b"too early", 5_000, 1_000);
    let mut ctx = SettleBet {
        program: program.dup(),
        judge: j.dup(),
        maker: Account { addr: m.dup(), lamports: maker_left },
        taker: Account { addr: o.dup(), lamports: 3_000 },
        bet_addr,
        bet: Some(record),
        vault: Account { addr: vault_addr, lamports: 1_000 },
    };
    assert_eq!(settle_bet(&mut ctx, 1).unwrap_err(), ErrorCode::PlayersNotDeposited);
    assert_eq!(settle_bet(&mut ctx, 0).unwrap_err(), ErrorCode::PlayersNotDeposited);
    assert_eq!(ctx.vault.lamports, 1_000);
}

#[test]
fn settle_refund_on_short_vault_fails() {
    let program = addr(9);
    let (m, o, j) = (addr(1), addr(2), addr(3));
    let mut ctx = settle_ctx(&program, &m, &o, &j, b"breached vault");
    ctx.vault.lamports = 1_500;
    assert_eq!(settle_bet(&mut ctx, 0).unwrap_err(), ErrorCode::InsufficientVaultBalance);
    assert_eq!(ctx.maker.lamports, 4_000);
    assert_eq!(ctx.taker.lamports, 2_000);
    assert_eq!(ctx.vault.lamports, 1_500);
}

#[test]
fn empty_and_longest_descriptions() {
    let program = addr(9);
    let (m, o, j) = (addr(1), addr(2), addr(3));
    let (record, _, _, _) = made_bet(&program, &m, &o, &j, b"", 10, 1);
    assert_eq!(record.description.len(), 0);
    let long = [7u8; 32];
    let (record, _, _, maker_left) = made_bet(&program, &m, &o, &j, &long, 10, 10);
    assert_eq!(record.description.len(), 32);
    assert_eq!(maker_left, 0);
}

#[test]
fn scenario_match_outcome() {
    let program = addr(9);
    let (m, o, j) = (addr(1), addr(2), addr(3));
    let desc = b"match outcome";
    let (record, bet_addr, vault_addr, maker_left) =
        made_bet(&program, &m, &o, &j, desc, 10_000, 1_000);
    assert_eq!(maker_left, 9_000);
    let mut tctx = Take {
        program: program.dup(),
        opponent: Account { addr: o.dup(), lamports: 8_000 },
        judge: j.dup(),
        bet_addr: bet_addr.dup(),
        bet: Some(record),
        vault: Account { addr: vault_addr, lamports: 1_000 },
    };
    take(&mut tctx).unwrap();
    assert_eq!(tctx.opponent.lamports, 7_000);
    assert_eq!(tctx.vault.lamports, 2_000);
    assert!(matches!(tctx.bet.as_ref().unwrap().state, BetState::Accepted));
    let mut sctx = SettleBet {
        program: program.dup(),
        judge: j.dup(),
        maker: Account { addr: m.dup(), lamports: maker_left },
        taker: Account { addr: o.dup(), lamports: tctx.opponent.lamports },
        bet_addr,
        bet: tctx.bet,
        vault: tctx.vault,
    };
    settle_bet(&mut sctx, 2).unwrap();
    assert_eq!(sctx.taker.lamports, 9_000);
    assert_eq!(sctx.vault.lamports, 0);
    assert!(sctx.bet.is_none());
}
