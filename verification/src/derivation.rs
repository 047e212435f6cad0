//! Deterministic derivation of record and vault addresses, and caller
//! authorization.
//!
//! Rather than keeping a registry of open bets, the protocol computes every
//! identity from the terms themselves: the record address is derived from
//! (maker, opponent, judge, description) under a fixed tag, and the vault
//! address is derived from the record address, one level down. Each search
//! also yields a salt (a bump seed); storing the salt lets later operations
//! reproduce the address with a single check instead of a fresh search, and
//! holding the vault's salt is what authorizes outgoing vault transfers.
//!
//! The hash-based derivation itself is the ledger's: it is performed by
//! `Pubkey::try_find_program_address` and `Pubkey::create_program_address`,
//! reached through the two trusted wrappers below. Both are pure functions of
//! their arguments, so their results carry uninterpreted names here and every
//! contract above speaks in terms of those names.

use vstd::prelude::*;
use crate::addr::{Addr, addr_eq, copy_bytes, ADDR_LEN};
use crate::error::ErrorCode;
use crate::state::{Bet, BetV};

verus! {

/// The tag under which record addresses are derived: the bytes of `"bet"`.
pub open spec fn bet_tag() -> Seq<u8> {
    seq![98u8, 101u8, 116u8]
}

/// The tag under which vault addresses are derived: the bytes of `"vault"`.
pub open spec fn vault_tag() -> Seq<u8> {
    seq![118u8, 97u8, 117u8, 108u8, 116u8]
}

/// The derivation input of a bet record: tag, the three identities, and the
/// description.
pub open spec fn bet_seeds(
    maker: Seq<u8>,
    opponent: Seq<u8>,
    judge: Seq<u8>,
    description: Seq<u8>,
) -> Seq<Seq<u8>> {
    seq![bet_tag(), maker, opponent, judge, description]
}

/// The derivation input of a vault: tag and the owning record's address.
pub open spec fn vault_seeds(bet_addr: Seq<u8>) -> Seq<Seq<u8>> {
    seq![vault_tag(), bet_addr]
}

/// The byte strings held by a vector of seed vectors.
pub open spec fn seeds_view(s: Vec<Vec<u8>>) -> Seq<Seq<u8>> {
    s@.map_values(|v: Vec<u8>| v@)
}

/// What the bump-seed search returns for a program identity and seed list:
/// the derived address and its bump, or nothing when no bump works.
pub uninterp spec fn pda_search(program: Seq<u8>, seeds: Seq<Seq<u8>>) -> Option<(Seq<u8>, u8)>;

/// What single-bump derivation returns for a program identity, seed list and
/// bump: the derived address, or nothing when these seeds are rejected.
pub uninterp spec fn pda_checked(program: Seq<u8>, seeds: Seq<Seq<u8>>, bump: u8) -> Option<Seq<u8>>;

/// Relies on `Pubkey::try_find_program_address` (solana-address, reached
/// through anchor-lang): the result is a pure function of the seed list and
/// program identity; a returned address is 32 bytes; and, by construction of
/// the search, re-deriving with the returned bump through
/// `Pubkey::create_program_address` yields the same address.
#[verifier::external_body]
fn find_pda(program: &Addr, seeds: &Vec<Vec<u8>>) -> (r: Option<(Addr, u8)>)
    requires
        program@.len() == ADDR_LEN,
    ensures
        ({
            let d = pda_search(program@, seeds_view(*seeds));
            match r {
                Some((a, b)) => {
                    &&& d == Some((a@, b))
                    &&& a@.len() == ADDR_LEN
                    &&& pda_checked(program@, seeds_view(*seeds), b) == Some(a@)
                },
                None => d is None,
            }
        }),
{
    let pid = anchor_lang::prelude::Pubkey::try_from(program.bytes.as_slice()).unwrap();
    let refs: Vec<&[u8]> = seeds.iter().map(|s| s.as_slice()).collect();
    anchor_lang::prelude::Pubkey::try_find_program_address(&refs, &pid)
        .map(|(a, b)| (Addr { bytes: a.to_bytes().to_vec() }, b))
}

/// Relies on `Pubkey::create_program_address` (solana-address, reached
/// through anchor-lang), called with the bump appended as the last seed: the
/// result is a pure function of the seed list, bump and program identity, and
/// a returned address is 32 bytes.
#[verifier::external_body]
fn check_pda(program: &Addr, seeds: &Vec<Vec<u8>>, bump: u8) -> (r: Option<Addr>)
    requires
        program@.len() == ADDR_LEN,
    ensures
        ({
            let d = pda_checked(program@, seeds_view(*seeds), bump);
            match r {
                Some(a) => d == Some(a@) && a@.len() == ADDR_LEN,
                None => d is None,
            }
        }),
{
    let pid = anchor_lang::prelude::Pubkey::try_from(program.bytes.as_slice()).unwrap();
    let bump_seed = [bump];
    let mut refs: Vec<&[u8]> = seeds.iter().map(|s| s.as_slice()).collect();
    refs.push(&bump_seed);
    match anchor_lang::prelude::Pubkey::create_program_address(&refs, &pid) {
        Ok(a) => Some(Addr { bytes: a.to_bytes().to_vec() }),
        Err(_) => None,
    }
}

/// Builds the seed vectors of a bet record's derivation.
fn bet_seed_vec(maker: &Addr, opponent: &Addr, judge: &Addr, description: &Vec<u8>) -> (r: Vec<
    Vec<u8>,
>)
    ensures
        seeds_view(r) == bet_seeds(maker@, opponent@, judge@, description@),
{
    let mut tag: Vec<u8> = Vec::new();
    tag.push(98);
    tag.push(101);
    tag.push(116);
    assert(tag@ =~= bet_tag());
    let mut out: Vec<Vec<u8>> = Vec::new();
    out.push(tag);
    out.push(copy_bytes(&maker.bytes));
    out.push(copy_bytes(&opponent.bytes));
    out.push(copy_bytes(&judge.bytes));
    out.push(copy_bytes(description));
    assert(seeds_view(out) =~= bet_seeds(maker@, opponent@, judge@, description@));
    out
}

/// Builds the seed vectors of a vault's derivation.
fn vault_seed_vec(bet_addr: &Addr) -> (r: Vec<Vec<u8>>)
    ensures
        seeds_view(r) == vault_seeds(bet_addr@),
{
    let mut tag: Vec<u8> = Vec::new();
    tag.push(118);
    tag.push(97);
    tag.push(117);
    tag.push(108);
    tag.push(116);
    assert(tag@ =~= vault_tag());
    let mut out: Vec<Vec<u8>> = Vec::new();
    out.push(tag);
    out.push(copy_bytes(&bet_addr.bytes));
    assert(seeds_view(out) =~= vault_seeds(bet_addr@));
    out
}

/// Derives the address and salt of the bet record for the given terms, under
/// the given escrow program identity. Returns `None` in the statistically
/// improbable event that no salt yields a valid address.
pub fn derive_bet_address(
    program: &Addr,
    maker: &Addr,
    opponent: &Addr,
    judge: &Addr,
    description: &Vec<u8>,
) -> (r: Option<(Addr, u8)>)
    requires
        program@.len() == ADDR_LEN,
    ensures
        ({
            let d = pda_search(program@, bet_seeds(maker@, opponent@, judge@, description@));
            match r {
                Some((a, b)) => {
                    &&& d == Some((a@, b))
                    &&& a@.len() == ADDR_LEN
                    &&& record_derives(program@, a@, maker@, opponent@, judge@, description@, b)
                },
                None => d is None,
            }
        }),
{
    let seeds = bet_seed_vec(maker, opponent, judge, description);
    find_pda(program, &seeds)
}

/// Derives the address and salt of the vault owned by the record at
/// `bet_addr`, under the given escrow program identity.
pub fn derive_vault_address(program: &Addr, bet_addr: &Addr) -> (r: Option<(Addr, u8)>)
    requires
        program@.len() == ADDR_LEN,
    ensures
        ({
            let d = pda_search(program@, vault_seeds(bet_addr@));
            match r {
                Some((a, b)) => {
                    &&& d == Some((a@, b))
                    &&& a@.len() == ADDR_LEN
                    &&& vault_resolves(program@, bet_addr@, a@, b)
                },
                None => d is None,
            }
        }),
{
    let seeds = vault_seed_vec(bet_addr);
    find_pda(program, &seeds)
}

/// The given salt reproduces `bet_addr` from the four raw terms.
pub open spec fn record_derives(
    program: Seq<u8>,
    bet_addr: Seq<u8>,
    maker: Seq<u8>,
    opponent: Seq<u8>,
    judge: Seq<u8>,
    description: Seq<u8>,
    bump: u8,
) -> bool {
    pda_checked(program, bet_seeds(maker, opponent, judge, description), bump) == Some(bet_addr)
}

/// The record's stored terms and salt reproduce its own address `bet_addr`.
pub open spec fn record_resolves(program: Seq<u8>, bet_addr: Seq<u8>, r: BetV) -> bool {
    record_derives(program, bet_addr, r.maker, r.opponent, r.judge, r.description, r.bump)
}

/// The stored vault salt reproduces `vault_addr` from the record's address.
pub open spec fn vault_resolves(
    program: Seq<u8>,
    bet_addr: Seq<u8>,
    vault_addr: Seq<u8>,
    vault_bump: u8,
) -> bool {
    pda_checked(program, vault_seeds(bet_addr), vault_bump) == Some(vault_addr)
}

/// Re-derives the record address from the record's own stored fields and
/// compares it with the supplied address.
pub fn resolve_record(program: &Addr, bet_addr: &Addr, bet: &Bet) -> (r: bool)
    requires
        program@.len() == ADDR_LEN,
    ensures
        r == record_resolves(program@, bet_addr@, bet@),
{
    let seeds = bet_seed_vec(&bet.maker, &bet.opponent, &bet.judge, &bet.description);
    match check_pda(program, &seeds, bet.bump) {
        Some(a) => addr_eq(&a, bet_addr),
        None => false,
    }
}

/// Re-derives the vault address from the record's address and stored vault
/// salt and compares it with the supplied address.
pub fn resolve_vault(program: &Addr, bet_addr: &Addr, vault_addr: &Addr, vault_bump: u8) -> (r:
    bool)
    requires
        program@.len() == ADDR_LEN,
    ensures
        r == vault_resolves(program@, bet_addr@, vault_addr@, vault_bump),
{
    let seeds = vault_seed_vec(bet_addr);
    match check_pda(program, &seeds, vault_bump) {
        Some(a) => addr_eq(&a, vault_addr),
        None => false,
    }
}

/// Gates an operation on the correct caller: succeeds exactly when the
/// authenticated caller equals the expected identity, and fails with
/// `Unauthorized` otherwise.
pub fn authorize(caller: &Addr, expected: &Addr) -> (r: Result<(), ErrorCode>)
    ensures
        r is Ok <==> caller@ == expected@,
        r matches Err(e) ==> e == ErrorCode::Unauthorized,
{
    if addr_eq(caller, expected) {
        Ok(())
    } else {
        Err(ErrorCode::Unauthorized)
    }
}

/// Derivation is deterministic and idempotent: the record address and salt,
/// and likewise the vault address and salt, are functions of their inputs
/// alone, so two derivations from the same tuple agree. In this functional
/// specification the statement is reflexive; it is recorded because the
/// contracts of `derive_bet_address` and `derive_vault_address` pin their
/// results to exactly these specification values.
pub proof fn lemma_derivation_deterministic(
    program: Seq<u8>,
    maker: Seq<u8>,
    opponent: Seq<u8>,
    judge: Seq<u8>,
    description: Seq<u8>,
    bet_addr: Seq<u8>,
)
    ensures
        pda_search(program, bet_seeds(maker, opponent, judge, description)) == pda_search(
            program,
            bet_seeds(maker, opponent, judge, description),
        ),
        pda_search(program, vault_seeds(bet_addr)) == pda_search(program, vault_seeds(bet_addr)),
{
}

} // verus!
