//! Cancelling an escrow: refused before the time lock elapses, accepted from the unlock time on.
#![allow(dead_code)]
use std::collections::{HashMap, HashSet};

use anchor_lang::prelude::Pubkey as ChainPubkey;
use escrow::action::Action;
use escrow::address::Pubkey;
use escrow::state::{Escrow, EscrowAccount, MintAccount, TokenAccount};

const SEED: u16 = 42;
const AMOUNT_A: u64 = 1_000_000;
const AMOUNT_B: u64 = 500_000;

fn key(byte: u8) -> Pubkey {
    Pubkey::new_from_array([byte; 32])
}

fn lib_key(k: &ChainPubkey) -> Pubkey {
    Pubkey::new_from_array(k.to_bytes())
}

fn chain_key(k: &Pubkey) -> ChainPubkey {
    ChainPubkey::new_from_array(k.bytes)
}

fn program_id() -> Pubkey {
    key(7)
}

fn token_program() -> Pubkey {
    lib_key(&anchor_spl::token::ID)
}

fn escrow_address(maker: &Pubkey, seed: u16) -> (Pubkey, u8) {
    let (pda, bump) = ChainPubkey::find_program_address(
        &[b"escrow", chain_key(maker).as_ref(), &seed.to_le_bytes()],
        &chain_key(&program_id()),
    );
    (lib_key(&pda), bump)
}

fn ata(wallet: &Pubkey, mint: &Pubkey) -> Pubkey {
    lib_key(&anchor_spl::associated_token::get_associated_token_address(
        &chain_key(wallet),
        &chain_key(mint),
    ))
}

fn token_account(address: Pubkey, mint: Pubkey, owner: Pubkey, amount: u64) -> TokenAccount {
    TokenAccount { key: address, program_owner: token_program(), mint, owner, amount }
}

/// Balances and open accounts, moved by the calls of a plan as the token program would.
struct Ledger {
    balances: HashMap<[u8; 32], u64>,
    open: HashSet<[u8; 32]>,
}

impl Ledger {
    fn new() -> Self {
        Ledger { balances: HashMap::new(), open: HashSet::new() }
    }

    fn add(&mut self, account: &Pubkey, amount: u64) {
        self.balances.insert(account.bytes, amount);
        self.open.insert(account.bytes);
    }

    fn balance(&self, account: &Pubkey) -> u64 {
        *self.balances.get(&account.bytes).unwrap_or(&0)
    }

    fn is_open(&self, account: &Pubkey) -> bool {
        self.open.contains(&account.bytes)
    }

    fn apply(&mut self, plan: &[Action]) {
        for action in plan {
            match action {
                Action::CreateAssociatedToken { associated_token, .. } => {
                    self.add(associated_token, 0);
                }
                Action::TransferChecked { from, to, amount, .. } => {
                    assert!(self.is_open(from) && self.is_open(to));
                    let from_balance = self.balance(from);
                    assert!(from_balance >= *amount, "insufficient funds");
                    self.balances.insert(from.bytes, from_balance - amount);
                    let to_balance = self.balance(to);
                    self.balances.insert(to.bytes, to_balance + amount);
                }
                Action::CloseAccount { account, .. } => {
                    assert_eq!(self.balance(account), 0, "a token account must be empty to close");
                    self.open.remove(&account.bytes);
                    self.balances.remove(&account.bytes);
                }
                Action::CloseProgramAccount { account, .. } => {
                    self.open.remove(&account.bytes);
                }
            }
        }
    }
}

fn escrow_state(maker: Pubkey, mint_a: Pubkey, mint_b: Pubkey, bump: u8, created_at: i64) -> Escrow {
    Escrow {
        maker,
        mint_a,
        mint_b,
        amount_a: AMOUNT_A,
        amount_b: AMOUNT_B,
        seed: SEED,
        bump,
        created_at,
    }
}
use escrow::error::{ErrorCode, EscrowError};
use escrow::instructions::cancel::{process, Cancel};

/// A maker with a live escrow holding AMOUNT_A of mint A, created at time 0, and the
/// ledger holding its accounts.
fn setup_cancel() -> (Cancel, Ledger) {
    let maker = key(1);
    let mint_a = key(2);
    let mint_b = key(3);
    let (escrow_key, bump) = escrow_address(&maker, SEED);
    let maker_ata_a = ata(&maker, &mint_a);
    let vault_a = ata(&escrow_key, &mint_a);
    let accounts = Cancel {
        maker,
        escrow: EscrowAccount { key: escrow_key, data: escrow_state(maker, mint_a, mint_b, bump, 0) },
        mint_a: MintAccount { key: mint_a, decimals: 6 },
        maker_ata_a: token_account(maker_ata_a, mint_a, maker, 0),
        vault_a: token_account(vault_a, mint_a, escrow_key, AMOUNT_A),
        token_program: token_program(),
    };
    let mut ledger = Ledger::new();
    ledger.add(&maker_ata_a, 0);
    ledger.add(&vault_a, AMOUNT_A);
    ledger.add(&escrow_key, 0);
    (accounts, ledger)
}

#[test]
fn cancel_too_early_fails() {
    let (accounts, _ledger) = setup_cancel();
    // The clock is still at 0: the lock has not elapsed.
    let res = process(&program_id(), &accounts, 0);
    assert!(res.is_err(), "cancel should fail before the time lock elapses");
    let err = res.unwrap_err();
    assert!(
        err == EscrowError::Program(ErrorCode::TimeLockActive),
        "expected TimeLockActive error, got: {:?}",
        err
    );
}

#[test]
fn cancel_exactly_at_boundary_succeeds() {
    let (accounts, _ledger) = setup_cancel();
    // Exactly created_at + 300 (created_at == 0).
    let res = process(&program_id(), &accounts, 300);
    assert!(res.is_ok(), "cancel exactly at boundary should succeed: {:?}", res.err());
}

#[test]
fn cancel_after_timelock_succeeds() {
    let (accounts, _ledger) = setup_cancel();
    let res = process(&program_id(), &accounts, 301);
    assert!(res.is_ok(), "cancel after time lock should succeed: {:?}", res.err());
}
