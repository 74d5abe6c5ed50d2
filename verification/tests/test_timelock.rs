//! The time lock on cancellation, and what a refused or accepted cancel moves.
#![allow(dead_code)]
use std::collections::{HashMap, HashSet};

use anchor_lang::prelude::Pubkey as ChainPubkey;
use escrow::action::Action;
use escrow::address::Pubkey;
use escrow::state::{Escrow, EscrowAccount, MintAccount, TokenAccount};

const SEED: u16 = 42;
const AMOUNT_A: u64 = 1_000_000;
const AMOUNT_B: u64 = 500_000;

fn key(byte: u8) -> Pubkey {
    Pubkey::new_from_array([byte; 32])
}

fn lib_key(k: &ChainPubkey) -> Pubkey {
    Pubkey::new_from_array(k.to_bytes())
}

fn chain_key(k: &Pubkey) -> ChainPubkey {
    ChainPubkey::new_from_array(k.bytes)
}

fn program_id() -> Pubkey {
    key(7)
}

fn token_program() -> Pubkey {
    lib_key(&anchor_spl::token::ID)
}

fn escrow_address(maker: &Pubkey, seed: u16) -> (Pubkey, u8) {
    let (pda, bump) = ChainPubkey::find_program_address(
        &[b"escrow", chain_key(maker).as_ref(), &seed.to_le_bytes()],
        &chain_key(&program_id()),
    );
    (lib_key(&pda), bump)
}

fn ata(wallet: &Pubkey, mint: &Pubkey) -> Pubkey {
    lib_key(&anchor_spl::associated_token::get_associated_token_address(
        &chain_key(wallet),
        &chain_key(mint),
    ))
}

fn token_account(address: Pubkey, mint: Pubkey, owner: Pubkey, amount: u64) -> TokenAccount {
    TokenAccount { key: address, program_owner: token_program(), mint, owner, amount }
}

/// Balances and open accounts, moved by the calls of a plan as the token program would.
struct Ledger {
    balances: HashMap<[u8; 32], u64>,
    open: HashSet<[u8; 32]>,
}

impl Ledger {
    fn new() -> Self {
        Ledger { balances: HashMap::new(), open: HashSet::new() }
    }

    fn add(&mut self, account: &Pubkey, amount: u64) {
        self.balances.insert(account.bytes, amount);
        self.open.insert(account.bytes);
    }

    fn balance(&self, account: &Pubkey) -> u64 {
        *self.balances.get(&account.bytes).unwrap_or(&0)
    }

    fn is_open(&self, account: &Pubkey) -> bool {
        self.open.contains(&account.bytes)
    }

    fn apply(&mut self, plan: &[Action]) {
        for action in plan {
            match action {
                Action::CreateAssociatedToken { associated_token, .. } => {
                    self.add(associated_token, 0);
                }
                Action::TransferChecked { from, to, amount, .. } => {
                    assert!(self.is_open(from) && self.is_open(to));
                    let from_balance = self.balance(from);
                    assert!(from_balance >= *amount, "insufficient funds");
                    self.balances.insert(from.bytes, from_balance - amount);
                    let to_balance = self.balance(to);
                    self.balances.insert(to.bytes, to_balance + amount);
                }
                Action::CloseAccount { account, .. } => {
                    assert_eq!(self.balance(account), 0, "a token account must be empty to close");
                    self.open.remove(&account.bytes);
                    self.balances.remove(&account.bytes);
                }
                Action::CloseProgramAccount { account, .. } => {
                    self.open.remove(&account.bytes);
                }
            }
        }
    }
}

fn escrow_state(maker: Pubkey, mint_a: Pubkey, mint_b: Pubkey, bump: u8, created_at: i64) -> Escrow {
    Escrow {
        maker,
        mint_a,
        mint_b,
        amount_a: AMOUNT_A,
        amount_b: AMOUNT_B,
        seed: SEED,
        bump,
        created_at,
    }
}
use escrow::constants::CANCEL_DELAY_SECONDS;
use escrow::error::{ErrorCode, EscrowError};
use escrow::instructions::cancel::{process, Cancel};

/// A maker with a live escrow holding AMOUNT_A of mint A, created at time 0, and the
/// ledger holding its accounts.
fn setup_cancel() -> (Cancel, Ledger) {
    let maker = key(1);
    let mint_a = key(2);
    let mint_b = key(3);
    let (escrow_key, bump) = escrow_address(&maker, SEED);
    let maker_ata_a = ata(&maker, &mint_a);
    let vault_a = ata(&escrow_key, &mint_a);
    let accounts = Cancel {
        maker,
        escrow: EscrowAccount { key: escrow_key, data: escrow_state(maker, mint_a, mint_b, bump, 0) },
        mint_a: MintAccount { key: mint_a, decimals: 6 },
        maker_ata_a: token_account(maker_ata_a, mint_a, maker, 0),
        vault_a: token_account(vault_a, mint_a, escrow_key, AMOUNT_A),
        token_program: token_program(),
    };
    let mut ledger = Ledger::new();
    ledger.add(&maker_ata_a, 0);
    ledger.add(&vault_a, AMOUNT_A);
    ledger.add(&escrow_key, 0);
    (accounts, ledger)
}

#[test]
fn cancel_too_early_is_rejected_and_nothing_moves() {
    let (accounts, mut ledger) = setup_cancel();
    assert_eq!(accounts.escrow.data.created_at, 0);

    let err = match process(&program_id(), &accounts, 0) {
        Ok(_) => panic!("cancel must be rejected while the time lock is active"),
        Err(e) => e,
    };
    assert!(
        err == EscrowError::Program(ErrorCode::TimeLockActive),
        "expected TimeLockActive error, got {:?}",
        err
    );
    assert_eq!(ErrorCode::TimeLockActive.msg(), "The time lock has not elapsed");

    // A refusal carries no call: apply nothing.
    ledger.apply(&[]);
    assert_eq!(ledger.balance(&accounts.maker_ata_a.key), 0, "maker must still be empty after a rejected cancel");
    assert_eq!(
        ledger.balance(&accounts.vault_a.key),
        AMOUNT_A,
        "vault must still hold the deposit after a rejected cancel"
    );
    assert!(ledger.is_open(&accounts.escrow.key), "escrow must still exist after a rejected cancel");
}

#[test]
fn cancel_exactly_at_the_boundary_succeeds() {
    let (accounts, mut ledger) = setup_cancel();
    let birth = accounts.escrow.data.created_at;
    let now = birth + CANCEL_DELAY_SECONDS;
    assert_eq!(accounts.escrow.data.created_at, birth, "clock only moved");

    let plan = process(&program_id(), &accounts, now).expect("cancel exactly at created_at + delay must succeed");
    ledger.apply(&plan);
    assert_eq!(ledger.balance(&accounts.maker_ata_a.key), AMOUNT_A, "maker should have every token back");
}

#[test]
fn cancel_after_the_lock_elapses_succeeds() {
    let (accounts, mut ledger) = setup_cancel();
    let plan = process(&program_id(), &accounts, CANCEL_DELAY_SECONDS + 1)
        .expect("cancel after five minutes must succeed");
    ledger.apply(&plan);
    assert_eq!(ledger.balance(&accounts.maker_ata_a.key), AMOUNT_A, "maker should have every token back");
    assert!(!ledger.is_open(&accounts.escrow.key), "escrow should be closed");
    assert!(!ledger.is_open(&accounts.vault_a.key), "vault should be closed");
}

#[test]
fn cancel_one_second_early_is_refused() {
    let (accounts, _ledger) = setup_cancel();
    let res = process(&program_id(), &accounts, CANCEL_DELAY_SECONDS - 1);
    assert_eq!(res.err(), Some(EscrowError::Program(ErrorCode::TimeLockActive)));
}

#[test]
fn cancel_of_an_escrow_stamped_near_the_end_of_time_is_refused() {
    // created_at + delay overflows: the lock must hold, not wrap open.
    let (mut accounts, _ledger) = setup_cancel();
    accounts.escrow.data.created_at = i64::MAX - 10;
    let res = process(&program_id(), &accounts, i64::MAX);
    assert_eq!(res.err(), Some(EscrowError::Program(ErrorCode::TimeLockActive)));
}

#[test]
fn cancel_plan_returns_the_vault_and_closes_both_accounts() {
    let (accounts, _ledger) = setup_cancel();
    let plan = process(&program_id(), &accounts, 1_000).unwrap();
    assert_eq!(plan.len(), 3);
    let seeds = accounts.escrow.data.signer_seeds();
    assert_eq!(
        plan[0],
        Action::TransferChecked {
            program: token_program(),
            from: accounts.vault_a.key,
            mint: accounts.mint_a.key,
            to: accounts.maker_ata_a.key,
            authority: accounts.escrow.key,
            amount: AMOUNT_A,
            decimals: 6,
            signer_seeds: seeds.clone(),
        }
    );
    assert_eq!(
        plan[1],
        Action::CloseAccount {
            program: token_program(),
            account: accounts.vault_a.key,
            destination: accounts.maker,
            authority: accounts.escrow.key,
            signer_seeds: seeds.clone(),
        }
    );
    assert_eq!(
        plan[2],
        Action::CloseProgramAccount { account: accounts.escrow.key, destination: accounts.maker }
    );
    // The seeds are [b"escrow", maker, seed as little-endian bytes, [bump]].
    assert_eq!(seeds[0], b"escrow".to_vec());
    assert_eq!(seeds[1], accounts.maker.bytes.to_vec());
    assert_eq!(seeds[2], vec![42u8, 0u8]);
    assert_eq!(seeds[3], vec![accounts.escrow.data.bump]);
}

#[test]
fn cancel_handler_refunds_whatever_the_vault_holds() {
    let (mut accounts, mut ledger) = setup_cancel();
    accounts.vault_a.amount = 1_234;
    ledger.add(&accounts.vault_a.key, 1_234);
    let plan = escrow::instructions::cancel::handler(&accounts, 300).unwrap();
    assert_eq!(plan.len(), 2);
    ledger.apply(&plan);
    assert_eq!(ledger.balance(&accounts.maker_ata_a.key), 1_234);
    assert_eq!(escrow::instructions::cancel::handler(&accounts, 299).err(), Some(ErrorCode::TimeLockActive));
}
