//! Taking an escrow: the swap completes and both the vault and the escrow close.
#![allow(dead_code)]
use std::collections::{HashMap, HashSet};

use anchor_lang::prelude::Pubkey as ChainPubkey;
use escrow::action::Action;
use escrow::address::Pubkey;
use escrow::state::{Escrow, EscrowAccount, MintAccount, TokenAccount};

const SEED: u16 = 42;
const AMOUNT_A: u64 = 1_000_000;
const AMOUNT_B: u64 = 500_000;

fn key(byte: u8) -> Pubkey {
    Pubkey::new_from_array([byte; 32])
}

fn lib_key(k: &ChainPubkey) -> Pubkey {
    Pubkey::new_from_array(k.to_bytes())
}

fn chain_key(k: &Pubkey) -> ChainPubkey {
    ChainPubkey::new_from_array(k.bytes)
}

fn program_id() -> Pubkey {
    key(7)
}

fn token_program() -> Pubkey {
    lib_key(&anchor_spl::token::ID)
}

fn escrow_address(maker: &Pubkey, seed: u16) -> (Pubkey, u8) {
    let (pda, bump) = ChainPubkey::find_program_address(
        &[b"escrow", chain_key(maker).as_ref(), &seed.to_le_bytes()],
        &chain_key(&program_id()),
    );
    (lib_key(&pda), bump)
}

fn ata(wallet: &Pubkey, mint: &Pubkey) -> Pubkey {
    lib_key(&anchor_spl::associated_token::get_associated_token_address(
        &chain_key(wallet),
        &chain_key(mint),
    ))
}

fn token_account(address: Pubkey, mint: Pubkey, owner: Pubkey, amount: u64) -> TokenAccount {
    TokenAccount { key: address, program_owner: token_program(), mint, owner, amount }
}

/// Balances and open accounts, moved by the calls of a plan as the token program would.
struct Ledger {
    balances: HashMap<[u8; 32], u64>,
    open: HashSet<[u8; 32]>,
}

impl Ledger {
    fn new() -> Self {
        Ledger { balances: HashMap::new(), open: HashSet::new() }
    }

    fn add(&mut self, account: &Pubkey, amount: u64) {
        self.balances.insert(account.bytes, amount);
        self.open.insert(account.bytes);
    }

    fn balance(&self, account: &Pubkey) -> u64 {
        *self.balances.get(&account.bytes).unwrap_or(&0)
    }

    fn is_open(&self, account: &Pubkey) -> bool {
        self.open.contains(&account.bytes)
    }

    fn apply(&mut self, plan: &[Action]) {
        for action in plan {
            match action {
                Action::CreateAssociatedToken { associated_token, .. } => {
                    self.add(associated_token, 0);
                }
                Action::TransferChecked { from, to, amount, .. } => {
                    assert!(self.is_open(from) && self.is_open(to));
                    let from_balance = self.balance(from);
                    assert!(from_balance >= *amount, "insufficient funds");
                    self.balances.insert(from.bytes, from_balance - amount);
                    let to_balance = self.balance(to);
                    self.balances.insert(to.bytes, to_balance + amount);
                }
                Action::CloseAccount { account, .. } => {
                    assert_eq!(self.balance(account), 0, "a token account must be empty to close");
                    self.open.remove(&account.bytes);
                    self.balances.remove(&account.bytes);
                }
                Action::CloseProgramAccount { account, .. } => {
                    self.open.remove(&account.bytes);
                }
            }
        }
    }
}

fn escrow_state(maker: Pubkey, mint_a: Pubkey, mint_b: Pubkey, bump: u8, created_at: i64) -> Escrow {
    Escrow {
        maker,
        mint_a,
        mint_b,
        amount_a: AMOUNT_A,
        amount_b: AMOUNT_B,
        seed: SEED,
        bump,
        created_at,
    }
}
use escrow::instructions::take::{process, Take};

/// A live escrow made by the maker, a taker funded with AMOUNT_B of mint B, and neither the
/// taker's account for mint A nor the maker's for mint B created yet.
fn setup_take() -> (Take, Ledger) {
    let maker = key(1);
    let taker = key(4);
    let mint_a = key(2);
    let mint_b = key(3);
    let (escrow_key, bump) = escrow_address(&maker, SEED);
    let vault_a = ata(&escrow_key, &mint_a);
    let taker_ata_a = ata(&taker, &mint_a);
    let taker_ata_b = ata(&taker, &mint_b);
    let maker_ata_b = ata(&maker, &mint_b);
    let system_program = lib_key(&anchor_lang::solana_program::system_program::ID);
    let uncreated = |address: Pubkey| TokenAccount {
        key: address,
        program_owner: system_program,
        mint: key(0),
        owner: key(0),
        amount: 0,
    };
    let accounts = Take {
        taker,
        maker,
        escrow: EscrowAccount { key: escrow_key, data: escrow_state(maker, mint_a, mint_b, bump, 0) },
        mint_a: MintAccount { key: mint_a, decimals: 6 },
        mint_b: MintAccount { key: mint_b, decimals: 6 },
        taker_ata_a: uncreated(taker_ata_a),
        taker_ata_b: token_account(taker_ata_b, mint_b, taker, AMOUNT_B),
        maker_ata_b: uncreated(maker_ata_b),
        vault_a: token_account(vault_a, mint_a, escrow_key, AMOUNT_A),
        system_program,
        token_program: token_program(),
        associated_token_program: lib_key(&anchor_spl::associated_token::ID),
    };
    let mut ledger = Ledger::new();
    ledger.add(&taker_ata_b, AMOUNT_B);
    ledger.add(&vault_a, AMOUNT_A);
    ledger.add(&escrow_key, 0);
    (accounts, ledger)
}

#[test]
fn test_take_completes_the_swap() {
    let (accounts, mut ledger) = setup_take();
    assert_eq!(ledger.balance(&accounts.vault_a.key), AMOUNT_A);

    let res = process(&accounts);
    assert!(res.is_ok(), "take transaction failed: {:?}", res.as_ref().err());
    ledger.apply(&res.unwrap());

    assert!(ledger.is_open(&accounts.taker_ata_a.key), "taker_ata_a should exist");
    assert_eq!(ledger.balance(&accounts.taker_ata_a.key), AMOUNT_A, "taker did not receive mint_a");
    assert!(ledger.is_open(&accounts.maker_ata_b.key), "maker_ata_b should exist");
    assert_eq!(ledger.balance(&accounts.maker_ata_b.key), AMOUNT_B, "maker did not receive mint_b");
    assert_eq!(ledger.balance(&accounts.taker_ata_b.key), 0, "taker's mint_b should be spent");
    assert!(!ledger.is_open(&accounts.vault_a.key), "vault_a should be closed after take");
    assert!(!ledger.is_open(&accounts.escrow.key), "escrow PDA should be closed after take");
}

#[test]
fn take_creates_only_the_missing_accounts() {
    let (mut accounts, _ledger) = setup_take();
    let full = process(&accounts).unwrap();
    assert_eq!(full.len(), 6);
    assert_eq!(
        full[0],
        Action::CreateAssociatedToken {
            program: accounts.associated_token_program,
            payer: accounts.taker,
            associated_token: accounts.taker_ata_a.key,
            authority: accounts.taker,
            mint: accounts.mint_a.key,
            system_program: accounts.system_program,
            token_program: accounts.token_program,
        }
    );
    // The taker's account for mint A exists already, at its associated address.
    accounts.taker_ata_a = token_account(accounts.taker_ata_a.key, accounts.mint_a.key, accounts.taker, 5);
    let plan = process(&accounts).unwrap();
    assert_eq!(plan.len(), 5);
    match &plan[0] {
        Action::CreateAssociatedToken { associated_token, authority, .. } => {
            assert_eq!(*associated_token, accounts.maker_ata_b.key);
            assert_eq!(*authority, accounts.maker);
        }
        other => panic!("expected a creation, got {:?}", other),
    }
}

#[test]
fn take_handler_pays_releases_and_closes() {
    let (accounts, _ledger) = setup_take();
    let plan = escrow::instructions::take::handler(&accounts);
    assert_eq!(
        plan[0],
        Action::TransferChecked {
            program: token_program(),
            from: accounts.taker_ata_b.key,
            mint: accounts.mint_b.key,
            to: accounts.maker_ata_b.key,
            authority: accounts.taker,
            amount: AMOUNT_B,
            decimals: 6,
            signer_seeds: vec![],
        }
    );
    assert_eq!(
        plan[1],
        Action::TransferChecked {
            program: token_program(),
            from: accounts.vault_a.key,
            mint: accounts.mint_a.key,
            to: accounts.taker_ata_a.key,
            authority: accounts.escrow.key,
            amount: AMOUNT_A,
            decimals: 6,
            signer_seeds: accounts.escrow.data.signer_seeds(),
        }
    );
    assert_eq!(plan[2], escrow::instructions::take::close_vault(&accounts));
    assert_eq!(plan.len(), 3);
}
