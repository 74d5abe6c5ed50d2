//! `take`: the taker pays the maker what the maker asked for, receives the deposit, and the
//! vault and the escrow are closed.
use vstd::prelude::*;
use crate::action::{outcome_view, plan_view, Action, ActionView};
use crate::address::{
    all_distinct, associated_token_address, find_associated_token_address, is_system_program_id,
    keys_distinct, spl_token_program_id, Pubkey,
};
use crate::error::{ConstraintError, EscrowError};
use crate::state::{escrow_seeds, EscrowAccount, MintAccount, TokenAccount};

verus! {

/// The accounts of `take`.
#[derive(Clone, Copy, Debug, PartialEq, Eq)]
pub struct Take {
    /// The taker, who signs and pays for the accounts created.
    pub taker: Pubkey,
    /// The maker, who receives the payment and the vault's lamports; it must be the maker the
    /// escrow records.
    pub maker: Pubkey,
    /// The escrow; closed to the taker. Its mints and its maker must be those passed.
    pub escrow: EscrowAccount,
    /// The mint of the deposited token.
    pub mint_a: MintAccount,
    /// The mint of the requested token.
    pub mint_b: MintAccount,
    /// The taker's associated token account for `mint_a`; created where it does not exist.
    pub taker_ata_a: TokenAccount,
    /// The taker's associated token account for `mint_b`.
    pub taker_ata_b: TokenAccount,
    /// The maker's associated token account for `mint_b`; created where it does not exist.
    pub maker_ata_b: TokenAccount,
    /// The escrow's associated token account for `mint_a`.
    pub vault_a: TokenAccount,
    /// The system program.
    pub system_program: Pubkey,
    /// The token program.
    pub token_program: Pubkey,
    /// The associated token program.
    pub associated_token_program: Pubkey,
}

/// For an associated token account that is created where it does not exist yet: the first
/// check it fails where it exists (its mint, its authority, its token program, its address),
/// or `None`. Nothing is checked where it does not exist yet.
pub open spec fn init_if_needed_error(
    account: TokenAccount,
    authority: Pubkey,
    mint: Pubkey,
    token_program: Pubkey,
) -> Option<ConstraintError> {
    if is_system_program_id(account.program_owner) {
        None
    } else if account.mint != mint {
        Some(ConstraintError::ConstraintTokenMint)
    } else if account.owner != authority {
        Some(ConstraintError::ConstraintTokenOwner)
    } else if account.program_owner != token_program {
        Some(ConstraintError::ConstraintAssociatedTokenTokenProgram)
    } else if associated_token_address(authority, mint, token_program) != Some(account.key) {
        Some(ConstraintError::AccountNotAssociatedTokenAccount)
    } else {
        None
    }
}

/// For an associated token account that must exist: the first check it fails (its
/// authority, then its address), or `None`.
pub open spec fn associated_token_error(account: TokenAccount, authority: Pubkey, mint: Pubkey) -> Option<ConstraintError> {
    if account.owner != authority {
        Some(ConstraintError::ConstraintTokenOwner)
    } else if associated_token_address(authority, mint, spl_token_program_id()) != Some(account.key) {
        Some(ConstraintError::ConstraintAssociated)
    } else {
        None
    }
}

/// The creation of the associated token account `account` of `authority` for `mint`, paid by
/// the taker, where nothing exists at its address yet.
pub open spec fn creation(accounts: Take, account: TokenAccount, authority: Pubkey, mint: Pubkey) -> Seq<ActionView> {
    if is_system_program_id(account.program_owner) {
        seq![
            ActionView::CreateAssociatedToken {
                program: accounts.associated_token_program,
                payer: accounts.taker,
                associated_token: account.key,
                authority,
                mint,
                system_program: accounts.system_program,
                token_program: accounts.token_program,
            },
        ]
    } else {
        seq![]
    }
}

impl Take {
    /// The accounts that the instruction writes and that the framework stores back: the
    /// escrow, the taker's two token accounts, the maker's account for `mint_b` and the
    /// vault. No two may be the same.
    pub open spec fn written_keys(self) -> Seq<Pubkey> {
        seq![
            self.escrow.key,
            self.taker_ata_a.key,
            self.taker_ata_b.key,
            self.maker_ata_b.key,
            self.vault_a.key,
        ]
    }

    /// The first constraint on the accounts that fails, in the order they are checked: the
    /// accounts created where needed (the taker's for `mint_a`, the maker's for `mint_b`),
    /// then that no written account is passed twice, then the escrow's two mints and its
    /// maker, that it is not closed to itself, then the taker's account for `mint_b` and the vault.
    pub open spec fn constraint_error(self) -> Option<ConstraintError> {
        let taker_a = init_if_needed_error(self.taker_ata_a, self.taker, self.mint_a.key, self.token_program);
        let maker_b = init_if_needed_error(self.maker_ata_b, self.maker, self.mint_b.key, self.token_program);
        let taker_b = associated_token_error(self.taker_ata_b, self.taker, self.mint_b.key);
        let vault = associated_token_error(self.vault_a, self.escrow.key, self.mint_a.key);
        if taker_a is Some {
            taker_a
        } else if maker_b is Some {
            maker_b
        } else if !keys_distinct(self.written_keys()) {
            Some(ConstraintError::ConstraintDuplicateMutableAccount)
        } else if self.escrow.data.mint_a != self.mint_a.key {
            Some(ConstraintError::ConstraintHasOne)
        } else if self.escrow.data.mint_b != self.mint_b.key {
            Some(ConstraintError::ConstraintHasOne)
        } else if self.escrow.data.maker != self.maker {
            Some(ConstraintError::ConstraintHasOne)
        } else if self.escrow.key == self.taker {
            Some(ConstraintError::ConstraintClose)
        } else if taker_b is Some {
            taker_b
        } else {
            vault
        }
    }

    /// The accounts created before the handler runs.
    pub open spec fn creations(self) -> Seq<ActionView> {
        creation(self, self.taker_ata_a, self.taker, self.mint_a.key) + creation(
            self,
            self.maker_ata_b,
            self.maker,
            self.mint_b.key,
        )
    }
}

/// The seeds with which the escrow signs for its vault.
pub open spec fn vault_signer_seeds(accounts: Take) -> Seq<Seq<u8>> {
    escrow_seeds(accounts.escrow.data.maker, accounts.escrow.data.seed, accounts.escrow.data.bump)
}

/// The taker pays the requested amount of `mint_b` to the maker's account, signing itself.
pub open spec fn payment(accounts: Take) -> ActionView {
    ActionView::TransferChecked {
        program: accounts.token_program,
        from: accounts.taker_ata_b.key,
        mint: accounts.mint_b.key,
        to: accounts.maker_ata_b.key,
        authority: accounts.taker,
        amount: accounts.escrow.data.amount_b,
        decimals: accounts.mint_b.decimals,
        signer_seeds: seq![],
    }
}

/// The vault pays the offered amount of `mint_a` to the taker's account, the escrow signing.
pub open spec fn release(accounts: Take) -> ActionView {
    ActionView::TransferChecked {
        program: accounts.token_program,
        from: accounts.vault_a.key,
        mint: accounts.mint_a.key,
        to: accounts.taker_ata_a.key,
        authority: accounts.escrow.key,
        amount: accounts.escrow.data.amount_a,
        decimals: accounts.mint_a.decimals,
        signer_seeds: vault_signer_seeds(accounts),
    }
}

/// Closes the vault, its lamports going to the maker, the escrow signing.
pub open spec fn vault_closing(accounts: Take) -> ActionView {
    ActionView::CloseAccount {
        program: accounts.token_program,
        account: accounts.vault_a.key,
        destination: accounts.maker,
        authority: accounts.escrow.key,
        signer_seeds: vault_signer_seeds(accounts),
    }
}

/// The calls the handler makes: the payment, the release, the vault's closing.
pub open spec fn handler_plan(accounts: Take) -> Seq<ActionView> {
    seq![payment(accounts), release(accounts), vault_closing(accounts)]
}

/// The outcome of `take`: refused on the first failing constraint; else the creations, the
/// handler's calls, and the escrow's closing to the taker.
pub open spec fn take_outcome(accounts: Take) -> Result<Seq<ActionView>, EscrowError> {
    match accounts.constraint_error() {
        Some(e) => Err(EscrowError::Constraint(e)),
        None => Ok(
            (accounts.creations() + handler_plan(accounts)).push(
                ActionView::CloseProgramAccount {
                    account: accounts.escrow.key,
                    destination: accounts.taker,
                },
            ),
        ),
    }
}

/// Checks an associated token account that is created where it does not exist yet; returns
/// the creation where it is needed.
fn init_if_needed(
    accounts: &Take,
    account: &TokenAccount,
    authority: &Pubkey,
    mint: &Pubkey,
) -> (r: Result<Vec<Action>, ConstraintError>)
    ensures
        r is Ok <==> init_if_needed_error(*account, *authority, *mint, accounts.token_program) is None,
        r matches Err(e) ==> init_if_needed_error(*account, *authority, *mint, accounts.token_program) == Some(e),
        r matches Ok(plan) ==> plan_view(plan@) == creation(*accounts, *account, *authority, *mint),
{
    if account.program_owner.is_system_program() {
        let plan = vec![
            Action::CreateAssociatedToken {
                program: accounts.associated_token_program,
                payer: accounts.taker,
                associated_token: account.key,
                authority: *authority,
                mint: *mint,
                system_program: accounts.system_program,
                token_program: accounts.token_program,
            },
        ];
        assert(plan_view(plan@) =~= creation(*accounts, *account, *authority, *mint));
        return Ok(plan);
    }
    if !account.mint.same(mint) {
        return Err(ConstraintError::ConstraintTokenMint);
    }
    if !account.owner.same(authority) {
        return Err(ConstraintError::ConstraintTokenOwner);
    }
    if !account.program_owner.same(&accounts.token_program) {
        return Err(ConstraintError::ConstraintAssociatedTokenTokenProgram);
    }
    match find_associated_token_address(authority, mint, &accounts.token_program) {
        Some(expected) => {
            if !account.key.same(&expected) {
                return Err(ConstraintError::AccountNotAssociatedTokenAccount);
            }
        },
        None => {
            return Err(ConstraintError::AccountNotAssociatedTokenAccount);
        },
    }
    let plan: Vec<Action> = Vec::new();
    assert(plan_view(plan@) =~= creation(*accounts, *account, *authority, *mint));
    Ok(plan)
}

/// Checks an associated token account that must exist.
fn check_associated_token(account: &TokenAccount, authority: &Pubkey, mint: &Pubkey) -> (r: Result<(), ConstraintError>)
    ensures
        r is Ok <==> associated_token_error(*account, *authority, *mint) is None,
        r matches Err(e) ==> associated_token_error(*account, *authority, *mint) == Some(e),
{
    if !account.owner.same(authority) {
        return Err(ConstraintError::ConstraintTokenOwner);
    }
    match find_associated_token_address(authority, mint, &Pubkey::spl_token_program()) {
        Some(expected) => {
            if !account.key.same(&expected) {
                return Err(ConstraintError::ConstraintAssociated);
            }
        },
        None => {
            return Err(ConstraintError::ConstraintAssociated);
        },
    }
    Ok(())
}

impl Take {
    /// Checks the constraints on the accounts of `take`; returns the creations of the
    /// associated token accounts that do not exist yet.
    pub fn validate(&self) -> (r: Result<Vec<Action>, ConstraintError>)
        ensures
            r is Ok <==> self.constraint_error() is None,
            r matches Err(e) ==> self.constraint_error() == Some(e),
            r matches Ok(plan) ==> plan_view(plan@) == self.creations(),
    {
        let mut plan = match init_if_needed(self, &self.taker_ata_a, &self.taker, &self.mint_a.key) {
            Ok(p) => p,
            Err(e) => {
                return Err(e);
            },
        };
        let mut second = match init_if_needed(self, &self.maker_ata_b, &self.maker, &self.mint_b.key) {
            Ok(p) => p,
            Err(e) => {
                return Err(e);
            },
        };
        let ghost first_view = plan_view(plan@);
        let ghost second_view = plan_view(second@);
        plan.append(&mut second);
        assert(plan_view(plan@) =~= first_view + second_view);
        let written = vec![
            self.escrow.key,
            self.taker_ata_a.key,
            self.taker_ata_b.key,
            self.maker_ata_b.key,
            self.vault_a.key,
        ];
        assert(written@ =~= self.written_keys());
        if !all_distinct(&written) {
            return Err(ConstraintError::ConstraintDuplicateMutableAccount);
        }
        if !self.escrow.data.mint_a.same(&self.mint_a.key) {
            return Err(ConstraintError::ConstraintHasOne);
        }
        if !self.escrow.data.mint_b.same(&self.mint_b.key) {
            return Err(ConstraintError::ConstraintHasOne);
        }
        if !self.escrow.data.maker.same(&self.maker) {
            return Err(ConstraintError::ConstraintHasOne);
        }
        if self.escrow.key.same(&self.taker) {
            return Err(ConstraintError::ConstraintClose);
        }
        match check_associated_token(&self.taker_ata_b, &self.taker, &self.mint_b.key) {
            Ok(()) => {},
            Err(e) => {
                return Err(e);
            },
        }
        match check_associated_token(&self.vault_a, &self.escrow.key, &self.mint_a.key) {
            Ok(()) => {},
            Err(e) => {
                return Err(e);
            },
        }
        Ok(plan)
    }
}

/// Settles the swap: the taker pays the maker the requested amount, the vault pays the taker
/// the offered amount, and the vault is closed to the maker.
pub fn handler(accounts: &Take) -> (plan: Vec<Action>)
    ensures
        plan_view(plan@) == handler_plan(*accounts),
{
    let no_seeds: Vec<Vec<u8>> = Vec::new();
    assert(no_seeds.deep_view() =~= Seq::<Seq<u8>>::empty());
    let payment = Action::TransferChecked {
        program: accounts.token_program,
        from: accounts.taker_ata_b.key,
        mint: accounts.mint_b.key,
        to: accounts.maker_ata_b.key,
        authority: accounts.taker,
        amount: accounts.escrow.data.amount_b,
        decimals: accounts.mint_b.decimals,
        signer_seeds: no_seeds,
    };
    let release = Action::TransferChecked {
        program: accounts.token_program,
        from: accounts.vault_a.key,
        mint: accounts.mint_a.key,
        to: accounts.taker_ata_a.key,
        authority: accounts.escrow.key,
        amount: accounts.escrow.data.amount_a,
        decimals: accounts.mint_a.decimals,
        signer_seeds: accounts.escrow.data.signer_seeds(),
    };
    let closing = close_vault(accounts);
    let plan = vec![payment, release, closing];
    assert(plan_view(plan@) =~= handler_plan(*accounts));
    plan
}

/// Closes the vault, its lamports going to the maker, signed by the escrow.
pub fn close_vault(accounts: &Take) -> (action: Action)
    ensures
        action@ == vault_closing(*accounts),
{
    Action::CloseAccount {
        program: accounts.token_program,
        account: accounts.vault_a.key,
        destination: accounts.maker,
        authority: accounts.escrow.key,
        signer_seeds: accounts.escrow.data.signer_seeds(),
    }
}

/// Runs `take`: checks the accounts (creating those needed), runs the handler, and closes
/// the escrow to the taker.
pub fn process(accounts: &Take) -> (r: Result<Vec<Action>, EscrowError>)
    ensures
        outcome_view(r) == take_outcome(*accounts),
{
    let mut plan = match accounts.validate() {
        Ok(p) => p,
        Err(e) => {
            return Err(EscrowError::Constraint(e));
        },
    };
    let mut settled = handler(accounts);
    plan.append(&mut settled);
    plan.push(Action::CloseProgramAccount { account: accounts.escrow.key, destination: accounts.taker });
    assert(plan_view(plan@) =~= take_outcome(*accounts)->Ok_0);
    Ok(plan)
}

} // verus!
