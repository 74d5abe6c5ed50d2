//! `cancel`: the maker takes the deposit back and closes the escrow, once the time lock has
//! elapsed.
use vstd::prelude::*;
use crate::action::{outcome_view, plan_view, Action, ActionView};
use crate::address::{
    all_distinct, associated_token_address, create_program_address,
    find_associated_token_address, keys_distinct, program_address, spl_token_program_id, Pubkey,
};
use crate::constants::CANCEL_DELAY_SECONDS;
use crate::error::{ConstraintError, ErrorCode, EscrowError};
use crate::state::{escrow_seeds, EscrowAccount, MintAccount, TokenAccount};

verus! {

/// The accounts of `cancel`.
#[derive(Clone, Copy, Debug, PartialEq, Eq)]
pub struct Cancel {
    /// The maker, who signs.
    pub maker: Pubkey,
    /// The escrow; closed to the maker. Its address must derive from the maker, its seed and
    /// its bump.
    pub escrow: EscrowAccount,
    /// The mint of the deposited token.
    pub mint_a: MintAccount,
    /// The maker's associated token account for `mint_a`.
    pub maker_ata_a: TokenAccount,
    /// The escrow's associated token account for the escrow's `mint_a`.
    pub vault_a: TokenAccount,
    /// The token program.
    pub token_program: Pubkey,
}

impl Cancel {
    /// The accounts that the instruction writes and that the framework stores back: the
    /// escrow, the maker's token account and the vault. No two may be the same.
    pub open spec fn written_keys(self) -> Seq<Pubkey> {
        seq![self.escrow.key, self.maker_ata_a.key, self.vault_a.key]
    }

    /// The first constraint on the accounts that fails, in the order they are checked:
    /// that no written account is passed twice, the escrow's seeds, that it is not closed to
    /// itself, then the maker's token account and the vault, each for its authority and then
    /// its address.
    pub open spec fn constraint_error(self, program_id: Pubkey) -> Option<ConstraintError> {
        let seeds = escrow_seeds(self.maker, self.escrow.data.seed, self.escrow.data.bump);
        if !keys_distinct(self.written_keys()) {
            Some(ConstraintError::ConstraintDuplicateMutableAccount)
        } else if program_address(seeds, program_id) != Some(self.escrow.key) {
            Some(ConstraintError::ConstraintSeeds)
        } else if self.escrow.key == self.maker {
            Some(ConstraintError::ConstraintClose)
        } else if self.maker_ata_a.owner != self.maker {
            Some(ConstraintError::ConstraintTokenOwner)
        } else if associated_token_address(self.maker, self.mint_a.key, spl_token_program_id())
            != Some(self.maker_ata_a.key) {
            Some(ConstraintError::ConstraintAssociated)
        } else if self.vault_a.owner != self.escrow.key {
            Some(ConstraintError::ConstraintTokenOwner)
        } else if associated_token_address(
            self.escrow.key,
            self.escrow.data.mint_a,
            spl_token_program_id(),
        ) != Some(self.vault_a.key) {
            Some(ConstraintError::ConstraintAssociated)
        } else {
            None
        }
    }

    /// Checks the constraints on the accounts of `cancel`, for the program `program_id`.
    pub fn validate(&self, program_id: &Pubkey) -> (r: Result<(), ConstraintError>)
        ensures
            r is Ok <==> self.constraint_error(*program_id) is None,
            r matches Err(e) ==> self.constraint_error(*program_id) == Some(e),
    {
        let written = vec![self.escrow.key, self.maker_ata_a.key, self.vault_a.key];
        assert(written@ =~= self.written_keys());
        if !all_distinct(&written) {
            return Err(ConstraintError::ConstraintDuplicateMutableAccount);
        }
        let seeds = crate::state::escrow_signer_seeds(
            &self.maker,
            self.escrow.data.seed,
            self.escrow.data.bump,
        );
        match create_program_address(&seeds, program_id) {
            Ok(address) => {
                if !address.same(&self.escrow.key) {
                    return Err(ConstraintError::ConstraintSeeds);
                }
            },
            Err(_) => {
                return Err(ConstraintError::ConstraintSeeds);
            },
        }
        if self.escrow.key.same(&self.maker) {
            return Err(ConstraintError::ConstraintClose);
        }
        if !self.maker_ata_a.owner.same(&self.maker) {
            return Err(ConstraintError::ConstraintTokenOwner);
        }
        let token_program = Pubkey::spl_token_program();
        match find_associated_token_address(&self.maker, &self.mint_a.key, &token_program) {
            Some(maker_ata) => {
                if !self.maker_ata_a.key.same(&maker_ata) {
                    return Err(ConstraintError::ConstraintAssociated);
                }
            },
            None => {
                return Err(ConstraintError::ConstraintAssociated);
            },
        }
        if !self.vault_a.owner.same(&self.escrow.key) {
            return Err(ConstraintError::ConstraintTokenOwner);
        }
        match find_associated_token_address(&self.escrow.key, &self.escrow.data.mint_a, &token_program) {
            Some(vault) => {
                if !self.vault_a.key.same(&vault) {
                    return Err(ConstraintError::ConstraintAssociated);
                }
            },
            None => {
                return Err(ConstraintError::ConstraintAssociated);
            },
        }
        Ok(())
    }
}

/// The earliest time at which an escrow created at `created_at` may be cancelled.
pub open spec fn unlock_time(created_at: i64) -> int {
    created_at + CANCEL_DELAY_SECONDS
}

/// Whether the time lock of an escrow created at `created_at` has elapsed at `now`: cancelling
/// exactly at the unlock time is allowed, since the delay has then passed.
pub open spec fn time_lock_elapsed(created_at: i64, now: i64) -> bool {
    now >= unlock_time(created_at)
}

/// The seeds with which the escrow signs for its vault.
pub open spec fn vault_signer_seeds(accounts: Cancel) -> Seq<Seq<u8>> {
    escrow_seeds(accounts.escrow.data.maker, accounts.escrow.data.seed, accounts.escrow.data.bump)
}

/// Moves everything the vault holds to the maker's token account.
pub open spec fn refund(accounts: Cancel) -> ActionView {
    ActionView::TransferChecked {
        program: accounts.token_program,
        from: accounts.vault_a.key,
        mint: accounts.mint_a.key,
        to: accounts.maker_ata_a.key,
        authority: accounts.escrow.key,
        amount: accounts.vault_a.amount,
        decimals: accounts.mint_a.decimals,
        signer_seeds: vault_signer_seeds(accounts),
    }
}

/// Closes the vault, its lamports going to the maker.
pub open spec fn vault_closing(accounts: Cancel) -> ActionView {
    ActionView::CloseAccount {
        program: accounts.token_program,
        account: accounts.vault_a.key,
        destination: accounts.maker,
        authority: accounts.escrow.key,
        signer_seeds: vault_signer_seeds(accounts),
    }
}

/// The calls the handler makes: the refund, then the vault's closing.
pub open spec fn handler_plan(accounts: Cancel) -> Seq<ActionView> {
    seq![refund(accounts), vault_closing(accounts)]
}

/// The outcome of `cancel` at time `now`: refused on the first failing constraint, then
/// while the time lock holds; else the handler's calls, followed by the escrow's closing to
/// the maker.
pub open spec fn cancel_outcome(program_id: Pubkey, accounts: Cancel, now: i64) -> Result<Seq<ActionView>, EscrowError> {
    match accounts.constraint_error(program_id) {
        Some(e) => Err(EscrowError::Constraint(e)),
        None => if time_lock_elapsed(accounts.escrow.data.created_at, now) {
            Ok(handler_plan(accounts).push(
                ActionView::CloseProgramAccount {
                    account: accounts.escrow.key,
                    destination: accounts.maker,
                },
            ))
        } else {
            Err(EscrowError::Program(ErrorCode::TimeLockActive))
        },
    }
}

/// Cancels at time `now`: refuses while the time lock holds, before anything moves; else
/// returns the vault's whole balance to the maker and closes the vault.
pub fn handler(accounts: &Cancel, now: i64) -> (r: Result<Vec<Action>, ErrorCode>)
    ensures
        r is Ok <==> time_lock_elapsed(accounts.escrow.data.created_at, now),
        r is Ok <==> now >= accounts.escrow.data.created_at + CANCEL_DELAY_SECONDS,
        r matches Err(e) ==> e == ErrorCode::TimeLockActive,
        r matches Ok(plan) ==> plan_view(plan@) == handler_plan(*accounts),
{
    // `checked_add`: a stored `created_at` near the largest timestamp must not wrap round
    // and open the lock.
    let unlock_at = match accounts.escrow.data.created_at.checked_add(CANCEL_DELAY_SECONDS) {
        Some(t) => t,
        None => {
            return Err(ErrorCode::TimeLockActive);
        },
    };
    if now < unlock_at {
        return Err(ErrorCode::TimeLockActive);
    }
    let refund = Action::TransferChecked {
        program: accounts.token_program,
        from: accounts.vault_a.key,
        mint: accounts.mint_a.key,
        to: accounts.maker_ata_a.key,
        authority: accounts.escrow.key,
        amount: accounts.vault_a.amount,
        decimals: accounts.mint_a.decimals,
        signer_seeds: accounts.escrow.data.signer_seeds(),
    };
    let closing = close_vault(accounts);
    let plan = vec![refund, closing];
    assert(plan_view(plan@) =~= handler_plan(*accounts));
    Ok(plan)
}

/// Closes the vault, its lamports going to the maker, signed by the escrow.
pub fn close_vault(accounts: &Cancel) -> (action: Action)
    ensures
        action@ == vault_closing(*accounts),
{
    Action::CloseAccount {
        program: accounts.token_program,
        account: accounts.vault_a.key,
        destination: accounts.maker,
        authority: accounts.escrow.key,
        signer_seeds: accounts.escrow.data.signer_seeds(),
    }
}

/// Runs `cancel` for the program `program_id` at time `now`: checks the accounts, runs the
/// handler, and closes the escrow to the maker.
pub fn process(program_id: &Pubkey, accounts: &Cancel, now: i64) -> (r: Result<Vec<Action>, EscrowError>)
    ensures
        outcome_view(r) == cancel_outcome(*program_id, *accounts, now),
{
    match accounts.validate(program_id) {
        Ok(()) => {},
        Err(e) => {
            return Err(EscrowError::Constraint(e));
        },
    }
    match handler(accounts, now) {
        Ok(plan) => {
            let mut plan = plan;
            plan.push(Action::CloseProgramAccount { account: accounts.escrow.key, destination: accounts.maker });
            assert(plan_view(plan@) =~= cancel_outcome(*program_id, *accounts, now)->Ok_0);
            Ok(plan)
        },
        Err(e) => Err(EscrowError::Program(e)),
    }
}

} // verus!
