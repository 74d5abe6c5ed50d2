//! The calls an instruction makes once it is accepted, in order.
use vstd::prelude::*;
use crate::address::Pubkey;
use crate::error::EscrowError;

verus! {

/// One call made by an accepted instruction.
#[derive(Debug, PartialEq, Eq)]
pub enum Action {
    /// Create, through the associated token program `program`, the associated token account
    /// `associated_token` of `authority` for `mint`, paid by `payer`.
    CreateAssociatedToken {
        program: Pubkey,
        payer: Pubkey,
        associated_token: Pubkey,
        authority: Pubkey,
        mint: Pubkey,
        system_program: Pubkey,
        token_program: Pubkey,
    },
    /// Move `amount` tokens of `mint` (with `decimals`) from `from` to `to` through the token
    /// program `program`, authorised by `authority`; where `signer_seeds` is not empty, the
    /// authority is a program address that signs with these seeds.
    TransferChecked {
        program: Pubkey,
        from: Pubkey,
        mint: Pubkey,
        to: Pubkey,
        authority: Pubkey,
        amount: u64,
        decimals: u8,
        signer_seeds: Vec<Vec<u8>>,
    },
    /// Close the token account `account` through the token program `program`, sending its
    /// lamports to `destination`, authorised by `authority` (signing with `signer_seeds`
    /// where they are not empty).
    CloseAccount {
        program: Pubkey,
        account: Pubkey,
        destination: Pubkey,
        authority: Pubkey,
        signer_seeds: Vec<Vec<u8>>,
    },
    /// Close the account `account` of this program: its lamports go to `destination` and
    /// its data is cleared.
    CloseProgramAccount { account: Pubkey, destination: Pubkey },
}

/// The mathematical value of an `Action`: the same, with seeds as sequences.
pub enum ActionView {
    CreateAssociatedToken {
        program: Pubkey,
        payer: Pubkey,
        associated_token: Pubkey,
        authority: Pubkey,
        mint: Pubkey,
        system_program: Pubkey,
        token_program: Pubkey,
    },
    TransferChecked {
        program: Pubkey,
        from: Pubkey,
        mint: Pubkey,
        to: Pubkey,
        authority: Pubkey,
        amount: u64,
        decimals: u8,
        signer_seeds: Seq<Seq<u8>>,
    },
    CloseAccount {
        program: Pubkey,
        account: Pubkey,
        destination: Pubkey,
        authority: Pubkey,
        signer_seeds: Seq<Seq<u8>>,
    },
    CloseProgramAccount { account: Pubkey, destination: Pubkey },
}

impl View for Action {
    type V = ActionView;

    open spec fn view(&self) -> ActionView {
        match self {
            Action::CreateAssociatedToken {
                program,
                payer,
                associated_token,
                authority,
                mint,
                system_program,
                token_program,
            } => ActionView::CreateAssociatedToken {
                program: *program,
                payer: *payer,
                associated_token: *associated_token,
                authority: *authority,
                mint: *mint,
                system_program: *system_program,
                token_program: *token_program,
            },
            Action::TransferChecked {
                program,
                from,
                mint,
                to,
                authority,
                amount,
                decimals,
                signer_seeds,
            } => ActionView::TransferChecked {
                program: *program,
                from: *from,
                mint: *mint,
                to: *to,
                authority: *authority,
                amount: *amount,
                decimals: *decimals,
                signer_seeds: signer_seeds.deep_view(),
            },
            Action::CloseAccount { program, account, destination, authority, signer_seeds } =>
                ActionView::CloseAccount {
                program: *program,
                account: *account,
                destination: *destination,
                authority: *authority,
                signer_seeds: signer_seeds.deep_view(),
            },
            Action::CloseProgramAccount { account, destination } =>
                ActionView::CloseProgramAccount { account: *account, destination: *destination },
        }
    }
}

/// The values of a sequence of actions.
pub open spec fn plan_view(plan: Seq<Action>) -> Seq<ActionView> {
    plan.map_values(|a: Action| a@)
}

/// The value of an instruction's outcome: its plan's value, or why it was refused.
pub open spec fn outcome_view(r: Result<Vec<Action>, EscrowError>) -> Result<Seq<ActionView>, EscrowError> {
    match r {
        Ok(plan) => Ok(plan_view(plan@)),
        Err(e) => Err(e),
    }
}

/// Tokens that `action` moves into `key`, less those it moves out of it.
pub open spec fn action_flow(action: ActionView, key: Pubkey) -> int {
    match action {
        ActionView::TransferChecked { from, to, amount, .. } => {
            let credit: int = if to == key { amount as int } else { 0 };
            let debit: int = if from == key { amount as int } else { 0 };
            credit - debit
        },
        _ => 0,
    }
}

/// Tokens that the transfers of `plan` move into `key`, less those they move out of it.
pub open spec fn net_flow(plan: Seq<ActionView>, key: Pubkey) -> int
    decreases plan.len(),
{
    if plan.len() == 0 {
        0
    } else {
        net_flow(plan.drop_last(), key) + action_flow(plan.last(), key)
    }
}

/// Whether `action` closes the token account `key` and sends its lamports to `destination`.
pub open spec fn is_token_account_close(action: ActionView, key: Pubkey, destination: Pubkey) -> bool {
    match action {
        ActionView::CloseAccount { account, destination: d, .. } => account == key && d == destination,
        _ => false,
    }
}

/// Whether `plan` closes the token account `key` and sends its lamports to `destination`.
pub open spec fn closes_token_account(plan: Seq<ActionView>, key: Pubkey, destination: Pubkey) -> bool {
    exists|i: int| 0 <= i < plan.len() && #[trigger] is_token_account_close(plan[i], key, destination)
}

/// Whether `plan` closes the program account `key` and sends its lamports to `destination`.
pub open spec fn closes_program_account(plan: Seq<ActionView>, key: Pubkey, destination: Pubkey) -> bool {
    exists|i: int|
        0 <= i < plan.len() && #[trigger] plan[i] == (ActionView::CloseProgramAccount {
            account: key,
            destination,
        })
}

} // verus!
