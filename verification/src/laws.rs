//! What holds of every settlement of an escrow.
use vstd::prelude::*;
use vstd::bytes::{lemma_auto_spec_u16_to_from_le_bytes, spec_u16_from_le_bytes, spec_u16_to_le_bytes};
use crate::action::{
    action_flow, closes_program_account, closes_token_account, is_token_account_close, net_flow,
    ActionView,
};
use crate::address::{
    associated_token_address, is_system_program_id, program_address, spl_token_program_id, Pubkey,
};
use crate::error::{ErrorCode, EscrowError};
use crate::constants::CANCEL_DELAY_SECONDS;
use crate::instructions::cancel::{self, cancel_outcome, Cancel};
use crate::instructions::take::{self, take_outcome, Take};
use crate::state::{escrow_seeds, Escrow};

verus! {

broadcast use vstd::array::group_array_axioms;

/// The flow of a plan made of two parts is the sum of their flows.
pub proof fn lemma_net_flow_append(a: Seq<ActionView>, b: Seq<ActionView>, key: Pubkey)
    ensures
        net_flow(a + b, key) == net_flow(a, key) + net_flow(b, key),
    decreases b.len(),
{
    if b.len() == 0 {
        assert(a + b =~= a);
    } else {
        assert((a + b).drop_last() =~= a + b.drop_last());
        assert((a + b).last() == b.last());
        lemma_net_flow_append(a, b.drop_last(), key);
    }
}

/// The flow of a single action.
pub proof fn lemma_net_flow_single(action: ActionView, key: Pubkey)
    ensures
        net_flow(seq![action], key) == action_flow(action, key),
{
    reveal_with_fuel(net_flow, 2);
    assert(seq![action].drop_last() =~= Seq::<ActionView>::empty());
    assert(seq![action].last() == action);
}

/// The flow of three actions in a row.
proof fn lemma_net_flow_three(x: ActionView, y: ActionView, z: ActionView, key: Pubkey)
    ensures
        net_flow(seq![x, y, z], key) == action_flow(x, key) + action_flow(y, key) + action_flow(z, key),
{
    assert(seq![x, y, z] =~= seq![x] + seq![y] + seq![z]);
    lemma_net_flow_append(seq![x] + seq![y], seq![z], key);
    lemma_net_flow_append(seq![x], seq![y], key);
    lemma_net_flow_single(x, key);
    lemma_net_flow_single(y, key);
    lemma_net_flow_single(z, key);
}

/// Account creations move no tokens.
proof fn lemma_creations_move_nothing(accounts: Take, key: Pubkey)
    ensures
        net_flow(accounts.creations(), key) == 0,
{
    let a = take::creation(accounts, accounts.taker_ata_a, accounts.taker, accounts.mint_a.key);
    let b = take::creation(accounts, accounts.maker_ata_b, accounts.maker, accounts.mint_b.key);
    lemma_net_flow_append(a, b, key);
    if a.len() == 1 {
        lemma_net_flow_single(a[0], key);
        assert(a =~= seq![a[0]]);
    }
    if b.len() == 1 {
        lemma_net_flow_single(b[0], key);
        assert(b =~= seq![b[0]]);
    }
}

/// The cancellation's time lock only opens: a cancel accepted at some time is accepted, with
/// the same calls, at any later time.
pub proof fn lemma_cancel_lock_only_opens(program_id: Pubkey, accounts: Cancel, earlier: i64, later: i64)
    requires
        earlier <= later,
        cancel_outcome(program_id, accounts, earlier) is Ok,
    ensures
        cancel_outcome(program_id, accounts, later) == cancel_outcome(program_id, accounts, earlier),
{
}

/// The time lock's boundary is inclusive: for accounts that meet the constraints, a cancel
/// exactly `CANCEL_DELAY_SECONDS` after creation is accepted, and one a second earlier is
/// refused as `TimeLockActive`.
pub proof fn lemma_cancel_boundary(program_id: Pubkey, accounts: Cancel)
    requires
        accounts.constraint_error(program_id) is None,
        accounts.escrow.data.created_at + CANCEL_DELAY_SECONDS <= i64::MAX,
    ensures
        cancel_outcome(
            program_id,
            accounts,
            (accounts.escrow.data.created_at + CANCEL_DELAY_SECONDS) as i64,
        ) is Ok,
        cancel_outcome(
            program_id,
            accounts,
            (accounts.escrow.data.created_at + CANCEL_DELAY_SECONDS - 1) as i64,
        ) == Err::<Seq<ActionView>, EscrowError>(EscrowError::Program(ErrorCode::TimeLockActive)),
{
}

/// A cancel refused by the time lock moves nothing and closes nothing: its outcome is the
/// refusal alone, and it is refused whenever the accounts meet the constraints and `now` is
/// less than `CANCEL_DELAY_SECONDS` after creation; an escrow created less than
/// `CANCEL_DELAY_SECONDS` before the largest timestamp can never be cancelled.
pub proof fn lemma_cancel_refused_before_unlock(program_id: Pubkey, accounts: Cancel, now: i64)
    requires
        accounts.constraint_error(program_id) is None,
        now < accounts.escrow.data.created_at + CANCEL_DELAY_SECONDS,
    ensures
        cancel_outcome(program_id, accounts, now)
            == Err::<Seq<ActionView>, EscrowError>(EscrowError::Program(ErrorCode::TimeLockActive)),
        accounts.escrow.data.created_at + CANCEL_DELAY_SECONDS > i64::MAX ==> cancel_outcome(
            program_id,
            accounts,
            now,
        ) is Err,
{
}

/// The time lock, at every time: for accounts that meet the constraints, a cancel at `now` is
/// accepted exactly when `now` is at least `CANCEL_DELAY_SECONDS` after `created_at`, and
/// refused as `TimeLockActive` otherwise.
pub proof fn lemma_cancel_time_lock(program_id: Pubkey, accounts: Cancel, now: i64)
    requires
        accounts.constraint_error(program_id) is None,
    ensures
        cancel_outcome(program_id, accounts, now) is Ok <==> now >= accounts.escrow.data.created_at
            + CANCEL_DELAY_SECONDS,
        cancel_outcome(program_id, accounts, now) is Err ==> cancel_outcome(program_id, accounts, now)
            == Err::<Seq<ActionView>, EscrowError>(EscrowError::Program(ErrorCode::TimeLockActive)),
{
}

/// An accepted cancel gives the maker every token the vault holds: the vault's whole balance
/// goes to the maker's account and nowhere else, no other account's balance changes, the vault
/// (then empty) is closed to the maker, and so is the escrow.
pub proof fn lemma_cancel_returns_deposit(program_id: Pubkey, accounts: Cancel, now: i64, key: Pubkey)
    requires
        cancel_outcome(program_id, accounts, now) is Ok,
    ensures
        ({
            let plan = cancel_outcome(program_id, accounts, now)->Ok_0;
            &&& net_flow(plan, accounts.maker_ata_a.key) == accounts.vault_a.amount
            &&& net_flow(plan, accounts.vault_a.key) == -accounts.vault_a.amount
            &&& (key != accounts.maker_ata_a.key && key != accounts.vault_a.key) ==> net_flow(plan, key) == 0
            &&& closes_token_account(plan, accounts.vault_a.key, accounts.maker)
            &&& closes_program_account(plan, accounts.escrow.key, accounts.maker)
        }),
{
    assert(accounts.written_keys()[1] != accounts.written_keys()[2]);
    let plan = cancel_outcome(program_id, accounts, now)->Ok_0;
    let closing = ActionView::CloseProgramAccount { account: accounts.escrow.key, destination: accounts.maker };
    assert(plan =~= seq![cancel::refund(accounts), cancel::vault_closing(accounts), closing]);
    let k1 = accounts.maker_ata_a.key;
    let k2 = accounts.vault_a.key;
    lemma_net_flow_three(cancel::refund(accounts), cancel::vault_closing(accounts), closing, k1);
    lemma_net_flow_three(cancel::refund(accounts), cancel::vault_closing(accounts), closing, k2);
    lemma_net_flow_three(cancel::refund(accounts), cancel::vault_closing(accounts), closing, key);
    assert(is_token_account_close(plan[1], accounts.vault_a.key, accounts.maker));
    assert(plan[2] == closing);
}

/// An accepted take settles the swap: the taker's account for `mint_b` pays the requested
/// amount, the maker's account for `mint_b` receives it, the vault pays the offered amount,
/// the taker's account for `mint_a` receives it, no other balance changes; the vault is
/// closed to the maker and the escrow to the taker.
pub proof fn lemma_take_settles_swap(accounts: Take, key: Pubkey)
    requires
        take_outcome(accounts) is Ok,
    ensures
        ({
            let plan = take_outcome(accounts)->Ok_0;
            let amount_a = accounts.escrow.data.amount_a;
            let amount_b = accounts.escrow.data.amount_b;
            &&& net_flow(plan, accounts.taker_ata_b.key) == -amount_b
            &&& net_flow(plan, accounts.maker_ata_b.key) == amount_b
            &&& net_flow(plan, accounts.vault_a.key) == -amount_a
            &&& net_flow(plan, accounts.taker_ata_a.key) == amount_a
            &&& (key != accounts.taker_ata_a.key && key != accounts.taker_ata_b.key
                && key != accounts.maker_ata_b.key && key != accounts.vault_a.key)
                ==> net_flow(plan, key) == 0
            &&& closes_token_account(plan, accounts.vault_a.key, accounts.maker)
            &&& closes_program_account(plan, accounts.escrow.key, accounts.taker)
        }),
{
    let w = accounts.written_keys();
    assert(w[1] != w[2] && w[1] != w[3] && w[1] != w[4] && w[2] != w[3] && w[2] != w[4] && w[3] != w[4]);
    let plan = take_outcome(accounts)->Ok_0;
    let created = accounts.creations();
    let settle = take::handler_plan(accounts);
    let closing = ActionView::CloseProgramAccount { account: accounts.escrow.key, destination: accounts.taker };
    assert(plan =~= created + (settle + seq![closing]));
    assert(settle + seq![closing] =~= seq![take::payment(accounts), take::release(accounts)] + seq![
        take::vault_closing(accounts),
        closing,
    ]);
    assert forall|k: Pubkey| #[trigger] net_flow(plan, k) == action_flow(take::payment(accounts), k)
        + action_flow(take::release(accounts), k) by {
        lemma_creations_move_nothing(accounts, k);
        lemma_net_flow_append(created, settle + seq![closing], k);
        lemma_net_flow_append(
            seq![take::payment(accounts), take::release(accounts)],
            seq![take::vault_closing(accounts), closing],
            k,
        );
        lemma_net_flow_append(seq![take::payment(accounts)], seq![take::release(accounts)], k);
        assert(seq![take::payment(accounts)] + seq![take::release(accounts)] =~= seq![
            take::payment(accounts),
            take::release(accounts),
        ]);
        lemma_net_flow_append(seq![take::vault_closing(accounts)], seq![closing], k);
        assert(seq![take::vault_closing(accounts)] + seq![closing] =~= seq![
            take::vault_closing(accounts),
            closing,
        ]);
        lemma_net_flow_single(take::payment(accounts), k);
        lemma_net_flow_single(take::release(accounts), k);
        lemma_net_flow_single(take::vault_closing(accounts), k);
        lemma_net_flow_single(closing, k);
    }
    assert(net_flow(plan, key) == action_flow(take::payment(accounts), key) + action_flow(
        take::release(accounts),
        key,
    ));
    assert(net_flow(plan, accounts.taker_ata_b.key) == action_flow(take::payment(accounts), accounts.taker_ata_b.key)
        + action_flow(take::release(accounts), accounts.taker_ata_b.key));
    assert(net_flow(plan, accounts.maker_ata_b.key) == action_flow(take::payment(accounts), accounts.maker_ata_b.key)
        + action_flow(take::release(accounts), accounts.maker_ata_b.key));
    assert(net_flow(plan, accounts.vault_a.key) == action_flow(take::payment(accounts), accounts.vault_a.key)
        + action_flow(take::release(accounts), accounts.vault_a.key));
    assert(net_flow(plan, accounts.taker_ata_a.key) == action_flow(take::payment(accounts), accounts.taker_ata_a.key)
        + action_flow(take::release(accounts), accounts.taker_ata_a.key));
    let n = created.len() as int;
    assert(plan[n + 2] == take::vault_closing(accounts));
    assert(is_token_account_close(plan[n + 2], accounts.vault_a.key, accounts.maker));
    assert(plan[n + 3] == closing);
}

/// An accepted take pays the escrow's own maker: the maker passed in is the one the escrow
/// records, and the requested tokens go to an account of that maker, one that exists with the
/// maker as its authority or one created for the maker.
pub proof fn lemma_take_pays_the_escrows_maker(accounts: Take)
    requires
        take_outcome(accounts) is Ok,
    ensures
        accounts.maker == accounts.escrow.data.maker,
        take::payment(accounts) matches ActionView::TransferChecked { to, amount, .. } && to
            == accounts.maker_ata_b.key && amount == accounts.escrow.data.amount_b,
        accounts.maker_ata_b.owner == accounts.escrow.data.maker || take_outcome(accounts)->Ok_0.contains(
            ActionView::CreateAssociatedToken {
                program: accounts.associated_token_program,
                payer: accounts.taker,
                associated_token: accounts.maker_ata_b.key,
                authority: accounts.escrow.data.maker,
                mint: accounts.mint_b.key,
                system_program: accounts.system_program,
                token_program: accounts.token_program,
            },
        ),
{
    let plan = take_outcome(accounts)->Ok_0;
    let a = take::creation(accounts, accounts.taker_ata_a, accounts.taker, accounts.mint_a.key);
    let b = take::creation(accounts, accounts.maker_ata_b, accounts.maker, accounts.mint_b.key);
    if crate::address::is_system_program_id(accounts.maker_ata_b.program_owner) {
        assert(plan[a.len() as int] == b[0]);
    }
}

/// Accepted cancels sign for the vault with the escrow's own address: where the escrow
/// records the maker who signs, the seeds used by every call the escrow signs derive the
/// escrow's address.
pub proof fn lemma_cancel_signs_as_escrow(program_id: Pubkey, accounts: Cancel)
    requires
        accounts.constraint_error(program_id) is None,
        accounts.escrow.data.maker == accounts.maker,
    ensures
        program_address(cancel::vault_signer_seeds(accounts), program_id) == Some(accounts.escrow.key),
        cancel::refund(accounts) matches ActionView::TransferChecked { signer_seeds, .. }
            && signer_seeds == cancel::vault_signer_seeds(accounts),
        cancel::vault_closing(accounts) matches ActionView::CloseAccount { signer_seeds, .. }
            && signer_seeds == cancel::vault_signer_seeds(accounts),
{
}

/// The escrow seeds identify the escrow: different makers, seeds or bumps give different
/// seeds, and the seed can be read back from them.
pub proof fn lemma_escrow_seeds_identify(m1: Pubkey, s1: u16, b1: u8, m2: Pubkey, s2: u16, b2: u8)
    ensures
        spec_u16_from_le_bytes(escrow_seeds(m1, s1, b1)[2]) == s1,
        escrow_seeds(m1, s1, b1) == escrow_seeds(m2, s2, b2) ==> m1 == m2 && s1 == s2 && b1 == b2,
{
    lemma_auto_spec_u16_to_from_le_bytes();
    assert(escrow_seeds(m1, s1, b1)[2] == spec_u16_to_le_bytes(s1));
    assert(spec_u16_to_le_bytes(s1).len() == 2);
    assert(spec_u16_to_le_bytes(s2).len() == 2);
    if escrow_seeds(m1, s1, b1) == escrow_seeds(m2, s2, b2) {
        assert(escrow_seeds(m2, s2, b2)[2] == spec_u16_to_le_bytes(s2));
        assert(escrow_seeds(m1, s1, b1)[1] == m1@);
        assert(escrow_seeds(m2, s2, b2)[1] == m2@);
        assert(m1.bytes =~= m2.bytes);
        assert(escrow_seeds(m1, s1, b1)[3][0] == b1);
        assert(escrow_seeds(m2, s2, b2)[3][0] == b2);
    }
}

/// The seeds an escrow signs with, written out: `[b"escrow", maker, seed as little-endian
/// bytes, [bump]]`.
pub open spec fn signing_seeds_of(e: Escrow) -> Seq<Seq<u8>> {
    seq![
        seq![0x65u8, 0x73u8, 0x63u8, 0x72u8, 0x6fu8, 0x77u8],
        e.maker@,
        spec_u16_to_le_bytes(e.seed),
        seq![e.bump],
    ]
}

/// The accounts of a cancel are accepted exactly when: the escrow, the maker's token account
/// and the vault are three different accounts; the escrow's address is the program address of
/// `[b"escrow", maker, seed, [bump]]` for the signing maker; the escrow is not the maker; the
/// maker's token account has the maker as authority and sits at the maker's associated
/// address for `mint_a`; and the vault has the escrow as authority and sits at the escrow's
/// associated address for the escrow's `mint_a`.
pub proof fn lemma_cancel_accepts_valid_accounts(program_id: Pubkey, accounts: Cancel)
    ensures
        accounts.constraint_error(program_id) is None <==> {
            &&& accounts.escrow.key != accounts.maker_ata_a.key
            &&& accounts.escrow.key != accounts.vault_a.key
            &&& accounts.maker_ata_a.key != accounts.vault_a.key
            &&& program_address(
                seq![
                    seq![0x65u8, 0x73u8, 0x63u8, 0x72u8, 0x6fu8, 0x77u8],
                    accounts.maker@,
                    spec_u16_to_le_bytes(accounts.escrow.data.seed),
                    seq![accounts.escrow.data.bump],
                ],
                program_id,
            ) == Some(accounts.escrow.key)
            &&& accounts.escrow.key != accounts.maker
            &&& accounts.maker_ata_a.owner == accounts.maker
            &&& associated_token_address(accounts.maker, accounts.mint_a.key, spl_token_program_id())
                == Some(accounts.maker_ata_a.key)
            &&& accounts.vault_a.owner == accounts.escrow.key
            &&& associated_token_address(
                accounts.escrow.key,
                accounts.escrow.data.mint_a,
                spl_token_program_id(),
            ) == Some(accounts.vault_a.key)
        },
{
    let w = accounts.written_keys();
    assert(escrow_seeds(accounts.maker, accounts.escrow.data.seed, accounts.escrow.data.bump) =~= seq![
        seq![0x65u8, 0x73u8, 0x63u8, 0x72u8, 0x6fu8, 0x77u8],
        accounts.maker@,
        spec_u16_to_le_bytes(accounts.escrow.data.seed),
        seq![accounts.escrow.data.bump],
    ]);
    if accounts.escrow.key != accounts.maker_ata_a.key && accounts.escrow.key != accounts.vault_a.key
        && accounts.maker_ata_a.key != accounts.vault_a.key {
        assert forall|i: int, j: int| 0 <= i < j < w.len() implies w[i] != w[j] by {}
    } else {
        assert(!crate::address::keys_distinct(w)) by {
            if accounts.escrow.key == accounts.maker_ata_a.key {
                assert(w[0] == w[1]);
            } else if accounts.escrow.key == accounts.vault_a.key {
                assert(w[0] == w[2]);
            } else {
                assert(w[1] == w[2]);
            }
        }
    }
}

/// An accepted cancel refunds the deposit in its own mint: every transfer it makes moves the
/// vault's whole balance of `mint_a`, with `mint_a`'s decimals, from the vault to the maker's
/// account, authorised by the escrow signing with its seeds; every token account it closes is
/// the vault, closed to the maker by the escrow signing with its seeds; and its first call is
/// such a transfer.
pub proof fn lemma_cancel_refund_in_its_mint(program_id: Pubkey, accounts: Cancel, now: i64)
    requires
        cancel_outcome(program_id, accounts, now) is Ok,
    ensures
        ({
            let plan = cancel_outcome(program_id, accounts, now)->Ok_0;
            let seeds = signing_seeds_of(accounts.escrow.data);
            &&& plan.len() > 0 && plan[0] is TransferChecked
            &&& forall|i: int|
                0 <= i < plan.len() ==> match #[trigger] plan[i] {
                    ActionView::TransferChecked {
                        program,
                        from,
                        mint,
                        to,
                        authority,
                        amount,
                        decimals,
                        signer_seeds,
                    } => program == accounts.token_program && from == accounts.vault_a.key && mint
                        == accounts.mint_a.key && decimals == accounts.mint_a.decimals && to
                        == accounts.maker_ata_a.key && amount == accounts.vault_a.amount
                        && authority == accounts.escrow.key && signer_seeds == seeds,
                    ActionView::CloseAccount { program, account, destination, authority, signer_seeds } =>
                        program == accounts.token_program && account == accounts.vault_a.key
                        && destination == accounts.maker && authority == accounts.escrow.key
                        && signer_seeds == seeds,
                    ActionView::CloseProgramAccount { account, destination } => account
                        == accounts.escrow.key && destination == accounts.maker,
                    ActionView::CreateAssociatedToken { .. } => false,
                }
        }),
{
    let plan = cancel_outcome(program_id, accounts, now)->Ok_0;
    let closing = ActionView::CloseProgramAccount { account: accounts.escrow.key, destination: accounts.maker };
    assert(plan =~= seq![cancel::refund(accounts), cancel::vault_closing(accounts), closing]);
    assert(escrow_seeds(accounts.escrow.data.maker, accounts.escrow.data.seed, accounts.escrow.data.bump)
        =~= signing_seeds_of(accounts.escrow.data));
}

/// The accounts of a take are accepted exactly when: the taker's account for `mint_a` and the
/// maker's account for `mint_b` either do not exist yet, or hold their mint, have the taker
/// (resp. the maker) as authority, belong to the token program passed and sit at their
/// associated address under it; the escrow, those two accounts, the taker's account for
/// `mint_b` and the vault are five different accounts; the escrow records the mints and the
/// maker passed; the escrow is not the taker; the taker's account for `mint_b` has the taker
/// as authority and sits at the taker's associated address for `mint_b`; and the vault has the
/// escrow as authority and sits at the escrow's associated address for `mint_a`.
pub proof fn lemma_take_accepts_valid_accounts(accounts: Take)
    ensures
        ({
            let ta = accounts.taker_ata_a;
            let tb = accounts.taker_ata_b;
            let mb = accounts.maker_ata_b;
            let v = accounts.vault_a;
            let e = accounts.escrow;
            let tp = accounts.token_program;
            let valid = {
                &&& is_system_program_id(ta.program_owner) || {
                    &&& ta.mint == accounts.mint_a.key
                    &&& ta.owner == accounts.taker
                    &&& ta.program_owner == tp
                    &&& associated_token_address(accounts.taker, accounts.mint_a.key, tp) == Some(ta.key)
                }
                &&& is_system_program_id(mb.program_owner) || {
                    &&& mb.mint == accounts.mint_b.key
                    &&& mb.owner == accounts.maker
                    &&& mb.program_owner == tp
                    &&& associated_token_address(accounts.maker, accounts.mint_b.key, tp) == Some(mb.key)
                }
                &&& e.key != ta.key && e.key != tb.key && e.key != mb.key && e.key != v.key
                &&& ta.key != tb.key && ta.key != mb.key && ta.key != v.key
                &&& tb.key != mb.key && tb.key != v.key
                &&& mb.key != v.key
                &&& e.data.mint_a == accounts.mint_a.key
                &&& e.data.mint_b == accounts.mint_b.key
                &&& e.data.maker == accounts.maker
                &&& e.key != accounts.taker
                &&& tb.owner == accounts.taker
                &&& associated_token_address(accounts.taker, accounts.mint_b.key, spl_token_program_id())
                    == Some(tb.key)
                &&& v.owner == e.key
                &&& associated_token_address(e.key, accounts.mint_a.key, spl_token_program_id())
                    == Some(v.key)
            };
            &&& accounts.constraint_error() is None <==> valid
            &&& take_outcome(accounts) is Ok <==> valid
        }),
{
    let w = accounts.written_keys();
    let e = accounts.escrow.key;
    let ta = accounts.taker_ata_a.key;
    let tb = accounts.taker_ata_b.key;
    let mb = accounts.maker_ata_b.key;
    let v = accounts.vault_a.key;
    if e != ta && e != tb && e != mb && e != v && ta != tb && ta != mb && ta != v && tb != mb && tb
        != v && mb != v {
        assert forall|i: int, j: int| 0 <= i < j < w.len() implies w[i] != w[j] by {}
    } else {
        assert(!crate::address::keys_distinct(w)) by {
            if e == ta {
                assert(w[0] == w[1]);
            } else if e == tb {
                assert(w[0] == w[2]);
            } else if e == mb {
                assert(w[0] == w[3]);
            } else if e == v {
                assert(w[0] == w[4]);
            } else if ta == tb {
                assert(w[1] == w[2]);
            } else if ta == mb {
                assert(w[1] == w[3]);
            } else if ta == v {
                assert(w[1] == w[4]);
            } else if tb == mb {
                assert(w[2] == w[3]);
            } else if tb == v {
                assert(w[2] == w[4]);
            } else {
                assert(w[3] == w[4]);
            }
        }
    }
}

/// The parts of an accepted take's plan: first the creations (of which there are at most
/// two), then the payment, the release, the vault's closing and the escrow's closing.
proof fn lemma_take_plan_parts(accounts: Take)
    requires
        take_outcome(accounts) is Ok,
    ensures
        ({
            let plan = take_outcome(accounts)->Ok_0;
            let n = accounts.creations().len() as int;
            &&& n <= 2
            &&& plan.len() == n + 4
            &&& forall|i: int| 0 <= i < n ==> #[trigger] plan[i] is CreateAssociatedToken
            &&& plan[n] == take::payment(accounts)
            &&& plan[n + 1] == take::release(accounts)
            &&& plan[n + 2] == take::vault_closing(accounts)
            &&& plan[n + 3] == (ActionView::CloseProgramAccount {
                account: accounts.escrow.key,
                destination: accounts.taker,
            })
        }),
{
    let plan = take_outcome(accounts)->Ok_0;
    let a = take::creation(accounts, accounts.taker_ata_a, accounts.taker, accounts.mint_a.key);
    let b = take::creation(accounts, accounts.maker_ata_b, accounts.maker, accounts.mint_b.key);
    let n = accounts.creations().len() as int;
    assert forall|i: int| 0 <= i < n implies #[trigger] plan[i] is CreateAssociatedToken by {
        if i < a.len() {
            assert(plan[i] == a[i]);
        } else {
            assert(plan[i] == b[i - a.len()]);
        }
    }
}

/// Every transfer of an accepted take carries the decimals of the mint it moves, and moves
/// one of the two mints of the swap; the payment of `amount_b` of `mint_b`, with `mint_b`'s
/// decimals, from the taker's account to the maker's, signed by the taker, and the release of
/// `amount_a` of `mint_a`, with `mint_a`'s decimals, from the vault to the taker's account,
/// signed by the escrow with its seeds, are both made. Stated where the two mint accounts passed agree: a mint
/// has one number of decimals.
pub proof fn lemma_take_transfers_in_their_mints(accounts: Take)
    requires
        take_outcome(accounts) is Ok,
        accounts.mint_a.key == accounts.mint_b.key ==> accounts.mint_a.decimals == accounts.mint_b.decimals,
    ensures
        ({
            let plan = take_outcome(accounts)->Ok_0;
            &&& forall|i: int|
                0 <= i < plan.len() ==> match #[trigger] plan[i] {
                    ActionView::TransferChecked { mint, decimals, .. } => {
                        &&& mint == accounts.mint_a.key || mint == accounts.mint_b.key
                        &&& mint == accounts.mint_a.key ==> decimals == accounts.mint_a.decimals
                        &&& mint == accounts.mint_b.key ==> decimals == accounts.mint_b.decimals
                    },
                    _ => true,
                }
            &&& plan.contains(
                ActionView::TransferChecked {
                    program: accounts.token_program,
                    from: accounts.taker_ata_b.key,
                    mint: accounts.mint_b.key,
                    to: accounts.maker_ata_b.key,
                    authority: accounts.taker,
                    amount: accounts.escrow.data.amount_b,
                    decimals: accounts.mint_b.decimals,
                    signer_seeds: Seq::<Seq<u8>>::empty(),
                },
            )
            &&& plan.contains(
                ActionView::TransferChecked {
                    program: accounts.token_program,
                    from: accounts.vault_a.key,
                    mint: accounts.mint_a.key,
                    to: accounts.taker_ata_a.key,
                    authority: accounts.escrow.key,
                    amount: accounts.escrow.data.amount_a,
                    decimals: accounts.mint_a.decimals,
                    signer_seeds: signing_seeds_of(accounts.escrow.data),
                },
            )
        }),
{
    lemma_take_plan_parts(accounts);
    let n = accounts.creations().len() as int;
    let plan = take_outcome(accounts)->Ok_0;
    assert(escrow_seeds(accounts.escrow.data.maker, accounts.escrow.data.seed, accounts.escrow.data.bump)
        =~= signing_seeds_of(accounts.escrow.data));
    assert(plan[n] == take::payment(accounts));
    assert(plan[n + 1] == take::release(accounts));
}

/// In an accepted take the escrow signs exactly the calls it authorises: every transfer or
/// token-account closing whose authority is the escrow carries the seeds
/// `[b"escrow", maker, seed, [bump]]` of the escrow's record, every other one carries no
/// seeds, and the vault is closed to the maker with the escrow as authority.
pub proof fn lemma_take_escrow_signs_for_vault(accounts: Take)
    requires
        take_outcome(accounts) is Ok,
    ensures
        ({
            let plan = take_outcome(accounts)->Ok_0;
            let seeds = signing_seeds_of(accounts.escrow.data);
            &&& forall|i: int|
                0 <= i < plan.len() ==> match #[trigger] plan[i] {
                    ActionView::TransferChecked { authority, signer_seeds, .. } => if authority
                        == accounts.escrow.key {
                        signer_seeds == seeds
                    } else {
                        signer_seeds.len() == 0
                    },
                    ActionView::CloseAccount { authority, signer_seeds, .. } => if authority
                        == accounts.escrow.key {
                        signer_seeds == seeds
                    } else {
                        signer_seeds.len() == 0
                    },
                    _ => true,
                }
            &&& plan.contains(
                ActionView::CloseAccount {
                    program: accounts.token_program,
                    account: accounts.vault_a.key,
                    destination: accounts.maker,
                    authority: accounts.escrow.key,
                    signer_seeds: seeds,
                },
            )
        }),
{
    lemma_take_plan_parts(accounts);
    let n = accounts.creations().len() as int;
    let plan = take_outcome(accounts)->Ok_0;
    assert(escrow_seeds(accounts.escrow.data.maker, accounts.escrow.data.seed, accounts.escrow.data.bump)
        =~= signing_seeds_of(accounts.escrow.data));
    assert(plan[n + 2] == take::vault_closing(accounts));
}

/// An accepted take creates exactly the associated token accounts that do not exist yet, each
/// for its own owner and mint and paid by the taker: the taker's account for `mint_a` is created
/// for the taker where the system program owns its address, the maker's account for `mint_b`
/// for the maker likewise, and nothing else is created.
pub proof fn lemma_take_creates_missing_accounts(accounts: Take)
    requires
        take_outcome(accounts) is Ok,
    ensures
        ({
            let plan = take_outcome(accounts)->Ok_0;
            let for_taker = ActionView::CreateAssociatedToken {
                program: accounts.associated_token_program,
                payer: accounts.taker,
                associated_token: accounts.taker_ata_a.key,
                authority: accounts.taker,
                mint: accounts.mint_a.key,
                system_program: accounts.system_program,
                token_program: accounts.token_program,
            };
            let for_maker = ActionView::CreateAssociatedToken {
                program: accounts.associated_token_program,
                payer: accounts.taker,
                associated_token: accounts.maker_ata_b.key,
                authority: accounts.maker,
                mint: accounts.mint_b.key,
                system_program: accounts.system_program,
                token_program: accounts.token_program,
            };
            &&& plan.contains(for_taker) <==> is_system_program_id(accounts.taker_ata_a.program_owner)
            &&& plan.contains(for_maker) <==> is_system_program_id(accounts.maker_ata_b.program_owner)
            &&& forall|i: int|
                0 <= i < plan.len() && (#[trigger] plan[i] is CreateAssociatedToken) ==> plan[i]
                    == for_taker || plan[i] == for_maker
        }),
{
    lemma_take_plan_parts(accounts);
    let plan = take_outcome(accounts)->Ok_0;
    let a = take::creation(accounts, accounts.taker_ata_a, accounts.taker, accounts.mint_a.key);
    let b = take::creation(accounts, accounts.maker_ata_b, accounts.maker, accounts.mint_b.key);
    let n = accounts.creations().len() as int;
    let w = accounts.written_keys();
    assert(w[1] != w[3]);
    assert forall|i: int| 0 <= i < plan.len() && (#[trigger] plan[i] is CreateAssociatedToken) implies
        plan[i] == a[0] || plan[i] == b[0] by {
        if i < a.len() {
            assert(plan[i] == a[i]);
        } else {
            assert(plan[i] == b[i - a.len()]);
        }
    }
    if is_system_program_id(accounts.taker_ata_a.program_owner) {
        assert(plan[0] == a[0]);
    }
    if is_system_program_id(accounts.maker_ata_b.program_owner) {
        assert(plan[a.len() as int] == b[0]);
    }
}

} // verus!
