use vstd::prelude::*;
use crate::accounts::{AccountState, SendSol};
use crate::faucet::{FaucetError, account_check, plan_of, send_sol_effect};
use crate::ledger::LedgerFault;
use crate::units::lamports_per_sol_spec;

verus! {

/// A transfer between two distinct, properly checked accounts, where the
/// faucet holds at least `amount` and the recipient's balance can take it,
/// succeeds; the faucet loses exactly `amount`, the recipient gains exactly
/// `amount`, and their total is unchanged.
pub proof fn lemma_transfer_moves_exact_amount(ctx: SendSol, amount: u64)
    requires
        account_check(ctx) is Ok,
        ctx.faucet.key@ != ctx.recipient.key@,
        ctx.faucet.lamports >= amount,
        ctx.recipient.lamports + amount <= u64::MAX,
    ensures
        ({
            let (r, after) = send_sol_effect(ctx, amount);
            &&& r is Ok
            &&& after.faucet.lamports == ctx.faucet.lamports - amount
            &&& after.recipient.lamports == ctx.recipient.lamports + amount
            &&& after.faucet.lamports + after.recipient.lamports == ctx.faucet.lamports
                + ctx.recipient.lamports
        }),
{
}

/// A transfer of more than the faucet holds fails and changes no account;
/// when the accounts pass their checks, the failure is the ledger's refusal
/// for insufficient funds.
pub proof fn lemma_overdraft_changes_nothing(ctx: SendSol, amount: u64)
    requires
        ctx.faucet.lamports < amount,
    ensures
        ({
            let (r, after) = send_sol_effect(ctx, amount);
            &&& r is Err
            &&& after == ctx
            &&& account_check(ctx) is Ok ==> r == Err::<(), FaucetError>(
                FaucetError::LedgerTransferFailure(LedgerFault::InsufficientFunds),
            )
        }),
{
}

/// Without the faucet's signature a transfer fails with `AccountNotSigner`
/// before any balance is touched.
pub proof fn lemma_unsigned_faucet_rejected(ctx: SendSol, amount: u64)
    requires
        !ctx.faucet.is_signer,
    ensures
        send_sol_effect(ctx, amount) == (Err::<(), FaucetError>(FaucetError::AccountNotSigner), ctx),
{
}

/// Whether the recipient signed never changes the outcome of a transfer.
pub proof fn lemma_recipient_signature_ignored(ctx: SendSol, amount: u64, signed: bool)
    ensures
        send_sol_effect(
            SendSol { recipient: AccountState { is_signer: signed, ..ctx.recipient }, ..ctx },
            amount,
        ).0 == send_sol_effect(ctx, amount).0,
{
}

/// The planned transfer moves the exact amount asked for, whatever whole
/// number of SOL is shown for it, which is the amount divided by the
/// lamports in a SOL, rounded down.
pub proof fn lemma_displayed_amount_not_transferred(ctx: SendSol, amount: u64)
    ensures
        plan_of(ctx, amount).lamports == amount,
        plan_of(ctx, amount).sol_amount == amount as nat / lamports_per_sol_spec(),
{
}

} // verus!
