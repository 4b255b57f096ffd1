use vstd::prelude::*;
use crate::accounts::{Initialize, Key, SendSol, is_system_program, system_program_id};
use crate::ledger::{LedgerFault, system_transfer, transfer_fault, transferred};
use crate::units::{lamports_per_sol_spec, sol_amount};

verus! {

/// Whether a transfer asks the recipient to sign. The recipient is
/// deliberately left unchecked: anyone may be paid.
pub const REQUIRES_DESTINATION_AUTHORITY: bool = false;

/// Why an instruction failed.
#[derive(Clone, Copy, Debug, PartialEq, Eq, Structural)]
pub enum FaucetError {
    /// An account that must sign the call did not.
    AccountNotSigner,
    /// The account given as the system program has another address.
    InvalidProgramId,
    /// The account given as the system program is not executable.
    InvalidProgramExecutable,
    /// An account that the transfer changes was not marked writable.
    ConstraintMut,
    /// The ledger refused the transfer; its reason is passed on unchanged.
    LedgerTransferFailure(LedgerFault),
}

/// A transfer as handed to the ledger, and what is shown of it.
#[derive(Clone, Copy, Debug)]
pub struct TransferPlan {
    pub from: Key,
    pub to: Key,
    /// The exact amount to move, in lamports.
    pub lamports: u64,
    /// The amount in whole SOL, rounded down, for display only.
    pub sol_amount: u64,
}

/// The checks made on a transfer's accounts before anything moves, in
/// their order: the faucet signed (and the recipient, where that is asked),
/// the system program is the real one and is executable, and the faucet and
/// the recipient are writable.
pub open spec fn account_check(ctx: SendSol) -> Result<(), FaucetError> {
    if !ctx.faucet.is_signer {
        Err(FaucetError::AccountNotSigner)
    } else if REQUIRES_DESTINATION_AUTHORITY && !ctx.recipient.is_signer {
        Err(FaucetError::AccountNotSigner)
    } else if ctx.system_program.key@ != system_program_id() {
        Err(FaucetError::InvalidProgramId)
    } else if !ctx.system_program.executable {
        Err(FaucetError::InvalidProgramExecutable)
    } else if !ctx.faucet.is_writable || !ctx.recipient.is_writable {
        Err(FaucetError::ConstraintMut)
    } else {
        Ok(())
    }
}

/// The plan for moving `amount` lamports from the faucet to the recipient.
pub open spec fn plan_of(ctx: SendSol, amount: u64) -> TransferPlan {
    TransferPlan {
        from: ctx.faucet.key,
        to: ctx.recipient.key,
        lamports: amount,
        sol_amount: (amount as nat / lamports_per_sol_spec()) as u64,
    }
}

/// The result of `send_sol` on `ctx` and the accounts after it.
pub open spec fn send_sol_effect(ctx: SendSol, amount: u64) -> (Result<(), FaucetError>, SendSol) {
    match account_check(ctx) {
        Err(e) => (Err(e), ctx),
        Ok(_) => match transfer_fault(ctx.faucet, ctx.recipient, amount) {
            Some(f) => (Err(FaucetError::LedgerTransferFailure(f)), ctx),
            None => {
                let (from, to) = transferred(ctx.faucet, ctx.recipient, amount);
                (Ok(()), SendSol { faucet: from, recipient: to, ..ctx })
            },
        },
    }
}

/// Checks a transfer's accounts before anything moves.
pub fn check_accounts(ctx: &SendSol) -> (r: Result<(), FaucetError>)
    ensures
        r == account_check(*ctx),
{
    if !ctx.faucet.is_signer {
        return Err(FaucetError::AccountNotSigner);
    }
    if REQUIRES_DESTINATION_AUTHORITY && !ctx.recipient.is_signer {
        return Err(FaucetError::AccountNotSigner);
    }
    if !is_system_program(&ctx.system_program.key) {
        return Err(FaucetError::InvalidProgramId);
    }
    if !ctx.system_program.executable {
        return Err(FaucetError::InvalidProgramExecutable);
    }
    if !ctx.faucet.is_writable || !ctx.recipient.is_writable {
        return Err(FaucetError::ConstraintMut);
    }
    Ok(())
}

/// The bootstrap instruction: it changes nothing and always succeeds.
pub fn initialize(ctx: &Initialize) -> (r: Result<(), FaucetError>)
    ensures
        r is Ok,
{
    Ok(())
}

/// Checks the accounts and makes the plan of a transfer of `amount`
/// lamports, which the caller hands to the ledger.
pub fn plan_send_sol(ctx: &SendSol, amount: u64) -> (r: Result<TransferPlan, FaucetError>)
    ensures
        match account_check(*ctx) {
            Err(e) => r == Err::<TransferPlan, FaucetError>(e),
            Ok(_) => r == Ok::<TransferPlan, FaucetError>(plan_of(*ctx, amount)),
        },
{
    check_accounts(ctx)?;
    Ok(TransferPlan {
        from: ctx.faucet.key,
        to: ctx.recipient.key,
        lamports: amount,
        sol_amount: sol_amount(amount),
    })
}

/// Moves `amount` lamports from the faucet to the recipient: the accounts
/// are checked first, then the ledger applies the transfer, whose failure
/// is passed on as it came.
pub fn send_sol(ctx: &mut SendSol, amount: u64) -> (r: Result<(), FaucetError>)
    ensures
        (r, *final(ctx)) == send_sol_effect(*old(ctx), amount),
{
    let plan = plan_send_sol(ctx, amount)?;
    match system_transfer(&mut ctx.faucet, &mut ctx.recipient, plan.lamports) {
        Ok(()) => Ok(()),
        Err(f) => Err(FaucetError::LedgerTransferFailure(f)),
    }
}

} // verus!
