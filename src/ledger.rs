use vstd::prelude::*;
use crate::accounts::{AccountState, same_key};

verus! {

/// Why the ledger refused a transfer.
#[derive(Clone, Copy, Debug, PartialEq, Eq, Structural)]
pub enum LedgerFault {
    /// The paying account did not sign.
    MissingRequiredSignature,
    /// One of the two accounts is not writable.
    ReadonlyAccount,
    /// The paying account holds fewer lamports than the amount.
    InsufficientFunds,
    /// The receiving balance would exceed the largest `u64`.
    ArithmeticOverflow,
}

/// The fault, if any, on which the ledger refuses to move `lamports` from
/// `from` to `to`, in the order in which it checks.
pub open spec fn transfer_fault(from: AccountState, to: AccountState, lamports: u64) -> Option<
    LedgerFault,
> {
    if !from.is_signer {
        Some(LedgerFault::MissingRequiredSignature)
    } else if !from.is_writable || !to.is_writable {
        Some(LedgerFault::ReadonlyAccount)
    } else if from.lamports < lamports {
        Some(LedgerFault::InsufficientFunds)
    } else if from.key@ != to.key@ && to.lamports + lamports > u64::MAX {
        Some(LedgerFault::ArithmeticOverflow)
    } else {
        None
    }
}

/// `a` with its balance set to `lamports`.
pub open spec fn with_balance(a: AccountState, lamports: int) -> AccountState {
    AccountState { lamports: lamports as u64, ..a }
}

/// The two accounts after a transfer that the ledger accepted: the payer
/// loses exactly `lamports` and the receiver gains exactly as much, unless
/// both are the same account, which then keeps its balance.
pub open spec fn transferred(from: AccountState, to: AccountState, lamports: u64) -> (
    AccountState,
    AccountState,
) {
    if from.key@ == to.key@ {
        (from, to)
    } else {
        (
            with_balance(from, from.lamports - lamports),
            with_balance(to, to.lamports + lamports),
        )
    }
}

/// Applies the ledger's transfer rule to two account states: all or
/// nothing, so a refused transfer leaves both balances as they were.
pub fn system_transfer(from: &mut AccountState, to: &mut AccountState, lamports: u64) -> (r: Result<
    (),
    LedgerFault,
>)
    ensures
        match transfer_fault(*old(from), *old(to), lamports) {
            Some(f) => r == Err::<(), LedgerFault>(f) && *final(from) == *old(from) && *final(to)
                == *old(to),
            None => r is Ok && (*final(from), *final(to)) == transferred(
                *old(from),
                *old(to),
                lamports,
            ),
        },
{
    if !from.is_signer {
        return Err(LedgerFault::MissingRequiredSignature);
    }
    if !from.is_writable || !to.is_writable {
        return Err(LedgerFault::ReadonlyAccount);
    }
    if from.lamports < lamports {
        return Err(LedgerFault::InsufficientFunds);
    }
    if same_key(&from.key, &to.key) {
        return Ok(());
    }
    if to.lamports > u64::MAX - lamports {
        return Err(LedgerFault::ArithmeticOverflow);
    }
    from.lamports = from.lamports - lamports;
    to.lamports = to.lamports + lamports;
    Ok(())
}

} // verus!
