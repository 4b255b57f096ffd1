use vstd::prelude::*;

verus! {

/// Number of lamports, the ledger's smallest unit, in one SOL.
pub open spec fn lamports_per_sol_spec() -> nat {
    1_000_000_000
}

/// Relies on anchor_lang::solana_program::native_token::LAMPORTS_PER_SOL,
/// declared there as `1_000_000_000`.
#[verifier::external_body]
fn lamports_per_sol() -> (r: u64)
    ensures
        r == lamports_per_sol_spec(),
{
    anchor_lang::solana_program::native_token::LAMPORTS_PER_SOL
}

/// The whole number of SOL in `amount` lamports, rounded down.
///
/// This quantity is for display only: transfers always move the raw
/// lamport amount.
pub fn sol_amount(amount: u64) -> (r: u64)
    ensures
        r == amount as nat / lamports_per_sol_spec(),
{
    amount / lamports_per_sol()
}

} // verus!
