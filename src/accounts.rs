use vstd::prelude::*;

verus! {

/// An account address: the 32 bytes of a public key.
pub type Key = [u8; 32];

/// What the logic reads of an account handed to an instruction.
#[derive(Clone, Copy, Debug)]
pub struct AccountState {
    pub key: Key,
    /// Balance in lamports.
    pub lamports: u64,
    /// The runtime verified a signature of this account's key for the call.
    pub is_signer: bool,
    /// The caller marked the account writable for the call.
    pub is_writable: bool,
    /// The account holds a deployed program.
    pub executable: bool,
}

/// The context of the bootstrap instruction: only the program's own identity.
#[derive(Clone, Copy, Debug)]
pub struct Initialize {
    pub program_id: Key,
}

/// The accounts of a transfer: the paying faucet, which must sign and be
/// writable; the recipient, which must be writable and is otherwise
/// unchecked; and the system program, which performs the move.
#[derive(Clone, Copy, Debug)]
pub struct SendSol {
    pub faucet: AccountState,
    pub recipient: AccountState,
    pub system_program: AccountState,
}

/// The system program's address, 32 zero bytes.
pub open spec fn system_program_id() -> Seq<u8> {
    Seq::new(32, |i: int| 0u8)
}

/// Relies on anchor_lang::system_program::ID and Pubkey::to_bytes: the
/// address "11111111111111111111111111111111", which is 32 zero bytes.
#[verifier::external_body]
fn system_program_key() -> (r: Key)
    ensures
        r@ == system_program_id(),
{
    anchor_lang::system_program::ID.to_bytes()
}

/// Whether two addresses are the same.
pub fn same_key(a: &Key, b: &Key) -> (r: bool)
    ensures
        r == (a@ == b@),
{
    let mut i: usize = 0;
    while i < 32
        invariant
            i <= 32,
            forall|j: int| 0 <= j < i ==> a@[j] == b@[j],
        decreases 32 - i,
    {
        if a[i] != b[i] {
            assert(a@[i as int] != b@[i as int]);
            return false;
        }
        i = i + 1;
    }
    assert(a@ =~= b@);
    true
}

/// Whether `key` is the system program's address.
pub fn is_system_program(key: &Key) -> (r: bool)
    ensures
        r == (key@ == system_program_id()),
{
    let id = system_program_key();
    same_key(key, &id)
}

} // verus!
