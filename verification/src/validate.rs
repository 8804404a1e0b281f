use vstd::prelude::*;
use crate::account::{bytes32_eq, Account};
use crate::error::YeetError;

verus! {

/// The checks every persisted record account must pass before a handler
/// touches it: owned by this program, not executable code, writable, and of
/// exactly the expected size.
pub open spec fn record_checks_ok(program_id: Seq<u8>, acc: Account, size: int) -> bool {
    &&& acc.owner@ == program_id
    &&& !acc.executable
    &&& acc.is_writable
    &&& acc.data@.len() == size
}

/// Runs the ownership, not-executable, writability and exact-size checks on a
/// record account. A wrong owning program is its own error; the other three
/// all count as malformed account data, so their relative order is not
/// observable.
pub fn check_record(program_id: &[u8; 32], acc: &Account, size: usize) -> (r: Result<
    (),
    YeetError,
>)
    ensures
        r is Ok <==> record_checks_ok(program_id@, *acc, size as int),
        acc.owner@ != program_id@ ==> r == Err::<(), YeetError>(YeetError::WrongOwner),
        acc.owner@ == program_id@ && !record_checks_ok(program_id@, *acc, size as int) ==> r
            == Err::<(), YeetError>(YeetError::MalformedAccountData),
{
    if !bytes32_eq(&acc.owner, program_id) {
        return Err(YeetError::WrongOwner);
    }
    if acc.executable {
        return Err(YeetError::MalformedAccountData);
    }
    if !acc.is_writable {
        return Err(YeetError::MalformedAccountData);
    }
    if acc.data.len() != size {
        return Err(YeetError::MalformedAccountData);
    }
    Ok(())
}

/// Whether two accounts agree on everything but their data region. A handler
/// may rewrite a record's bytes; it never touches the account's address,
/// owner or capability flags.
pub open spec fn meta_unchanged(before: Account, after: Account) -> bool {
    &&& after.key == before.key
    &&& after.owner == before.owner
    &&& after.is_signer == before.is_signer
    &&& after.is_writable == before.is_writable
    &&& after.executable == before.executable
}

} // verus!
