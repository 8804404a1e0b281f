use vstd::prelude::*;

verus! {

/// The terminal failure taxonomy of the handler core. Every failed check
/// aborts the whole instruction with exactly one of these; there is no
/// internal retry or recovery path.
#[derive(Clone, Copy, Debug, PartialEq, Eq, Structural)]
pub enum YeetError {
    /// Empty instruction buffer, unknown opcode, or content length outside 1..=512.
    MalformedInstruction,
    /// Fewer accounts supplied than the handler requires.
    MissingAccounts,
    /// A required signer flag is absent.
    MissingAuthorization,
    /// An account's owning-program identity does not match this program.
    WrongOwner,
    /// Wrong account data size, a failed address-derivation check, or a
    /// decode of a too-short buffer.
    MalformedAccountData,
    /// A record whose tag says "not yet written" where initialized data was expected.
    UninitializedRecord,
    /// An attempted re-initialization or overwrite of an existing record.
    AlreadyInitialized,
    /// The profile's stored owner does not match the signing author.
    IllegalOwner,
    /// Incrementing the post counter would exceed the representable range.
    CounterOverflow,
}

} // verus!
