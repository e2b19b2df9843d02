use vstd::prelude::*;

verus! {

/// Every way in which an instruction of the escrow is refused.
#[derive(Clone, Copy, Debug, PartialEq, Eq, Structural)]
pub enum ErrorCode {
    /// The claim comes before the cliff.
    ClaimNotAvailableYet,
    /// The schedule does not end after it starts.
    InvalidVestingPeriod,
    /// The vested amount does not fit the 64-bit amount width.
    CalculationOverflow,
    /// Everything vested so far has already been withdrawn.
    NothingToClaim,
    /// The company name is longer than a vesting record can hold.
    NameTooLong,
    /// A signer or a stored reference is not the one the record names.
    IdentityMismatch,
    /// An account is not at the address that its seeds and bump derive.
    AddressMismatch,
}

} // verus!
