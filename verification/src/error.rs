use vstd::prelude::*;

verus! {

/// Why a record was not created. Whenever one of these is returned the ledger
/// is exactly as it was before the call.
#[derive(Clone, Copy, Debug, PartialEq, Eq, Structural)]
pub enum LedgerError {
    /// No storage address can be derived from the transaction identifier: it is
    /// empty, longer than one address seed may be, or no bump yields an address.
    AddressDerivation,
    /// The derived address already holds a record.
    AddressCollision,
    /// The funding party cannot pay for the storage of the record.
    FundingFailure,
    /// The runtime did not supply the current time.
    ClockUnavailable,
    /// Identifier and signature together need more space than a record reserves.
    OversizeField,
    /// The authority verifier does not accept the request.
    Unauthorized,
}

} // verus!
