use vstd::prelude::*;
use crate::address::Address;
use crate::address::same_address;
use crate::record::ProcessTransaction;
use crate::record::Submission;
use crate::record::submission;

verus! {

/// Decides whether the party behind a request may have its assessment
/// recorded. The ledger consults a verifier before it writes a record.
pub trait AuthorityVerifier {
    /// Whether this verifier accepts the request.
    spec fn accepts(&self, request: Submission) -> bool;

    /// Judges a request by what it holds.
    fn verify(
        &self,
        accounts: &ProcessTransaction,
        transaction_id: &str,
        amount: u64,
        fraud_score: u8,
        is_fraud: bool,
        signature: &[u8],
    ) -> (accepted: bool)
        ensures
            accepted == self.accepts(
                submission(*accounts, transaction_id@, amount, fraud_score, is_fraud, signature@),
            ),
    ;
}

/// The verifier that accepts every request: whoever funds and signs a request
/// is taken to be the oracle, and the signature blob is stored unread.
#[derive(Clone, Copy, Debug)]
pub struct TrustCaller;

impl AuthorityVerifier for TrustCaller {
    open spec fn accepts(&self, request: Submission) -> bool {
        true
    }

    fn verify(
        &self,
        accounts: &ProcessTransaction,
        transaction_id: &str,
        amount: u64,
        fraud_score: u8,
        is_fraud: bool,
        signature: &[u8],
    ) -> (accepted: bool) {
        true
    }
}

/// The verifier that accepts a request only where the party that funded and
/// signed it is the one known oracle.
#[derive(Clone, Copy, Debug)]
pub struct OracleOnly {
    pub oracle: Address,
}

impl AuthorityVerifier for OracleOnly {
    open spec fn accepts(&self, request: Submission) -> bool {
        request.sender == self.oracle@
    }

    fn verify(
        &self,
        accounts: &ProcessTransaction,
        transaction_id: &str,
        amount: u64,
        fraud_score: u8,
        is_fraud: bool,
        signature: &[u8],
    ) -> (accepted: bool) {
        same_address(&accounts.sender, &self.oracle)
    }
}

} // verus!
