use vstd::prelude::*;
use vstd::pervasive::unreached;
use crate::address::Address;
use crate::address::id_bytes;
use crate::address::program_address;
use crate::address::record_seed;
use crate::address::resolve_address;
use crate::address::search_record_address;
use crate::address::search_view;
use crate::address::spec_resolve;
use crate::authority::AuthorityVerifier;
use crate::authority::TrustCaller;
use crate::error::LedgerError;
use crate::ledger::Ledger;
use crate::ledger::spec_refusal;
use crate::record::FraudDetected;
use crate::record::FraudDetectedView;
use crate::record::ProcessTransaction;
use crate::record::RecordView;
use crate::record::Submission;
use crate::record::emit_if_fraud;
use crate::record::signal_view;
use crate::record::spec_new_record;
use crate::record::spec_signal;
use crate::record::submission;
use crate::runtime::runtime_unix_timestamp;

verus! {

/// What a request leaves behind: the ledger after it, and what the caller is told.
pub struct Outcome {
    pub ledger: Map<Seq<u8>, RecordView>,
    pub result: Result<Option<FraudDetectedView>, LedgerError>,
}

/// The view of what a caller is told.
pub open spec fn result_view(r: Result<Option<FraudDetected>, LedgerError>) -> Result<Option<FraudDetectedView>, LedgerError> {
    match r {
        Ok(signal) => Ok(signal_view(signal)),
        Err(e) => Err(e),
    }
}

/// The outcome of a request, given what the address search found for its
/// identifier, what the runtime's clock read and whether the authority
/// verifier accepted it: the address is resolved, the
/// record created there or refused, and a created record is followed by its
/// notification where the verdict is fraud.
pub open spec fn spec_apply(
    ledger: Map<Seq<u8>, RecordView>,
    allocation_cost: u64,
    request: Submission,
    found: Option<(Seq<u8>, u8)>,
    clock: Option<i64>,
    accepted: bool,
) -> Outcome {
    match spec_resolve(id_bytes(request.transaction_id).len(), found) {
        Err(e) => Outcome { ledger, result: Err(e) },
        Ok(slot) => match spec_refusal(ledger, allocation_cost, slot.0, request, clock, accepted) {
            Some(e) => Outcome { ledger, result: Err(e) },
            None => Outcome {
                ledger: ledger.insert(slot.0, spec_new_record(request, clock.unwrap())),
                result: Ok(spec_signal(spec_new_record(request, clock.unwrap()))),
            },
        },
    }
}

/// The outcome of a request under the program `program`, given what the
/// runtime's clock read and whether the authority verifier accepted it.
pub open spec fn spec_process(
    ledger: Map<Seq<u8>, RecordView>,
    allocation_cost: u64,
    program: Seq<u8>,
    request: Submission,
    clock: Option<i64>,
    accepted: bool,
) -> Outcome {
    spec_apply(
        ledger,
        allocation_cost,
        request,
        program_address(record_seed(), id_bytes(request.transaction_id), program),
        clock,
        accepted,
    )
}

/// Carries out one request, given the outcome `found` of the address search for
/// its identifier and the runtime's clock reading `clock`, consulting
/// `verifier` before anything is written. On success the ledger holds one
/// record more, at the address found, and the result is the notification to
/// emit, if the verdict is fraud. On any failure the ledger is unchanged and
/// nothing is to be emitted. Either way the records that the ledger held stay
/// as they were.
pub fn apply_transaction<V: AuthorityVerifier>(
    ledger: &mut Ledger,
    verifier: &V,
    accounts: &ProcessTransaction,
    transaction_id: String,
    amount: u64,
    fraud_score: u8,
    is_fraud: bool,
    signature: Vec<u8>,
    found: Option<(Address, u8)>,
    clock: Option<i64>,
) -> (r: Result<Option<FraudDetected>, LedgerError>)
    requires
        old(ledger).wf(),
    ensures
        final(ledger).wf(),
        final(ledger).spec_program_id() == old(ledger).spec_program_id(),
        final(ledger).spec_allocation_cost() == old(ledger).spec_allocation_cost(),
        (Outcome { ledger: final(ledger)@, result: result_view(r) }) == spec_apply(
            old(ledger)@,
            old(ledger).spec_allocation_cost(),
            submission(*accounts, transaction_id@, amount, fraud_score, is_fraud, signature@),
            search_view(found),
            clock,
            verifier.accepts(
                submission(*accounts, transaction_id@, amount, fraud_score, is_fraud, signature@),
            ),
        ),
        r is Err ==> final(ledger)@ == old(ledger)@,
        r is Ok ==> (r->Ok_0 is Some <==> is_fraud),
        forall|address: Seq<u8>| #[trigger]
            old(ledger)@.contains_key(address) ==> final(ledger)@.contains_key(address)
                && final(ledger)@[address] == old(ledger)@[address],
{
    let handle = match resolve_address(transaction_id.as_str().as_bytes().len(), found) {
        Ok(handle) => handle,
        Err(e) => {
            return Err(e);
        },
    };
    match ledger.create_record(verifier, handle, accounts, transaction_id, amount, fraud_score, is_fraud, signature, clock) {
        Ok(created) => match ledger.get(&created.address) {
            Some(record) => Ok(emit_if_fraud(record)),
            None => unreached(),
        },
        Err(e) => Err(e),
    }
}

/// Records the assessment of one transaction: derives the address of its record
/// from the identifier, reads the runtime's clock, creates the record and
/// yields the notification to emit where the verdict is fraud. The caller is
/// trusted: no authority is asked. The outcome is that of `spec_process` for
/// the clock reading that the runtime gave.
pub fn process_transaction(
    ledger: &mut Ledger,
    accounts: &ProcessTransaction,
    transaction_id: String,
    amount: u64,
    fraud_score: u8,
    is_fraud: bool,
    signature: Vec<u8>,
) -> (r: Result<Option<FraudDetected>, LedgerError>)
    requires
        old(ledger).wf(),
    ensures
        final(ledger).wf(),
        final(ledger).spec_program_id() == old(ledger).spec_program_id(),
        final(ledger).spec_allocation_cost() == old(ledger).spec_allocation_cost(),
        exists|clock: Option<i64>|
            (Outcome { ledger: final(ledger)@, result: result_view(r) }) == #[trigger] spec_process(
                old(ledger)@,
                old(ledger).spec_allocation_cost(),
                old(ledger).spec_program_id(),
                submission(*accounts, transaction_id@, amount, fraud_score, is_fraud, signature@),
                clock,
                true,
            ),
        r is Err ==> final(ledger)@ == old(ledger)@,
        r is Ok ==> (r->Ok_0 is Some <==> is_fraud),
        forall|address: Seq<u8>| #[trigger]
            old(ledger)@.contains_key(address) ==> final(ledger)@.contains_key(address)
                && final(ledger)@[address] == old(ledger)@[address],
{
    let found = search_record_address(ledger.program_id(), transaction_id.as_str());
    let clock: Option<i64> = match runtime_unix_timestamp() {
        Ok(reading) => Some(reading),
        Err(_) => None,
    };
    let ghost request = submission(*accounts, transaction_id@, amount, fraud_score, is_fraud, signature@);
    let verifier = TrustCaller;
    let r = apply_transaction(ledger, &verifier, accounts, transaction_id, amount, fraud_score, is_fraud, signature, found, clock);
    proof {
        assert((Outcome { ledger: ledger@, result: result_view(r) }) == spec_process(
            old(ledger)@,
            old(ledger).spec_allocation_cost(),
            old(ledger).spec_program_id(),
            request,
            clock,
            true,
        ));
    }
    r
}

} // verus!
