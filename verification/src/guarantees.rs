use vstd::prelude::*;
use crate::address::spec_record_address;
use crate::error::LedgerError;
use crate::processor::Outcome;
use crate::processor::spec_process;
use crate::record::FraudDetectedView;
use crate::record::RecordView;
use crate::record::Submission;
use crate::record::spec_new_record;

verus! {

/// A successful request stores its record at the address that is derived from
/// its identifier and the program, and nowhere else: the address depends on
/// neither the sender, nor the time, nor what the ledger already holds.
pub proof fn lemma_record_is_stored_at_derived_address(
    ledger: Map<Seq<u8>, RecordView>,
    allocation_cost: u64,
    program: Seq<u8>,
    request: Submission,
    clock: Option<i64>,
    accepted: bool,
)
    requires
        spec_process(ledger, allocation_cost, program, request, clock, accepted).result is Ok,
    ensures
        spec_record_address(program, request.transaction_id) is Ok,
        clock is Some,
        !ledger.contains_key(spec_record_address(program, request.transaction_id)->Ok_0.0),
        spec_process(ledger, allocation_cost, program, request, clock, accepted).ledger == ledger.insert(
            spec_record_address(program, request.transaction_id)->Ok_0.0,
            spec_new_record(request, clock->Some_0),
        ),
{
}

/// Once a record was created for an identifier, every further request with
/// that identifier fails with `AddressCollision`, whatever else it holds and
/// whenever it comes, and leaves the ledger, the first record included, as it
/// was.
pub proof fn lemma_second_creation_collides(
    ledger: Map<Seq<u8>, RecordView>,
    allocation_cost: u64,
    program: Seq<u8>,
    first: Submission,
    first_clock: Option<i64>,
    first_accepted: bool,
    second: Submission,
    second_clock: Option<i64>,
    second_accepted: bool,
)
    requires
        first.transaction_id == second.transaction_id,
        spec_process(ledger, allocation_cost, program, first, first_clock, first_accepted).result is Ok,
    ensures
        spec_process(
            spec_process(ledger, allocation_cost, program, first, first_clock, first_accepted).ledger,
            allocation_cost,
            program,
            second,
            second_clock,
            second_accepted,
        ) == (Outcome {
            ledger: spec_process(ledger, allocation_cost, program, first, first_clock, first_accepted).ledger,
            result: Err(LedgerError::AddressCollision),
        }),
{
}

/// A request that fails leaves the ledger exactly as it was: no record was
/// added at its address or anywhere else. A failure carries no notification.
pub proof fn lemma_failure_changes_nothing(
    ledger: Map<Seq<u8>, RecordView>,
    allocation_cost: u64,
    program: Seq<u8>,
    request: Submission,
    clock: Option<i64>,
    accepted: bool,
)
    requires
        spec_process(ledger, allocation_cost, program, request, clock, accepted).result is Err,
    ensures
        spec_process(ledger, allocation_cost, program, request, clock, accepted).ledger == ledger,
{
}

/// A successful request yields a notification if and only if its verdict is
/// fraud, and the notification carries the identifier and the score of the
/// record that was stored.
pub proof fn lemma_notification_iff_fraud(
    ledger: Map<Seq<u8>, RecordView>,
    allocation_cost: u64,
    program: Seq<u8>,
    request: Submission,
    clock: Option<i64>,
    accepted: bool,
)
    requires
        spec_process(ledger, allocation_cost, program, request, clock, accepted).result is Ok,
    ensures
        spec_process(ledger, allocation_cost, program, request, clock, accepted).result->Ok_0 is Some
            <==> request.is_fraud,
        request.is_fraud ==> ({
            let outcome = spec_process(ledger, allocation_cost, program, request, clock, accepted);
            let address = spec_record_address(program, request.transaction_id)->Ok_0.0;
            &&& outcome.ledger.contains_key(address)
            &&& outcome.result->Ok_0->Some_0 == (FraudDetectedView {
                transaction_id: outcome.ledger[address].transaction_id,
                fraud_score: outcome.ledger[address].fraud_score,
            })
        }),
{
}

/// Every record of the ledger sits at the address that is derived from its own
/// identifier under `program`.
pub open spec fn addressed_by_identifier(ledger: Map<Seq<u8>, RecordView>, program: Seq<u8>) -> bool {
    forall|address: Seq<u8>| #[trigger]
        ledger.contains_key(address) ==> {
            &&& spec_record_address(program, ledger[address].transaction_id) is Ok
            &&& spec_record_address(program, ledger[address].transaction_id)->Ok_0.0 == address
        }
}

/// A ledger whose records sit at their derived addresses stays so under every
/// request: an empty ledger is such a ledger, so one that only ever took
/// requests is one too.
pub proof fn lemma_requests_keep_records_at_derived_addresses(
    ledger: Map<Seq<u8>, RecordView>,
    allocation_cost: u64,
    program: Seq<u8>,
    request: Submission,
    clock: Option<i64>,
    accepted: bool,
)
    requires
        addressed_by_identifier(ledger, program),
    ensures
        addressed_by_identifier(
            spec_process(ledger, allocation_cost, program, request, clock, accepted).ledger,
            program,
        ),
{
    let after = spec_process(ledger, allocation_cost, program, request, clock, accepted).ledger;
    assert forall|address: Seq<u8>| #[trigger] after.contains_key(address) implies {
        &&& spec_record_address(program, after[address].transaction_id) is Ok
        &&& spec_record_address(program, after[address].transaction_id)->Ok_0.0 == address
    } by {
        if ledger.contains_key(address) {
            lemma_records_never_change(ledger, allocation_cost, program, request, clock, accepted, address);
        }
    }
}

/// In a ledger whose records sit at their derived addresses no identifier has
/// two records.
pub proof fn lemma_one_record_per_identifier(
    ledger: Map<Seq<u8>, RecordView>,
    program: Seq<u8>,
    first: Seq<u8>,
    second: Seq<u8>,
)
    requires
        addressed_by_identifier(ledger, program),
        ledger.contains_key(first),
        ledger.contains_key(second),
        ledger[first].transaction_id == ledger[second].transaction_id,
    ensures
        first == second,
{
}

/// A request, whether it succeeds or fails, changes no record that the ledger
/// held before it: identifier, sender, receiver, timestamp and every other
/// field stay as they were created.
pub proof fn lemma_records_never_change(
    ledger: Map<Seq<u8>, RecordView>,
    allocation_cost: u64,
    program: Seq<u8>,
    request: Submission,
    clock: Option<i64>,
    accepted: bool,
    address: Seq<u8>,
)
    requires
        ledger.contains_key(address),
    ensures
        spec_process(ledger, allocation_cost, program, request, clock, accepted).ledger.contains_key(address),
        spec_process(ledger, allocation_cost, program, request, clock, accepted).ledger[address] == ledger[address],
{
}

} // verus!
