use sentinel_ledger::apply_transaction;
use sentinel_ledger::derive_address;
use sentinel_ledger::emit_if_fraud;
use sentinel_ledger::process_transaction;
use sentinel_ledger::record::fits_reserved_space;
use sentinel_ledger::record::RECORD_SPACE;
use sentinel_ledger::Ledger;
use sentinel_ledger::LedgerError;
use sentinel_ledger::ProcessTransaction;
use sentinel_ledger::TransactionRecord;
use sentinel_ledger::AuthorityVerifier;
use sentinel_ledger::TrustCaller;
use sentinel_ledger::OracleOnly;

const PROGRAM: [u8; 32] = [42u8; 32];
const COST: u64 = 2_630_880;
const NOW: i64 = 1_700_000_000;

fn accounts() -> ProcessTransaction {
    ProcessTransaction { sender: [1u8; 32], sender_lamports: 10_000_000, receiver: [2u8; 32] }
}

fn found(id: &str) -> Option<([u8; 32], u8)> {
    derive_address(&PROGRAM, id).ok().map(|handle| (handle.address, handle.bump))
}

fn submit(
    ledger: &mut Ledger,
    id: &str,
    amount: u64,
    score: u8,
    is_fraud: bool,
    signature: &[u8],
    clock: Option<i64>,
) -> Result<Option<sentinel_ledger::FraudDetected>, LedgerError> {
    let slot = found(id);
    apply_transaction(ledger, &TrustCaller, &accounts(), id.to_string(), amount, score, is_fraud, signature.to_vec(), slot, clock)
}

#[test]
fn new_ledger_is_empty() {
    let ledger = Ledger::new(PROGRAM, COST);
    assert_eq!(ledger.len(), 0);
    assert_eq!(*ledger.program_id(), PROGRAM);
    assert_eq!(ledger.allocation_cost(), COST);
    assert!(!ledger.contains(&[0u8; 32]));
    assert!(ledger.get(&[0u8; 32]).is_none());
}

#[test]
fn stored_record_reproduces_the_request() {
    let mut ledger = Ledger::new(PROGRAM, COST);
    let signal = submit(&mut ledger, "tx-001", 5000, 87, true, &[1, 2], Some(NOW)).unwrap();
    let address = derive_address(&PROGRAM, "tx-001").unwrap().address;
    assert_eq!(ledger.len(), 1);
    assert!(ledger.contains(&address));
    let record = ledger.get(&address).unwrap();
    assert_eq!(record.transaction_id, "tx-001");
    assert_eq!(record.amount, 5000);
    assert_eq!(record.sender, [1u8; 32]);
    assert_eq!(record.receiver, [2u8; 32]);
    assert_eq!(record.fraud_score, 87);
    assert!(record.is_fraud);
    assert_eq!(record.timestamp, NOW);
    assert_eq!(record.signature, vec![1u8, 2u8]);
    let event = signal.unwrap();
    assert_eq!(event.transaction_id, "tx-001");
    assert_eq!(event.fraud_score, 87);
}

#[test]
fn score_out_of_range_is_stored_verbatim() {
    let mut ledger = Ledger::new(PROGRAM, COST);
    let signal = submit(&mut ledger, "tx-255", 1, 255, false, &[], Some(NOW)).unwrap();
    assert!(signal.is_none());
    let address = derive_address(&PROGRAM, "tx-255").unwrap().address;
    assert_eq!(ledger.get(&address).unwrap().fraud_score, 255);
}

#[test]
fn second_creation_collides_and_keeps_the_first_record() {
    let mut ledger = Ledger::new(PROGRAM, COST);
    submit(&mut ledger, "tx-001", 5000, 87, true, &[1, 2], Some(NOW)).unwrap();
    let again = submit(&mut ledger, "tx-001", 1, 2, false, &[9], Some(NOW + 60));
    assert_eq!(again.unwrap_err(), LedgerError::AddressCollision);
    assert_eq!(ledger.len(), 1);
    let address = derive_address(&PROGRAM, "tx-001").unwrap().address;
    let record = ledger.get(&address).unwrap();
    assert_eq!(record.amount, 5000);
    assert_eq!(record.fraud_score, 87);
    assert!(record.is_fraud);
    assert_eq!(record.timestamp, NOW);
    assert_eq!(record.signature, vec![1u8, 2u8]);
}

#[test]
fn notification_only_for_fraud() {
    let mut ledger = Ledger::new(PROGRAM, COST);
    let safe = submit(&mut ledger, "tx-safe", 10, 3, false, &[7], Some(NOW)).unwrap();
    assert!(safe.is_none());
    let fraud = submit(&mut ledger, "tx-fraud", 10, 99, true, &[7], Some(NOW)).unwrap().unwrap();
    assert_eq!(fraud.transaction_id, "tx-fraud");
    assert_eq!(fraud.fraud_score, 99);
    assert_eq!(ledger.len(), 2);
}

#[test]
fn emit_if_fraud_copies_identifier_and_score() {
    let record = TransactionRecord::new(&accounts(), "tx-9".to_string(), 77, 100, true, vec![3, 4], NOW);
    let event = emit_if_fraud(&record).unwrap();
    assert_eq!(event.transaction_id, "tx-9");
    assert_eq!(event.fraud_score, 100);
    let calm = TransactionRecord::new(&accounts(), "tx-9".to_string(), 77, 100, false, vec![3, 4], NOW);
    assert!(emit_if_fraud(&calm).is_none());
}

#[test]
fn underfunded_sender_creates_nothing() {
    let mut ledger = Ledger::new(PROGRAM, COST);
    let poor = ProcessTransaction { sender: [1u8; 32], sender_lamports: COST - 1, receiver: [2u8; 32] };
    let r = apply_transaction(&mut ledger, &TrustCaller, &poor, "tx-001".to_string(), 1, 1, true, vec![], found("tx-001"), Some(NOW));
    assert_eq!(r.unwrap_err(), LedgerError::FundingFailure);
    assert_eq!(ledger.len(), 0);
    let exact = ProcessTransaction { sender: [1u8; 32], sender_lamports: COST, receiver: [2u8; 32] };
    let r = apply_transaction(&mut ledger, &TrustCaller, &exact, "tx-001".to_string(), 1, 1, true, vec![], found("tx-001"), Some(NOW));
    assert!(r.is_ok());
    assert_eq!(ledger.len(), 1);
}

#[test]
fn missing_clock_creates_nothing() {
    let mut ledger = Ledger::new(PROGRAM, COST);
    let r = submit(&mut ledger, "tx-001", 1, 1, true, &[], None);
    assert_eq!(r.unwrap_err(), LedgerError::ClockUnavailable);
    assert_eq!(ledger.len(), 0);
    assert!(!ledger.contains(&derive_address(&PROGRAM, "tx-001").unwrap().address));
}

#[test]
fn oversize_fields_create_nothing() {
    let mut ledger = Ledger::new(PROGRAM, COST);
    let id = "i".repeat(32);
    let r = submit(&mut ledger, &id, 1, 1, true, &[0u8; 121], Some(NOW));
    assert_eq!(r.unwrap_err(), LedgerError::OversizeField);
    assert_eq!(ledger.len(), 0);
    let r = submit(&mut ledger, &id, 1, 1, true, &[0u8; 120], Some(NOW));
    assert!(r.is_ok());
    assert_eq!(ledger.len(), 1);
}

#[test]
fn underivable_identifier_creates_nothing() {
    let mut ledger = Ledger::new(PROGRAM, COST);
    let r = submit(&mut ledger, "", 1, 1, true, &[], Some(NOW));
    assert_eq!(r.unwrap_err(), LedgerError::AddressDerivation);
    let r = apply_transaction(&mut ledger, &TrustCaller, &accounts(), "tx-001".to_string(), 1, 1, true, vec![], None, Some(NOW));
    assert_eq!(r.unwrap_err(), LedgerError::AddressDerivation);
    assert_eq!(ledger.len(), 0);
}

#[test]
fn first_failing_condition_decides_the_error() {
    let mut ledger = Ledger::new(PROGRAM, COST);
    submit(&mut ledger, "tx-001", 5000, 87, true, &[1, 2], Some(NOW)).unwrap();
    let poor = ProcessTransaction { sender: [1u8; 32], sender_lamports: 0, receiver: [2u8; 32] };
    let big = vec![0u8; 200];
    let r = apply_transaction(&mut ledger, &TrustCaller, &poor, "tx-001".to_string(), 1, 1, true, big.clone(), found("tx-001"), None);
    assert_eq!(r.unwrap_err(), LedgerError::AddressCollision);
    let r = apply_transaction(&mut ledger, &TrustCaller, &poor, "tx-002".to_string(), 1, 1, true, big.clone(), found("tx-002"), None);
    assert_eq!(r.unwrap_err(), LedgerError::FundingFailure);
    let r = apply_transaction(&mut ledger, &TrustCaller, &accounts(), "tx-002".to_string(), 1, 1, true, big.clone(), found("tx-002"), None);
    assert_eq!(r.unwrap_err(), LedgerError::ClockUnavailable);
    let r = apply_transaction(&mut ledger, &TrustCaller, &accounts(), "tx-002".to_string(), 1, 1, true, big, found("tx-002"), Some(NOW));
    assert_eq!(r.unwrap_err(), LedgerError::OversizeField);
    assert_eq!(ledger.len(), 1);
}

#[test]
fn earlier_records_survive_later_requests() {
    let mut ledger = Ledger::new(PROGRAM, COST);
    submit(&mut ledger, "tx-001", 5000, 87, true, &[1, 2], Some(NOW)).unwrap();
    submit(&mut ledger, "tx-002", 1, 2, false, &[3], Some(NOW + 1)).unwrap();
    let _ = submit(&mut ledger, "tx-001", 9, 9, false, &[9], Some(NOW + 2));
    let _ = submit(&mut ledger, "", 9, 9, false, &[9], Some(NOW + 3));
    assert_eq!(ledger.len(), 2);
    let first = ledger.get(&derive_address(&PROGRAM, "tx-001").unwrap().address).unwrap();
    assert_eq!(first.transaction_id, "tx-001");
    assert_eq!(first.sender, [1u8; 32]);
    assert_eq!(first.receiver, [2u8; 32]);
    assert_eq!(first.timestamp, NOW);
    let second = ledger.get(&derive_address(&PROGRAM, "tx-002").unwrap().address).unwrap();
    assert_eq!(second.transaction_id, "tx-002");
    assert_eq!(second.timestamp, NOW + 1);
}

#[test]
fn reserved_space_bounds_identifier_and_signature_together() {
    assert_eq!(RECORD_SPACE, 250);
    assert!(fits_reserved_space(28, 60));
    assert!(fits_reserved_space(0, 152));
    assert!(!fits_reserved_space(0, 153));
    assert!(fits_reserved_space(152, 0));
    assert!(!fits_reserved_space(153, 0));
    assert!(fits_reserved_space(32, 120));
    assert!(!fits_reserved_space(32, 121));
    assert!(!fits_reserved_space(usize::MAX, usize::MAX));
}

#[test]
fn record_fits_by_its_own_fields() {
    let small = TransactionRecord::new(&accounts(), "tx-1".to_string(), 1, 1, false, vec![0u8; 64], NOW);
    assert!(small.fits());
    let large = TransactionRecord::new(&accounts(), "tx-1".to_string(), 1, 1, false, vec![0u8; 149], NOW);
    assert!(!large.fits());
}

#[test]
fn without_a_runtime_clock_nothing_is_recorded() {
    let mut ledger = Ledger::new(PROGRAM, COST);
    let r = process_transaction(&mut ledger, &accounts(), "tx-001".to_string(), 5000, 87, true, vec![1, 2]);
    assert_eq!(r.unwrap_err(), LedgerError::ClockUnavailable);
    assert_eq!(ledger.len(), 0);
}

#[test]
fn process_transaction_reports_collision_before_the_clock() {
    let mut ledger = Ledger::new(PROGRAM, COST);
    submit(&mut ledger, "tx-001", 5000, 87, true, &[1, 2], Some(NOW)).unwrap();
    let r = process_transaction(&mut ledger, &accounts(), "tx-001".to_string(), 1, 1, false, vec![]);
    assert_eq!(r.unwrap_err(), LedgerError::AddressCollision);
    assert_eq!(ledger.len(), 1);
}

#[test]
fn process_transaction_rejects_underivable_identifier() {
    let mut ledger = Ledger::new(PROGRAM, COST);
    let r = process_transaction(&mut ledger, &accounts(), String::new(), 1, 1, false, vec![]);
    assert_eq!(r.unwrap_err(), LedgerError::AddressDerivation);
    let r = process_transaction(&mut ledger, &accounts(), "y".repeat(33), 1, 1, false, vec![]);
    assert_eq!(r.unwrap_err(), LedgerError::AddressDerivation);
    assert_eq!(ledger.len(), 0);
}

#[test]
fn trusting_verifier_accepts_everything() {
    assert!(TrustCaller.verify(&accounts(), "tx-001", 0, 0, false, &[]));
    assert!(TrustCaller.verify(&accounts(), "", u64::MAX, 255, true, &[1, 2, 3]));
}

#[test]
fn oracle_only_accepts_the_oracle_as_sender() {
    let oracle = OracleOnly { oracle: [1u8; 32] };
    assert!(oracle.verify(&accounts(), "tx-001", 0, 0, false, &[]));
    let other = ProcessTransaction { sender: [2u8; 32], sender_lamports: 10_000_000, receiver: [1u8; 32] };
    assert!(!oracle.verify(&other, "tx-001", 0, 0, false, &[]));
}

#[test]
fn refusing_verifier_creates_nothing() {
    let mut ledger = Ledger::new(PROGRAM, COST);
    let stranger = OracleOnly { oracle: [8u8; 32] };
    let r = apply_transaction(&mut ledger, &stranger, &accounts(), "tx-001".to_string(), 1, 1, true, vec![], found("tx-001"), Some(NOW));
    assert_eq!(r.unwrap_err(), LedgerError::Unauthorized);
    assert_eq!(ledger.len(), 0);
    let oracle = OracleOnly { oracle: accounts().sender };
    let r = apply_transaction(&mut ledger, &oracle, &accounts(), "tx-001".to_string(), 1, 1, true, vec![], found("tx-001"), Some(NOW));
    assert!(r.unwrap().is_some());
    assert_eq!(ledger.len(), 1);
}

#[test]
fn verifier_is_asked_after_every_other_condition() {
    let mut ledger = Ledger::new(PROGRAM, COST);
    submit(&mut ledger, "tx-001", 5000, 87, true, &[1, 2], Some(NOW)).unwrap();
    let stranger = OracleOnly { oracle: [8u8; 32] };
    let r = apply_transaction(&mut ledger, &stranger, &accounts(), "tx-001".to_string(), 1, 1, true, vec![], found("tx-001"), Some(NOW));
    assert_eq!(r.unwrap_err(), LedgerError::AddressCollision);
    let r = apply_transaction(&mut ledger, &stranger, &accounts(), "tx-002".to_string(), 1, 1, true, vec![], found("tx-002"), None);
    assert_eq!(r.unwrap_err(), LedgerError::ClockUnavailable);
    assert_eq!(ledger.len(), 1);
}

#[test]
fn create_record_returns_the_handle_it_filled() {
    let mut ledger = Ledger::new(PROGRAM, COST);
    let handle = derive_address(&PROGRAM, "tx-001").unwrap();
    let created = ledger
        .create_record(&TrustCaller, handle, &accounts(), "tx-001".to_string(), 5000, 87, true, vec![1, 2], Some(NOW))
        .unwrap();
    assert_eq!(created.address, handle.address);
    assert_eq!(created.bump, handle.bump);
    assert!(ledger.contains(&handle.address));
    let again = ledger.create_record(&TrustCaller, handle, &accounts(), "tx-001".to_string(), 5000, 87, true, vec![1, 2], Some(NOW));
    assert_eq!(again.unwrap_err(), LedgerError::AddressCollision);
    assert_eq!(ledger.len(), 1);
}
