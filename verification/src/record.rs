use vstd::prelude::*;
use crate::address::Address;
use crate::address::id_bytes;

verus! {

/// Bytes that precede the fields of a stored record and tell its kind.
pub const DISCRIMINATOR_LEN: usize = 8;

/// Bytes of the length that precedes each field of variable length.
pub const LENGTH_PREFIX_LEN: usize = 4;

/// Bytes that the fields of fixed width take together: the amount, the two
/// identities, the score, the verdict and the timestamp.
pub const FIXED_FIELDS_LEN: usize = 82;

/// Bytes reserved for one record when it is created. The reservation never
/// grows, so a record that needs more cannot be stored.
pub const RECORD_SPACE: usize = 250;

/// The assessment of one transaction, as the ledger keeps it.
#[derive(Clone, Debug)]
pub struct TransactionRecord {
    pub transaction_id: String,
    pub amount: u64,
    pub sender: Address,
    pub receiver: Address,
    pub fraud_score: u8,
    pub is_fraud: bool,
    pub timestamp: i64,
    pub signature: Vec<u8>,
}

/// A record as plain values.
pub struct RecordView {
    pub transaction_id: Seq<char>,
    pub amount: u64,
    pub sender: Seq<u8>,
    pub receiver: Seq<u8>,
    pub fraud_score: u8,
    pub is_fraud: bool,
    pub timestamp: i64,
    pub signature: Seq<u8>,
}

impl View for TransactionRecord {
    type V = RecordView;

    open spec fn view(&self) -> RecordView {
        RecordView {
            transaction_id: self.transaction_id@,
            amount: self.amount,
            sender: self.sender@,
            receiver: self.receiver@,
            fraud_score: self.fraud_score,
            is_fraud: self.is_fraud,
            timestamp: self.timestamp,
            signature: self.signature@,
        }
    }
}

/// The notification that a transaction was judged fraudulent.
#[derive(Clone, Debug)]
pub struct FraudDetected {
    pub transaction_id: String,
    pub fraud_score: u8,
}

/// A notification as plain values.
pub struct FraudDetectedView {
    pub transaction_id: Seq<char>,
    pub fraud_score: u8,
}

impl View for FraudDetected {
    type V = FraudDetectedView;

    open spec fn view(&self) -> FraudDetectedView {
        FraudDetectedView { transaction_id: self.transaction_id@, fraud_score: self.fraud_score }
    }
}

/// Bytes that a stored record takes, given the lengths in bytes of its
/// identifier and of its signature.
pub open spec fn spec_stored_len(id_len: nat, signature_len: nat) -> nat {
    DISCRIMINATOR_LEN as nat + LENGTH_PREFIX_LEN as nat + id_len + FIXED_FIELDS_LEN as nat
        + LENGTH_PREFIX_LEN as nat + signature_len
}

/// Whether a record with such an identifier and signature fits the space that
/// is reserved for it.
pub open spec fn spec_fits(transaction_id: Seq<char>, signature: Seq<u8>) -> bool {
    spec_stored_len(id_bytes(transaction_id).len(), signature.len()) <= RECORD_SPACE
}

/// What a request to record one transaction holds: the identities that the
/// runtime vouches for, and the fields that the caller supplies.
pub struct Submission {
    pub sender: Seq<u8>,
    pub sender_lamports: u64,
    pub receiver: Seq<u8>,
    pub transaction_id: Seq<char>,
    pub amount: u64,
    pub fraud_score: u8,
    pub is_fraud: bool,
    pub signature: Seq<u8>,
}

/// The accounts that a request names: the funding party, which has signed the
/// request, with its balance, and the counterparty, which is only referred to.
#[derive(Clone, Copy, Debug)]
pub struct ProcessTransaction {
    pub sender: Address,
    pub sender_lamports: u64,
    pub receiver: Address,
}

/// A request as plain values.
pub open spec fn submission(
    accounts: ProcessTransaction,
    transaction_id: Seq<char>,
    amount: u64,
    fraud_score: u8,
    is_fraud: bool,
    signature: Seq<u8>,
) -> Submission {
    Submission {
        sender: accounts.sender@,
        sender_lamports: accounts.sender_lamports,
        receiver: accounts.receiver@,
        transaction_id,
        amount,
        fraud_score,
        is_fraud,
        signature,
    }
}

/// The record that a request creates at the time `now`: every field as the
/// request gives it, the timestamp from the runtime.
pub open spec fn spec_new_record(request: Submission, now: i64) -> RecordView {
    RecordView {
        transaction_id: request.transaction_id,
        amount: request.amount,
        sender: request.sender,
        receiver: request.receiver,
        fraud_score: request.fraud_score,
        is_fraud: request.is_fraud,
        timestamp: now,
        signature: request.signature,
    }
}

/// The notification that a record calls for, if any.
pub open spec fn spec_signal(record: RecordView) -> Option<FraudDetectedView> {
    if record.is_fraud {
        Some(FraudDetectedView { transaction_id: record.transaction_id, fraud_score: record.fraud_score })
    } else {
        None
    }
}

/// The view of an optional notification.
pub open spec fn signal_view(signal: Option<FraudDetected>) -> Option<FraudDetectedView> {
    match signal {
        Some(event) => Some(event@),
        None => None,
    }
}

/// Whether a record whose identifier has `id_len` bytes and whose signature has
/// `signature_len` fits the reserved space.
pub fn fits_reserved_space(id_len: usize, signature_len: usize) -> (fits: bool)
    ensures
        fits == (spec_stored_len(id_len as nat, signature_len as nat) <= RECORD_SPACE),
{
    let variable: usize = RECORD_SPACE - DISCRIMINATOR_LEN - FIXED_FIELDS_LEN - 2 * LENGTH_PREFIX_LEN;
    id_len <= variable && signature_len <= variable - id_len
}

impl TransactionRecord {
    /// The record of a request, stamped with the time `now`: every field is
    /// taken over as it was given, the score included, whatever its value.
    pub fn new(
        accounts: &ProcessTransaction,
        transaction_id: String,
        amount: u64,
        fraud_score: u8,
        is_fraud: bool,
        signature: Vec<u8>,
        now: i64,
    ) -> (record: TransactionRecord)
        ensures
            record@ == spec_new_record(
                submission(*accounts, transaction_id@, amount, fraud_score, is_fraud, signature@),
                now,
            ),
    {
        TransactionRecord {
            transaction_id,
            amount,
            sender: accounts.sender,
            receiver: accounts.receiver,
            fraud_score,
            is_fraud,
            timestamp: now,
            signature,
        }
    }

    /// Whether this record fits the space that is reserved for a record.
    pub fn fits(&self) -> (fits: bool)
        ensures
            fits == spec_fits(self.transaction_id@, self.signature@),
    {
        let id = self.transaction_id.as_str().as_bytes();
        fits_reserved_space(id.len(), self.signature.len())
    }
}

/// Yields the notification for a record whose verdict is fraud, carrying the
/// record's identifier and score, and nothing for any other record. It only
/// reports: it neither changes the record nor acts on the transaction.
pub fn emit_if_fraud(record: &TransactionRecord) -> (signal: Option<FraudDetected>)
    ensures
        signal_view(signal) == spec_signal(record@),
{
    if record.is_fraud {
        Some(FraudDetected { transaction_id: record.transaction_id.clone(), fraud_score: record.fraud_score })
    } else {
        None
    }
}

} // verus!
