use vstd::prelude::*;
use crate::address::Address;
use crate::address::RecordHandle;
use crate::address::same_address;
use crate::authority::AuthorityVerifier;
use crate::error::LedgerError;
use crate::record::ProcessTransaction;
use crate::record::RecordView;
use crate::record::Submission;
use crate::record::TransactionRecord;
use crate::record::spec_fits;
use crate::record::spec_new_record;
use crate::record::submission;

verus! {

/// One occupied address with the record that it holds.
struct Slot {
    address: Address,
    record: TransactionRecord,
}

/// The records of one program, each at its own address. Records are added and
/// never changed or removed.
pub struct Ledger {
    program_id: Address,
    allocation_cost: u64,
    slots: Vec<Slot>,
}

/// The map that a sequence of slots stands for.
spec fn slots_map(slots: Seq<Slot>) -> Map<Seq<u8>, RecordView>
    decreases slots.len(),
{
    if slots.len() == 0 {
        Map::empty()
    } else {
        slots_map(slots.drop_last()).insert(slots.last().address@, slots.last().record@)
    }
}

/// No address occurs in two slots.
spec fn distinct_addresses(slots: Seq<Slot>) -> bool {
    forall|i: int, j: int| 0 <= i < j < slots.len() ==> slots[i].address@ != slots[j].address@
}

proof fn lemma_slots_map_domain(slots: Seq<Slot>, address: Seq<u8>)
    ensures
        slots_map(slots).contains_key(address) <==> exists|i: int|
            0 <= i < slots.len() && #[trigger] slots[i].address@ == address,
    decreases slots.len(),
{
    if slots.len() > 0 {
        let rest = slots.drop_last();
        lemma_slots_map_domain(rest, address);
        if slots_map(slots).contains_key(address) {
            if slots.last().address@ == address {
                assert(slots[slots.len() - 1].address@ == address);
            } else {
                let i = choose|i: int| 0 <= i < rest.len() && #[trigger] rest[i].address@ == address;
                assert(slots[i].address@ == address);
            }
        }
        if exists|i: int| 0 <= i < slots.len() && #[trigger] slots[i].address@ == address {
            let i = choose|i: int| 0 <= i < slots.len() && #[trigger] slots[i].address@ == address;
            if i < rest.len() {
                assert(rest[i].address@ == address);
            }
        }
    }
}

proof fn lemma_slots_map_len(slots: Seq<Slot>)
    requires
        distinct_addresses(slots),
    ensures
        slots_map(slots).dom().finite(),
        slots_map(slots).dom().len() == slots.len(),
    decreases slots.len(),
{
    if slots.len() > 0 {
        let rest = slots.drop_last();
        assert(distinct_addresses(rest)) by {
            assert forall|a: int, b: int| 0 <= a < b < rest.len() implies rest[a].address@ != rest[b].address@ by {
                assert(rest[a] == slots[a] && rest[b] == slots[b]);
            }
        }
        lemma_slots_map_len(rest);
        lemma_slots_map_domain(rest, slots.last().address@);
        assert(!slots_map(rest).contains_key(slots.last().address@)) by {
            if exists|i: int| 0 <= i < rest.len() && #[trigger] rest[i].address@ == slots.last().address@ {
                let i = choose|i: int| 0 <= i < rest.len() && #[trigger] rest[i].address@ == slots.last().address@;
                assert(slots[i].address@ != slots[slots.len() - 1].address@);
            }
        }
        assert(slots_map(slots).dom() =~= slots_map(rest).dom().insert(slots.last().address@));
    }
}

proof fn lemma_slots_map_entry(slots: Seq<Slot>, i: int)
    requires
        distinct_addresses(slots),
        0 <= i < slots.len(),
    ensures
        slots_map(slots).contains_key(slots[i].address@),
        slots_map(slots)[slots[i].address@] == slots[i].record@,
    decreases slots.len(),
{
    let rest = slots.drop_last();
    if i < slots.len() - 1 {
        assert(distinct_addresses(rest)) by {
            assert forall|a: int, b: int| 0 <= a < b < rest.len() implies rest[a].address@ != rest[b].address@ by {
                assert(rest[a] == slots[a] && rest[b] == slots[b]);
            }
        }
        lemma_slots_map_entry(rest, i);
        assert(rest[i] == slots[i]);
        assert(slots[i].address@ != slots[slots.len() - 1].address@);
    }
}

/// Why a request is refused at `address`, if it is: the first of the
/// conditions, in this order, that holds. `clock` is the runtime's reading of
/// its clock, `accepted` the authority verifier's judgement of the request.
pub open spec fn spec_refusal(
    ledger: Map<Seq<u8>, RecordView>,
    allocation_cost: u64,
    address: Seq<u8>,
    request: Submission,
    clock: Option<i64>,
    accepted: bool,
) -> Option<LedgerError> {
    if ledger.contains_key(address) {
        Some(LedgerError::AddressCollision)
    } else if request.sender_lamports < allocation_cost {
        Some(LedgerError::FundingFailure)
    } else if clock is None {
        Some(LedgerError::ClockUnavailable)
    } else if !spec_fits(request.transaction_id, request.signature) {
        Some(LedgerError::OversizeField)
    } else if !accepted {
        Some(LedgerError::Unauthorized)
    } else {
        None
    }
}

/// The ledger after a request for `address`: with the new record where the
/// request is not refused, unchanged where it is.
pub open spec fn spec_create(
    ledger: Map<Seq<u8>, RecordView>,
    allocation_cost: u64,
    address: Seq<u8>,
    request: Submission,
    clock: Option<i64>,
    accepted: bool,
) -> Map<Seq<u8>, RecordView> {
    if spec_refusal(ledger, allocation_cost, address, request, clock, accepted) is None {
        ledger.insert(address, spec_new_record(request, clock.unwrap()))
    } else {
        ledger
    }
}

impl Ledger {
    /// The records by address.
    pub closed spec fn view(&self) -> Map<Seq<u8>, RecordView> {
        slots_map(self.slots@)
    }

    /// The program under which the addresses of this ledger are derived.
    pub closed spec fn spec_program_id(&self) -> Seq<u8> {
        self.program_id@
    }

    /// What the funding party pays for the storage of one record.
    pub closed spec fn spec_allocation_cost(&self) -> u64 {
        self.allocation_cost
    }

    /// The ledger is well formed: no address is in use twice.
    pub closed spec fn wf(&self) -> bool {
        distinct_addresses(self.slots@)
    }

    /// An empty ledger for the program `program_id`, in which the storage of one
    /// record costs `allocation_cost`.
    pub fn new(program_id: Address, allocation_cost: u64) -> (ledger: Ledger)
        ensures
            ledger.wf(),
            ledger@ == Map::<Seq<u8>, RecordView>::empty(),
            ledger.spec_program_id() == program_id@,
            ledger.spec_allocation_cost() == allocation_cost,
    {
        Ledger { program_id, allocation_cost, slots: Vec::new() }
    }

    /// The program under which the addresses of this ledger are derived.
    pub fn program_id(&self) -> (program: &Address)
        ensures
            program@ == self.spec_program_id(),
    {
        &self.program_id
    }

    /// What the funding party pays for the storage of one record.
    pub fn allocation_cost(&self) -> (cost: u64)
        ensures
            cost == self.spec_allocation_cost(),
    {
        self.allocation_cost
    }

    /// Number of records.
    pub fn len(&self) -> (len: usize)
        requires
            self.wf(),
        ensures
            self@.dom().finite(),
            len == self@.dom().len(),
    {
        proof {
            lemma_slots_map_len(self.slots@);
        }
        self.slots.len()
    }

    /// The slot that holds `address`, if one does.
    fn position(&self, address: &Address) -> (found: Option<usize>)
        ensures
            match found {
                Some(i) => i < self.slots@.len() && self.slots@[i as int].address@ == address@,
                None => !self@.contains_key(address@),
            },
    {
        let mut i: usize = 0;
        while i < self.slots.len()
            invariant
                i <= self.slots@.len(),
                forall|j: int| 0 <= j < i ==> self.slots@[j].address@ != address@,
            decreases self.slots@.len() - i,
        {
            if same_address(&self.slots[i].address, address) {
                return Some(i);
            }
            i += 1;
        }
        proof {
            lemma_slots_map_domain(self.slots@, address@);
        }
        None
    }

    /// Whether `address` holds a record.
    pub fn contains(&self, address: &Address) -> (held: bool)
        ensures
            held == self@.contains_key(address@),
    {
        let found = self.position(address);
        proof {
            lemma_slots_map_domain(self.slots@, address@);
        }
        found.is_some()
    }

    /// The record at `address`, if there is one.
    pub fn get(&self, address: &Address) -> (found: Option<&TransactionRecord>)
        requires
            self.wf(),
        ensures
            match found {
                Some(record) => self@.contains_key(address@) && record@ == self@[address@],
                None => !self@.contains_key(address@),
            },
    {
        match self.position(address) {
            Some(i) => {
                proof {
                    lemma_slots_map_entry(self.slots@, i as int);
                }
                Some(&self.slots[i].record)
            },
            None => None,
        }
    }

    /// Creates the record of a request at the address of `handle`, stamped
    /// with the runtime's reading of its clock, `clock`, which is `None` where
    /// the runtime gave none. The request is refused, and the ledger left as it
    /// was, where the address is in use, where the funding party holds less
    /// than the allocation costs, where there is no clock reading, where the
    /// record does not fit the reserved space, and where `verifier` does not
    /// accept the request; the first of these that holds decides the error. No
    /// record that the ledger held is changed.
    pub fn create_record<V: AuthorityVerifier>(
        &mut self,
        verifier: &V,
        handle: RecordHandle,
        accounts: &ProcessTransaction,
        transaction_id: String,
        amount: u64,
        fraud_score: u8,
        is_fraud: bool,
        signature: Vec<u8>,
        clock: Option<i64>,
    ) -> (r: Result<RecordHandle, LedgerError>)
        requires
            old(self).wf(),
        ensures
            final(self).wf(),
            final(self).spec_program_id() == old(self).spec_program_id(),
            final(self).spec_allocation_cost() == old(self).spec_allocation_cost(),
            final(self)@ == spec_create(
                old(self)@,
                old(self).spec_allocation_cost(),
                handle.address@,
                submission(*accounts, transaction_id@, amount, fraud_score, is_fraud, signature@),
                clock,
                verifier.accepts(
                    submission(*accounts, transaction_id@, amount, fraud_score, is_fraud, signature@),
                ),
            ),
            r is Err ==> final(self)@ == old(self)@,
            forall|address: Seq<u8>| #[trigger]
                old(self)@.contains_key(address) ==> final(self)@.contains_key(address)
                    && final(self)@[address] == old(self)@[address],
            match r {
                Ok(created) => created == handle && spec_refusal(
                    old(self)@,
                    old(self).spec_allocation_cost(),
                    handle.address@,
                    submission(*accounts, transaction_id@, amount, fraud_score, is_fraud, signature@),
                    clock,
                    verifier.accepts(
                        submission(*accounts, transaction_id@, amount, fraud_score, is_fraud, signature@),
                    ),
                ) is None,
                Err(e) => spec_refusal(
                    old(self)@,
                    old(self).spec_allocation_cost(),
                    handle.address@,
                    submission(*accounts, transaction_id@, amount, fraud_score, is_fraud, signature@),
                    clock,
                    verifier.accepts(
                        submission(*accounts, transaction_id@, amount, fraud_score, is_fraud, signature@),
                    ),
                ) == Some(e),
            },
    {
        if self.contains(&handle.address) {
            return Err(LedgerError::AddressCollision);
        }
        if accounts.sender_lamports < self.allocation_cost {
            return Err(LedgerError::FundingFailure);
        }
        let now: i64 = match clock {
            Some(reading) => reading,
            None => {
                return Err(LedgerError::ClockUnavailable);
            },
        };
        let record = TransactionRecord::new(accounts, transaction_id, amount, fraud_score, is_fraud, signature, now);
        if !record.fits() {
            return Err(LedgerError::OversizeField);
        }
        let accepted = verifier.verify(
            accounts,
            record.transaction_id.as_str(),
            amount,
            fraud_score,
            is_fraud,
            record.signature.as_slice(),
        );
        if !accepted {
            return Err(LedgerError::Unauthorized);
        }
        proof {
            lemma_slots_map_domain(self.slots@, handle.address@);
        }
        self.slots.push(Slot { address: handle.address, record });
        proof {
            assert(self.slots@.drop_last() =~= old(self).slots@);
        }
        Ok(handle)
    }
}

} // verus!
