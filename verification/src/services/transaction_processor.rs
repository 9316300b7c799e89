//! The batch processor: a slot's signed transactions are cut into batches of
//! fixed size, each batch is decoded for every tracked program on its own,
//! and the batches' results are merged into the slot's result set.

use crate::message::{Address, Entry, Transaction, address_bytes};
use crate::models::boop_parser::{BOOP_PROGRAM_ID, BoopParser, BoopTransaction};
use crate::models::pump_parser::{PUMP_PROGRAM_ID, PumpParser, PumpTransaction};
use crate::models::pumpamm_parser::{PUMP_AMM_PROGRAM_ID, PumpAmmParser, PumpAmmTransaction};
use crate::models::transaction::{TransactionResults, signatures_of};
use crate::program::ProgramTransaction;
use vstd::prelude::*;
use vstd::slice::slice_subrange;

verus! {

/// The number of transactions in a batch. It tunes how the work is shared
/// out; the result does not depend on it.
pub const BATCH_SIZE: usize = 200;

/// The entry point of slot processing.
pub struct TransactionProcessor;

/// What decoding one batch gives: per tracked program the decoded
/// transactions of the batch, in the batch's order.
pub struct BatchResults {
    pub pump: Vec<PumpTransaction>,
    pub pumpamm: Vec<PumpAmmTransaction>,
    pub boop: Vec<BoopTransaction>,
}

/// The transactions behind a list of references, in order.
pub open spec fn referents(txs: Seq<&Transaction>) -> Seq<Transaction> {
    txs.map_values(|t: &Transaction| *t)
}

/// The transactions of `txs` that carry a signature, in order.
pub open spec fn signed_in(txs: Seq<Transaction>) -> Seq<Transaction>
    decreases txs.len(),
{
    if txs.len() == 0 {
        Seq::empty()
    } else {
        let rest = signed_in(txs.drop_last());
        if txs.last().signatures@.len() > 0 {
            rest.push(txs.last())
        } else {
            rest
        }
    }
}

/// The signed transactions of a list of entries, in order of entry and of
/// transaction within the entry.
pub open spec fn signed_transactions(entries: Seq<Entry>) -> Seq<Transaction>
    decreases entries.len(),
{
    if entries.len() == 0 {
        Seq::empty()
    } else {
        signed_transactions(entries.drop_last()) + signed_in(entries.last().transactions@)
    }
}

/// The transactions of `txs` of which an instruction is decoded for the
/// program with the address bytes `program`, in order.
pub open spec fn matching(txs: Seq<Transaction>, program: Seq<u8>) -> Seq<Transaction>
    decreases txs.len(),
{
    if txs.len() == 0 {
        Seq::empty()
    } else {
        let rest = matching(txs.drop_last(), program);
        if txs.last().instructions_for(program).len() > 0 {
            rest.push(txs.last())
        } else {
            rest
        }
    }
}

/// Whether `out` holds, one for one and in order, what decoding each
/// transaction of `txs` for the program gives, leaving out those of which no
/// instruction is decoded for it. Without a program address nothing is
/// decoded.
pub open spec fn parsed_all<T: ProgramTransaction>(
    out: Seq<T>,
    txs: Seq<Transaction>,
    program: Option<Seq<u8>>,
) -> bool {
    match program {
        None => out.len() == 0,
        Some(p) => {
            &&& out.len() == matching(txs, p).len()
            &&& forall|i: int|
                0 <= i < out.len() ==> {
                    &&& (#[trigger] out[i]).parsed_from(matching(txs, p)[i], p)
                    &&& out[i].signature_view() == matching(txs, p)[i].signature_text()
                }
        },
    }
}

/// The matching transactions of two lists together are those of the one,
/// then those of the other.
pub proof fn lemma_matching_concat(a: Seq<Transaction>, b: Seq<Transaction>, program: Seq<u8>)
    ensures
        matching(a + b, program) == matching(a, program) + matching(b, program),
    decreases b.len(),
{
    if b.len() == 0 {
        assert(a + b =~= a);
        assert(matching(a, program) + matching(b, program) =~= matching(a, program));
    } else {
        lemma_matching_concat(a, b.drop_last(), program);
        assert((a + b).drop_last() =~= a + b.drop_last());
        assert((a + b).last() == b.last());
        assert(matching(a + b, program) =~= matching(a, program) + matching(b, program));
    }
}

/// Decoding is batch by batch: what two batches give, one after the other,
/// is what the two together give.
pub proof fn lemma_parsed_all_concat<T: ProgramTransaction>(
    out_a: Seq<T>,
    a: Seq<Transaction>,
    out_b: Seq<T>,
    b: Seq<Transaction>,
    program: Option<Seq<u8>>,
)
    requires
        parsed_all(out_a, a, program),
        parsed_all(out_b, b, program),
    ensures
        parsed_all(out_a + out_b, a + b, program),
{
    match program {
        None => {},
        Some(p) => {
            lemma_matching_concat(a, b, p);
            assert forall|i: int| 0 <= i < (out_a + out_b).len() implies {
                &&& (#[trigger] (out_a + out_b)[i]).parsed_from(matching(a + b, p)[i], p)
                &&& (out_a + out_b)[i].signature_view() == matching(a + b, p)[i].signature_text()
            } by {
                if i < out_a.len() {
                    assert((out_a + out_b)[i] == out_a[i]);
                } else {
                    assert((out_a + out_b)[i] == out_b[i - out_a.len()]);
                }
            }
        },
    }
}

/// Whether no two transactions of `txs` have the same signature text.
pub open spec fn signed_apart(txs: Seq<Transaction>) -> bool {
    forall|i: int, j: int|
        0 <= i < j < txs.len() ==> (#[trigger] txs[i]).signature_text() != (
        #[trigger] txs[j]).signature_text()
}

/// Whether no two decoded transactions of `out` carry the same signature.
pub open spec fn one_entry_per_signature<T: ProgramTransaction>(out: Seq<T>) -> bool {
    forall|i: int, j: int|
        0 <= i < j < out.len() ==> (#[trigger] out[i]).signature_view() != (
        #[trigger] out[j]).signature_view()
}

/// Every matching transaction is one of the transactions matched against.
pub proof fn lemma_matching_members(txs: Seq<Transaction>, program: Seq<u8>, j: int)
    requires
        0 <= j < matching(txs, program).len(),
    ensures
        exists|i: int| 0 <= i < txs.len() && txs[i] == matching(txs, program)[j],
    decreases txs.len(),
{
    if txs.len() > 0 {
        let front = txs.drop_last();
        if j < matching(front, program).len() {
            lemma_matching_members(front, program, j);
            let i = choose|i: int| 0 <= i < front.len() && front[i] == matching(front, program)[j];
            assert(txs[i] == matching(txs, program)[j]);
        } else {
            assert(txs[txs.len() - 1] == matching(txs, program)[j]);
        }
    }
}

/// Matching keeps signatures apart: of transactions that all differ in their
/// signature text, those that match differ in it too.
pub proof fn lemma_matching_keeps_apart(txs: Seq<Transaction>, program: Seq<u8>)
    requires
        signed_apart(txs),
    ensures
        signed_apart(matching(txs, program)),
    decreases txs.len(),
{
    if txs.len() > 0 {
        let front = txs.drop_last();
        assert(signed_apart(front)) by {
            assert forall|i: int, j: int| 0 <= i < j < front.len() implies (
            #[trigger] front[i]).signature_text() != (#[trigger] front[j]).signature_text() by {
                assert(front[i] == txs[i] && front[j] == txs[j]);
            }
        }
        lemma_matching_keeps_apart(front, program);
        let found = matching(txs, program);
        let before = matching(front, program);
        assert forall|i: int, j: int| 0 <= i < j < found.len() implies (
        #[trigger] found[i]).signature_text() != (#[trigger] found[j]).signature_text() by {
            if j < before.len() {
                assert(found[i] == before[i] && found[j] == before[j]);
            } else {
                lemma_matching_members(front, program, i);
                let k = choose|k: int| 0 <= k < front.len() && front[k] == before[i];
                assert(txs[k] == found[i]);
                assert(txs[txs.len() - 1] == found[j]);
            }
        }
    }
}

/// When every transaction of a slot has a signature of its own, every
/// signature of a program's list stands for exactly one entry of the list.
pub proof fn lemma_one_entry_per_signature<T: ProgramTransaction>(
    out: Seq<T>,
    txs: Seq<Transaction>,
    program: Option<Seq<u8>>,
)
    requires
        parsed_all(out, txs, program),
        signed_apart(txs),
    ensures
        one_entry_per_signature(out),
{
    match program {
        None => {},
        Some(p) => {
            lemma_matching_keeps_apart(txs, p);
            let found = matching(txs, p);
            assert forall|i: int, j: int| 0 <= i < j < out.len() implies (
            #[trigger] out[i]).signature_view() != (#[trigger] out[j]).signature_view() by {
                assert(out[i].signature_view() == found[i].signature_text());
                assert(out[j].signature_view() == found[j].signature_text());
            }
        },
    }
}

/// The signed transactions of `entries`, by reference, in order.
pub fn collect_signed(entries: &[Entry]) -> (signed: Vec<&Transaction>)
    ensures
        referents(signed@) == signed_transactions(entries@),
{
    let mut signed: Vec<&Transaction> = Vec::new();
    let mut e: usize = 0;
    assert(entries@.take(0) =~= Seq::<Entry>::empty());
    assert(referents(signed@) =~= signed_transactions(entries@.take(0)));
    while e < entries.len()
        invariant
            e <= entries.len(),
            referents(signed@) == signed_transactions(entries@.take(e as int)),
        decreases entries.len() - e,
    {
        let entry = &entries[e];
        let ghost before = referents(signed@);
        let mut t: usize = 0;
        assert(entry.transactions@.take(0) =~= Seq::<Transaction>::empty());
        assert(referents(signed@) =~= before + signed_in(entry.transactions@.take(0)));
        while t < entry.transactions.len()
            invariant
                t <= entry.transactions.len(),
                referents(signed@) == before + signed_in(entry.transactions@.take(t as int)),
            decreases entry.transactions.len() - t,
        {
            let tx = &entry.transactions[t];
            let ghost so_far = referents(signed@);
            assert(entry.transactions@.take(t as int + 1).drop_last()
                =~= entry.transactions@.take(t as int));
            assert(entry.transactions@.take(t as int + 1).last() == *tx);
            if tx.is_signed() {
                signed.push(tx);
                assert(referents(signed@) =~= so_far.push(*tx));
            }
            assert(referents(signed@) =~= before + signed_in(
                entry.transactions@.take(t as int + 1),
            ));
            t += 1;
        }
        proof {
            assert(entry.transactions@.take(t as int) =~= entry.transactions@);
            assert(entries@.take(e as int + 1).drop_last() =~= entries@.take(e as int));
            assert(entries@.take(e as int + 1).last() == *entry);
        }
        e += 1;
    }
    assert(entries@.take(e as int) =~= entries@);
    signed
}

/// Decodes each transaction of a batch for one program. Without a program
/// address nothing is decoded.
pub fn decode_batch<T: ProgramTransaction>(
    batch: &[&Transaction],
    program: &Option<Address>,
) -> (out: Vec<T>)
    ensures
        parsed_all(
            out@,
            referents(batch@),
            match *program {
                Some(a) => Some(a@),
                None => None,
            },
        ),
{
    let mut out: Vec<T> = Vec::new();
    let address = match program {
        Some(a) => a,
        None => { return out; },
    };
    let mut i: usize = 0;
    assert(referents(batch@).take(0) =~= Seq::<Transaction>::empty());
    while i < batch.len()
        invariant
            i <= batch.len(),
            parsed_all(out@, referents(batch@).take(i as int), Some(address@)),
        decreases batch.len() - i,
    {
        let tx: &Transaction = batch[i];
        let ghost all = referents(batch@);
        let ghost before = out@;
        assert(all.take(i as int + 1).drop_last() =~= all.take(i as int));
        assert(all.take(i as int + 1).last() == *tx);
        match T::decode_for_program(tx, address) {
            Some(decoded) => {
                out.push(decoded);
                assert(forall|j: int| 0 <= j < before.len() ==> out@[j] == before[j]);
            },
            None => {},
        }
        i += 1;
    }
    assert(referents(batch@).take(i as int) =~= referents(batch@));
    out
}

impl BatchResults {
    /// Whether `self` is what decoding the batch `txs` for each tracked
    /// program gives.
    pub open spec fn decoded_from(&self, txs: Seq<Transaction>) -> bool {
        &&& parsed_all(self.pump@, txs, address_bytes(PUMP_PROGRAM_ID@))
        &&& parsed_all(self.pumpamm@, txs, address_bytes(PUMP_AMM_PROGRAM_ID@))
        &&& parsed_all(self.boop@, txs, address_bytes(BOOP_PROGRAM_ID@))
    }
}

impl TransactionResults {
    /// Whether `self` is the result set of the signed transactions `txs` in
    /// slot `slot`: each program's list holds what decoding `txs` for the
    /// program gives, in order, and its set holds the signatures of the list.
    pub open spec fn is_result_of(&self, txs: Seq<Transaction>, slot: u64) -> bool {
        &&& self.current_slot == slot
        &&& self.wf()
        &&& parsed_all(self.pump_transactions@, txs, address_bytes(PUMP_PROGRAM_ID@))
        &&& parsed_all(self.pumpamm_transactions@, txs, address_bytes(PUMP_AMM_PROGRAM_ID@))
        &&& parsed_all(self.boop_transactions@, txs, address_bytes(BOOP_PROGRAM_ID@))
    }

    /// Merges the results of one batch: each program's transactions are
    /// appended in the batch's order and their signatures recorded.
    pub fn merge_batch(&mut self, batch: BatchResults)
        ensures
            final(self).pump_transactions@ == old(self).pump_transactions@ + batch.pump@,
            final(self).pumpamm_transactions@ == old(self).pumpamm_transactions@ + batch.pumpamm@,
            final(self).boop_transactions@ == old(self).boop_transactions@ + batch.boop@,
            final(self).pump_signatures@ == old(self).pump_signatures@.union(
                signatures_of(batch.pump@),
            ),
            final(self).pumpamm_signatures@ == old(self).pumpamm_signatures@.union(
                signatures_of(batch.pumpamm@),
            ),
            final(self).boop_signatures@ == old(self).boop_signatures@.union(
                signatures_of(batch.boop@),
            ),
            final(self).current_slot == old(self).current_slot,
            old(self).wf() ==> final(self).wf(),
    {
        let BatchResults { pump, pumpamm, boop } = batch;
        self.add_pump_transactions(pump);
        self.add_pumpamm_transactions(pumpamm);
        self.add_boop_transactions(boop);
    }
}

impl TransactionProcessor {
    /// Decodes one batch for every tracked program.
    pub fn process_batch(batch: &[&Transaction]) -> (r: BatchResults)
        ensures
            r.decoded_from(referents(batch@)),
    {
        let pump_id = PumpParser::program_id();
        let pumpamm_id = PumpAmmParser::program_id();
        let boop_id = BoopParser::program_id();
        BatchResults {
            pump: decode_batch(batch, &pump_id),
            pumpamm: decode_batch(batch, &pumpamm_id),
            boop: decode_batch(batch, &boop_id),
        }
    }

    /// Processes the entries of one slot. Transactions without a signature
    /// are left out; every other transaction is decoded for every tracked
    /// program, and what was decoded is gathered in the slot's result set.
    pub fn process_entries(entries: &[Entry], slot: u64) -> (results: TransactionResults)
        ensures
            results.is_result_of(signed_transactions(entries@), slot),
    {
        Self::process_in_batches(entries, slot, BATCH_SIZE)
    }

    /// Processes the entries of one slot in batches of `batch_size`
    /// transactions. The result is the same for every batch size.
    pub fn process_in_batches(
        entries: &[Entry],
        slot: u64,
        batch_size: usize,
    ) -> (results: TransactionResults)
        requires
            batch_size > 0,
        ensures
            results.is_result_of(signed_transactions(entries@), slot),
    {
        let mut results = TransactionResults::new();
        results.set_current_slot(slot);
        let signed = collect_signed(entries);
        let ghost all = referents(signed@);
        let total: usize = signed.len();
        let mut start: usize = 0;
        assert(all.take(0) =~= Seq::<Transaction>::empty());
        while start < total
            invariant
                start <= total,
                total == signed.len(),
                batch_size > 0,
                all == referents(signed@),
                results.is_result_of(all.take(start as int), slot),
            decreases total - start,
        {
            let end: usize = if total - start > batch_size {
                start + batch_size
            } else {
                total
            };
            let batch = slice_subrange(signed.as_slice(), start, end);
            let local = Self::process_batch(batch);
            proof {
                let done = all.take(start as int);
                let now = referents(batch@);
                assert(done + now =~= all.take(end as int));
                lemma_parsed_all_concat(
                    results.pump_transactions@,
                    done,
                    local.pump@,
                    now,
                    address_bytes(PUMP_PROGRAM_ID@),
                );
                lemma_parsed_all_concat(
                    results.pumpamm_transactions@,
                    done,
                    local.pumpamm@,
                    now,
                    address_bytes(PUMP_AMM_PROGRAM_ID@),
                );
                lemma_parsed_all_concat(
                    results.boop_transactions@,
                    done,
                    local.boop@,
                    now,
                    address_bytes(BOOP_PROGRAM_ID@),
                );
            }
            results.merge_batch(local);
            start = end;
        }
        assert(all.take(start as int) =~= all);
        results
    }
}

} // verus!
