//! The result set of one slot: per tracked program the decoded transactions
//! in the order they were added, and the set of their signatures.

use crate::models::boop_parser::BoopTransaction;
use crate::models::pump_parser::PumpTransaction;
use crate::models::pumpamm_parser::PumpAmmTransaction;
use crate::program::ProgramTransaction;
use crate::text::{decimal_text, push_decimal};
use vstd::hash_set::StringHashSet;
use vstd::prelude::*;
use vstd::string::*;

verus! {

/// The signatures of a list of decoded transactions, as a set: a signature
/// that several of them carry is in it once.
pub open spec fn signatures_of<T: ProgramTransaction>(txs: Seq<T>) -> Set<Seq<char>> {
    Set::new(
        |s: Seq<char>|
            exists|i: int| 0 <= i < txs.len() && (#[trigger] txs[i]).signature_view() == s,
    )
}

/// The signatures of two lists together are those of the one and of the other.
pub proof fn lemma_signatures_of_concat<T: ProgramTransaction>(a: Seq<T>, b: Seq<T>)
    ensures
        signatures_of(a + b) == signatures_of(a).union(signatures_of(b)),
{
    assert forall|s: Seq<char>| signatures_of(a + b).contains(s) implies signatures_of(a).union(
        signatures_of(b),
    ).contains(s) by {
        let i = choose|i: int|
            0 <= i < (a + b).len() && (#[trigger] (a + b)[i]).signature_view() == s;
        if i < a.len() {
            assert(a[i].signature_view() == s);
        } else {
            assert(b[i - a.len()].signature_view() == s);
        }
    }
    assert forall|s: Seq<char>| signatures_of(a).union(signatures_of(b)).contains(
        s,
    ) implies signatures_of(a + b).contains(s) by {
        if signatures_of(a).contains(s) {
            let i = choose|i: int| 0 <= i < a.len() && (#[trigger] a[i]).signature_view() == s;
            assert((a + b)[i].signature_view() == s);
        } else {
            let i = choose|i: int| 0 <= i < b.len() && (#[trigger] b[i]).signature_view() == s;
            assert((a + b)[i + a.len()].signature_view() == s);
        }
    }
    assert(signatures_of(a + b) =~= signatures_of(a).union(signatures_of(b)));
}

/// A signature is recorded once however often it occurs: the set of a list's
/// signatures is finite, holds no more members than the list has
/// transactions, and does not change when a transaction that is already in
/// the list is added again.
pub proof fn lemma_signature_recorded_once<T: ProgramTransaction>(txs: Seq<T>, again: T)
    ensures
        signatures_of(txs).finite(),
        signatures_of(txs).len() <= txs.len(),
        signatures_of(txs).contains(again.signature_view()) ==> signatures_of(txs.push(again))
            == signatures_of(txs),
    decreases txs.len(),
{
    if txs.len() == 0 {
        assert(signatures_of(txs) =~= Set::<Seq<char>>::empty());
    } else {
        let front = txs.drop_last();
        lemma_signature_recorded_once(front, txs.last());
        lemma_signatures_of_concat(front, seq![txs.last()]);
        assert(front + seq![txs.last()] =~= txs);
        assert(signatures_of(seq![txs.last()]) =~= set![txs.last().signature_view()]) by {
            assert(seq![txs.last()][0].signature_view() == txs.last().signature_view());
        }
        assert(signatures_of(txs) =~= signatures_of(front).insert(txs.last().signature_view()));
    }
    lemma_signatures_of_concat(txs, seq![again]);
    assert(txs + seq![again] =~= txs.push(again));
    assert(signatures_of(seq![again]) =~= set![again.signature_view()]) by {
        assert(seq![again][0].signature_view() == again.signature_view());
    }
    if signatures_of(txs).contains(again.signature_view()) {
        assert(signatures_of(txs).union(set![again.signature_view()]) =~= signatures_of(txs));
    }
}

/// Inserts the signature of each transaction of `txs` into `set`.
pub fn record_signatures<T: ProgramTransaction>(set: &mut StringHashSet, txs: &Vec<T>)
    ensures
        final(set)@ == old(set)@.union(signatures_of(txs@)),
{
    let mut i: usize = 0;
    assert(signatures_of(txs@.take(0)) =~= Set::<Seq<char>>::empty());
    assert(set@ =~= old(set)@.union(signatures_of(txs@.take(0))));
    while i < txs.len()
        invariant
            i <= txs.len(),
            set@ == old(set)@.union(signatures_of(txs@.take(i as int))),
        decreases txs.len() - i,
    {
        let signature = txs[i].signature_string();
        proof {
            lemma_signatures_of_concat(txs@.take(i as int), seq![txs@[i as int]]);
            assert(txs@.take(i as int) + seq![txs@[i as int]] =~= txs@.take(i as int + 1));
            assert(signatures_of(seq![txs@[i as int]]) =~= set![signature@]) by {
                assert(seq![txs@[i as int]][0].signature_view() == signature@);
            }
        }
        set.insert(signature);
        assert(set@ =~= old(set)@.union(signatures_of(txs@.take(i as int + 1))));
        i += 1;
    }
    assert(txs@.take(i as int) =~= txs@);
}

/// The rule that opens and closes the block of a transaction.
pub open spec fn rule_line() -> Seq<char> {
    "--------------------------------------------------------\n"@
}

/// The block of one decoded transaction: the program's name, the slot, the
/// signature and the transaction's text, between two rules.
pub open spec fn block_text(
    parser: Seq<char>,
    slot: u64,
    signature: Seq<char>,
    body: Seq<char>,
) -> Seq<char> {
    rule_line() + "Parser:"@ + parser + "\n"@ + "Slot:"@ + decimal_text(slot as nat) + "\n"@
        + "Signature:"@ + signature + "\n"@ + body + "\n"@ + rule_line()
}

/// The blocks of a list of decoded transactions, in order.
pub open spec fn blocks_text<T: ProgramTransaction>(
    parser: Seq<char>,
    slot: u64,
    txs: Seq<T>,
) -> Seq<char>
    decreases txs.len(),
{
    if txs.len() == 0 {
        Seq::empty()
    } else {
        blocks_text(parser, slot, txs.drop_last()) + block_text(
            parser,
            slot,
            txs.last().signature_view(),
            txs.last().text(),
        )
    }
}

/// Appends the block of each transaction of `txs`.
pub fn push_blocks<T: ProgramTransaction>(out: &mut String, parser: &str, slot: u64, txs: &Vec<T>)
    ensures
        final(out)@ == old(out)@ + blocks_text(parser@, slot, txs@),
{
    let mut i: usize = 0;
    assert(txs@.take(0) =~= Seq::<T>::empty());
    assert(out@ =~= old(out)@ + blocks_text(parser@, slot, txs@.take(0)));
    while i < txs.len()
        invariant
            i <= txs.len(),
            out@ == old(out)@ + blocks_text(parser@, slot, txs@.take(i as int)),
        decreases txs.len() - i,
    {
        let ghost before = out@;
        let tx = &txs[i];
        let signature = tx.signature_string();
        let body = tx.render();
        out.append("--------------------------------------------------------\n");
        out.append("Parser:");
        out.append(parser);
        out.append("\n");
        out.append("Slot:");
        push_decimal(out, slot);
        out.append("\n");
        out.append("Signature:");
        out.append(signature.as_str());
        out.append("\n");
        out.append(body.as_str());
        out.append("\n");
        out.append("--------------------------------------------------------\n");
        proof {
            assert(txs@.take(i as int + 1).drop_last() =~= txs@.take(i as int));
            assert(txs@.take(i as int + 1).last() == *tx);
            assert(out@ =~= before + block_text(parser@, slot, tx.signature_view(), tx.text()));
            assert(out@ =~= old(out)@ + blocks_text(parser@, slot, txs@.take(i as int + 1)));
        }
        i += 1;
    }
    assert(txs@.take(i as int) =~= txs@);
}

/// The decoded transactions of one slot, per tracked program, with the set of
/// their signatures.
pub struct TransactionResults {
    pub pump_signatures: StringHashSet,
    pub pumpamm_signatures: StringHashSet,
    pub boop_signatures: StringHashSet,
    pub pump_transactions: Vec<PumpTransaction>,
    pub pumpamm_transactions: Vec<PumpAmmTransaction>,
    pub boop_transactions: Vec<BoopTransaction>,
    pub current_slot: u64,
}

impl TransactionResults {
    /// Each program's signature set holds exactly the signatures of the
    /// program's transactions.
    pub open spec fn wf(&self) -> bool {
        &&& self.pump_signatures@ == signatures_of(self.pump_transactions@)
        &&& self.pumpamm_signatures@ == signatures_of(self.pumpamm_transactions@)
        &&& self.boop_signatures@ == signatures_of(self.boop_transactions@)
    }

    /// Whether nothing has been added yet.
    pub open spec fn is_empty(&self) -> bool {
        &&& self.pump_signatures@ == Set::<Seq<char>>::empty()
        &&& self.pumpamm_signatures@ == Set::<Seq<char>>::empty()
        &&& self.boop_signatures@ == Set::<Seq<char>>::empty()
        &&& self.pump_transactions@ == Seq::<PumpTransaction>::empty()
        &&& self.pumpamm_transactions@ == Seq::<PumpAmmTransaction>::empty()
        &&& self.boop_transactions@ == Seq::<BoopTransaction>::empty()
    }

    /// Whether any program's signature set has a member.
    pub open spec fn has_results_spec(&self) -> bool {
        !self.pump_signatures@.is_empty() || !self.pumpamm_signatures@.is_empty()
            || !self.boop_signatures@.is_empty()
    }

    /// The text of the result set: nothing when no signature was recorded,
    /// else the blocks of each program's transactions.
    pub open spec fn text(&self) -> Seq<char> {
        if self.has_results_spec() {
            blocks_text("PUMP"@, self.current_slot, self.pump_transactions@) + blocks_text(
                "PUMPAMM"@,
                self.current_slot,
                self.pumpamm_transactions@,
            ) + blocks_text("BOOP"@, self.current_slot, self.boop_transactions@)
        } else {
            Seq::empty()
        }
    }

    /// An empty result set for slot 0.
    pub fn new() -> (r: Self)
        ensures
            r.is_empty(),
            r.current_slot == 0,
            r.wf(),
    {
        let r = TransactionResults {
            pump_signatures: StringHashSet::with_capacity(128),
            pumpamm_signatures: StringHashSet::with_capacity(128),
            boop_signatures: StringHashSet::with_capacity(128),
            pump_transactions: Vec::with_capacity(128),
            pumpamm_transactions: Vec::with_capacity(128),
            boop_transactions: Vec::with_capacity(128),
            current_slot: 0,
        };
        assert(signatures_of(r.pump_transactions@) =~= Set::<Seq<char>>::empty());
        assert(signatures_of(r.pumpamm_transactions@) =~= Set::<Seq<char>>::empty());
        assert(signatures_of(r.boop_transactions@) =~= Set::<Seq<char>>::empty());
        r
    }

    /// Whether a transaction of any program was recorded.
    pub fn has_results(&self) -> (r: bool)
        ensures
            r == self.has_results_spec(),
    {
        !self.pump_signatures.is_empty() || !self.pumpamm_signatures.is_empty()
            || !self.boop_signatures.is_empty()
    }

    /// Sets the slot that the results belong to.
    pub fn set_current_slot(&mut self, slot: u64)
        ensures
            final(self).current_slot == slot,
            final(self).pump_signatures == old(self).pump_signatures,
            final(self).pumpamm_signatures == old(self).pumpamm_signatures,
            final(self).boop_signatures == old(self).boop_signatures,
            final(self).pump_transactions == old(self).pump_transactions,
            final(self).pumpamm_transactions == old(self).pumpamm_transactions,
            final(self).boop_transactions == old(self).boop_transactions,
    {
        self.current_slot = slot;
    }

    /// Records a decoded transaction of the bonding-curve program: its
    /// signature joins the set, where it is held once however often it is
    /// added, and the transaction is appended to the list.
    pub fn add_pump_transaction(&mut self, transaction: PumpTransaction)
        ensures
            final(self).pump_signatures@ == old(self).pump_signatures@.insert(
                transaction.signature@,
            ),
            final(self).pump_transactions@ == old(self).pump_transactions@.push(transaction),
            old(self).wf() ==> final(self).wf(),
            final(self).pumpamm_signatures == old(self).pumpamm_signatures,
            final(self).boop_signatures == old(self).boop_signatures,
            final(self).pumpamm_transactions == old(self).pumpamm_transactions,
            final(self).boop_transactions == old(self).boop_transactions,
            final(self).current_slot == old(self).current_slot,
    {
        proof {
            lemma_signatures_of_concat(self.pump_transactions@, seq![transaction]);
            assert(self.pump_transactions@ + seq![transaction] =~= self.pump_transactions@.push(
                transaction,
            ));
            assert(signatures_of(seq![transaction]) =~= set![transaction.signature@]) by {
                assert(seq![transaction][0].signature_view() == transaction.signature@);
            }
            assert(self.pump_signatures@.union(set![transaction.signature@])
                =~= self.pump_signatures@.insert(transaction.signature@));
        }
        self.pump_signatures.insert(transaction.signature.clone());
        self.pump_transactions.push(transaction);
    }

    /// Records a decoded transaction of the liquidity-pool program.
    pub fn add_pumpamm_transaction(&mut self, transaction: PumpAmmTransaction)
        ensures
            final(self).pumpamm_signatures@ == old(self).pumpamm_signatures@.insert(
                transaction.signature@,
            ),
            final(self).pumpamm_transactions@ == old(self).pumpamm_transactions@.push(transaction),
            old(self).wf() ==> final(self).wf(),
            final(self).pump_signatures == old(self).pump_signatures,
            final(self).boop_signatures == old(self).boop_signatures,
            final(self).pump_transactions == old(self).pump_transactions,
            final(self).boop_transactions == old(self).boop_transactions,
            final(self).current_slot == old(self).current_slot,
    {
        proof {
            lemma_signatures_of_concat(self.pumpamm_transactions@, seq![transaction]);
            assert(self.pumpamm_transactions@ + seq![transaction]
                =~= self.pumpamm_transactions@.push(transaction));
            assert(signatures_of(seq![transaction]) =~= set![transaction.signature@]) by {
                assert(seq![transaction][0].signature_view() == transaction.signature@);
            }
            assert(self.pumpamm_signatures@.union(set![transaction.signature@])
                =~= self.pumpamm_signatures@.insert(transaction.signature@));
        }
        self.pumpamm_signatures.insert(transaction.signature.clone());
        self.pumpamm_transactions.push(transaction);
    }

    /// Records a decoded transaction of the token-launch program.
    pub fn add_boop_transaction(&mut self, transaction: BoopTransaction)
        ensures
            final(self).boop_signatures@ == old(self).boop_signatures@.insert(
                transaction.signature@,
            ),
            final(self).boop_transactions@ == old(self).boop_transactions@.push(transaction),
            old(self).wf() ==> final(self).wf(),
            final(self).pump_signatures == old(self).pump_signatures,
            final(self).pumpamm_signatures == old(self).pumpamm_signatures,
            final(self).pump_transactions == old(self).pump_transactions,
            final(self).pumpamm_transactions == old(self).pumpamm_transactions,
            final(self).current_slot == old(self).current_slot,
    {
        proof {
            lemma_signatures_of_concat(self.boop_transactions@, seq![transaction]);
            assert(self.boop_transactions@ + seq![transaction] =~= self.boop_transactions@.push(
                transaction,
            ));
            assert(signatures_of(seq![transaction]) =~= set![transaction.signature@]) by {
                assert(seq![transaction][0].signature_view() == transaction.signature@);
            }
            assert(self.boop_signatures@.union(set![transaction.signature@])
                =~= self.boop_signatures@.insert(transaction.signature@));
        }
        self.boop_signatures.insert(transaction.signature.clone());
        self.boop_transactions.push(transaction);
    }

    /// Records a list of decoded transactions of the bonding-curve program,
    /// in order.
    pub fn add_pump_transactions(&mut self, transactions: Vec<PumpTransaction>)
        ensures
            final(self).pump_signatures@ == old(self).pump_signatures@.union(
                signatures_of(transactions@),
            ),
            final(self).pump_transactions@ == old(self).pump_transactions@ + transactions@,
            old(self).wf() ==> final(self).wf(),
            final(self).pumpamm_signatures == old(self).pumpamm_signatures,
            final(self).boop_signatures == old(self).boop_signatures,
            final(self).pumpamm_transactions == old(self).pumpamm_transactions,
            final(self).boop_transactions == old(self).boop_transactions,
            final(self).current_slot == old(self).current_slot,
    {
        let mut transactions = transactions;
        proof {
            lemma_signatures_of_concat(self.pump_transactions@, transactions@);
        }
        record_signatures(&mut self.pump_signatures, &transactions);
        self.pump_transactions.append(&mut transactions);
    }

    /// Records a list of decoded transactions of the liquidity-pool program,
    /// in order.
    pub fn add_pumpamm_transactions(&mut self, transactions: Vec<PumpAmmTransaction>)
        ensures
            final(self).pumpamm_signatures@ == old(self).pumpamm_signatures@.union(
                signatures_of(transactions@),
            ),
            final(self).pumpamm_transactions@ == old(self).pumpamm_transactions@ + transactions@,
            old(self).wf() ==> final(self).wf(),
            final(self).pump_signatures == old(self).pump_signatures,
            final(self).boop_signatures == old(self).boop_signatures,
            final(self).pump_transactions == old(self).pump_transactions,
            final(self).boop_transactions == old(self).boop_transactions,
            final(self).current_slot == old(self).current_slot,
    {
        let mut transactions = transactions;
        proof {
            lemma_signatures_of_concat(self.pumpamm_transactions@, transactions@);
        }
        record_signatures(&mut self.pumpamm_signatures, &transactions);
        self.pumpamm_transactions.append(&mut transactions);
    }

    /// Records a list of decoded transactions of the token-launch program, in
    /// order.
    pub fn add_boop_transactions(&mut self, transactions: Vec<BoopTransaction>)
        ensures
            final(self).boop_signatures@ == old(self).boop_signatures@.union(
                signatures_of(transactions@),
            ),
            final(self).boop_transactions@ == old(self).boop_transactions@ + transactions@,
            old(self).wf() ==> final(self).wf(),
            final(self).pump_signatures == old(self).pump_signatures,
            final(self).pumpamm_signatures == old(self).pumpamm_signatures,
            final(self).pump_transactions == old(self).pump_transactions,
            final(self).pumpamm_transactions == old(self).pumpamm_transactions,
            final(self).current_slot == old(self).current_slot,
    {
        let mut transactions = transactions;
        proof {
            lemma_signatures_of_concat(self.boop_transactions@, transactions@);
        }
        record_signatures(&mut self.boop_signatures, &transactions);
        self.boop_transactions.append(&mut transactions);
    }

    /// The text of the result set, for the caller to print.
    pub fn render(&self) -> (out: String)
        ensures
            out@ == self.text(),
    {
        let mut out = String::new();
        if !self.has_results() {
            return out;
        }
        push_blocks(&mut out, "PUMP", self.current_slot, &self.pump_transactions);
        push_blocks(&mut out, "PUMPAMM", self.current_slot, &self.pumpamm_transactions);
        push_blocks(&mut out, "BOOP", self.current_slot, &self.boop_transactions);
        assert(out@ =~= self.text());
        out
    }
}

impl Default for TransactionResults {
    fn default() -> (r: Self)
        ensures
            r.is_empty(),
            r.current_slot == 0,
            r.wf(),
    {
        TransactionResults::new()
    }
}

} // verus!
