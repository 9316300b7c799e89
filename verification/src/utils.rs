//! Label tables for account positions.

use std::collections::HashMap;
use vstd::prelude::*;

verus! {

/// The label of each account position of a liquidity-pool instruction.
pub open spec fn pumpamm_labels() -> Seq<&'static str> {
    seq![
        "Pool",
        "User",
        "Global Config",
        "Base Mint",
        "Quote Mint",
        "User Base Token Account",
        "User Quote Token Account",
        "Pool Base Token Account",
        "Pool Quote Token Account",
        "Protocol Fee Recipient",
        "Protocol Fee Recipient Token Account",
        "Base Token Program",
        "Quote Token Program",
        "System Program",
        "Associated Token Program",
        "Event Authority",
        "Program",
    ]
}

/// The label of each account position of a liquidity-pool instruction.
pub fn pumpamm_label_table() -> (table: Vec<&'static str>)
    ensures
        table@ == pumpamm_labels(),
{
    let table = vec![
        "Pool",
        "User",
        "Global Config",
        "Base Mint",
        "Quote Mint",
        "User Base Token Account",
        "User Quote Token Account",
        "Pool Base Token Account",
        "Pool Quote Token Account",
        "Protocol Fee Recipient",
        "Protocol Fee Recipient Token Account",
        "Base Token Program",
        "Quote Token Program",
        "System Program",
        "Associated Token Program",
        "Event Authority",
        "Program",
    ];
    assert(table@ =~= pumpamm_labels());
    table
}

/// The same labels as a map from position to label: it holds exactly the
/// positions of the table, each with its label.
pub fn get_pumpamm_account_labels() -> (labels: HashMap<usize, &'static str>)
    ensures
        forall|i: usize| labels@.contains_key(i) <==> (i as int) < pumpamm_labels().len(),
        forall|i: usize|
            (i as int) < pumpamm_labels().len() ==> #[trigger] labels@[i] == pumpamm_labels()[i
                as int],
{
    broadcast use vstd::std_specs::hash::group_hash_axioms;

    let table = pumpamm_label_table();
    let mut labels: HashMap<usize, &'static str> = HashMap::new();
    let mut i: usize = 0;
    while i < table.len()
        invariant
            i <= table.len(),
            table@ == pumpamm_labels(),
            forall|k: usize| labels@.contains_key(k) <==> k < i,
            forall|k: usize| k < i ==> #[trigger] labels@[k] == table@[k as int],
        decreases table.len() - i,
    {
        labels.insert(i, table[i]);
        i += 1;
    }
    labels
}

} // verus!
