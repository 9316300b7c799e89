use shreds_client::message::{AccountKeyTable, Address, Entry, RawInstruction, Signature, Transaction};
use shreds_client::utils::{get_pumpamm_account_labels, pumpamm_label_table};
use shreds_client::{
    BATCH_SIZE, BOOP_PROGRAM_ID, BoopInstruction, BoopInstructionType, BoopParser, BoopTransaction,
    PUMP_AMM_PROGRAM_ID, PUMP_PROGRAM_ID, PumpAmmInstruction, PumpAmmInstructionType,
    PumpAmmParser, PumpAmmTransaction, PumpInstruction, PumpInstructionType, PumpParser,
    PumpTransaction, TransactionProcessor, TransactionResults,
};

fn key(byte: u8) -> Address {
    Address { bytes: [byte; 32] }
}

fn program(text: &str) -> Address {
    Address::from_base58(text).unwrap()
}

fn signature(n: usize) -> Signature {
    let mut bytes = [0u8; 64];
    bytes[0] = (n % 256) as u8;
    bytes[1] = (n / 256) as u8;
    bytes[63] = 1;
    Signature { bytes }
}

fn buy_payload() -> Vec<u8> {
    vec![102, 6, 61, 18, 1, 218, 235, 234, 1, 0, 0, 0, 0, 0, 0, 0, 10, 0, 0, 0, 0, 0, 0, 0]
}

fn invoking(program_key: Address, n: usize) -> Transaction {
    Transaction {
        signatures: vec![signature(n)],
        keys: AccountKeyTable { static_keys: vec![key(1), program_key], lookup_tables: vec![] },
        instructions: vec![RawInstruction {
            program_index: 1,
            account_indices: vec![0],
            payload: buy_payload(),
        }],
    }
}

fn pump_tx(sig: &str) -> PumpTransaction {
    PumpTransaction {
        signature: sig.to_string(),
        instructions: vec![PumpInstruction {
            instruction_type: PumpInstructionType::Buy,
            accounts: vec![],
            data: buy_payload(),
        }],
    }
}

fn amm_tx(sig: &str) -> PumpAmmTransaction {
    PumpAmmTransaction {
        signature: sig.to_string(),
        instructions: vec![PumpAmmInstruction {
            instruction_type: PumpAmmInstructionType::Sell,
            accounts: vec![],
            data: vec![],
        }],
    }
}

fn boop_tx(sig: &str) -> BoopTransaction {
    BoopTransaction {
        signature: sig.to_string(),
        instructions: vec![BoopInstruction {
            instruction_type: BoopInstructionType::Initialize,
            accounts: vec![],
            data: vec![],
        }],
    }
}

#[test]
fn a_new_result_set_is_empty() {
    let results = TransactionResults::new();
    assert!(!results.has_results());
    assert_eq!(results.current_slot, 0);
    assert!(results.pump_transactions.is_empty());
    assert!(results.pumpamm_transactions.is_empty());
    assert!(results.boop_transactions.is_empty());
    assert_eq!(results.pump_signatures.len(), 0);
    assert_eq!(results.pumpamm_signatures.len(), 0);
    assert_eq!(results.boop_signatures.len(), 0);
    assert_eq!(results.render(), "");
    let by_default = TransactionResults::default();
    assert!(!by_default.has_results());
    assert_eq!(by_default.current_slot, 0);
}

#[test]
fn the_slot_is_set_and_nothing_else() {
    let mut results = TransactionResults::new();
    results.add_pump_transaction(pump_tx("a"));
    results.set_current_slot(123_456_789);
    assert_eq!(results.current_slot, 123_456_789);
    assert_eq!(results.pump_transactions.len(), 1);
    assert!(results.pump_signatures.contains("a"));
    results.set_current_slot(u64::MAX);
    assert_eq!(results.current_slot, u64::MAX);
}

#[test]
fn adding_a_transaction_records_signature_and_transaction() {
    let mut results = TransactionResults::new();
    results.add_pump_transaction(pump_tx("first"));
    assert!(results.has_results());
    assert!(results.pump_signatures.contains("first"));
    assert_eq!(results.pump_signatures.len(), 1);
    assert_eq!(results.pump_transactions.len(), 1);
    assert_eq!(results.pump_transactions[0].signature, "first");
    assert!(results.pumpamm_transactions.is_empty());
    assert!(results.boop_transactions.is_empty());
    assert_eq!(results.pumpamm_signatures.len(), 0);
    assert_eq!(results.boop_signatures.len(), 0);
}

#[test]
fn each_program_has_its_own_list_and_set() {
    let mut results = TransactionResults::new();
    results.add_pumpamm_transaction(amm_tx("x"));
    assert!(results.has_results());
    assert!(results.pumpamm_signatures.contains("x"));
    assert!(!results.pump_signatures.contains("x"));
    assert!(!results.boop_signatures.contains("x"));
    results.add_boop_transaction(boop_tx("y"));
    assert!(results.boop_signatures.contains("y"));
    assert!(!results.pumpamm_signatures.contains("y"));
    assert_eq!(results.pumpamm_transactions.len(), 1);
    assert_eq!(results.boop_transactions.len(), 1);
    assert_eq!(results.pump_transactions.len(), 0);
    let mut only_boop = TransactionResults::new();
    only_boop.add_boop_transaction(boop_tx("z"));
    assert!(only_boop.has_results());
}

#[test]
fn a_signature_added_twice_is_in_the_set_once() {
    let mut results = TransactionResults::new();
    results.add_pump_transaction(pump_tx("same"));
    results.add_pump_transaction(pump_tx("same"));
    results.add_pump_transaction(pump_tx("other"));
    results.add_pump_transaction(pump_tx("same"));
    assert_eq!(results.pump_signatures.len(), 2);
    assert!(results.pump_signatures.contains("same"));
    assert!(results.pump_signatures.contains("other"));
    assert_eq!(results.pump_transactions.len(), 4);
    results.add_pumpamm_transactions(vec![amm_tx("s"), amm_tx("s")]);
    assert_eq!(results.pumpamm_signatures.len(), 1);
    assert_eq!(results.pumpamm_transactions.len(), 2);
    results.add_boop_transaction(boop_tx("b"));
    results.add_boop_transactions(vec![boop_tx("b"), boop_tx("b")]);
    assert_eq!(results.boop_signatures.len(), 1);
    assert_eq!(results.boop_transactions.len(), 3);
}

#[test]
fn lists_are_added_in_order_behind_what_is_there() {
    let mut results = TransactionResults::new();
    results.add_pump_transaction(pump_tx("a"));
    results.add_pump_transactions(vec![pump_tx("b"), pump_tx("c")]);
    results.add_pump_transactions(vec![]);
    results.add_pump_transactions(vec![pump_tx("d")]);
    let order: Vec<&str> = results.pump_transactions.iter().map(|t| t.signature.as_str()).collect();
    assert_eq!(order, vec!["a", "b", "c", "d"]);
    assert_eq!(results.pump_signatures.len(), 4);
    for s in ["a", "b", "c", "d"] {
        assert!(results.pump_signatures.contains(s));
    }
    results.add_pumpamm_transactions(vec![amm_tx("p"), amm_tx("q")]);
    let order: Vec<&str> =
        results.pumpamm_transactions.iter().map(|t| t.signature.as_str()).collect();
    assert_eq!(order, vec!["p", "q"]);
    results.add_boop_transactions(vec![boop_tx("r"), boop_tx("s")]);
    let order: Vec<&str> = results.boop_transactions.iter().map(|t| t.signature.as_str()).collect();
    assert_eq!(order, vec!["r", "s"]);
}

#[test]
fn a_slot_of_250_transactions_is_merged_across_batches() {
    assert_eq!(BATCH_SIZE, 200);
    let pump = program(PUMP_PROGRAM_ID);
    let amm = program(PUMP_AMM_PROGRAM_ID);
    let other = key(50);
    let mut first = Vec::new();
    let mut second = Vec::new();
    let mut expected_pump = Vec::new();
    let mut expected_amm = Vec::new();
    for n in 0..250usize {
        let tx = if n % 3 == 0 {
            expected_pump.push(signature(n).to_base58());
            invoking(pump, n)
        } else if n % 7 == 0 {
            expected_amm.push(signature(n).to_base58());
            invoking(amm, n)
        } else {
            invoking(other, n)
        };
        if n < 120 {
            first.push(tx);
        } else {
            second.push(tx);
        }
    }
    let entries = vec![Entry { transactions: first }, Entry { transactions: second }];
    let results = TransactionProcessor::process_entries(&entries, 77);
    assert_eq!(results.current_slot, 77);
    assert_eq!(expected_pump.len(), 84);
    assert_eq!(results.pump_transactions.len(), expected_pump.len());
    assert_eq!(results.pumpamm_transactions.len(), expected_amm.len());
    assert_eq!(results.boop_transactions.len(), 0);
    let got: Vec<String> = results.pump_transactions.iter().map(|t| t.signature.clone()).collect();
    assert_eq!(got, expected_pump);
    let got: Vec<String> =
        results.pumpamm_transactions.iter().map(|t| t.signature.clone()).collect();
    assert_eq!(got, expected_amm);
    assert_eq!(results.pump_signatures.len(), expected_pump.len());
    assert_eq!(results.pumpamm_signatures.len(), expected_amm.len());
    assert!(expected_pump.iter().all(|s| results.pump_signatures.contains(s)));
    assert!(results.has_results());
}

#[test]
fn every_transaction_of_a_full_slot_may_match() {
    let pump = program(PUMP_PROGRAM_ID);
    for total in [1usize, 199, 200, 201, 400, 401] {
        let txs: Vec<Transaction> = (0..total).map(|n| invoking(pump, n)).collect();
        let results = TransactionProcessor::process_entries(&[Entry { transactions: txs }], 1);
        assert_eq!(results.pump_transactions.len(), total);
        assert_eq!(results.pump_signatures.len(), total);
        for (n, t) in results.pump_transactions.iter().enumerate() {
            assert_eq!(t.signature, signature(n).to_base58());
        }
    }
}

#[test]
fn the_batch_size_does_not_change_the_result() {
    let pump = program(PUMP_PROGRAM_ID);
    let boop = program(BOOP_PROGRAM_ID);
    let txs: Vec<Transaction> = (0..23usize)
        .map(|n| {
            if n % 2 == 0 {
                invoking(pump, n)
            } else if n % 5 == 0 {
                invoking(boop, n)
            } else {
                invoking(key(3), n)
            }
        })
        .collect();
    let entries = vec![
        Entry { transactions: txs[..9].to_vec() },
        Entry { transactions: vec![] },
        Entry { transactions: txs[9..].to_vec() },
    ];
    let whole = TransactionProcessor::process_entries(&entries, 8);
    let expected_pump: Vec<String> =
        whole.pump_transactions.iter().map(|t| t.signature.clone()).collect();
    let expected_boop: Vec<String> =
        whole.boop_transactions.iter().map(|t| t.signature.clone()).collect();
    assert_eq!(expected_pump.len(), 12);
    assert_eq!(expected_boop.len(), 2);
    for size in [1usize, 2, 3, 7, 22, 23, 24, 200, usize::MAX] {
        let results = TransactionProcessor::process_in_batches(&entries, 8, size);
        let pump_now: Vec<String> =
            results.pump_transactions.iter().map(|t| t.signature.clone()).collect();
        let boop_now: Vec<String> =
            results.boop_transactions.iter().map(|t| t.signature.clone()).collect();
        assert_eq!(pump_now, expected_pump);
        assert_eq!(boop_now, expected_boop);
        assert_eq!(results.pumpamm_transactions.len(), 0);
        assert_eq!(results.current_slot, 8);
        assert_eq!(results.render(), whole.render());
    }
}

#[test]
fn no_entries_give_an_empty_result_set_for_the_slot() {
    let results = TransactionProcessor::process_entries(&[], 5);
    assert_eq!(results.current_slot, 5);
    assert!(!results.has_results());
    assert!(results.pump_transactions.is_empty());
    let empty = TransactionProcessor::process_entries(
        &[Entry { transactions: vec![] }, Entry { transactions: vec![] }],
        6,
    );
    assert_eq!(empty.current_slot, 6);
    assert!(!empty.has_results());
}

#[test]
fn unsigned_transactions_are_left_out_of_a_slot() {
    let pump = program(PUMP_PROGRAM_ID);
    let mut unsigned = invoking(pump, 1);
    unsigned.signatures.clear();
    let entries = vec![Entry { transactions: vec![unsigned.clone(), invoking(pump, 2), unsigned] }];
    let results = TransactionProcessor::process_entries(&entries, 9);
    assert_eq!(results.pump_transactions.len(), 1);
    assert_eq!(results.pump_transactions[0].signature, signature(2).to_base58());
    assert_eq!(results.pump_signatures.len(), 1);
}

#[test]
fn a_transaction_present_twice_is_listed_twice_and_signed_once() {
    let boop = program(BOOP_PROGRAM_ID);
    let tx = invoking(boop, 3);
    let entries = vec![
        Entry { transactions: vec![tx.clone()] },
        Entry { transactions: vec![invoking(key(9), 4), tx.clone()] },
    ];
    let results = TransactionProcessor::process_entries(&entries, 1);
    assert_eq!(results.boop_transactions.len(), 2);
    assert_eq!(results.boop_signatures.len(), 1);
    assert!(results.boop_signatures.contains(&signature(3).to_base58()));
}

#[test]
fn one_transaction_may_match_several_programs() {
    let tx = Transaction {
        signatures: vec![signature(1)],
        keys: AccountKeyTable {
            static_keys: vec![
                program(PUMP_PROGRAM_ID),
                program(PUMP_AMM_PROGRAM_ID),
                program(BOOP_PROGRAM_ID),
            ],
            lookup_tables: vec![],
        },
        instructions: vec![
            RawInstruction { program_index: 2, account_indices: vec![], payload: vec![] },
            RawInstruction { program_index: 0, account_indices: vec![], payload: buy_payload() },
            RawInstruction { program_index: 1, account_indices: vec![], payload: buy_payload() },
        ],
    };
    let results = TransactionProcessor::process_entries(&[Entry { transactions: vec![tx] }], 3);
    assert_eq!(results.pump_transactions.len(), 1);
    assert_eq!(results.pumpamm_transactions.len(), 1);
    assert_eq!(results.boop_transactions.len(), 1);
    assert_eq!(results.pump_transactions[0].instructions.len(), 1);
    assert_eq!(results.boop_transactions[0].instructions[0].instruction_type, BoopInstructionType::Unknown);
}

#[test]
fn a_slot_declines_transactions_with_lookup_tables() {
    let pump = program(PUMP_PROGRAM_ID);
    let mut with_table = invoking(pump, 1);
    with_table.keys.lookup_tables.push(key(8));
    let entries = vec![Entry { transactions: vec![with_table, invoking(pump, 2)] }];
    let results = TransactionProcessor::process_entries(&entries, 1);
    assert_eq!(results.pump_transactions.len(), 1);
    assert_eq!(results.pump_transactions[0].signature, signature(2).to_base58());
}

#[test]
fn a_batch_is_decoded_on_its_own_and_merged() {
    let pump = program(PUMP_PROGRAM_ID);
    let boop = program(BOOP_PROGRAM_ID);
    let txs = vec![invoking(pump, 1), invoking(boop, 2), invoking(key(3), 3), invoking(pump, 4)];
    let refs: Vec<&Transaction> = txs.iter().collect();
    let entries = [Entry { transactions: txs.clone() }];
    let signed = shreds_client::services::transaction_processor::collect_signed(&entries);
    assert_eq!(signed.len(), 4);
    let batch = TransactionProcessor::process_batch(&refs[1..]);
    assert_eq!(batch.pump.len(), 1);
    assert_eq!(batch.pump[0].signature, signature(4).to_base58());
    assert_eq!(batch.boop.len(), 1);
    assert_eq!(batch.pumpamm.len(), 0);
    let mut results = TransactionResults::new();
    results.add_pump_transaction(pump_tx("earlier"));
    results.merge_batch(batch);
    assert_eq!(results.pump_transactions.len(), 2);
    assert_eq!(results.pump_transactions[0].signature, "earlier");
    assert_eq!(results.boop_transactions.len(), 1);
    assert_eq!(results.pump_signatures.len(), 2);
    assert_eq!(results.boop_signatures.len(), 1);
    let nothing = TransactionProcessor::process_batch(&[]);
    assert!(nothing.pump.is_empty() && nothing.pumpamm.is_empty() && nothing.boop.is_empty());
}

#[test]
fn each_parser_answers_for_its_own_program_only() {
    let tx = invoking(program(PUMP_AMM_PROGRAM_ID), 1);
    assert!(PumpAmmParser::parse_transaction(&tx).is_some());
    assert!(PumpParser::parse_transaction(&tx).is_none());
    assert!(BoopParser::parse_transaction(&tx).is_none());
}

#[test]
fn the_pool_labels_as_a_map() {
    let labels = get_pumpamm_account_labels();
    assert_eq!(labels.len(), 17);
    assert_eq!(labels.get(&0), Some(&"Pool"));
    assert_eq!(labels.get(&1), Some(&"User"));
    assert_eq!(labels.get(&2), Some(&"Global Config"));
    assert_eq!(labels.get(&10), Some(&"Protocol Fee Recipient Token Account"));
    assert_eq!(labels.get(&16), Some(&"Program"));
    assert_eq!(labels.get(&17), None);
    let table = pumpamm_label_table();
    assert_eq!(
        table,
        vec![
            "Pool",
            "User",
            "Global Config",
            "Base Mint",
            "Quote Mint",
            "User Base Token Account",
            "User Quote Token Account",
            "Pool Base Token Account",
            "Pool Quote Token Account",
            "Protocol Fee Recipient",
            "Protocol Fee Recipient Token Account",
            "Base Token Program",
            "Quote Token Program",
            "System Program",
            "Associated Token Program",
            "Event Authority",
            "Program",
        ]
    );
    for (i, label) in table.iter().enumerate() {
        assert_eq!(labels.get(&i), Some(label));
    }
}
