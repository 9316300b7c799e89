use shreds_client::fields::{Field, FieldValue};
use shreds_client::message::{AccountKeyTable, Address, Entry, RawInstruction, Signature, Transaction};
use shreds_client::program::{
    Headings, ProgramInstruction, ProgramTransaction, render_instructions,
};
use shreds_client::render::{label_for, render_instruction};
use shreds_client::{
    BOOP_PROGRAM_ID, BoopInstruction, BoopInstructionType, BoopParser, ComputeBudgetInstructionType,
    PUMP_AMM_PROGRAM_ID, PUMP_PROGRAM_ID, PumpAmmInstructionType, PumpAmmParser, PumpInstruction,
    PumpInstructionType, PumpParser, TransactionProcessor, TransactionResults,
};

const KEY_ONE: &str = "4vJ9JU1bJJE96FWSJKvHsmmFADCg4gpZQff4P3bkLKi";
const KEY_TWO: &str = "8qbHbw2BbbTHBW1sbeqakYXVKRQM8Ne7pLK7m6CVfeR";
const SIGNATURE_SEVEN: &str =
    "99eUso3aSbE9tqGSTXzo3TLfKb9RkMTURrHKQ1K7Zh3BbeqPevr5E1iCbpTjqHuTFLtfxTTD5ekfVuZFzQyEQf8";
const RULE: &str = "--------------------------------------------------------\n";

fn key(byte: u8) -> Address {
    Address { bytes: [byte; 32] }
}

fn buy_payload() -> Vec<u8> {
    vec![102, 6, 61, 18, 1, 218, 235, 234, 1, 0, 0, 0, 0, 0, 0, 0, 10, 0, 0, 0, 0, 0, 0, 0]
}

fn buy_of(program_text: &str) -> Transaction {
    Transaction {
        signatures: vec![Signature { bytes: [7; 64] }],
        keys: AccountKeyTable {
            static_keys: vec![key(1), key(2), Address::from_base58(program_text).unwrap()],
            lookup_tables: vec![],
        },
        instructions: vec![RawInstruction {
            program_index: 2,
            account_indices: vec![0, 1],
            payload: buy_payload(),
        }],
    }
}

#[test]
fn a_pool_buy_is_written_field_by_field_then_account_by_account() {
    let parsed = PumpAmmParser::parse_transaction(&buy_of(PUMP_AMM_PROGRAM_ID)).unwrap();
    let body = format!(
        "Instruction_Type: Buy\nBase Amount Out: 1\nMax Quote Amount In: 10\n[0]Pool: {}\n[1]User: {}\n",
        KEY_ONE, KEY_TWO
    );
    assert_eq!(parsed.instructions[0].render(), body);
    assert_eq!(parsed.instructions[0].name(), "Buy");
    assert_eq!(
        parsed.render(),
        format!("Instructions_Count: 1\nInstruction[0]Type: Buy\n{}", body)
    );
    assert_eq!(parsed.signature_string(), SIGNATURE_SEVEN);
}

#[test]
fn a_bonding_curve_buy_has_its_own_labels() {
    let parsed = PumpParser::parse_transaction(&buy_of(PUMP_PROGRAM_ID)).unwrap();
    assert_eq!(
        parsed.render(),
        format!(
            "Instructions_Count: 1\nInstruction[0]Type: Buy\nToken_Amount: 1\nMax_SOL_Cost: 10\n[0]Global: {}\n[1]Fee_Recipient: {}\n",
            KEY_ONE, KEY_TWO
        )
    );
}

#[test]
fn accounts_past_the_label_table_are_unknown() {
    let accounts: Vec<String> = (0..14).map(|i| format!("acct{}", i)).collect();
    let buy = PumpInstruction {
        instruction_type: PumpInstructionType::Buy,
        accounts: accounts.clone(),
        data: vec![],
    };
    let text = buy.render();
    let lines: Vec<&str> = text.lines().collect();
    assert_eq!(lines.len(), 14);
    assert_eq!(lines[0], "[0]Global: acct0");
    assert_eq!(lines[3], "[3]Bonding_Curve: acct3");
    assert_eq!(lines[9], "[9]Rent: acct9");
    assert_eq!(lines[10], "[10]Event_Authority: acct10");
    assert_eq!(lines[11], "[11]Program: acct11");
    assert_eq!(lines[12], "[12]Unknown: acct12");
    assert_eq!(lines[13], "[13]Unknown: acct13");
    let create = PumpInstruction {
        instruction_type: PumpInstructionType::Create,
        accounts: accounts.clone(),
        data: vec![],
    };
    let text = create.render();
    let lines: Vec<&str> = text.lines().collect();
    assert_eq!(lines[1], "[1]Mint_Authority: acct1");
    assert_eq!(lines[13], "[13]Program: acct13");
    let migrate = PumpInstruction {
        instruction_type: PumpInstructionType::Migrate,
        accounts: vec!["m".to_string()],
        data: vec![],
    };
    assert_eq!(migrate.render(), "[0]Unknown: m\n");
}

#[test]
fn labels_by_position() {
    let table = PumpAmmInstructionType::Sell.account_labels();
    assert_eq!(table.len(), 17);
    assert_eq!(label_for(&table, 0), "Pool");
    assert_eq!(label_for(&table, 16), "Program");
    assert_eq!(label_for(&table, 17), "Unknown");
    assert_eq!(label_for(&table, usize::MAX), "Unknown");
    assert_eq!(label_for(&vec![], 0), "Unknown");
    assert_eq!(PumpAmmInstructionType::Unknown.account_labels(), table);
    assert_eq!(PumpInstructionType::Sell.account_labels(), PumpInstructionType::Buy.account_labels());
    assert_eq!(PumpInstructionType::Buy.account_labels().len(), 12);
    assert_eq!(PumpInstructionType::Create.account_labels().len(), 14);
    assert!(PumpInstructionType::Withdraw.account_labels().is_empty());
    assert!(BoopInstructionType::BuyToken.account_labels().is_empty());
}

#[test]
fn an_instruction_is_written_from_fields_labels_and_accounts() {
    let fields = vec![
        Field { label: "Index", value: FieldValue::U16(7) },
        Field { label: "Size", value: FieldValue::U32(70_000) },
        Field { label: "Amount", value: FieldValue::U64(u64::MAX) },
        Field { label: "Name", value: FieldValue::Text("a b".to_string()) },
        Field { label: "Owner", value: FieldValue::Key(KEY_ONE.to_string()) },
    ];
    let labels = vec!["First"];
    let accounts = vec!["x".to_string(), "y".to_string()];
    assert_eq!(
        render_instruction(&fields, &labels, &accounts),
        format!(
            "Index: 7\nSize: 70000\nAmount: 18446744073709551615\nName: a b\nOwner: {}\n[0]First: x\n[1]Unknown: y\n",
            KEY_ONE
        )
    );
    assert_eq!(render_instruction(&vec![], &vec![], &vec![]), "");
}

#[test]
fn instructions_are_headed_by_index_or_by_number() {
    let list = vec![
        BoopInstruction {
            instruction_type: BoopInstructionType::Initialize,
            accounts: vec!["a".to_string()],
            data: vec![],
        },
        BoopInstruction {
            instruction_type: BoopInstructionType::Unknown,
            accounts: vec![],
            data: vec![1, 2, 3],
        },
    ];
    assert_eq!(
        render_instructions(Headings::Indexed, &list),
        "Instructions_Count: 2\nInstruction[0]Type: Initialize\n[0]Unknown: a\nInstruction[1]Type: Unknown\n"
    );
    assert_eq!(
        render_instructions(Headings::Numbered, &list),
        "Instruction_Count: 2\nInstruction #1: Initialize\n[0]Unknown: a\nInstruction #2: Unknown\n"
    );
    assert_eq!(
        render_instructions(Headings::Indexed, &Vec::<BoopInstruction>::new()),
        "Instructions_Count: 0\n"
    );
    assert_eq!(
        render_instructions(Headings::Numbered, &Vec::<BoopInstruction>::new()),
        "Instruction_Count: 0\n"
    );
}

#[test]
fn a_result_set_is_written_program_by_program() {
    let entries = vec![Entry {
        transactions: vec![
            buy_of(BOOP_PROGRAM_ID),
            buy_of(PUMP_AMM_PROGRAM_ID),
            buy_of(PUMP_PROGRAM_ID),
        ],
    }];
    let results = TransactionProcessor::process_entries(&entries, 42);
    let pump = format!(
        "{}Parser:PUMP\nSlot:42\nSignature:{}\nInstructions_Count: 1\nInstruction[0]Type: Buy\nToken_Amount: 1\nMax_SOL_Cost: 10\n[0]Global: {}\n[1]Fee_Recipient: {}\n\n{}",
        RULE, SIGNATURE_SEVEN, KEY_ONE, KEY_TWO, RULE
    );
    let amm = format!(
        "{}Parser:PUMPAMM\nSlot:42\nSignature:{}\nInstructions_Count: 1\nInstruction[0]Type: Buy\nInstruction_Type: Buy\nBase Amount Out: 1\nMax Quote Amount In: 10\n[0]Pool: {}\n[1]User: {}\n\n{}",
        RULE, SIGNATURE_SEVEN, KEY_ONE, KEY_TWO, RULE
    );
    let boop = format!(
        "{}Parser:BOOP\nSlot:42\nSignature:{}\nInstruction_Count: 1\nInstruction #1: Unknown\n[0]Unknown: {}\n[1]Unknown: {}\n\n{}",
        RULE, SIGNATURE_SEVEN, KEY_ONE, KEY_TWO, RULE
    );
    assert_eq!(results.render(), format!("{}{}{}", pump, amm, boop));
}

#[test]
fn a_token_launch_transaction_numbers_its_instructions_from_one() {
    let mut transaction = buy_of(BOOP_PROGRAM_ID);
    let mut sell = vec![25u8, 169, 76, 76, 84, 153, 195, 216];
    sell.extend_from_slice(&3u64.to_le_bytes());
    transaction.instructions.push(RawInstruction {
        program_index: 2,
        account_indices: vec![],
        payload: sell,
    });
    let parsed = BoopParser::parse_transaction(&transaction).unwrap();
    assert_eq!(
        parsed.render(),
        format!(
            "Instruction_Count: 2\nInstruction #1: Unknown\n[0]Unknown: {}\n[1]Unknown: {}\nInstruction #2: Sell\nToken_Amount: 3\n",
            KEY_ONE, KEY_TWO
        )
    );
}

#[test]
fn a_result_set_without_signatures_is_written_as_nothing() {
    let mut results = TransactionResults::new();
    results.set_current_slot(3);
    assert_eq!(results.render(), "");
    let parsed = BoopParser::parse_transaction(&buy_of(BOOP_PROGRAM_ID)).unwrap();
    results.add_boop_transaction(parsed);
    assert!(results.render().starts_with(RULE));
    assert!(results.render().contains("Parser:BOOP\nSlot:3\n"));
}

#[test]
fn a_compute_unit_limit_is_written_with_its_raw_bytes() {
    let parsed = PumpParser::parse_compute_budget_instruction(&[2, 0x40, 0x0d, 0x03, 0x00]);
    assert_eq!(
        parsed.fields(),
        vec![Field { label: "Set_Compute_Unit_Limit", value: FieldValue::U32(200_000) }]
    );
    assert_eq!(parsed.render(), "Set_Compute_Unit_Limit: 200000\nRaw_Data: 02400d0300\n");
}

#[test]
fn compute_budget_fields_by_opcode() {
    let heap = PumpParser::parse_compute_budget_instruction(&[0, 0, 0, 4, 0]);
    assert_eq!(heap.instruction_type, ComputeBudgetInstructionType::RequestHeapFrame);
    assert_eq!(heap.render(), "Request_Heap_Frame_Size: 262144\nRaw_Data: 0000000400\n");
    let units = PumpParser::parse_compute_budget_instruction(&[1, 1, 0, 0, 0, 9, 9, 9, 9]);
    assert_eq!(units.render(), "Set_Compute_Unit_Limit: 1\nRaw_Data: 010100000009090909\n");
    let price = PumpParser::parse_compute_budget_instruction(&[3, 0x10, 0x27, 0, 0, 0, 0, 0, 0]);
    assert_eq!(
        price.fields(),
        vec![Field { label: "Set_Compute_Unit_Price", value: FieldValue::U64(10_000) }]
    );
    assert_eq!(price.render(), "Set_Compute_Unit_Price: 10000\nRaw_Data: 031027000000000000\n");
}

#[test]
fn a_short_or_unknown_compute_budget_payload_has_no_field() {
    let short = PumpParser::parse_compute_budget_instruction(&[3, 0x10, 0x27, 0, 0, 0, 0, 0]);
    assert!(short.fields().is_empty());
    assert_eq!(short.render(), "Raw_Data: 0310270000000000\n");
    let unknown = PumpParser::parse_compute_budget_instruction(&[0xab, 0xcd, 0xef, 0x01, 0x23]);
    assert_eq!(unknown.render(), "Raw_Data: abcdef0123\n");
    let empty = PumpParser::parse_compute_budget_instruction(&[]);
    assert_eq!(empty.render(), "Raw_Data: \n");
}

#[test]
fn raw_bytes_are_written_in_lower_case_hex() {
    let all: Vec<u8> = (0u8..=255).collect();
    let mut payload = vec![9u8];
    payload.extend_from_slice(&all);
    let text = PumpParser::parse_compute_budget_instruction(&payload).render();
    let mut expected = String::from("Raw_Data: 09");
    for b in all {
        expected.push_str(&format!("{:02x}", b));
    }
    expected.push('\n');
    assert_eq!(text, expected);
}
