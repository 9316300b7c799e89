//! The decoder of the liquidity-pool program.

use crate::discriminator::{Row, lemma_lookup_reads_prefix_only, lookup, lookup_spec};
use crate::fields::{
    Field, FieldKind, FieldModel, FieldSpec, decode_fields, decoded_fields, field_models,
    lemma_truncation_gives_prefix,
};
use crate::message::{
    Address, RawInstruction, Transaction, address_bytes, resolve_static, resolved_texts, texts,
};
use crate::program::{
    Headings, ProgramInstruction, ProgramTransaction, decode_invoking, decoded_all, parse_outcome,
    render_instructions, transaction_text,
};
use crate::render::{instruction_text, render_instruction};
use crate::render::{push_account_lines, push_field_lines};
use crate::utils::{pumpamm_label_table, pumpamm_labels};
use vstd::string::*;
use vstd::prelude::*;

verus! {

/// The address of the program, in Base58.
pub const PUMP_AMM_PROGRAM_ID: &'static str = "pAMMBay6oceH9fJKBRHGP5D4bD4sWpmSwMn52FMfXEA";

/// The instructions of the program.
#[derive(Clone, Copy, Debug, PartialEq, Eq, Structural)]
pub enum PumpAmmInstructionType {
    Unknown,
    Buy,
    CreateConfig,
    CreatePool,
    Deposit,
    Disable,
    ExtendAccount,
    Sell,
    UpdateAdmin,
    UpdateFeeConfig,
    Withdraw,
}

/// A decoded instruction of the program: its variant, the addresses of its
/// accounts in the order of the instruction, and its payload as it came.
#[derive(Clone, Debug)]
pub struct PumpAmmInstruction {
    pub instruction_type: PumpAmmInstructionType,
    pub accounts: Vec<String>,
    pub data: Vec<u8>,
}

/// The instructions of one transaction that invoke the program, under the
/// transaction's first signature.
#[derive(Clone, Debug)]
pub struct PumpAmmTransaction {
    pub signature: String,
    pub instructions: Vec<PumpAmmInstruction>,
}

/// The entry points of the decoder.
pub struct PumpAmmParser;

impl PumpAmmInstructionType {
    /// The discriminator table. Each instruction has one discriminator.
    pub open spec fn rows() -> Seq<Row<PumpAmmInstructionType>> {
        seq![
            Row { tag: [102, 6, 61, 18, 1, 218, 235, 234], variant: PumpAmmInstructionType::Buy },
            Row {
                tag: [201, 207, 243, 114, 75, 111, 47, 189],
                variant: PumpAmmInstructionType::CreateConfig,
            },
            Row {
                tag: [233, 146, 209, 142, 207, 104, 64, 188],
                variant: PumpAmmInstructionType::CreatePool,
            },
            Row {
                tag: [242, 35, 198, 137, 82, 225, 242, 182],
                variant: PumpAmmInstructionType::Deposit,
            },
            Row {
                tag: [185, 173, 187, 90, 216, 15, 238, 233],
                variant: PumpAmmInstructionType::Disable,
            },
            Row {
                tag: [234, 102, 194, 203, 150, 72, 62, 229],
                variant: PumpAmmInstructionType::ExtendAccount,
            },
            Row {
                tag: [51, 230, 133, 164, 1, 127, 131, 173],
                variant: PumpAmmInstructionType::Sell,
            },
            Row {
                tag: [161, 176, 40, 213, 60, 184, 179, 228],
                variant: PumpAmmInstructionType::UpdateAdmin,
            },
            Row {
                tag: [104, 184, 103, 242, 88, 151, 107, 20],
                variant: PumpAmmInstructionType::UpdateFeeConfig,
            },
            Row {
                tag: [183, 18, 70, 156, 148, 109, 161, 34],
                variant: PumpAmmInstructionType::Withdraw,
            },
        ]
    }

    /// The variant that a payload selects: the table's first match on its
    /// first eight bytes, or `Unknown` when it is shorter or matches no row.
    pub open spec fn of(payload: Seq<u8>) -> PumpAmmInstructionType {
        match lookup_spec(Self::rows(), payload) {
            Some(v) => v,
            None => PumpAmmInstructionType::Unknown,
        }
    }

    /// The field grammar of the variant, read from offset 8.
    pub open spec fn grammar_spec(self) -> Seq<FieldSpec> {
        match self {
            PumpAmmInstructionType::Buy => seq![
                FieldSpec { label: "Base Amount Out", kind: FieldKind::U64 },
                FieldSpec { label: "Max Quote Amount In", kind: FieldKind::U64 },
            ],
            PumpAmmInstructionType::CreateConfig => seq![
                FieldSpec { label: "LP Fee Basis Points", kind: FieldKind::U64 },
                FieldSpec { label: "Protocol Fee Basis Points", kind: FieldKind::U64 },
            ],
            PumpAmmInstructionType::CreatePool => seq![
                FieldSpec { label: "Index", kind: FieldKind::U16 },
                FieldSpec { label: "Base Amount In", kind: FieldKind::U64 },
                FieldSpec { label: "Quote Amount In", kind: FieldKind::U64 },
            ],
            PumpAmmInstructionType::Deposit => seq![
                FieldSpec { label: "LP Token Amount Out", kind: FieldKind::U64 },
                FieldSpec { label: "Max Base Amount In", kind: FieldKind::U64 },
                FieldSpec { label: "Max Quote Amount In", kind: FieldKind::U64 },
            ],
            PumpAmmInstructionType::Sell => seq![
                FieldSpec { label: "Base Amount In", kind: FieldKind::U64 },
                FieldSpec { label: "Min Quote Amount Out", kind: FieldKind::U64 },
            ],
            PumpAmmInstructionType::Withdraw => seq![
                FieldSpec { label: "LP Token Amount In", kind: FieldKind::U64 },
                FieldSpec { label: "Min Base Amount Out", kind: FieldKind::U64 },
                FieldSpec { label: "Min Quote Amount Out", kind: FieldKind::U64 },
            ],
            _ => Seq::empty(),
        }
    }

    /// The label of each account position; the program has one table for all
    /// its instructions.
    pub open spec fn labels_spec(self) -> Seq<&'static str> {
        pumpamm_labels()
    }

    /// The fields that a payload holds: those that the grammar of its variant
    /// yields from offset 8.
    pub open spec fn fields_of(payload: Seq<u8>) -> Seq<FieldModel> {
        decoded_fields(Self::of(payload).grammar_spec(), payload, 8)
    }

    /// The name of the variant.
    pub open spec fn name_spec(self) -> Seq<char> {
        match self {
            PumpAmmInstructionType::Unknown => "Unknown"@,
            PumpAmmInstructionType::Buy => "Buy"@,
            PumpAmmInstructionType::CreateConfig => "CreateConfig"@,
            PumpAmmInstructionType::CreatePool => "CreatePool"@,
            PumpAmmInstructionType::Deposit => "Deposit"@,
            PumpAmmInstructionType::Disable => "Disable"@,
            PumpAmmInstructionType::ExtendAccount => "ExtendAccount"@,
            PumpAmmInstructionType::Sell => "Sell"@,
            PumpAmmInstructionType::UpdateAdmin => "UpdateAdmin"@,
            PumpAmmInstructionType::UpdateFeeConfig => "UpdateFeeConfig"@,
            PumpAmmInstructionType::Withdraw => "Withdraw"@,
        }
    }

    /// The discriminator table.
    pub fn table() -> (t: Vec<Row<PumpAmmInstructionType>>)
        ensures
            t@ == Self::rows(),
    {
        let t = vec![
            Row { tag: [102, 6, 61, 18, 1, 218, 235, 234], variant: PumpAmmInstructionType::Buy },
            Row {
                tag: [201, 207, 243, 114, 75, 111, 47, 189],
                variant: PumpAmmInstructionType::CreateConfig,
            },
            Row {
                tag: [233, 146, 209, 142, 207, 104, 64, 188],
                variant: PumpAmmInstructionType::CreatePool,
            },
            Row {
                tag: [242, 35, 198, 137, 82, 225, 242, 182],
                variant: PumpAmmInstructionType::Deposit,
            },
            Row {
                tag: [185, 173, 187, 90, 216, 15, 238, 233],
                variant: PumpAmmInstructionType::Disable,
            },
            Row {
                tag: [234, 102, 194, 203, 150, 72, 62, 229],
                variant: PumpAmmInstructionType::ExtendAccount,
            },
            Row {
                tag: [51, 230, 133, 164, 1, 127, 131, 173],
                variant: PumpAmmInstructionType::Sell,
            },
            Row {
                tag: [161, 176, 40, 213, 60, 184, 179, 228],
                variant: PumpAmmInstructionType::UpdateAdmin,
            },
            Row {
                tag: [104, 184, 103, 242, 88, 151, 107, 20],
                variant: PumpAmmInstructionType::UpdateFeeConfig,
            },
            Row {
                tag: [183, 18, 70, 156, 148, 109, 161, 34],
                variant: PumpAmmInstructionType::Withdraw,
            },
        ];
        assert(t@ =~= Self::rows());
        t
    }

    /// Classifies a payload by its discriminator.
    pub fn classify(payload: &[u8]) -> (v: PumpAmmInstructionType)
        ensures
            v == Self::of(payload@),
    {
        let table = Self::table();
        match lookup(&table, payload) {
            Some(v) => v,
            None => PumpAmmInstructionType::Unknown,
        }
    }

    /// The field grammar of the variant.
    pub fn grammar(self) -> (steps: Vec<FieldSpec>)
        ensures
            steps@ == self.grammar_spec(),
    {
        let steps = match self {
            PumpAmmInstructionType::Buy => vec![
                FieldSpec { label: "Base Amount Out", kind: FieldKind::U64 },
                FieldSpec { label: "Max Quote Amount In", kind: FieldKind::U64 },
            ],
            PumpAmmInstructionType::CreateConfig => vec![
                FieldSpec { label: "LP Fee Basis Points", kind: FieldKind::U64 },
                FieldSpec { label: "Protocol Fee Basis Points", kind: FieldKind::U64 },
            ],
            PumpAmmInstructionType::CreatePool => vec![
                FieldSpec { label: "Index", kind: FieldKind::U16 },
                FieldSpec { label: "Base Amount In", kind: FieldKind::U64 },
                FieldSpec { label: "Quote Amount In", kind: FieldKind::U64 },
            ],
            PumpAmmInstructionType::Deposit => vec![
                FieldSpec { label: "LP Token Amount Out", kind: FieldKind::U64 },
                FieldSpec { label: "Max Base Amount In", kind: FieldKind::U64 },
                FieldSpec { label: "Max Quote Amount In", kind: FieldKind::U64 },
            ],
            PumpAmmInstructionType::Sell => vec![
                FieldSpec { label: "Base Amount In", kind: FieldKind::U64 },
                FieldSpec { label: "Min Quote Amount Out", kind: FieldKind::U64 },
            ],
            PumpAmmInstructionType::Withdraw => vec![
                FieldSpec { label: "LP Token Amount In", kind: FieldKind::U64 },
                FieldSpec { label: "Min Base Amount Out", kind: FieldKind::U64 },
                FieldSpec { label: "Min Quote Amount Out", kind: FieldKind::U64 },
            ],
            _ => Vec::new(),
        };
        assert(steps@ =~= self.grammar_spec());
        steps
    }

    /// The label of each account position; the program has one table for all
    /// its instructions.
    pub fn account_labels(self) -> (labels: Vec<&'static str>)
        ensures
            labels@ == self.labels_spec(),
    {
        pumpamm_label_table()
    }

    /// The name of the variant.
    pub fn name(self) -> (s: &'static str)
        ensures
            s@ == self.name_spec(),
    {
        match self {
            PumpAmmInstructionType::Unknown => "Unknown",
            PumpAmmInstructionType::Buy => "Buy",
            PumpAmmInstructionType::CreateConfig => "CreateConfig",
            PumpAmmInstructionType::CreatePool => "CreatePool",
            PumpAmmInstructionType::Deposit => "Deposit",
            PumpAmmInstructionType::Disable => "Disable",
            PumpAmmInstructionType::ExtendAccount => "ExtendAccount",
            PumpAmmInstructionType::Sell => "Sell",
            PumpAmmInstructionType::UpdateAdmin => "UpdateAdmin",
            PumpAmmInstructionType::UpdateFeeConfig => "UpdateFeeConfig",
            PumpAmmInstructionType::Withdraw => "Withdraw",
        }
    }

    /// Classification is a function of the payload, and of no more of it than
    /// its first eight bytes: payloads that agree there (or are both shorter)
    /// are classified alike, so classifying a payload twice gives the same
    /// variant both times.
    pub proof fn lemma_classification_is_stable(p: Seq<u8>, q: Seq<u8>)
        requires
            (p.len() < 8 && q.len() < 8) || (p.len() >= 8 && q.len() >= 8 && p.take(8) == q.take(
                8,
            )),
        ensures
            Self::of(p) == Self::of(q),
    {
        lemma_lookup_reads_prefix_only(Self::rows(), p, q);
    }

    /// The fields decoded from a truncated payload are a prefix of the fields
    /// decoded from the whole payload.
    pub proof fn lemma_partial_decode_is_monotonic(p: Seq<u8>, k: int)
        requires
            0 <= k < p.len(),
        ensures
            Self::fields_of(p.take(k)).is_prefix_of(Self::fields_of(p)),
    {
        if k < 8 {
            assert(Self::fields_of(p.take(k)) =~= Seq::<FieldModel>::empty());
        } else {
            assert(p.take(k).take(8) =~= p.take(8));
            lemma_truncation_gives_prefix(Self::of(p).grammar_spec(), p, k, 8);
        }
    }
}

impl PumpAmmInstruction {
    /// The fields that the payload holds under the variant's grammar.
    pub open spec fn fields_spec(&self) -> Seq<FieldModel> {
        decoded_fields(self.instruction_type.grammar_spec(), self.data@, 8)
    }

    /// Decodes the fields of the payload. A payload that ends early gives the
    /// fields that were complete.
    pub fn fields(&self) -> (fields: Vec<Field>)
        ensures
            field_models(fields@) == self.fields_spec(),
    {
        let steps = self.instruction_type.grammar();
        decode_fields(&steps, self.data.as_slice(), 8)
    }
}

impl ProgramInstruction for PumpAmmInstruction {
    open spec fn decodes(&self, raw: RawInstruction, keys: Seq<Address>) -> bool {
        &&& self.instruction_type == PumpAmmInstructionType::of(raw.payload@)
        &&& texts(self.accounts@) == resolved_texts(raw.account_indices@, keys)
        &&& self.data@ == raw.payload@
    }

    open spec fn kind_name(&self) -> Seq<char> {
        self.instruction_type.name_spec()
    }

    open spec fn body_text(&self) -> Seq<char> {
        "Instruction_Type: "@ + self.instruction_type.name_spec() + "\n"@ + instruction_text(
            self.fields_spec(),
            self.instruction_type.labels_spec(),
            texts(self.accounts@),
        )
    }

    fn decode(raw: &RawInstruction, keys: &Vec<Address>) -> (r: Self) {
        PumpAmmParser::compile_instruction_to_pump_amm_instruction(raw, keys)
    }

    fn name(&self) -> (s: &'static str) {
        self.instruction_type.name()
    }

    fn render(&self) -> (s: String) {
        let fields = self.fields();
        let labels = self.instruction_type.account_labels();
        let mut out = String::new();
        out.append("Instruction_Type: ");
        out.append(self.instruction_type.name());
        out.append("\n");
        push_field_lines(&mut out, &fields);
        push_account_lines(&mut out, &labels, &self.accounts);
        assert(out@ =~= self.body_text());
        out
    }
}

impl PumpAmmParser {
    /// Turns a compiled instruction into a decoded one: classifies the
    /// payload, resolves the account indices against `keys` (leaving out any
    /// that is out of range) and keeps the payload whole.
    pub fn compile_instruction_to_pump_amm_instruction(
        raw: &RawInstruction,
        keys: &Vec<Address>,
    ) -> (r: PumpAmmInstruction)
        ensures
            r.decodes(*raw, keys@),
            r.fields_spec() == PumpAmmInstructionType::fields_of(raw.payload@),
    {
        let instruction_type = PumpAmmInstructionType::classify(raw.payload.as_slice());
        let accounts = resolve_static(raw.account_indices.as_slice(), keys);
        PumpAmmInstruction { instruction_type, accounts, data: raw.payload.clone() }
    }
}

impl ProgramTransaction for PumpAmmTransaction {
    open spec fn parsed_from(&self, tx: Transaction, program: Seq<u8>) -> bool {
        &&& self.signature@ == tx.signature_text()
        &&& decoded_all(self.instructions@, tx.instructions_for(program), tx.keys.static_keys@)
    }

    open spec fn signature_view(&self) -> Seq<char> {
        self.signature@
    }

    open spec fn text(&self) -> Seq<char> {
        transaction_text(Headings::Indexed, self.instructions@)
    }

    fn decode_for_program(tx: &Transaction, program: &Address) -> (r: Option<Self>) {
        let instructions: Vec<PumpAmmInstruction> = decode_invoking(tx, program);
        if instructions.len() == 0 {
            return None;
        }
        Some(PumpAmmTransaction { signature: tx.signature_string(), instructions })
    }

    fn signature_string(&self) -> (s: String) {
        self.signature.clone()
    }

    fn render(&self) -> (s: String) {
        render_instructions(Headings::Indexed, &self.instructions)
    }
}

impl PumpAmmParser {
    /// The address of the program, if the constant that names it is one.
    pub fn program_id() -> (r: Option<Address>)
        ensures
            match r {
                Some(a) => address_bytes(PUMP_AMM_PROGRAM_ID@) == Some(a@),
                None => address_bytes(PUMP_AMM_PROGRAM_ID@) is None,
            },
    {
        Address::from_base58(PUMP_AMM_PROGRAM_ID)
    }

    /// Decodes the instructions of `transaction` that invoke the program,
    /// under the transaction's first signature. `None` when no instruction
    /// invokes the program, and when the message depends on lookup tables.
    pub fn parse_transaction(transaction: &Transaction) -> (r: Option<PumpAmmTransaction>)
        ensures
            match address_bytes(PUMP_AMM_PROGRAM_ID@) {
                Some(program) => parse_outcome(r, *transaction, program),
                None => r is None,
            },
            transaction.keys.uses_lookup_tables() ==> r is None,
    {
        match Self::program_id() {
            Some(program) => PumpAmmTransaction::decode_for_program(transaction, &program),
            None => None,
        }
    }
}

} // verus!
