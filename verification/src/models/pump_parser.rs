//! The decoder of the bonding-curve program, and of the one-byte opcodes of
//! the compute-budget program.

use crate::discriminator::{Row, lemma_lookup_reads_prefix_only, lookup, lookup_spec};
use crate::fields::{
    Field, FieldKind, FieldModel, FieldSpec, decode_fields, decoded_fields, field_models,
    lemma_truncation_gives_prefix,
};
use crate::message::{
    Address, RawInstruction, Transaction, address_bytes, resolve_static, resolved_texts, texts,
};
use crate::program::{
    Headings, ProgramInstruction, ProgramTransaction, decode_invoking, decoded_all, parse_outcome,
    render_instructions, transaction_text,
};
use crate::render::{instruction_text, render_instruction};
use crate::codec::{hex_encode, hex_text};
use crate::render::{field_lines, push_field_lines};
use vstd::slice::slice_to_vec;
use vstd::string::*;
use vstd::prelude::*;

verus! {

/// The address of the program, in Base58.
pub const PUMP_PROGRAM_ID: &'static str = "6EF8rrecthR5Dkzon8Nwu78hRvfCKubJ14M5uBEwF6P";

/// The instructions of the program.
#[derive(Clone, Copy, Debug, PartialEq, Eq, Structural)]
pub enum PumpInstructionType {
    Unknown,
    Buy,
    Create,
    ExtendAccount,
    Initialize,
    Migrate,
    Sell,
    SetParams,
    UpdateGlobalAuthority,
    Withdraw,
}

/// A decoded instruction of the program: its variant, the addresses of its
/// accounts in the order of the instruction, and its payload as it came.
#[derive(Clone, Debug)]
pub struct PumpInstruction {
    pub instruction_type: PumpInstructionType,
    pub accounts: Vec<String>,
    pub data: Vec<u8>,
}

/// The instructions of one transaction that invoke the program, under the
/// transaction's first signature.
#[derive(Clone, Debug)]
pub struct PumpTransaction {
    pub signature: String,
    pub instructions: Vec<PumpInstruction>,
}

/// The entry points of the decoder.
pub struct PumpParser;

impl PumpInstructionType {
    /// The discriminator table. Several instructions are known under two discriminators.
    pub open spec fn rows() -> Seq<Row<PumpInstructionType>> {
        seq![
            Row { tag: [102, 6, 61, 18, 1, 218, 235, 234], variant: PumpInstructionType::Buy },
            Row { tag: [242, 35, 198, 137, 82, 225, 242, 182], variant: PumpInstructionType::Buy },
            Row { tag: [24, 30, 200, 40, 5, 28, 7, 119], variant: PumpInstructionType::Create },
            Row { tag: [54, 49, 138, 255, 162, 99, 87, 199], variant: PumpInstructionType::Create },
            Row {
                tag: [234, 102, 194, 203, 150, 72, 62, 229],
                variant: PumpInstructionType::ExtendAccount,
            },
            Row {
                tag: [175, 175, 109, 31, 13, 152, 155, 237],
                variant: PumpInstructionType::Initialize,
            },
            Row {
                tag: [103, 232, 80, 22, 46, 244, 138, 11],
                variant: PumpInstructionType::Initialize,
            },
            Row {
                tag: [155, 234, 231, 146, 236, 158, 162, 30],
                variant: PumpInstructionType::Migrate,
            },
            Row { tag: [51, 230, 133, 164, 1, 127, 131, 173], variant: PumpInstructionType::Sell },
            Row { tag: [157, 141, 99, 91, 56, 32, 241, 199], variant: PumpInstructionType::Sell },
            Row {
                tag: [27, 234, 178, 52, 147, 2, 187, 141],
                variant: PumpInstructionType::SetParams,
            },
            Row {
                tag: [186, 127, 135, 21, 36, 67, 77, 55],
                variant: PumpInstructionType::SetParams,
            },
            Row {
                tag: [227, 181, 74, 196, 208, 21, 97, 213],
                variant: PumpInstructionType::UpdateGlobalAuthority,
            },
            Row {
                tag: [183, 18, 70, 156, 148, 109, 161, 34],
                variant: PumpInstructionType::Withdraw,
            },
            Row {
                tag: [16, 9, 233, 100, 246, 18, 249, 253],
                variant: PumpInstructionType::Withdraw,
            },
        ]
    }

    /// The variant that a payload selects: the table's first match on its
    /// first eight bytes, or `Unknown` when it is shorter or matches no row.
    pub open spec fn of(payload: Seq<u8>) -> PumpInstructionType {
        match lookup_spec(Self::rows(), payload) {
            Some(v) => v,
            None => PumpInstructionType::Unknown,
        }
    }

    /// The field grammar of the variant, read from offset 8.
    pub open spec fn grammar_spec(self) -> Seq<FieldSpec> {
        match self {
            PumpInstructionType::Buy => seq![
                FieldSpec { label: "Token_Amount", kind: FieldKind::U64 },
                FieldSpec { label: "Max_SOL_Cost", kind: FieldKind::U64 },
            ],
            PumpInstructionType::Sell => seq![
                FieldSpec { label: "Token_Amount", kind: FieldKind::U64 },
                FieldSpec { label: "Min_SOL_Output", kind: FieldKind::U64 },
            ],
            PumpInstructionType::Create => seq![
                FieldSpec { label: "name", kind: FieldKind::Text },
                FieldSpec { label: "symbol", kind: FieldKind::Text },
                FieldSpec { label: "uri", kind: FieldKind::Text },
                FieldSpec { label: "creator", kind: FieldKind::Key },
            ],
            _ => Seq::empty(),
        }
    }

    /// The label of each account position of the variant.
    pub open spec fn labels_spec(self) -> Seq<&'static str> {
        match self {
            PumpInstructionType::Buy | PumpInstructionType::Sell => seq![
                "Global",
                "Fee_Recipient",
                "Mint",
                "Bonding_Curve",
                "Associated_Bonding_Curve",
                "Associated_User",
                "User",
                "System_Program",
                "Token_Program",
                "Rent",
                "Event_Authority",
                "Program",
            ],
            PumpInstructionType::Create => seq![
                "Mint",
                "Mint_Authority",
                "Bonding_Curve",
                "Associated_Bonding_Curve",
                "Global",
                "Mpl_Token_Metadata",
                "Metadata",
                "User",
                "System_Program",
                "Token_Program",
                "Associated_Token_Program",
                "Rent",
                "Event_Authority",
                "Program",
            ],
            _ => Seq::empty(),
        }
    }

    /// The fields that a payload holds: those that the grammar of its variant
    /// yields from offset 8.
    pub open spec fn fields_of(payload: Seq<u8>) -> Seq<FieldModel> {
        decoded_fields(Self::of(payload).grammar_spec(), payload, 8)
    }

    /// The name of the variant.
    pub open spec fn name_spec(self) -> Seq<char> {
        match self {
            PumpInstructionType::Unknown => "Unknown"@,
            PumpInstructionType::Buy => "Buy"@,
            PumpInstructionType::Create => "Create"@,
            PumpInstructionType::ExtendAccount => "ExtendAccount"@,
            PumpInstructionType::Initialize => "Initialize"@,
            PumpInstructionType::Migrate => "Migrate"@,
            PumpInstructionType::Sell => "Sell"@,
            PumpInstructionType::SetParams => "SetParams"@,
            PumpInstructionType::UpdateGlobalAuthority => "UpdateGlobalAuthority"@,
            PumpInstructionType::Withdraw => "Withdraw"@,
        }
    }

    /// The discriminator table.
    pub fn table() -> (t: Vec<Row<PumpInstructionType>>)
        ensures
            t@ == Self::rows(),
    {
        let t = vec![
            Row { tag: [102, 6, 61, 18, 1, 218, 235, 234], variant: PumpInstructionType::Buy },
            Row { tag: [242, 35, 198, 137, 82, 225, 242, 182], variant: PumpInstructionType::Buy },
            Row { tag: [24, 30, 200, 40, 5, 28, 7, 119], variant: PumpInstructionType::Create },
            Row { tag: [54, 49, 138, 255, 162, 99, 87, 199], variant: PumpInstructionType::Create },
            Row {
                tag: [234, 102, 194, 203, 150, 72, 62, 229],
                variant: PumpInstructionType::ExtendAccount,
            },
            Row {
                tag: [175, 175, 109, 31, 13, 152, 155, 237],
                variant: PumpInstructionType::Initialize,
            },
            Row {
                tag: [103, 232, 80, 22, 46, 244, 138, 11],
                variant: PumpInstructionType::Initialize,
            },
            Row {
                tag: [155, 234, 231, 146, 236, 158, 162, 30],
                variant: PumpInstructionType::Migrate,
            },
            Row { tag: [51, 230, 133, 164, 1, 127, 131, 173], variant: PumpInstructionType::Sell },
            Row { tag: [157, 141, 99, 91, 56, 32, 241, 199], variant: PumpInstructionType::Sell },
            Row {
                tag: [27, 234, 178, 52, 147, 2, 187, 141],
                variant: PumpInstructionType::SetParams,
            },
            Row {
                tag: [186, 127, 135, 21, 36, 67, 77, 55],
                variant: PumpInstructionType::SetParams,
            },
            Row {
                tag: [227, 181, 74, 196, 208, 21, 97, 213],
                variant: PumpInstructionType::UpdateGlobalAuthority,
            },
            Row {
                tag: [183, 18, 70, 156, 148, 109, 161, 34],
                variant: PumpInstructionType::Withdraw,
            },
            Row {
                tag: [16, 9, 233, 100, 246, 18, 249, 253],
                variant: PumpInstructionType::Withdraw,
            },
        ];
        assert(t@ =~= Self::rows());
        t
    }

    /// Classifies a payload by its discriminator.
    pub fn classify(payload: &[u8]) -> (v: PumpInstructionType)
        ensures
            v == Self::of(payload@),
    {
        let table = Self::table();
        match lookup(&table, payload) {
            Some(v) => v,
            None => PumpInstructionType::Unknown,
        }
    }

    /// The field grammar of the variant.
    pub fn grammar(self) -> (steps: Vec<FieldSpec>)
        ensures
            steps@ == self.grammar_spec(),
    {
        let steps = match self {
            PumpInstructionType::Buy => vec![
                FieldSpec { label: "Token_Amount", kind: FieldKind::U64 },
                FieldSpec { label: "Max_SOL_Cost", kind: FieldKind::U64 },
            ],
            PumpInstructionType::Sell => vec![
                FieldSpec { label: "Token_Amount", kind: FieldKind::U64 },
                FieldSpec { label: "Min_SOL_Output", kind: FieldKind::U64 },
            ],
            PumpInstructionType::Create => vec![
                FieldSpec { label: "name", kind: FieldKind::Text },
                FieldSpec { label: "symbol", kind: FieldKind::Text },
                FieldSpec { label: "uri", kind: FieldKind::Text },
                FieldSpec { label: "creator", kind: FieldKind::Key },
            ],
            _ => Vec::new(),
        };
        assert(steps@ =~= self.grammar_spec());
        steps
    }

    /// The label of each account position of the variant.
    pub fn account_labels(self) -> (labels: Vec<&'static str>)
        ensures
            labels@ == self.labels_spec(),
    {
        let labels = match self {
            PumpInstructionType::Buy | PumpInstructionType::Sell => vec![
                "Global",
                "Fee_Recipient",
                "Mint",
                "Bonding_Curve",
                "Associated_Bonding_Curve",
                "Associated_User",
                "User",
                "System_Program",
                "Token_Program",
                "Rent",
                "Event_Authority",
                "Program",
            ],
            PumpInstructionType::Create => vec![
                "Mint",
                "Mint_Authority",
                "Bonding_Curve",
                "Associated_Bonding_Curve",
                "Global",
                "Mpl_Token_Metadata",
                "Metadata",
                "User",
                "System_Program",
                "Token_Program",
                "Associated_Token_Program",
                "Rent",
                "Event_Authority",
                "Program",
            ],
            _ => Vec::new(),
        };
        assert(labels@ =~= self.labels_spec());
        labels
    }

    /// The name of the variant.
    pub fn name(self) -> (s: &'static str)
        ensures
            s@ == self.name_spec(),
    {
        match self {
            PumpInstructionType::Unknown => "Unknown",
            PumpInstructionType::Buy => "Buy",
            PumpInstructionType::Create => "Create",
            PumpInstructionType::ExtendAccount => "ExtendAccount",
            PumpInstructionType::Initialize => "Initialize",
            PumpInstructionType::Migrate => "Migrate",
            PumpInstructionType::Sell => "Sell",
            PumpInstructionType::SetParams => "SetParams",
            PumpInstructionType::UpdateGlobalAuthority => "UpdateGlobalAuthority",
            PumpInstructionType::Withdraw => "Withdraw",
        }
    }

    /// Classification is a function of the payload, and of no more of it than
    /// its first eight bytes: payloads that agree there (or are both shorter)
    /// are classified alike, so classifying a payload twice gives the same
    /// variant both times.
    pub proof fn lemma_classification_is_stable(p: Seq<u8>, q: Seq<u8>)
        requires
            (p.len() < 8 && q.len() < 8) || (p.len() >= 8 && q.len() >= 8 && p.take(8) == q.take(
                8,
            )),
        ensures
            Self::of(p) == Self::of(q),
    {
        lemma_lookup_reads_prefix_only(Self::rows(), p, q);
    }

    /// The fields decoded from a truncated payload are a prefix of the fields
    /// decoded from the whole payload.
    pub proof fn lemma_partial_decode_is_monotonic(p: Seq<u8>, k: int)
        requires
            0 <= k < p.len(),
        ensures
            Self::fields_of(p.take(k)).is_prefix_of(Self::fields_of(p)),
    {
        if k < 8 {
            assert(Self::fields_of(p.take(k)) =~= Seq::<FieldModel>::empty());
        } else {
            assert(p.take(k).take(8) =~= p.take(8));
            lemma_truncation_gives_prefix(Self::of(p).grammar_spec(), p, k, 8);
        }
    }
}

impl PumpInstruction {
    /// The fields that the payload holds under the variant's grammar.
    pub open spec fn fields_spec(&self) -> Seq<FieldModel> {
        decoded_fields(self.instruction_type.grammar_spec(), self.data@, 8)
    }

    /// Decodes the fields of the payload. A payload that ends early gives the
    /// fields that were complete.
    pub fn fields(&self) -> (fields: Vec<Field>)
        ensures
            field_models(fields@) == self.fields_spec(),
    {
        let steps = self.instruction_type.grammar();
        decode_fields(&steps, self.data.as_slice(), 8)
    }
}

impl ProgramInstruction for PumpInstruction {
    open spec fn decodes(&self, raw: RawInstruction, keys: Seq<Address>) -> bool {
        &&& self.instruction_type == PumpInstructionType::of(raw.payload@)
        &&& texts(self.accounts@) == resolved_texts(raw.account_indices@, keys)
        &&& self.data@ == raw.payload@
    }

    open spec fn kind_name(&self) -> Seq<char> {
        self.instruction_type.name_spec()
    }

    open spec fn body_text(&self) -> Seq<char> {
        instruction_text(
            self.fields_spec(),
            self.instruction_type.labels_spec(),
            texts(self.accounts@),
        )
    }

    fn decode(raw: &RawInstruction, keys: &Vec<Address>) -> (r: Self) {
        PumpParser::compile_instruction_to_pump_instruction(raw, keys)
    }

    fn name(&self) -> (s: &'static str) {
        self.instruction_type.name()
    }

    fn render(&self) -> (s: String) {
        let fields = self.fields();
        let labels = self.instruction_type.account_labels();
        render_instruction(&fields, &labels, &self.accounts)
    }
}

impl PumpParser {
    /// Turns a compiled instruction into a decoded one: classifies the
    /// payload, resolves the account indices against `keys` (leaving out any
    /// that is out of range) and keeps the payload whole.
    pub fn compile_instruction_to_pump_instruction(
        raw: &RawInstruction,
        keys: &Vec<Address>,
    ) -> (r: PumpInstruction)
        ensures
            r.decodes(*raw, keys@),
            r.fields_spec() == PumpInstructionType::fields_of(raw.payload@),
    {
        let instruction_type = PumpInstructionType::classify(raw.payload.as_slice());
        let accounts = resolve_static(raw.account_indices.as_slice(), keys);
        PumpInstruction { instruction_type, accounts, data: raw.payload.clone() }
    }
}

impl ProgramTransaction for PumpTransaction {
    open spec fn parsed_from(&self, tx: Transaction, program: Seq<u8>) -> bool {
        &&& self.signature@ == tx.signature_text()
        &&& decoded_all(self.instructions@, tx.instructions_for(program), tx.keys.static_keys@)
    }

    open spec fn signature_view(&self) -> Seq<char> {
        self.signature@
    }

    open spec fn text(&self) -> Seq<char> {
        transaction_text(Headings::Indexed, self.instructions@)
    }

    fn decode_for_program(tx: &Transaction, program: &Address) -> (r: Option<Self>) {
        let instructions: Vec<PumpInstruction> = decode_invoking(tx, program);
        if instructions.len() == 0 {
            return None;
        }
        Some(PumpTransaction { signature: tx.signature_string(), instructions })
    }

    fn signature_string(&self) -> (s: String) {
        self.signature.clone()
    }

    fn render(&self) -> (s: String) {
        render_instructions(Headings::Indexed, &self.instructions)
    }
}

impl PumpParser {
    /// The address of the program, if the constant that names it is one.
    pub fn program_id() -> (r: Option<Address>)
        ensures
            match r {
                Some(a) => address_bytes(PUMP_PROGRAM_ID@) == Some(a@),
                None => address_bytes(PUMP_PROGRAM_ID@) is None,
            },
    {
        Address::from_base58(PUMP_PROGRAM_ID)
    }

    /// Decodes the instructions of `transaction` that invoke the program,
    /// under the transaction's first signature. `None` when no instruction
    /// invokes the program, and when the message depends on lookup tables.
    pub fn parse_transaction(transaction: &Transaction) -> (r: Option<PumpTransaction>)
        ensures
            match address_bytes(PUMP_PROGRAM_ID@) {
                Some(program) => parse_outcome(r, *transaction, program),
                None => r is None,
            },
            transaction.keys.uses_lookup_tables() ==> r is None,
    {
        match Self::program_id() {
            Some(program) => PumpTransaction::decode_for_program(transaction, &program),
            None => None,
        }
    }
}

/// The address of the compute-budget program, in Base58.
pub const COMPUTE_BUDGET_PROGRAM_ID: &'static str = "ComputeBudget111111111111111111111111111111";

/// The instructions of the compute-budget program, told apart by one byte.
#[derive(Clone, Copy, Debug, PartialEq, Eq, Structural)]
pub enum ComputeBudgetInstructionType {
    Unknown,
    RequestHeapFrame,
    RequestComputeUnits,
    SetComputeUnitLimit,
    SetComputeUnitPrice,
}

/// A decoded compute-budget instruction: its variant and its payload as it
/// came.
#[derive(Clone, Debug)]
pub struct ComputeBudgetInstruction {
    pub instruction_type: ComputeBudgetInstructionType,
    pub data: Vec<u8>,
}

impl ComputeBudgetInstructionType {
    /// The variant that a payload selects by its first byte, or `Unknown`
    /// when the payload is empty or the byte is no known opcode.
    pub open spec fn of(payload: Seq<u8>) -> ComputeBudgetInstructionType {
        if payload.len() == 0 {
            ComputeBudgetInstructionType::Unknown
        } else if payload[0] == 0 {
            ComputeBudgetInstructionType::RequestHeapFrame
        } else if payload[0] == 1 {
            ComputeBudgetInstructionType::RequestComputeUnits
        } else if payload[0] == 2 {
            ComputeBudgetInstructionType::SetComputeUnitLimit
        } else if payload[0] == 3 {
            ComputeBudgetInstructionType::SetComputeUnitPrice
        } else {
            ComputeBudgetInstructionType::Unknown
        }
    }

    /// The field grammar of the variant, read from offset 1.
    pub open spec fn grammar_spec(self) -> Seq<FieldSpec> {
        match self {
            ComputeBudgetInstructionType::RequestHeapFrame => seq![
                FieldSpec { label: "Request_Heap_Frame_Size", kind: FieldKind::U32 },
            ],
            ComputeBudgetInstructionType::RequestComputeUnits
            | ComputeBudgetInstructionType::SetComputeUnitLimit => seq![
                FieldSpec { label: "Set_Compute_Unit_Limit", kind: FieldKind::U32 },
            ],
            ComputeBudgetInstructionType::SetComputeUnitPrice => seq![
                FieldSpec { label: "Set_Compute_Unit_Price", kind: FieldKind::U64 },
            ],
            ComputeBudgetInstructionType::Unknown => Seq::empty(),
        }
    }

    /// The fields that a payload holds: those that the grammar of its variant
    /// yields from offset 1.
    pub open spec fn fields_of(payload: Seq<u8>) -> Seq<FieldModel> {
        decoded_fields(Self::of(payload).grammar_spec(), payload, 1)
    }

    /// Classifies a payload by its first byte.
    pub fn classify(payload: &[u8]) -> (v: ComputeBudgetInstructionType)
        ensures
            v == Self::of(payload@),
    {
        if payload.len() == 0 {
            return ComputeBudgetInstructionType::Unknown;
        }
        let opcode: u8 = payload[0];
        if opcode == 0 {
            ComputeBudgetInstructionType::RequestHeapFrame
        } else if opcode == 1 {
            ComputeBudgetInstructionType::RequestComputeUnits
        } else if opcode == 2 {
            ComputeBudgetInstructionType::SetComputeUnitLimit
        } else if opcode == 3 {
            ComputeBudgetInstructionType::SetComputeUnitPrice
        } else {
            ComputeBudgetInstructionType::Unknown
        }
    }

    /// The field grammar of the variant.
    pub fn grammar(self) -> (steps: Vec<FieldSpec>)
        ensures
            steps@ == self.grammar_spec(),
    {
        let steps = match self {
            ComputeBudgetInstructionType::RequestHeapFrame => vec![
                FieldSpec { label: "Request_Heap_Frame_Size", kind: FieldKind::U32 },
            ],
            ComputeBudgetInstructionType::RequestComputeUnits
            | ComputeBudgetInstructionType::SetComputeUnitLimit => vec![
                FieldSpec { label: "Set_Compute_Unit_Limit", kind: FieldKind::U32 },
            ],
            ComputeBudgetInstructionType::SetComputeUnitPrice => vec![
                FieldSpec { label: "Set_Compute_Unit_Price", kind: FieldKind::U64 },
            ],
            ComputeBudgetInstructionType::Unknown => Vec::new(),
        };
        assert(steps@ =~= self.grammar_spec());
        steps
    }

    /// Classification is a function of the payload, and of no more of it than
    /// its first byte: payloads that agree there (or are both empty) are
    /// classified alike, so classifying a payload twice gives the same
    /// variant both times.
    pub proof fn lemma_classification_is_stable(p: Seq<u8>, q: Seq<u8>)
        requires
            (p.len() == 0 && q.len() == 0) || (p.len() >= 1 && q.len() >= 1 && p[0] == q[0]),
        ensures
            Self::of(p) == Self::of(q),
    {
    }

    /// The fields decoded from a truncated payload are a prefix of the fields
    /// decoded from the whole payload.
    pub proof fn lemma_partial_decode_is_monotonic(p: Seq<u8>, k: int)
        requires
            0 <= k < p.len(),
        ensures
            Self::fields_of(p.take(k)).is_prefix_of(Self::fields_of(p)),
    {
        if k < 1 {
            assert(Self::fields_of(p.take(k)) =~= Seq::<FieldModel>::empty());
        } else {
            lemma_truncation_gives_prefix(Self::of(p).grammar_spec(), p, k, 1);
        }
    }
}

impl ComputeBudgetInstruction {
    /// The fields that the payload holds under the variant's grammar.
    pub open spec fn fields_spec(&self) -> Seq<FieldModel> {
        decoded_fields(self.instruction_type.grammar_spec(), self.data@, 1)
    }

    /// The text of the instruction: its field lines, then its payload in
    /// hexadecimal.
    pub open spec fn text(&self) -> Seq<char> {
        field_lines(self.fields_spec()) + "Raw_Data: "@ + hex_text(self.data@) + "\n"@
    }

    /// Decodes the fields of the payload. A payload that ends early gives the
    /// fields that were complete.
    pub fn fields(&self) -> (fields: Vec<Field>)
        ensures
            field_models(fields@) == self.fields_spec(),
    {
        let steps = self.instruction_type.grammar();
        decode_fields(&steps, self.data.as_slice(), 1)
    }

    /// Writes the instruction out.
    pub fn render(&self) -> (out: String)
        ensures
            out@ == self.text(),
    {
        let fields = self.fields();
        let mut out = String::new();
        push_field_lines(&mut out, &fields);
        out.append("Raw_Data: ");
        let raw = hex_encode(self.data.as_slice());
        out.append(raw.as_str());
        out.append("\n");
        assert(out@ =~= self.text());
        out
    }
}

impl PumpParser {
    /// Decodes a compute-budget instruction from its payload. This never
    /// fails: an empty payload or an unknown opcode gives `Unknown`.
    pub fn parse_compute_budget_instruction(data: &[u8]) -> (r: ComputeBudgetInstruction)
        ensures
            r.instruction_type == ComputeBudgetInstructionType::of(data@),
            r.data@ == data@,
            r.fields_spec() == ComputeBudgetInstructionType::fields_of(data@),
    {
        let instruction_type = ComputeBudgetInstructionType::classify(data);
        ComputeBudgetInstruction { instruction_type, data: slice_to_vec(data) }
    }
}

} // verus!
