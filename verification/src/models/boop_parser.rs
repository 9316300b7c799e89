//! The decoder of the token-launch program.

use crate::discriminator::{Row, lemma_lookup_reads_prefix_only, lookup, lookup_spec};
use crate::fields::{
    Field, FieldKind, FieldModel, FieldSpec, decode_fields, decoded_fields, field_models,
    lemma_truncation_gives_prefix,
};
use crate::message::{
    Address, RawInstruction, Transaction, address_bytes, resolve_static, resolved_texts, texts,
};
use crate::program::{
    Headings, ProgramInstruction, ProgramTransaction, decode_invoking, decoded_all, parse_outcome,
    render_instructions, transaction_text,
};
use crate::render::{instruction_text, render_instruction};
use vstd::prelude::*;

verus! {

/// The address of the program, in Base58.
pub const BOOP_PROGRAM_ID: &'static str = "boop8hVGQGqehUK2iVEMEnMrL5RbjywRzHKBmBE7ry4";

/// The instructions of the program.
#[derive(Clone, Copy, Debug, PartialEq, Eq, Structural)]
pub enum BoopInstructionType {
    Unknown,
    BuyToken,
    SellToken,
    CreateToken,
    DeployBondingCurve,
    Create,
    Sell,
    Initialize,
    SetParams,
    UpdateAuthority,
}

/// A decoded instruction of the program: its variant, the addresses of its
/// accounts in the order of the instruction, and its payload as it came.
#[derive(Clone, Debug)]
pub struct BoopInstruction {
    pub instruction_type: BoopInstructionType,
    pub accounts: Vec<String>,
    pub data: Vec<u8>,
}

/// The instructions of one transaction that invoke the program, under the
/// transaction's first signature.
#[derive(Debug)]
pub struct BoopTransaction {
    pub signature: String,
    pub instructions: Vec<BoopInstruction>,
}

/// The entry points of the decoder.
pub struct BoopParser;

impl BoopInstructionType {
    /// The discriminator table. Two instructions are known under two discriminators.
    pub open spec fn rows() -> Seq<Row<BoopInstructionType>> {
        seq![
            Row {
                tag: [138, 127, 14, 91, 38, 87, 115, 105],
                variant: BoopInstructionType::BuyToken,
            },
            Row {
                tag: [109, 61, 40, 187, 230, 176, 135, 174],
                variant: BoopInstructionType::SellToken,
            },
            Row {
                tag: [253, 184, 126, 199, 235, 232, 172, 162],
                variant: BoopInstructionType::CreateToken,
            },
            Row {
                tag: [53, 230, 172, 84, 77, 174, 22, 61],
                variant: BoopInstructionType::DeployBondingCurve,
            },
            Row {
                tag: [84, 52, 204, 228, 24, 140, 234, 75],
                variant: BoopInstructionType::CreateToken,
            },
            Row {
                tag: [180, 89, 199, 76, 168, 236, 217, 138],
                variant: BoopInstructionType::DeployBondingCurve,
            },
            Row {
                tag: [191, 19, 103, 26, 245, 85, 112, 105],
                variant: BoopInstructionType::Create,
            },
            Row { tag: [25, 169, 76, 76, 84, 153, 195, 216], variant: BoopInstructionType::Sell },
            Row {
                tag: [175, 175, 109, 31, 13, 152, 155, 237],
                variant: BoopInstructionType::Initialize,
            },
            Row {
                tag: [235, 129, 153, 118, 219, 194, 131, 246],
                variant: BoopInstructionType::SetParams,
            },
            Row {
                tag: [167, 17, 172, 137, 241, 116, 201, 161],
                variant: BoopInstructionType::UpdateAuthority,
            },
        ]
    }

    /// The variant that a payload selects: the table's first match on its
    /// first eight bytes, or `Unknown` when it is shorter or matches no row.
    pub open spec fn of(payload: Seq<u8>) -> BoopInstructionType {
        match lookup_spec(Self::rows(), payload) {
            Some(v) => v,
            None => BoopInstructionType::Unknown,
        }
    }

    /// The field grammar of the variant, read from offset 8.
    pub open spec fn grammar_spec(self) -> Seq<FieldSpec> {
        match self {
            BoopInstructionType::BuyToken => seq![
                FieldSpec { label: "Token_Amount", kind: FieldKind::U64 },
                FieldSpec { label: "Max_SOL_Cost", kind: FieldKind::U64 },
            ],
            BoopInstructionType::SellToken | BoopInstructionType::Sell => seq![
                FieldSpec { label: "Token_Amount", kind: FieldKind::U64 },
                FieldSpec { label: "Min_SOL_Output", kind: FieldKind::U64 },
            ],
            BoopInstructionType::CreateToken => seq![
                FieldSpec { label: "Salt", kind: FieldKind::U64 },
                FieldSpec { label: "Name", kind: FieldKind::Text },
                FieldSpec { label: "Symbol", kind: FieldKind::Text },
                FieldSpec { label: "URI", kind: FieldKind::Text },
            ],
            BoopInstructionType::DeployBondingCurve => seq![
                FieldSpec { label: "Creator", kind: FieldKind::Key },
                FieldSpec { label: "Salt", kind: FieldKind::U64 },
            ],
            BoopInstructionType::Create => seq![
                FieldSpec { label: "Salt", kind: FieldKind::U64 },
                FieldSpec { label: "Name", kind: FieldKind::Text },
                FieldSpec { label: "Symbol", kind: FieldKind::Text },
                FieldSpec { label: "URI", kind: FieldKind::Text },
                FieldSpec { label: "Creator", kind: FieldKind::Key },
            ],
            _ => Seq::empty(),
        }
    }

    /// The label of each account position. No position of this program is
    /// labelled, so every account is shown as `Unknown`.
    pub open spec fn labels_spec(self) -> Seq<&'static str> {
        Seq::empty()
    }

    /// The fields that a payload holds: those that the grammar of its variant
    /// yields from offset 8.
    pub open spec fn fields_of(payload: Seq<u8>) -> Seq<FieldModel> {
        decoded_fields(Self::of(payload).grammar_spec(), payload, 8)
    }

    /// The name of the variant.
    pub open spec fn name_spec(self) -> Seq<char> {
        match self {
            BoopInstructionType::Unknown => "Unknown"@,
            BoopInstructionType::BuyToken => "BuyToken"@,
            BoopInstructionType::SellToken => "SellToken"@,
            BoopInstructionType::CreateToken => "CreateToken"@,
            BoopInstructionType::DeployBondingCurve => "DeployBondingCurve"@,
            BoopInstructionType::Create => "Create"@,
            BoopInstructionType::Sell => "Sell"@,
            BoopInstructionType::Initialize => "Initialize"@,
            BoopInstructionType::SetParams => "SetParams"@,
            BoopInstructionType::UpdateAuthority => "UpdateAuthority"@,
        }
    }

    /// The discriminator table.
    pub fn table() -> (t: Vec<Row<BoopInstructionType>>)
        ensures
            t@ == Self::rows(),
    {
        let t = vec![
            Row {
                tag: [138, 127, 14, 91, 38, 87, 115, 105],
                variant: BoopInstructionType::BuyToken,
            },
            Row {
                tag: [109, 61, 40, 187, 230, 176, 135, 174],
                variant: BoopInstructionType::SellToken,
            },
            Row {
                tag: [253, 184, 126, 199, 235, 232, 172, 162],
                variant: BoopInstructionType::CreateToken,
            },
            Row {
                tag: [53, 230, 172, 84, 77, 174, 22, 61],
                variant: BoopInstructionType::DeployBondingCurve,
            },
            Row {
                tag: [84, 52, 204, 228, 24, 140, 234, 75],
                variant: BoopInstructionType::CreateToken,
            },
            Row {
                tag: [180, 89, 199, 76, 168, 236, 217, 138],
                variant: BoopInstructionType::DeployBondingCurve,
            },
            Row {
                tag: [191, 19, 103, 26, 245, 85, 112, 105],
                variant: BoopInstructionType::Create,
            },
            Row { tag: [25, 169, 76, 76, 84, 153, 195, 216], variant: BoopInstructionType::Sell },
            Row {
                tag: [175, 175, 109, 31, 13, 152, 155, 237],
                variant: BoopInstructionType::Initialize,
            },
            Row {
                tag: [235, 129, 153, 118, 219, 194, 131, 246],
                variant: BoopInstructionType::SetParams,
            },
            Row {
                tag: [167, 17, 172, 137, 241, 116, 201, 161],
                variant: BoopInstructionType::UpdateAuthority,
            },
        ];
        assert(t@ =~= Self::rows());
        t
    }

    /// Classifies a payload by its discriminator.
    pub fn classify(payload: &[u8]) -> (v: BoopInstructionType)
        ensures
            v == Self::of(payload@),
    {
        let table = Self::table();
        match lookup(&table, payload) {
            Some(v) => v,
            None => BoopInstructionType::Unknown,
        }
    }

    /// The field grammar of the variant.
    pub fn grammar(self) -> (steps: Vec<FieldSpec>)
        ensures
            steps@ == self.grammar_spec(),
    {
        let steps = match self {
            BoopInstructionType::BuyToken => vec![
                FieldSpec { label: "Token_Amount", kind: FieldKind::U64 },
                FieldSpec { label: "Max_SOL_Cost", kind: FieldKind::U64 },
            ],
            BoopInstructionType::SellToken | BoopInstructionType::Sell => vec![
                FieldSpec { label: "Token_Amount", kind: FieldKind::U64 },
                FieldSpec { label: "Min_SOL_Output", kind: FieldKind::U64 },
            ],
            BoopInstructionType::CreateToken => vec![
                FieldSpec { label: "Salt", kind: FieldKind::U64 },
                FieldSpec { label: "Name", kind: FieldKind::Text },
                FieldSpec { label: "Symbol", kind: FieldKind::Text },
                FieldSpec { label: "URI", kind: FieldKind::Text },
            ],
            BoopInstructionType::DeployBondingCurve => vec![
                FieldSpec { label: "Creator", kind: FieldKind::Key },
                FieldSpec { label: "Salt", kind: FieldKind::U64 },
            ],
            BoopInstructionType::Create => vec![
                FieldSpec { label: "Salt", kind: FieldKind::U64 },
                FieldSpec { label: "Name", kind: FieldKind::Text },
                FieldSpec { label: "Symbol", kind: FieldKind::Text },
                FieldSpec { label: "URI", kind: FieldKind::Text },
                FieldSpec { label: "Creator", kind: FieldKind::Key },
            ],
            _ => Vec::new(),
        };
        assert(steps@ =~= self.grammar_spec());
        steps
    }

    /// The label of each account position. No position of this program is
    /// labelled, so every account is shown as `Unknown`.
    pub fn account_labels(self) -> (labels: Vec<&'static str>)
        ensures
            labels@ == self.labels_spec(),
    {
        Vec::new()
    }

    /// The name of the variant.
    pub fn name(self) -> (s: &'static str)
        ensures
            s@ == self.name_spec(),
    {
        match self {
            BoopInstructionType::Unknown => "Unknown",
            BoopInstructionType::BuyToken => "BuyToken",
            BoopInstructionType::SellToken => "SellToken",
            BoopInstructionType::CreateToken => "CreateToken",
            BoopInstructionType::DeployBondingCurve => "DeployBondingCurve",
            BoopInstructionType::Create => "Create",
            BoopInstructionType::Sell => "Sell",
            BoopInstructionType::Initialize => "Initialize",
            BoopInstructionType::SetParams => "SetParams",
            BoopInstructionType::UpdateAuthority => "UpdateAuthority",
        }
    }

    /// Classification is a function of the payload, and of no more of it than
    /// its first eight bytes: payloads that agree there (or are both shorter)
    /// are classified alike, so classifying a payload twice gives the same
    /// variant both times.
    pub proof fn lemma_classification_is_stable(p: Seq<u8>, q: Seq<u8>)
        requires
            (p.len() < 8 && q.len() < 8) || (p.len() >= 8 && q.len() >= 8 && p.take(8) == q.take(
                8,
            )),
        ensures
            Self::of(p) == Self::of(q),
    {
        lemma_lookup_reads_prefix_only(Self::rows(), p, q);
    }

    /// The fields decoded from a truncated payload are a prefix of the fields
    /// decoded from the whole payload.
    pub proof fn lemma_partial_decode_is_monotonic(p: Seq<u8>, k: int)
        requires
            0 <= k < p.len(),
        ensures
            Self::fields_of(p.take(k)).is_prefix_of(Self::fields_of(p)),
    {
        if k < 8 {
            assert(Self::fields_of(p.take(k)) =~= Seq::<FieldModel>::empty());
        } else {
            assert(p.take(k).take(8) =~= p.take(8));
            lemma_truncation_gives_prefix(Self::of(p).grammar_spec(), p, k, 8);
        }
    }
}

impl BoopInstruction {
    /// The fields that the payload holds under the variant's grammar.
    pub open spec fn fields_spec(&self) -> Seq<FieldModel> {
        decoded_fields(self.instruction_type.grammar_spec(), self.data@, 8)
    }

    /// Decodes the fields of the payload. A payload that ends early gives the
    /// fields that were complete.
    pub fn fields(&self) -> (fields: Vec<Field>)
        ensures
            field_models(fields@) == self.fields_spec(),
    {
        let steps = self.instruction_type.grammar();
        decode_fields(&steps, self.data.as_slice(), 8)
    }
}

impl ProgramInstruction for BoopInstruction {
    open spec fn decodes(&self, raw: RawInstruction, keys: Seq<Address>) -> bool {
        &&& self.instruction_type == BoopInstructionType::of(raw.payload@)
        &&& texts(self.accounts@) == resolved_texts(raw.account_indices@, keys)
        &&& self.data@ == raw.payload@
    }

    open spec fn kind_name(&self) -> Seq<char> {
        self.instruction_type.name_spec()
    }

    open spec fn body_text(&self) -> Seq<char> {
        instruction_text(
            self.fields_spec(),
            self.instruction_type.labels_spec(),
            texts(self.accounts@),
        )
    }

    fn decode(raw: &RawInstruction, keys: &Vec<Address>) -> (r: Self) {
        BoopParser::compile_instruction_to_boop_instruction(raw, keys)
    }

    fn name(&self) -> (s: &'static str) {
        self.instruction_type.name()
    }

    fn render(&self) -> (s: String) {
        let fields = self.fields();
        let labels = self.instruction_type.account_labels();
        render_instruction(&fields, &labels, &self.accounts)
    }
}

impl BoopParser {
    /// Turns a compiled instruction into a decoded one: classifies the
    /// payload, resolves the account indices against `keys` (leaving out any
    /// that is out of range) and keeps the payload whole.
    pub fn compile_instruction_to_boop_instruction(
        raw: &RawInstruction,
        keys: &Vec<Address>,
    ) -> (r: BoopInstruction)
        ensures
            r.decodes(*raw, keys@),
            r.fields_spec() == BoopInstructionType::fields_of(raw.payload@),
    {
        let instruction_type = BoopInstructionType::classify(raw.payload.as_slice());
        let accounts = resolve_static(raw.account_indices.as_slice(), keys);
        BoopInstruction { instruction_type, accounts, data: raw.payload.clone() }
    }
}

impl ProgramTransaction for BoopTransaction {
    open spec fn parsed_from(&self, tx: Transaction, program: Seq<u8>) -> bool {
        &&& self.signature@ == tx.signature_text()
        &&& decoded_all(self.instructions@, tx.instructions_for(program), tx.keys.static_keys@)
    }

    open spec fn signature_view(&self) -> Seq<char> {
        self.signature@
    }

    open spec fn text(&self) -> Seq<char> {
        transaction_text(Headings::Numbered, self.instructions@)
    }

    fn decode_for_program(tx: &Transaction, program: &Address) -> (r: Option<Self>) {
        let instructions: Vec<BoopInstruction> = decode_invoking(tx, program);
        if instructions.len() == 0 {
            return None;
        }
        Some(BoopTransaction { signature: tx.signature_string(), instructions })
    }

    fn signature_string(&self) -> (s: String) {
        self.signature.clone()
    }

    fn render(&self) -> (s: String) {
        render_instructions(Headings::Numbered, &self.instructions)
    }
}

impl BoopParser {
    /// The address of the program, if the constant that names it is one.
    pub fn program_id() -> (r: Option<Address>)
        ensures
            match r {
                Some(a) => address_bytes(BOOP_PROGRAM_ID@) == Some(a@),
                None => address_bytes(BOOP_PROGRAM_ID@) is None,
            },
    {
        Address::from_base58(BOOP_PROGRAM_ID)
    }

    /// Decodes the instructions of `transaction` that invoke the program,
    /// under the transaction's first signature. `None` when no instruction
    /// invokes the program, and when the message depends on lookup tables.
    pub fn parse_transaction(transaction: &Transaction) -> (r: Option<BoopTransaction>)
        ensures
            match address_bytes(BOOP_PROGRAM_ID@) {
                Some(program) => parse_outcome(r, *transaction, program),
                None => r is None,
            },
            transaction.keys.uses_lookup_tables() ==> r is None,
    {
        match Self::program_id() {
            Some(program) => BoopTransaction::decode_for_program(transaction, &program),
            None => None,
        }
    }
}

} // verus!
