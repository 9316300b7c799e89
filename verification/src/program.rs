//! What every tracked program's decoder offers, and the work that is the same
//! for all of them: picking a transaction's instructions for one program,
//! decoding them, and writing the result out.

use crate::message::{Address, RawInstruction, Transaction, invoking};
use crate::text::{decimal_text, push_decimal};
use vstd::prelude::*;
use vstd::string::*;

verus! {

/// A decoded instruction of one tracked program.
pub trait ProgramInstruction: Sized {
    /// Whether `self` is what decoding `raw` under the key table `keys` gives.
    spec fn decodes(&self, raw: RawInstruction, keys: Seq<Address>) -> bool;

    /// The name of the instruction's variant.
    spec fn kind_name(&self) -> Seq<char>;

    /// The lines of the instruction's fields and accounts.
    spec fn body_text(&self) -> Seq<char>;

    /// Decodes a compiled instruction. This never fails: an unrecognised
    /// payload gives the unknown variant, with accounts and payload kept.
    fn decode(raw: &RawInstruction, keys: &Vec<Address>) -> (r: Self)
        ensures
            r.decodes(*raw, keys@),
    ;

    /// The name of the instruction's variant.
    fn name(&self) -> (s: &'static str)
        ensures
            s@ == self.kind_name(),
    ;

    /// The lines of the instruction's fields and accounts.
    fn render(&self) -> (s: String)
        ensures
            s@ == self.body_text(),
    ;
}

/// Whether `decoded` holds, one for one and in order, what decoding each of
/// `raws` under `keys` gives.
pub open spec fn decoded_all<I: ProgramInstruction>(
    decoded: Seq<I>,
    raws: Seq<RawInstruction>,
    keys: Seq<Address>,
) -> bool {
    &&& decoded.len() == raws.len()
    &&& forall|i: int| 0 <= i < decoded.len() ==> (#[trigger] decoded[i]).decodes(raws[i], keys)
}

/// Decodes the instructions of `tx` that are decoded for `program`: none when
/// the message depends on lookup tables, else each instruction that invokes
/// the program, in order.
pub fn decode_invoking<I: ProgramInstruction>(tx: &Transaction, program: &Address) -> (out: Vec<I>)
    ensures
        decoded_all(out@, tx.instructions_for(program@), tx.keys.static_keys@),
{
    let mut out: Vec<I> = Vec::new();
    if tx.keys.has_lookup_tables() {
        return out;
    }
    let keys = &tx.keys.static_keys;
    let mut i: usize = 0;
    assert(tx.instructions@.take(0) =~= Seq::<RawInstruction>::empty());
    while i < tx.instructions.len()
        invariant
            i <= tx.instructions.len(),
            keys == &tx.keys.static_keys,
            decoded_all(out@, invoking(tx.instructions@.take(i as int), keys@, program@), keys@),
        decreases tx.instructions.len() - i,
    {
        let raw = &tx.instructions[i];
        assert(tx.instructions@.take(i as int + 1).drop_last() =~= tx.instructions@.take(i as int));
        assert(tx.instructions@.take(i as int + 1).last() == *raw);
        if raw.invokes_program(keys, program) {
            out.push(I::decode(raw, keys));
        }
        i += 1;
    }
    assert(tx.instructions@.take(i as int) =~= tx.instructions@);
    out
}

/// A decoded transaction of one tracked program: the instructions of one
/// transaction that invoke the program, under the transaction's signature.
pub trait ProgramTransaction: Sized {
    /// Whether `self` is what decoding `tx` for the program with the address
    /// bytes `program` gives.
    spec fn parsed_from(&self, tx: Transaction, program: Seq<u8>) -> bool;

    /// The signature that identifies the transaction.
    spec fn signature_view(&self) -> Seq<char>;

    /// The text of the transaction's instructions.
    spec fn text(&self) -> Seq<char>;

    /// Decodes `tx` for `program`. `None` exactly when no instruction of `tx`
    /// is decoded for the program.
    fn decode_for_program(tx: &Transaction, program: &Address) -> (r: Option<Self>)
        ensures
            match r {
                None => tx.instructions_for(program@).len() == 0,
                Some(t) => {
                    &&& tx.instructions_for(program@).len() > 0
                    &&& t.parsed_from(*tx, program@)
                    &&& t.signature_view() == tx.signature_text()
                },
            },
    ;

    /// The signature that identifies the transaction.
    fn signature_string(&self) -> (s: String)
        ensures
            s@ == self.signature_view(),
    ;

    /// The text of the transaction's instructions.
    fn render(&self) -> (s: String)
        ensures
            s@ == self.text(),
    ;
}

/// Whether `r` is the outcome of decoding `tx` for the program with the
/// address bytes `program`: nothing when no instruction is decoded for it,
/// else the decoded transaction under the signature text of `tx`.
pub open spec fn parse_outcome<T: ProgramTransaction>(
    r: Option<T>,
    tx: Transaction,
    program: Seq<u8>,
) -> bool {
    match r {
        None => tx.instructions_for(program).len() == 0,
        Some(t) => {
            &&& tx.instructions_for(program).len() > 0
            &&& t.parsed_from(tx, program)
            &&& t.signature_view() == tx.signature_text()
        },
    }
}

/// How a program's transactions head their instructions.
#[derive(Clone, Copy, Debug, PartialEq, Eq, Structural)]
pub enum Headings {
    /// `Instructions_Count: n`, then `Instruction[i]Type: name`, counting
    /// from 0.
    Indexed,
    /// `Instruction_Count: n`, then `Instruction #k: name`, counting from 1.
    Numbered,
}

/// The line that gives the number of instructions.
pub open spec fn count_line(style: Headings, count: nat) -> Seq<char> {
    match style {
        Headings::Indexed => "Instructions_Count: "@ + decimal_text(count) + "\n"@,
        Headings::Numbered => "Instruction_Count: "@ + decimal_text(count) + "\n"@,
    }
}

/// The heading of the instruction at position `i`.
pub open spec fn instruction_heading(style: Headings, i: int, name: Seq<char>) -> Seq<char> {
    match style {
        Headings::Indexed => "Instruction["@ + decimal_text(i as nat) + "]Type: "@ + name + "\n"@,
        Headings::Numbered => "Instruction #"@ + decimal_text((i + 1) as nat) + ": "@ + name
            + "\n"@,
    }
}

/// The headings and bodies of a list of instructions, in order.
pub open spec fn instruction_blocks<I: ProgramInstruction>(style: Headings, ixs: Seq<I>) -> Seq<
    char,
>
    decreases ixs.len(),
{
    if ixs.len() == 0 {
        Seq::empty()
    } else {
        instruction_blocks(style, ixs.drop_last()) + instruction_heading(
            style,
            ixs.len() - 1,
            ixs.last().kind_name(),
        ) + ixs.last().body_text()
    }
}

/// The text of a decoded transaction: the number of its instructions, then
/// each instruction under its heading.
pub open spec fn transaction_text<I: ProgramInstruction>(style: Headings, ixs: Seq<I>) -> Seq<
    char,
> {
    count_line(style, ixs.len()) + instruction_blocks(style, ixs)
}

/// Appends the line that gives the number of instructions.
fn push_count_line(out: &mut String, style: Headings, count: usize)
    ensures
        final(out)@ == old(out)@ + count_line(style, count as nat),
{
    match style {
        Headings::Indexed => out.append("Instructions_Count: "),
        Headings::Numbered => out.append("Instruction_Count: "),
    }
    push_decimal(out, count as u64);
    out.append("\n");
    assert(out@ =~= old(out)@ + count_line(style, count as nat));
}

/// Appends the heading of the instruction at position `i`.
fn push_heading(out: &mut String, style: Headings, i: usize, name: &str)
    requires
        i < usize::MAX,
    ensures
        final(out)@ == old(out)@ + instruction_heading(style, i as int, name@),
{
    match style {
        Headings::Indexed => {
            out.append("Instruction[");
            push_decimal(out, i as u64);
            out.append("]Type: ");
        },
        Headings::Numbered => {
            out.append("Instruction #");
            push_decimal(out, (i + 1) as u64);
            out.append(": ");
        },
    }
    out.append(name);
    out.append("\n");
    assert(out@ =~= old(out)@ + instruction_heading(style, i as int, name@));
}

/// Writes a decoded transaction's instructions out.
pub fn render_instructions<I: ProgramInstruction>(style: Headings, ixs: &Vec<I>) -> (out: String)
    ensures
        out@ == transaction_text(style, ixs@),
{
    let mut out = String::new();
    push_count_line(&mut out, style, ixs.len());
    let ghost head = out@;
    let mut i: usize = 0;
    assert(ixs@.take(0) =~= Seq::<I>::empty());
    assert(out@ =~= head + instruction_blocks(style, ixs@.take(0)));
    while i < ixs.len()
        invariant
            i <= ixs.len(),
            head == count_line(style, ixs@.len()),
            out@ == head + instruction_blocks(style, ixs@.take(i as int)),
        decreases ixs.len() - i,
    {
        let ghost before = out@;
        let ix = &ixs[i];
        push_heading(&mut out, style, i, ix.name());
        let body = ix.render();
        out.append(body.as_str());
        proof {
            assert(ixs@.take(i as int + 1).drop_last() =~= ixs@.take(i as int));
            assert(ixs@.take(i as int + 1).last() == *ix);
            assert(out@ =~= before + instruction_heading(style, i as int, ix.kind_name())
                + ix.body_text());
            assert(out@ =~= head + instruction_blocks(style, ixs@.take(i as int + 1)));
        }
        i += 1;
    }
    assert(ixs@.take(i as int) =~= ixs@);
    out
}

} // verus!
