//! The text form of decoded instructions: one line per decoded field, then
//! one line per resolved account with the label of its position.

use crate::fields::{Field, FieldModel, FieldValue, ValueModel, field_models};
use crate::message::texts;
use crate::text::{decimal_text, push_decimal};
use vstd::prelude::*;
use vstd::string::*;

verus! {

/// The text of a field's value: numbers in decimal, text and keys as they are.
pub open spec fn value_text(value: ValueModel) -> Seq<char> {
    match value {
        ValueModel::U16(v) => decimal_text(v as nat),
        ValueModel::U32(v) => decimal_text(v as nat),
        ValueModel::U64(v) => decimal_text(v as nat),
        ValueModel::Text(s) => s,
        ValueModel::Key(s) => s,
    }
}

/// The line of one field: its label, a colon and a space, its value.
pub open spec fn field_line(field: FieldModel) -> Seq<char> {
    field.label + ": "@ + value_text(field.value) + "\n"@
}

/// The lines of a list of fields, in order.
pub open spec fn field_lines(fields: Seq<FieldModel>) -> Seq<char>
    decreases fields.len(),
{
    if fields.len() == 0 {
        Seq::empty()
    } else {
        field_lines(fields.drop_last()) + field_line(fields.last())
    }
}

/// The label of the account at position `i`: the table's entry, or `Unknown`
/// for a position past the end of the table.
pub open spec fn label_at(labels: Seq<&'static str>, i: int) -> Seq<char> {
    if 0 <= i < labels.len() {
        labels[i]@
    } else {
        "Unknown"@
    }
}

/// The line of the account at position `i`.
pub open spec fn account_line(labels: Seq<&'static str>, i: int, account: Seq<char>) -> Seq<char> {
    "["@ + decimal_text(i as nat) + "]"@ + label_at(labels, i) + ": "@ + account + "\n"@
}

/// The lines of a list of accounts, each under the label of its position.
pub open spec fn account_lines(labels: Seq<&'static str>, accounts: Seq<Seq<char>>) -> Seq<char>
    decreases accounts.len(),
{
    if accounts.len() == 0 {
        Seq::empty()
    } else {
        account_lines(labels, accounts.drop_last()) + account_line(
            labels,
            accounts.len() - 1,
            accounts.last(),
        )
    }
}

/// The text of an instruction: its field lines, then its account lines.
pub open spec fn instruction_text(
    fields: Seq<FieldModel>,
    labels: Seq<&'static str>,
    accounts: Seq<Seq<char>>,
) -> Seq<char> {
    field_lines(fields) + account_lines(labels, accounts)
}

/// The label of position `i` in a label table.
pub fn label_for(labels: &Vec<&'static str>, i: usize) -> (label: &'static str)
    ensures
        label@ == label_at(labels@, i as int),
{
    if i < labels.len() {
        labels[i]
    } else {
        "Unknown"
    }
}

/// Appends the text of a field's value.
pub fn push_value(out: &mut String, value: &FieldValue)
    ensures
        final(out)@ == old(out)@ + value_text(value@),
{
    match value {
        FieldValue::U16(v) => push_decimal(out, *v as u64),
        FieldValue::U32(v) => push_decimal(out, *v as u64),
        FieldValue::U64(v) => push_decimal(out, *v),
        FieldValue::Text(s) => out.append(s.as_str()),
        FieldValue::Key(s) => out.append(s.as_str()),
    }
}

/// Appends one line per field.
pub fn push_field_lines(out: &mut String, fields: &Vec<Field>)
    ensures
        final(out)@ == old(out)@ + field_lines(field_models(fields@)),
{
    let mut i: usize = 0;
    assert(field_models(fields@).take(0) =~= Seq::<FieldModel>::empty());
    assert(out@ =~= old(out)@ + field_lines(field_models(fields@).take(0)));
    while i < fields.len()
        invariant
            i <= fields.len(),
            out@ == old(out)@ + field_lines(field_models(fields@).take(i as int)),
        decreases fields.len() - i,
    {
        let ghost before = out@;
        let ghost models = field_models(fields@);
        let field = &fields[i];
        out.append(field.label);
        out.append(": ");
        push_value(out, &field.value);
        out.append("\n");
        proof {
            assert(models.take(i as int + 1).drop_last() =~= models.take(i as int));
            assert(models.take(i as int + 1).last() == field@);
            assert(out@ =~= before + field_line(field@));
            assert(out@ =~= old(out)@ + field_lines(models.take(i as int + 1)));
        }
        i += 1;
    }
    assert(field_models(fields@).take(i as int) =~= field_models(fields@));
}

/// Appends one line per account, each under the label of its position.
pub fn push_account_lines(out: &mut String, labels: &Vec<&'static str>, accounts: &Vec<String>)
    ensures
        final(out)@ == old(out)@ + account_lines(labels@, texts(accounts@)),
{
    let mut i: usize = 0;
    assert(texts(accounts@).take(0) =~= Seq::<Seq<char>>::empty());
    assert(out@ =~= old(out)@ + account_lines(labels@, texts(accounts@).take(0)));
    while i < accounts.len()
        invariant
            i <= accounts.len(),
            out@ == old(out)@ + account_lines(labels@, texts(accounts@).take(i as int)),
        decreases accounts.len() - i,
    {
        let ghost before = out@;
        let ghost all = texts(accounts@);
        out.append("[");
        push_decimal(out, i as u64);
        out.append("]");
        out.append(label_for(labels, i));
        out.append(": ");
        out.append(accounts[i].as_str());
        out.append("\n");
        proof {
            assert(all.take(i as int + 1).drop_last() =~= all.take(i as int));
            assert(all.take(i as int + 1).last() == accounts@[i as int]@);
            assert(out@ =~= before + account_line(labels@, i as int, accounts@[i as int]@));
            assert(out@ =~= old(out)@ + account_lines(labels@, all.take(i as int + 1)));
        }
        i += 1;
    }
    assert(texts(accounts@).take(i as int) =~= texts(accounts@));
}

/// The text of an instruction with the given fields, label table and accounts.
pub fn render_instruction(
    fields: &Vec<Field>,
    labels: &Vec<&'static str>,
    accounts: &Vec<String>,
) -> (out: String)
    ensures
        out@ == instruction_text(field_models(fields@), labels@, texts(accounts@)),
{
    let mut out = String::new();
    push_field_lines(&mut out, fields);
    push_account_lines(&mut out, labels, accounts);
    assert(out@ =~= instruction_text(field_models(fields@), labels@, texts(accounts@)));
    out
}

} // verus!
