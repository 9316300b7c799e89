//! Sequential field grammars. A grammar is an ordered list of typed read
//! steps; decoding runs them one after another from a start offset and stops
//! at the first step that does not fit, keeping what it has read so far.

use crate::codec::{base58_text, utf8_lossy_text};
use crate::reader::{
    in_bounds, le_u16, le_u32, le_u64, read_length_prefixed_utf8, read_pubkey_b58, read_u16_le,
    read_u32_le, read_u64_le, text_end, text_in_bounds,
};
use vstd::prelude::*;

verus! {

/// The type of one read step.
#[derive(Clone, Copy, Debug, PartialEq, Eq, Structural)]
pub enum FieldKind {
    /// Two bytes, little-endian.
    U16,
    /// Four bytes, little-endian.
    U32,
    /// Eight bytes, little-endian.
    U64,
    /// A four-byte little-endian length and that many bytes of UTF-8.
    Text,
    /// Thirty-two bytes, shown in Base58.
    Key,
}

/// One step of a grammar: the name of the field and how to read it.
#[derive(Clone, Copy, Debug)]
pub struct FieldSpec {
    pub label: &'static str,
    pub kind: FieldKind,
}

/// The value of a decoded field.
#[derive(Clone, Debug, PartialEq, Eq)]
pub enum FieldValue {
    U16(u16),
    U32(u32),
    U64(u64),
    Text(String),
    Key(String),
}

/// A decoded field: its name and its value.
#[derive(Clone, Debug, PartialEq, Eq)]
pub struct Field {
    pub label: &'static str,
    pub value: FieldValue,
}

/// The mathematical value of a `FieldValue`.
pub enum ValueModel {
    U16(u16),
    U32(u32),
    U64(u64),
    Text(Seq<char>),
    Key(Seq<char>),
}

/// The mathematical value of a `Field`.
pub struct FieldModel {
    pub label: Seq<char>,
    pub value: ValueModel,
}

/// The outcome of one successful read step: the value and the offset behind it.
pub struct ReadModel {
    pub value: ValueModel,
    pub next: int,
}

impl View for FieldValue {
    type V = ValueModel;

    open spec fn view(&self) -> ValueModel {
        match self {
            FieldValue::U16(v) => ValueModel::U16(*v),
            FieldValue::U32(v) => ValueModel::U32(*v),
            FieldValue::U64(v) => ValueModel::U64(*v),
            FieldValue::Text(s) => ValueModel::Text(s@),
            FieldValue::Key(s) => ValueModel::Key(s@),
        }
    }
}

impl View for Field {
    type V = FieldModel;

    open spec fn view(&self) -> FieldModel {
        FieldModel { label: self.label@, value: self.value@ }
    }
}

/// The models of a list of fields, in order.
pub open spec fn field_models(fields: Seq<Field>) -> Seq<FieldModel> {
    fields.map_values(|f: Field| f@)
}

/// What one read step of kind `kind` yields on `buf` at offset `at`, or `None`
/// when the field does not fit.
pub open spec fn read_value(kind: FieldKind, buf: Seq<u8>, at: int) -> Option<ReadModel> {
    match kind {
        FieldKind::U16 => if in_bounds(buf, at, 2) {
            Some(ReadModel { value: ValueModel::U16(le_u16(buf, at) as u16), next: at + 2 })
        } else {
            None
        },
        FieldKind::U32 => if in_bounds(buf, at, 4) {
            Some(ReadModel { value: ValueModel::U32(le_u32(buf, at) as u32), next: at + 4 })
        } else {
            None
        },
        FieldKind::U64 => if in_bounds(buf, at, 8) {
            Some(ReadModel { value: ValueModel::U64(le_u64(buf, at) as u64), next: at + 8 })
        } else {
            None
        },
        FieldKind::Text => if text_in_bounds(buf, at) {
            Some(
                ReadModel {
                    value: ValueModel::Text(
                        utf8_lossy_text(buf.subrange(at + 4, text_end(buf, at))),
                    ),
                    next: text_end(buf, at),
                },
            )
        } else {
            None
        },
        FieldKind::Key => if in_bounds(buf, at, 32) {
            Some(
                ReadModel {
                    value: ValueModel::Key(base58_text(buf.subrange(at, at + 32))),
                    next: at + 32,
                },
            )
        } else {
            None
        },
    }
}

/// The fields that the grammar `steps` yields on `buf` from offset `at`: each
/// step reads where the one before it ended, and the first step that does not
/// fit ends the list.
pub open spec fn decoded_fields(steps: Seq<FieldSpec>, buf: Seq<u8>, at: int) -> Seq<FieldModel>
    decreases steps.len(),
{
    if steps.len() == 0 {
        Seq::empty()
    } else {
        match read_value(steps[0].kind, buf, at) {
            None => Seq::empty(),
            Some(read) => seq![FieldModel { label: steps[0].label@, value: read.value }]
                + decoded_fields(steps.drop_first(), buf, read.next),
        }
    }
}

/// Runs one read step.
pub fn read_field(kind: FieldKind, buf: &[u8], offset: usize) -> (r: Option<(FieldValue, usize)>)
    ensures
        match r {
            Some((value, next)) => read_value(kind, buf@, offset as int) == Some(
                ReadModel { value: value@, next: next as int },
            ),
            None => read_value(kind, buf@, offset as int) is None,
        },
{
    let total: usize = buf.len();
    match kind {
        FieldKind::U16 => match read_u16_le(buf, offset) {
            Some(v) => Some((FieldValue::U16(v), offset + 2)),
            None => None,
        },
        FieldKind::U32 => match read_u32_le(buf, offset) {
            Some(v) => Some((FieldValue::U32(v), offset + 4)),
            None => None,
        },
        FieldKind::U64 => match read_u64_le(buf, offset) {
            Some(v) => Some((FieldValue::U64(v), offset + 8)),
            None => None,
        },
        FieldKind::Text => match read_length_prefixed_utf8(buf, offset) {
            Some((text, next)) => Some((FieldValue::Text(text), next)),
            None => None,
        },
        FieldKind::Key => match read_pubkey_b58(buf, offset) {
            Some((text, next)) => Some((FieldValue::Key(text), next)),
            None => None,
        },
    }
}

/// Decodes `buf` from offset `start` by the grammar `steps`. It never fails:
/// a payload that ends early gives the fields that were complete.
pub fn decode_fields(steps: &Vec<FieldSpec>, buf: &[u8], start: usize) -> (fields: Vec<Field>)
    ensures
        field_models(fields@) == decoded_fields(steps@, buf@, start as int),
{
    let mut fields: Vec<Field> = Vec::new();
    let mut offset: usize = start;
    let mut i: usize = 0;
    assert(steps@.skip(0) =~= steps@);
    while i < steps.len()
        invariant
            i <= steps.len(),
            decoded_fields(steps@, buf@, start as int) == field_models(fields@) + decoded_fields(
                steps@.skip(i as int),
                buf@,
                offset as int,
            ),
        decreases steps.len() - i,
    {
        let step = &steps[i];
        let ghost before = fields@;
        assert(steps@.skip(i as int).drop_first() =~= steps@.skip(i as int + 1));
        assert(steps@.skip(i as int)[0] == steps@[i as int]);
        match read_field(step.kind, buf, offset) {
            None => {
                assert(field_models(fields@) =~= decoded_fields(steps@, buf@, start as int));
                return fields;
            },
            Some((value, next)) => {
                let field = Field { label: step.label, value };
                fields.push(field);
                offset = next;
                assert(field_models(fields@) =~= field_models(before) + seq![field@]);
            },
        }
        i += 1;
    }
    assert(field_models(fields@) =~= decoded_fields(steps@, buf@, start as int));
    fields
}

/// Cutting a payload short never changes a field that was already decoded:
/// the fields of any truncation are a prefix of the fields of the whole.
pub proof fn lemma_truncation_gives_prefix(steps: Seq<FieldSpec>, buf: Seq<u8>, k: int, at: int)
    requires
        0 <= k <= buf.len(),
        0 <= at,
    ensures
        decoded_fields(steps, buf.take(k), at).is_prefix_of(decoded_fields(steps, buf, at)),
    decreases steps.len(),
{
    let short = buf.take(k);
    if steps.len() > 0 {
        match read_value(steps[0].kind, short, at) {
            None => {},
            Some(read) => {
                assert(read_value(steps[0].kind, buf, at) == Some(read)) by {
                    match steps[0].kind {
                        FieldKind::Text => {
                            assert(short.subrange(at + 4, text_end(short, at)) =~= buf.subrange(
                                at + 4,
                                text_end(buf, at),
                            ));
                        },
                        FieldKind::Key => {
                            assert(short.subrange(at, at + 32) =~= buf.subrange(at, at + 32));
                        },
                        _ => {},
                    }
                }
                lemma_truncation_gives_prefix(steps.drop_first(), buf, k, read.next);
                let head = seq![FieldModel { label: steps[0].label@, value: read.value }];
                let a = decoded_fields(steps.drop_first(), short, read.next);
                let b = decoded_fields(steps.drop_first(), buf, read.next);
                assert((head + a) =~= (head + b).subrange(0, (head + a).len() as int));
            },
        }
    }
}

} // verus!
