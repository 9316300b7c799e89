//! Classification by discriminator: an exact-match table from the first eight
//! bytes of a payload to a program's instruction variant.

use vstd::prelude::*;

verus! {

/// One row of a program's table: a discriminator and the variant it selects.
/// Several rows may select the same variant.
pub struct Row<V> {
    pub tag: [u8; 8],
    pub variant: V,
}

/// The variant of the first row whose discriminator is `prefix`, if any.
pub open spec fn first_match<V>(rows: Seq<Row<V>>, prefix: Seq<u8>) -> Option<V>
    decreases rows.len(),
{
    if rows.len() == 0 {
        None
    } else if rows[0].tag@ == prefix {
        Some(rows[0].variant)
    } else {
        first_match(rows.drop_first(), prefix)
    }
}

/// What a table makes of a payload: nothing when the payload is shorter than
/// a discriminator, else the first match on its first eight bytes.
pub open spec fn lookup_spec<V>(rows: Seq<Row<V>>, payload: Seq<u8>) -> Option<V> {
    if payload.len() < 8 {
        None
    } else {
        first_match(rows, payload.take(8))
    }
}

/// Whether the first eight bytes of `payload` are `tag`.
fn has_tag(payload: &[u8], tag: &[u8; 8]) -> (r: bool)
    requires
        payload@.len() >= 8,
    ensures
        r == (tag@ == payload@.take(8)),
{
    let mut i: usize = 0;
    while i < 8
        invariant
            i <= 8,
            payload@.len() >= 8,
            forall|j: int| 0 <= j < i ==> tag@[j] == payload@[j],
        decreases 8 - i,
    {
        if payload[i] != tag[i] {
            assert(tag@[i as int] != payload@.take(8)[i as int]);
            return false;
        }
        i += 1;
    }
    assert(tag@ =~= payload@.take(8));
    true
}

/// A table's answer depends on nothing but the payload's first eight bytes,
/// or on its having fewer: payloads that agree there get the same answer.
pub proof fn lemma_lookup_reads_prefix_only<V>(rows: Seq<Row<V>>, p: Seq<u8>, q: Seq<u8>)
    requires
        (p.len() < 8 && q.len() < 8) || (p.len() >= 8 && q.len() >= 8 && p.take(8) == q.take(8)),
    ensures
        lookup_spec(rows, p) == lookup_spec(rows, q),
{
}

/// Looks `payload` up in `rows`: the variant of the first row whose
/// discriminator is the payload's first eight bytes.
pub fn lookup<V: Copy>(rows: &Vec<Row<V>>, payload: &[u8]) -> (r: Option<V>)
    ensures
        r == lookup_spec(rows@, payload@),
{
    if payload.len() < 8 {
        return None;
    }
    let mut i: usize = 0;
    assert(rows@.skip(0) =~= rows@);
    while i < rows.len()
        invariant
            i <= rows.len(),
            payload@.len() >= 8,
            first_match(rows@, payload@.take(8)) == first_match(
                rows@.skip(i as int),
                payload@.take(8),
            ),
        decreases rows.len() - i,
    {
        assert(rows@.skip(i as int).drop_first() =~= rows@.skip(i as int + 1));
        if has_tag(payload, &rows[i].tag) {
            return Some(rows[i].variant);
        }
        i += 1;
    }
    None
}

} // verus!
