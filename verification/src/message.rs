//! The shape of what is decoded: transactions, their account-key tables and
//! their compiled instructions, held as plain values.

use crate::codec::{base58_bytes, base58_decode, base58_encode, base58_text};
use vstd::prelude::*;
use vstd::string::*;

verus! {

/// The number of bytes of an address.
pub const ADDRESS_LEN: usize = 32;

/// The longest Base58 text that is tried as an address.
pub const MAX_ADDRESS_TEXT_LEN: usize = 44;

/// A public key: the address of an account or of a program.
#[derive(Clone, Copy, Debug, PartialEq, Eq)]
pub struct Address {
    pub bytes: [u8; 32],
}

/// A transaction signature.
#[derive(Clone, Copy, Debug, PartialEq, Eq)]
pub struct Signature {
    pub bytes: [u8; 64],
}

/// A compiled instruction: the invoked program and the accounts it is handed,
/// both as indices into the transaction's key table, and an opaque payload.
#[derive(Clone, Debug, PartialEq, Eq)]
pub struct RawInstruction {
    pub program_index: u8,
    pub account_indices: Vec<u8>,
    pub payload: Vec<u8>,
}

/// The account keys of a message. A legacy message has only static keys; a
/// versioned one may also refer to lookup tables, whose accounts are not in
/// the message.
#[derive(Clone, Debug, PartialEq, Eq)]
pub struct AccountKeyTable {
    pub static_keys: Vec<Address>,
    /// The address of each lookup table that the message refers to.
    pub lookup_tables: Vec<Address>,
}

/// A transaction: its signatures, its key table and its instructions.
#[derive(Clone, Debug, PartialEq, Eq)]
pub struct Transaction {
    pub signatures: Vec<Signature>,
    pub keys: AccountKeyTable,
    pub instructions: Vec<RawInstruction>,
}

/// A ledger entry: the transactions that one relay message delivers.
#[derive(Clone, Debug, PartialEq, Eq)]
pub struct Entry {
    pub transactions: Vec<Transaction>,
}

impl View for Address {
    type V = Seq<u8>;

    open spec fn view(&self) -> Seq<u8> {
        self.bytes@
    }
}

impl View for Signature {
    type V = Seq<u8>;

    open spec fn view(&self) -> Seq<u8> {
        self.bytes@
    }
}

/// The views of a list of strings, in order.
pub open spec fn texts(strings: Seq<String>) -> Seq<Seq<char>> {
    strings.map_values(|s: String| s@)
}

/// The bytes of the address that `text` names: `text` is at most 44
/// characters long, is well-formed Base58 and stands for exactly 32 bytes.
pub open spec fn address_bytes(text: Seq<char>) -> Option<Seq<u8>> {
    if text.len() > 44 {
        None
    } else {
        match base58_bytes(text) {
            Some(bytes) => if bytes.len() == 32 {
                Some(bytes)
            } else {
                None
            },
            None => None,
        }
    }
}

/// Whether `keys` holds a key at `index`.
pub open spec fn key_in_range(index: u8, keys: Seq<Address>) -> bool {
    (index as int) < keys.len()
}

/// The keys that `indices` select from `keys`: an index past the end of the
/// table contributes nothing, the others keep their order.
pub open spec fn resolved_keys(indices: Seq<u8>, keys: Seq<Address>) -> Seq<Address>
    decreases indices.len(),
{
    if indices.len() == 0 {
        Seq::empty()
    } else {
        let rest = resolved_keys(indices.drop_last(), keys);
        if key_in_range(indices.last(), keys) {
            rest.push(keys[indices.last() as int])
        } else {
            rest
        }
    }
}

/// The Base58 texts of the keys that `indices` select from `keys`.
pub open spec fn resolved_texts(indices: Seq<u8>, keys: Seq<Address>) -> Seq<Seq<char>> {
    resolved_keys(indices, keys).map_values(|a: Address| base58_text(a@))
}

/// Whether the instruction invokes the program whose address has the bytes
/// `program`: its program index is in range and the key there is that address.
pub open spec fn invokes(ix: RawInstruction, keys: Seq<Address>, program: Seq<u8>) -> bool {
    key_in_range(ix.program_index, keys) && keys[ix.program_index as int]@ == program
}

/// The instructions among `ixs` that invoke `program`, in order.
pub open spec fn invoking(ixs: Seq<RawInstruction>, keys: Seq<Address>, program: Seq<u8>) -> Seq<
    RawInstruction,
>
    decreases ixs.len(),
{
    if ixs.len() == 0 {
        Seq::empty()
    } else {
        let rest = invoking(ixs.drop_last(), keys, program);
        if invokes(ixs.last(), keys, program) {
            rest.push(ixs.last())
        } else {
            rest
        }
    }
}

/// An instruction's accounts are resolved index by index: the result holds
/// the key of every index that is in range, in the order of the indices, and
/// nothing for an index that is out of range.
pub proof fn lemma_resolution_skips_out_of_range(indices: Seq<u8>, keys: Seq<Address>)
    ensures
        resolved_keys(indices, keys) == indices.filter(|i: u8| key_in_range(i, keys)).map_values(
            |i: u8| keys[i as int],
        ),
        resolved_keys(indices, keys).len() <= indices.len(),
        (forall|j: int| 0 <= j < indices.len() ==> key_in_range(#[trigger] indices[j], keys))
            ==> resolved_keys(indices, keys).len() == indices.len(),
    decreases indices.len(),
{
    reveal(Seq::filter);
    let in_range = |i: u8| key_in_range(i, keys);
    let key_of = |i: u8| keys[i as int];
    if indices.len() == 0 {
        assert(resolved_keys(indices, keys) =~= indices.filter(in_range).map_values(key_of));
    } else {
        lemma_resolution_skips_out_of_range(indices.drop_last(), keys);
        assert(resolved_keys(indices, keys) =~= indices.filter(in_range).map_values(key_of));
        assert forall|j: int| 0 <= j < indices.drop_last().len() implies indices.drop_last()[j]
            == indices[j] by {}
    }
}

/// A message that depends on lookup tables is declined as a whole: none of
/// its instructions is decoded, for any program.
pub proof fn lemma_lookup_tables_fail_closed(tx: Transaction, program: Seq<u8>)
    requires
        tx.keys.uses_lookup_tables(),
    ensures
        tx.instructions_for(program).len() == 0,
{
}

impl Address {
    /// The address in Base58.
    pub fn to_base58(&self) -> (text: String)
        ensures
            text@ == base58_text(self@),
    {
        base58_encode(self.bytes.as_slice())
    }

    /// Whether two addresses hold the same bytes.
    pub fn same(&self, other: &Address) -> (r: bool)
        ensures
            r == (self@ == other@),
    {
        let mut i: usize = 0;
        while i < 32
            invariant
                i <= 32,
                forall|j: int| 0 <= j < i ==> self@[j] == other@[j],
            decreases 32 - i,
        {
            if self.bytes[i] != other.bytes[i] {
                assert(self@[i as int] != other@[i as int]);
                return false;
            }
            i += 1;
        }
        assert(self@ =~= other@);
        true
    }

    /// Reads an address from Base58. `None` when the text is longer than 44
    /// characters, is not Base58, or does not stand for 32 bytes.
    pub fn from_base58(text: &str) -> (r: Option<Address>)
        ensures
            match r {
                Some(a) => address_bytes(text@) == Some(a@),
                None => address_bytes(text@) is None,
            },
    {
        if text.unicode_len() > MAX_ADDRESS_TEXT_LEN {
            return None;
        }
        match base58_decode(text) {
            Err(_) => None,
            Ok(decoded) => Address::from_bytes(decoded.as_slice()),
        }
    }

    /// An address from its bytes; `None` unless there are exactly 32.
    pub fn from_bytes(bytes: &[u8]) -> (r: Option<Address>)
        ensures
            r is Some <==> bytes@.len() == 32,
            r is Some ==> r->0@ == bytes@,
    {
        if bytes.len() != ADDRESS_LEN {
            return None;
        }
        let mut out: [u8; 32] = [0u8; 32];
        let mut i: usize = 0;
        while i < 32
            invariant
                i <= 32,
                bytes@.len() == 32,
                forall|j: int| 0 <= j < i ==> out@[j] == bytes@[j],
            decreases 32 - i,
        {
            out[i] = bytes[i];
            i += 1;
        }
        let a = Address { bytes: out };
        assert(a@ =~= bytes@);
        Some(a)
    }
}

impl Signature {
    /// The signature in Base58.
    pub fn to_base58(&self) -> (text: String)
        ensures
            text@ == base58_text(self@),
    {
        base58_encode(self.bytes.as_slice())
    }
}

impl RawInstruction {
    /// Whether this instruction invokes `program` under the key table `keys`.
    pub fn invokes_program(&self, keys: &Vec<Address>, program: &Address) -> (r: bool)
        ensures
            r == invokes(*self, keys@, program@),
    {
        let index: usize = self.program_index as usize;
        index < keys.len() && keys[index].same(program)
    }
}

/// The Base58 texts of the keys that `indices` select from `keys`. An index
/// past the end of the table is left out; the others keep their order.
pub fn resolve_static(indices: &[u8], keys: &Vec<Address>) -> (accounts: Vec<String>)
    ensures
        texts(accounts@) == resolved_texts(indices@, keys@),
{
    let mut accounts: Vec<String> = Vec::new();
    let mut i: usize = 0;
    while i < indices.len()
        invariant
            i <= indices.len(),
            texts(accounts@) == resolved_texts(indices@.take(i as int), keys@),
        decreases indices.len() - i,
    {
        let index: usize = indices[i] as usize;
        assert(indices@.take(i as int + 1).drop_last() =~= indices@.take(i as int));
        let ghost before = accounts@;
        if index < keys.len() {
            let text = keys[index].to_base58();
            accounts.push(text);
            assert(texts(accounts@) =~= texts(before).push(text@));
        }
        assert(texts(accounts@) =~= resolved_texts(indices@.take(i as int + 1), keys@));
        i += 1;
    }
    assert(indices@.take(i as int) =~= indices@);
    accounts
}

impl AccountKeyTable {
    /// Whether the table refers to any lookup table.
    pub open spec fn uses_lookup_tables(&self) -> bool {
        self.lookup_tables@.len() > 0
    }

    /// Whether the table refers to any lookup table.
    pub fn has_lookup_tables(&self) -> (r: bool)
        ensures
            r == self.uses_lookup_tables(),
    {
        self.lookup_tables.len() > 0
    }

    /// Resolves account indices to address texts. `None` when the table
    /// refers to a lookup table, since the accounts of such a table are not at
    /// hand; else every index in range, in order.
    pub fn resolve(&self, indices: &[u8]) -> (r: Option<Vec<String>>)
        ensures
            r is None <==> self.uses_lookup_tables(),
            r is Some ==> texts(r->0@) == resolved_texts(indices@, self.static_keys@),
    {
        if self.has_lookup_tables() {
            None
        } else {
            Some(resolve_static(indices, &self.static_keys))
        }
    }
}

impl Transaction {
    /// The instructions of this transaction that are decoded for `program`:
    /// none when the message depends on lookup tables, else those that invoke
    /// the program.
    pub open spec fn instructions_for(&self, program: Seq<u8>) -> Seq<RawInstruction> {
        if self.keys.uses_lookup_tables() {
            Seq::empty()
        } else {
            invoking(self.instructions@, self.keys.static_keys@, program)
        }
    }

    /// The text that identifies the transaction: its first signature in
    /// Base58, or a placeholder when it has none.
    pub open spec fn signature_text(&self) -> Seq<char> {
        if self.signatures@.len() > 0 {
            base58_text(self.signatures@[0]@)
        } else {
            "No_Signature"@
        }
    }

    /// Whether the transaction carries a signature.
    pub fn is_signed(&self) -> (r: bool)
        ensures
            r == (self.signatures@.len() > 0),
    {
        self.signatures.len() > 0
    }

    /// The text that identifies the transaction.
    pub fn signature_string(&self) -> (text: String)
        ensures
            text@ == self.signature_text(),
    {
        if self.signatures.len() > 0 {
            self.signatures[0].to_base58()
        } else {
            "No_Signature".to_owned()
        }
    }
}

} // verus!
