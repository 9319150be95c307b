use vstd::prelude::*;

use crate::buffer::{bytes_mut_view, bytes_view, freeze_buffer, new_buffer, put_u8};
use crate::error::DecodeError;
use crate::field::{decode_field, encodable, field_bytes, lemma_field_round_trip, Argument, ArgumentType, DBField, DBFieldType};

verus! {

/// Most fields an argument collection can carry: the size of its type table.
pub const MAX_ARGUMENTS: usize = 12;

/// Bytes in front of the fields: count marker, count, constant header and type table.
pub const HEADER_LEN: usize = 19;

/// A field as the contracts see it: its kind and its payload.
pub type FieldView = (DBFieldType, Seq<u8>);

/// Type table of a collection: the table byte of each field, zero-padded to twelve.
pub open spec fn type_table(fs: Seq<FieldView>) -> Seq<u8> {
    Seq::new(12, |i: int| if i < fs.len() { fs[i].0.argument_type().code() } else { 0u8 })
}

/// Concatenated wire forms of the fields, in order.
pub open spec fn fields_bytes(fs: Seq<FieldView>) -> Seq<u8>
    decreases fs.len(),
{
    if fs.len() == 0 {
        Seq::empty()
    } else {
        fields_bytes(fs.drop_last()) + field_bytes(fs.last().0, fs.last().1)
    }
}

/// Fixed bytes that open a collection of `n` fields, before the type table.
pub open spec fn collection_header(n: u8) -> Seq<u8> {
    seq![0x0fu8, n, 0x14u8, 0u8, 0u8, 0u8, 0x0cu8]
}

/// Wire form of a collection.
pub open spec fn collection_bytes(fs: Seq<FieldView>) -> Seq<u8> {
    collection_header(fs.len() as u8) + type_table(fs) + fields_bytes(fs)
}

/// Table kinds of the fields, in order.
pub open spec fn kinds_of(fs: Seq<FieldView>) -> Seq<ArgumentType> {
    fs.map_values(|f: FieldView| f.0.argument_type())
}

/// Reads the first `n` entries of a type table; `None` if one is not a known kind.
pub open spec fn table_kinds(table: Seq<u8>, n: nat) -> Option<Seq<ArgumentType>> {
    if n <= table.len() && forall|i: int| 0 <= i < n ==> ArgumentType::from_code(#[trigger] table[i]) is Some {
        Some(Seq::new(n, |i: int| ArgumentType::from_code(table[i])->0))
    } else {
        None
    }
}

/// Reads fields of the given kinds one after another from the front of `s`:
/// the fields and the bytes they took, or `None` if one of them does not fit.
pub open spec fn decode_fields(kinds: Seq<ArgumentType>, s: Seq<u8>) -> Option<(Seq<FieldView>, nat)>
    decreases kinds.len(),
{
    if kinds.len() == 0 {
        Some((Seq::empty(), 0))
    } else {
        match decode_fields(kinds.drop_last(), s) {
            Some((fs, n)) => match decode_field(kinds.last(), s.subrange(n as int, s.len() as int)) {
                Some((f, m)) => Some((fs.push(f), n + m)),
                None => None,
            },
            None => None,
        }
    }
}

/// Reads a collection from the front of `s`: its fields and the bytes it
/// took. `None` when the header is cut short, the count exceeds twelve, a
/// listed kind is unknown or a field does not fit. The count marker and the
/// constant header bytes are not examined.
pub open spec fn decode_collection(s: Seq<u8>) -> Option<(Seq<FieldView>, nat)> {
    if s.len() < 19 || s[1] > 12 {
        None
    } else {
        match table_kinds(s.subrange(7, 19), s[1] as nat) {
            Some(kinds) => match decode_fields(kinds, s.subrange(19, s.len() as int)) {
                Some((fs, n)) => Some((fs, 19 + n)),
                None => None,
            },
            None => None,
        }
    }
}

/// A prefix of the kinds that does not fit means the whole list does not.
proof fn lemma_decode_fields_prefix_fails(kinds: Seq<ArgumentType>, i: int, s: Seq<u8>)
    requires
        0 <= i <= kinds.len(),
        decode_fields(kinds.take(i), s) is None,
    ensures
        decode_fields(kinds, s) is None,
    decreases kinds.len() - i,
{
    if i < kinds.len() {
        assert(kinds.take(i + 1).drop_last() =~= kinds.take(i));
        lemma_decode_fields_prefix_fails(kinds, i + 1, s);
    } else {
        assert(kinds.take(i) =~= kinds);
    }
}

/// Reading back the wire forms of encodable fields, whatever follows them,
/// gives the same fields and consumes exactly their bytes.
pub proof fn lemma_fields_round_trip(fs: Seq<FieldView>, rest: Seq<u8>)
    requires
        forall|i: int| 0 <= i < fs.len() ==> encodable(#[trigger] fs[i].0, fs[i].1),
    ensures
        decode_fields(kinds_of(fs), fields_bytes(fs) + rest) == Some((fs, fields_bytes(fs).len())),
    decreases fs.len(),
{
    if fs.len() > 0 {
        let init = fs.drop_last();
        let last = fs.last();
        let tail = field_bytes(last.0, last.1);
        assert forall|i: int| 0 <= i < init.len() implies encodable(#[trigger] init[i].0, init[i].1) by {
            assert(init[i] == fs[i]);
        }
        lemma_fields_round_trip(init, tail + rest);
        assert(fields_bytes(fs) + rest =~= fields_bytes(init) + (tail + rest));
        assert(kinds_of(fs).drop_last() =~= kinds_of(init));
        let s = fields_bytes(fs) + rest;
        let n = fields_bytes(init).len();
        assert(s.subrange(n as int, s.len() as int) =~= tail + rest);
        assert(encodable(fs[fs.len() - 1].0, fs[fs.len() - 1].1));
        lemma_field_round_trip(last.0, last.1, rest);
        assert(init.push(last) =~= fs);
    }
}

/// Reading fields gives one field per kind and takes no more bytes than there are.
proof fn lemma_decode_fields_len(kinds: Seq<ArgumentType>, s: Seq<u8>)
    ensures
        decode_fields(kinds, s) matches Some((fs, n)) ==> fs.len() == kinds.len() && n <= s.len(),
    decreases kinds.len(),
{
    if kinds.len() > 0 {
        lemma_decode_fields_len(kinds.drop_last(), s);
    }
}

/// A collection read from bytes holds at most twelve fields and takes no
/// more bytes than there are.
pub proof fn lemma_decoded_collection_bounded(s: Seq<u8>)
    ensures
        decode_collection(s) matches Some((fs, n)) ==> fs.len() <= 12 && n <= s.len(),
{
    if s.len() >= 19 && s[1] <= 12 {
        if let Some(kinds) = table_kinds(s.subrange(7, 19), s[1] as nat) {
            lemma_decode_fields_len(kinds, s.subrange(19, s.len() as int));
        }
    }
}

/// Reading back the wire form of a collection of at most twelve encodable
/// fields, whatever follows it, gives the same fields and consumes exactly
/// its wire form.
pub proof fn lemma_collection_round_trip(fs: Seq<FieldView>, rest: Seq<u8>)
    requires
        fs.len() <= 12,
        forall|i: int| 0 <= i < fs.len() ==> encodable(#[trigger] fs[i].0, fs[i].1),
    ensures
        decode_collection(collection_bytes(fs) + rest) == Some((fs, collection_bytes(fs).len())),
{
    let s = collection_bytes(fs) + rest;
    let n = fs.len();
    let table = s.subrange(7, 19);
    assert(table =~= type_table(fs));
    assert forall|i: int| 0 <= i < n implies ArgumentType::from_code(#[trigger] table[i]) == Some(
        kinds_of(fs)[i],
    ) by {
        assert(table[i] == fs[i].0.argument_type().code());
    }
    assert(table_kinds(table, n) == Some(kinds_of(fs))) by {
        assert(Seq::new(n, |i: int| ArgumentType::from_code(table[i])->0) =~= kinds_of(fs));
    }
    assert(s.subrange(19, s.len() as int) =~= fields_bytes(fs) + rest);
    lemma_fields_round_trip(fs, rest);
}

/// An empty collection is the constant header and a type table of twelve
/// zeros, with nothing after it; a full one has count twelve and lists a
/// kind, never zero, in every table entry, with its fields right after.
pub proof fn lemma_collection_bounds(fs: Seq<FieldView>)
    ensures
        fs.len() == 0 ==> collection_bytes(fs) == collection_header(0) + Seq::new(12, |i: int| 0u8),
        fs.len() == 12 ==> collection_bytes(fs)[1] == 12,
        fs.len() == 12 ==> type_table(fs) == kinds_of(fs).map_values(|k: ArgumentType| k.code()),
        fs.len() == 12 ==> collection_bytes(fs).subrange(7, 19) == type_table(fs),
        fs.len() == 12 ==> forall|i: int| 0 <= i < 12 ==> #[trigger] type_table(fs)[i] != 0,
        fs.len() == 12 ==> collection_bytes(fs).len() == 19 + fields_bytes(fs).len(),
{
    if fs.len() == 0 {
        assert(collection_bytes(fs) =~= collection_header(0) + Seq::new(12, |i: int| 0u8));
    }
    if fs.len() == 12 {
        assert(type_table(fs) =~= kinds_of(fs).map_values(|k: ArgumentType| k.code()));
        assert(collection_bytes(fs).subrange(7, 19) =~= type_table(fs));
    }
}

/// An ordered list of at most twelve fields, the payload of every message.
#[derive(Debug, PartialEq, Eq)]
pub struct ArgumentCollection {
    items: Vec<DBField>,
}

impl View for ArgumentCollection {
    type V = Seq<FieldView>;

    closed spec fn view(&self) -> Seq<FieldView> {
        self.items@.map_values(|f: DBField| f@)
    }
}

impl ArgumentCollection {
    #[verifier::type_invariant]
    spec fn within_table(self) -> bool {
        self.items@.len() <= 12
    }

    pub fn new(items: Vec<DBField>) -> (r: ArgumentCollection)
        requires
            items@.len() <= 12,
        ensures
            r@ == items@.map_values(|f: DBField| f@),
    {
        ArgumentCollection { items }
    }

    /// Number of fields.
    pub fn len(&self) -> (r: usize)
        ensures
            r == self@.len(),
            r <= 12,
    {
        proof {
            use_type_invariant(self);
        }
        self.items.len()
    }

    /// The field at `index`.
    pub fn get(&self, index: usize) -> (r: &DBField)
        requires
            index < self@.len(),
        ensures
            r@ == self@[index as int],
    {
        &self.items[index]
    }

    /// Appends the collection's wire form to `out`.
    pub fn write_to(&self, out: &mut bytes::BytesMut)
        ensures
            bytes_mut_view(*final(out)) == bytes_mut_view(*old(out)) + collection_bytes(self@),
    {
        proof {
            use_type_invariant(self);
        }
        let ghost start = bytes_mut_view(*out);
        let ghost fs = self@;
        let n = self.items.len();
        let count: u8 = n as u8;
        put_u8(out, 0x0f);
        put_u8(out, count);
        put_u8(out, 0x14);
        put_u8(out, 0);
        put_u8(out, 0);
        put_u8(out, 0);
        put_u8(out, 0x0c);
        assert(bytes_mut_view(*out) == start + collection_header(fs.len() as u8));
        let ghost with_header = bytes_mut_view(*out);
        let mut i: usize = 0;
        while i < 12
            invariant
                n == fs.len(),
                n <= 12,
                i <= 12,
                fs == self@,
                self@ == self.items@.map_values(|f: DBField| f@),
                bytes_mut_view(*out) == with_header + type_table(fs).take(i as int),
            decreases 12 - i,
        {
            let code: u8 = if i < n {
                let kind = self.items[i].kind();
                ArgumentType::from(kind).value()
            } else {
                0
            };
            put_u8(out, code);
            assert(type_table(fs).take(i + 1) =~= type_table(fs).take(i as int).push(code));
            i = i + 1;
        }
        assert(type_table(fs).take(12) =~= type_table(fs));
        let ghost with_table = bytes_mut_view(*out);
        let mut j: usize = 0;
        while j < n
            invariant
                n == fs.len(),
                j <= n,
                fs == self@,
                self@ == self.items@.map_values(|f: DBField| f@),
                bytes_mut_view(*out) == with_table + fields_bytes(fs.take(j as int)),
            decreases n - j,
        {
            self.items[j].write_to(out);
            assert(fs.take(j + 1).drop_last() =~= fs.take(j as int));
            j = j + 1;
        }
        assert(fs.take(n as int) =~= fs);
        assert(bytes_mut_view(*out) =~= start + collection_bytes(fs));
    }

    /// The collection's wire form.
    pub fn encode(&self) -> (r: bytes::Bytes)
        ensures
            bytes_view(r) == collection_bytes(self@),
    {
        let mut out = new_buffer();
        self.write_to(&mut out);
        assert(bytes_mut_view(out) =~= collection_bytes(self@));
        freeze_buffer(out)
    }

    /// Reads a collection from the front of `input`, handing back the bytes
    /// that follow its last field.
    pub fn decode<'a>(input: &'a [u8]) -> (r: Result<(&'a [u8], ArgumentCollection), DecodeError>)
        ensures
            match decode_collection(input@) {
                Some((fs, n)) => r matches Ok((rest, c)) && c@ == fs && rest@ == input@.subrange(
                    n as int,
                    input@.len() as int,
                ),
                None => r == Err::<(&'a [u8], ArgumentCollection), DecodeError>(
                    DecodeError::MalformedArguments,
                ),
            },
    {
        let len = input.len();
        if len < HEADER_LEN || input[1] > 12 {
            return Err(DecodeError::MalformedArguments);
        }
        let count: usize = input[1] as usize;
        let ghost table = input@.subrange(7, 19);
        let mut kinds: Vec<ArgumentType> = Vec::new();
        let mut i: usize = 0;
        while i < count
            invariant
                count <= 12,
                count == input@[1],
                len == input@.len(),
                len >= 19,
                table == input@.subrange(7, 19),
                i <= count,
                kinds@.len() == i,
                forall|k: int| 0 <= k < i ==> ArgumentType::from_code(#[trigger] table[k]) == Some(kinds@[k]),
            decreases count - i,
        {
            match ArgumentType::new(input[7 + i]) {
                Some(kind) => kinds.push(kind),
                None => {
                    assert(table[i as int] == input@[7 + i as int]);
                    assert(ArgumentType::from_code(table[i as int]) is None);
                    assert(table_kinds(table, count as nat) is None);
                    return Err(DecodeError::MalformedArguments);
                },
            }
            i = i + 1;
        }
        assert(table_kinds(table, count as nat) == Some(kinds@)) by {
            assert(kinds@ =~= Seq::new(count as nat, |k: int| ArgumentType::from_code(table[k])->0));
        }
        let ghost body = input@.subrange(19, len as int);
        let mut rest = vstd::slice::slice_subrange(input, HEADER_LEN, len);
        let mut items: Vec<DBField> = Vec::new();
        let ghost mut consumed: nat = 0;
        let mut j: usize = 0;
        while j < count
            invariant
                count <= 12,
                count == input@[1],
                len == input@.len(),
                len >= 19,
                body == input@.subrange(19, len as int),
                table_kinds(input@.subrange(7, 19), count as nat) == Some(kinds@),
                kinds@.len() == count,
                j <= count,
                decode_fields(kinds@.take(j as int), body) == Some((items@.map_values(|f: DBField| f@), consumed)),
                consumed <= body.len(),
                rest@ == body.subrange(consumed as int, body.len() as int),
                items@.len() == j,
            decreases count - j,
        {
            let ghost before = items@.map_values(|f: DBField| f@);
            assert(kinds@.take(j + 1).drop_last() =~= kinds@.take(j as int));
            match Argument::decode(kinds[j], rest) {
                Ok((next, field)) => {
                    let ghost m = (rest@.len() - next@.len()) as nat;
                    items.push(field);
                    assert(items@.map_values(|f: DBField| f@) =~= before.push(field@));
                    proof {
                        consumed = consumed + m;
                    }
                    rest = next;
                },
                Err(_) => {
                    assert(kinds@.take(j + 1).last() == kinds@[j as int]);
                    assert(decode_fields(kinds@.take(j + 1), body) is None);
                    proof {
                        lemma_decode_fields_prefix_fails(kinds@, j + 1, body);
                    }
                    return Err(DecodeError::MalformedArguments);
                },
            }
            j = j + 1;
        }
        assert(kinds@.take(count as int) =~= kinds@);
        assert(rest@ =~= input@.subrange(19 + consumed as int, len as int));
        Ok((rest, ArgumentCollection { items }))
    }
}

} // verus!
