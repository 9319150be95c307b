use vstd::prelude::*;

use crate::buffer::{append, bytes_mut_view, bytes_view, freeze_buffer, new_buffer, put_u8};
use crate::error::DecodeError;

verus! {

/// Kind of a field as announced by the tag byte that precedes its bytes.
#[derive(Debug, Clone, Copy, PartialEq, Eq, Structural)]
pub enum DBFieldType {
    U8,
    U16,
    U32,
    String,
}

/// Kind of a field as listed in the type table of an argument collection.
#[derive(Debug, Clone, Copy, PartialEq, Eq, Structural)]
pub enum ArgumentType {
    U32,
    U16,
    U8,
    String,
}

impl DBFieldType {
    /// Tag byte written in front of a field of this kind.
    pub open spec fn tag(self) -> u8 {
        match self {
            DBFieldType::U8 => 0x0f,
            DBFieldType::U16 => 0x10,
            DBFieldType::U32 => 0x11,
            DBFieldType::String => 0x26,
        }
    }

    pub fn value(&self) -> (r: u8)
        ensures
            r == self.tag(),
    {
        match *self {
            DBFieldType::U8 => 0x0f,
            DBFieldType::U16 => 0x10,
            DBFieldType::U32 => 0x11,
            DBFieldType::String => 0x26,
        }
    }

    /// Type-table entry of this kind.
    pub open spec fn argument_type(self) -> ArgumentType {
        match self {
            DBFieldType::U8 => ArgumentType::U8,
            DBFieldType::U16 => ArgumentType::U16,
            DBFieldType::U32 => ArgumentType::U32,
            DBFieldType::String => ArgumentType::String,
        }
    }
}

impl ArgumentType {
    /// Byte that stands for this kind in a type table.
    pub open spec fn code(self) -> u8 {
        match self {
            ArgumentType::U8 => 0x04,
            ArgumentType::U16 => 0x05,
            ArgumentType::U32 => 0x06,
            ArgumentType::String => 0x02,
        }
    }

    /// The kind a type-table byte stands for, if any.
    pub open spec fn from_code(b: u8) -> Option<ArgumentType> {
        if b == 0x04 {
            Some(ArgumentType::U8)
        } else if b == 0x05 {
            Some(ArgumentType::U16)
        } else if b == 0x06 {
            Some(ArgumentType::U32)
        } else if b == 0x02 {
            Some(ArgumentType::String)
        } else {
            None
        }
    }

    /// Field kind written on the wire for this type-table entry.
    pub open spec fn field_type(self) -> DBFieldType {
        match self {
            ArgumentType::U8 => DBFieldType::U8,
            ArgumentType::U16 => DBFieldType::U16,
            ArgumentType::U32 => DBFieldType::U32,
            ArgumentType::String => DBFieldType::String,
        }
    }

    /// Reads a type-table byte; an unknown byte gives `None`.
    pub fn new(value: u8) -> (r: Option<ArgumentType>)
        ensures
            r == Self::from_code(value),
    {
        match value {
            0x04 => Some(ArgumentType::U8),
            0x05 => Some(ArgumentType::U16),
            0x06 => Some(ArgumentType::U32),
            0x02 => Some(ArgumentType::String),
            _ => None,
        }
    }

    pub fn value(&self) -> (r: u8)
        ensures
            r == self.code(),
    {
        match *self {
            ArgumentType::U8 => 0x04,
            ArgumentType::U16 => 0x05,
            ArgumentType::U32 => 0x06,
            ArgumentType::String => 0x02,
        }
    }
}

impl From<ArgumentType> for DBFieldType {
    fn from(argument_type: ArgumentType) -> (r: DBFieldType)
        ensures
            r == argument_type.field_type(),
    {
        match argument_type {
            ArgumentType::U32 => DBFieldType::U32,
            ArgumentType::U16 => DBFieldType::U16,
            ArgumentType::U8 => DBFieldType::U8,
            ArgumentType::String => DBFieldType::String,
        }
    }
}

impl vstd::std_specs::convert::FromSpecImpl<ArgumentType> for DBFieldType {
    open spec fn obeys_from_spec() -> bool {
        true
    }

    open spec fn from_spec(v: ArgumentType) -> DBFieldType {
        v.field_type()
    }
}

impl From<DBFieldType> for ArgumentType {
    fn from(field_type: DBFieldType) -> (r: ArgumentType)
        ensures
            r == field_type.argument_type(),
    {
        match field_type {
            DBFieldType::U32 => ArgumentType::U32,
            DBFieldType::U16 => ArgumentType::U16,
            DBFieldType::U8 => ArgumentType::U8,
            DBFieldType::String => ArgumentType::String,
        }
    }
}

impl vstd::std_specs::convert::FromSpecImpl<DBFieldType> for ArgumentType {
    open spec fn obeys_from_spec() -> bool {
        true
    }

    open spec fn from_spec(v: DBFieldType) -> ArgumentType {
        v.argument_type()
    }
}


/// Whether `value` is a well-formed payload for a field of kind `kind`:
/// exactly 1, 2 or 4 bytes for the integers, whole UTF-16 code units for a string.
pub open spec fn fits(kind: DBFieldType, value: Seq<u8>) -> bool {
    match kind {
        DBFieldType::U8 => value.len() == 1,
        DBFieldType::U16 => value.len() == 2,
        DBFieldType::U32 => value.len() == 4,
        DBFieldType::String => value.len() % 2 == 0,
    }
}

/// Width in bytes of an integer field of the given table kind.
pub open spec fn width(kind: ArgumentType) -> nat {
    match kind {
        ArgumentType::U8 => 1,
        ArgumentType::U16 => 2,
        ArgumentType::U32 => 4,
        ArgumentType::String => 0,
    }
}

/// Length byte written in front of a string payload of `len` bytes: the
/// number of code units plus the terminator, kept to one byte.
pub open spec fn string_length_byte(len: nat) -> u8 {
    ((len / 2 + 1) % 256) as u8
}

/// Wire form of one field: tag and payload for the integers; for a string,
/// tag, three zero bytes, the length byte, the payload and a zero terminator unit.
pub open spec fn field_bytes(kind: DBFieldType, value: Seq<u8>) -> Seq<u8> {
    match kind {
        DBFieldType::String => seq![kind.tag(), 0u8, 0u8, 0u8, string_length_byte(value.len())]
            + value + seq![0u8, 0u8],
        _ => seq![kind.tag()] + value,
    }
}

/// Big-endian value of four bytes.
pub open spec fn be_u32(b0: u8, b1: u8, b2: u8, b3: u8) -> nat {
    b0 as nat * 0x1000000 + b1 as nat * 0x10000 + b2 as nat * 0x100 + b3 as nat
}

/// Reads one field of table kind `kind` from the front of `s`: the field and
/// the number of bytes it took, or `None` if `s` is too short. The first byte
/// is the field's own tag and is not examined. A string gives a four-byte
/// big-endian count of code units that includes the terminator.
pub open spec fn decode_field(kind: ArgumentType, s: Seq<u8>) -> Option<((DBFieldType, Seq<u8>), nat)> {
    match kind {
        ArgumentType::String => {
            if s.len() < 5 {
                None
            } else {
                let units = be_u32(s[1], s[2], s[3], s[4]);
                if units == 0 {
                    None
                } else {
                    let n = ((units - 1) * 2) as nat;
                    if s.len() < 5 + n + 2 {
                        None
                    } else {
                        Some(((DBFieldType::String, s.subrange(5, 5 + n as int)), (5 + n + 2) as nat))
                    }
                }
            }
        },
        _ => {
            let w = width(kind);
            if s.len() < 1 + w {
                None
            } else {
                Some(((kind.field_type(), s.subrange(1, 1 + w as int)), (1 + w) as nat))
            }
        },
    }
}

/// Appends the wire form of a field to `out`.
pub fn push_field(out: &mut bytes::BytesMut, kind: DBFieldType, value: &[u8])
    ensures
        bytes_mut_view(*final(out)) == bytes_mut_view(*old(out)) + field_bytes(kind, value@),
{
    let tag = kind.value();
    let ghost start = bytes_mut_view(*out);
    match kind {
        DBFieldType::String => {
            let units: usize = value.len() / 2 + 1;
            let length_byte: u8 = (units % 256) as u8;
            put_u8(out, tag);
            put_u8(out, 0);
            put_u8(out, 0);
            put_u8(out, 0);
            put_u8(out, length_byte);
            let ghost before_value = bytes_mut_view(*out);
            append(out, value);
            assert(bytes_mut_view(*out) =~= before_value + value@);
            put_u8(out, 0);
            put_u8(out, 0);
            assert(bytes_mut_view(*out) == start + field_bytes(kind, value@));
        },
        _ => {
            put_u8(out, tag);
            let ghost before_value = bytes_mut_view(*out);
            append(out, value);
            assert(bytes_mut_view(*out) =~= before_value + value@);
            assert(bytes_mut_view(*out) == start + field_bytes(kind, value@));
        },
    }
}

/// One typed value carried in a message: its kind and its payload bytes
/// (for a string, UTF-16BE code units without the terminator).
#[derive(Debug, PartialEq, Eq)]
pub struct DBField {
    kind: DBFieldType,
    value: Vec<u8>,
}

impl View for DBField {
    type V = (DBFieldType, Seq<u8>);

    closed spec fn view(&self) -> (DBFieldType, Seq<u8>) {
        (self.kind, self.value@)
    }
}

impl DBField {
    #[verifier::type_invariant]
    spec fn well_formed(self) -> bool {
        fits(self.kind, self.value@)
    }

    pub fn new(kind: DBFieldType, value: &[u8]) -> (r: DBField)
        requires
            fits(kind, value@),
        ensures
            r@ == (kind, value@),
    {
        DBField { kind, value: vstd::slice::slice_to_vec(value) }
    }

    pub fn kind(&self) -> (r: DBFieldType)
        ensures
            r == self@.0,
            fits(self@.0, self@.1),
    {
        proof {
            use_type_invariant(self);
        }
        self.kind
    }

    pub fn value(&self) -> (r: &[u8])
        ensures
            r@ == self@.1,
            fits(self@.0, self@.1),
    {
        proof {
            use_type_invariant(self);
        }
        self.value.as_slice()
    }

    /// Appends this field's wire form to `out`.
    pub fn write_to(&self, out: &mut bytes::BytesMut)
        ensures
            bytes_mut_view(*final(out)) == bytes_mut_view(*old(out)) + field_bytes(self@.0, self@.1),
    {
        push_field(out, self.kind, self.value.as_slice());
    }

    /// The field's wire form.
    pub fn as_bytes(&self) -> (r: bytes::Bytes)
        ensures
            bytes_view(r) == field_bytes(self@.0, self@.1),
    {
        let mut out = new_buffer();
        self.write_to(&mut out);
        assert(bytes_mut_view(out) == Seq::<u8>::empty() + field_bytes(self@.0, self@.1));
        freeze_buffer(out)
    }
}


/// One argument of a message, named by its type-table kind; the codec for a
/// single field.
#[derive(Debug, PartialEq, Eq)]
pub struct Argument {
    kind: ArgumentType,
    value: Vec<u8>,
}

impl View for Argument {
    type V = (ArgumentType, Seq<u8>);

    closed spec fn view(&self) -> (ArgumentType, Seq<u8>) {
        (self.kind, self.value@)
    }
}

impl Argument {
    #[verifier::type_invariant]
    spec fn well_formed(self) -> bool {
        fits(self.kind.field_type(), self.value@)
    }

    pub fn new(kind: ArgumentType, value: &[u8]) -> (r: Argument)
        requires
            fits(kind.field_type(), value@),
        ensures
            r@ == (kind, value@),
    {
        Argument { kind, value: vstd::slice::slice_to_vec(value) }
    }

    /// Reads one field of table kind `kind` from the front of `input`, handing
    /// back the bytes that follow it.
    pub fn decode<'a>(kind: ArgumentType, input: &'a [u8]) -> (r: Result<(&'a [u8], DBField), DecodeError>)
        ensures
            match decode_field(kind, input@) {
                Some((f, n)) => r matches Ok((rest, field)) && field@ == f && rest@ == input@.subrange(
                    n as int,
                    input@.len() as int,
                ),
                None => r == Err::<(&'a [u8], DBField), DecodeError>(DecodeError::MalformedField),
            },
    {
        let len = input.len();
        match kind {
            ArgumentType::String => {
                if len < 5 {
                    return Err(DecodeError::MalformedField);
                }
                let units: u64 = input[1] as u64 * 0x1000000 + input[2] as u64 * 0x10000
                    + input[3] as u64 * 0x100 + input[4] as u64;
                if units == 0 {
                    return Err(DecodeError::MalformedField);
                }
                let n: u64 = (units - 1) * 2;
                if (len as u64) < 7 + n {
                    return Err(DecodeError::MalformedField);
                }
                let end: usize = 5 + n as usize;
                let value = vstd::slice::slice_to_vec(vstd::slice::slice_subrange(input, 5, end));
                let rest = vstd::slice::slice_subrange(input, end + 2, len);
                Ok((rest, DBField { kind: DBFieldType::String, value }))
            },
            _ => {
                let w: usize = match kind {
                    ArgumentType::U8 => 1,
                    ArgumentType::U16 => 2,
                    _ => 4,
                };
                if len < 1 + w {
                    return Err(DecodeError::MalformedField);
                }
                let value = vstd::slice::slice_to_vec(vstd::slice::slice_subrange(input, 1, 1 + w));
                let rest = vstd::slice::slice_subrange(input, 1 + w, len);
                Ok((rest, DBField { kind: DBFieldType::from(kind), value }))
            },
        }
    }

    /// The argument's wire form: the same bytes as the field it stands for.
    pub fn encode(&self) -> (r: bytes::Bytes)
        ensures
            bytes_view(r) == field_bytes(self@.0.field_type(), self@.1),
    {
        let mut out = new_buffer();
        push_field(&mut out, DBFieldType::from(self.kind), self.value.as_slice());
        assert(bytes_mut_view(out) == Seq::<u8>::empty() + field_bytes(self@.0.field_type(), self@.1));
        freeze_buffer(out)
    }
}

/// Whether a field can be written and read back unchanged: it is well formed
/// and, for a string, its length byte does not wrap.
pub open spec fn encodable(kind: DBFieldType, value: Seq<u8>) -> bool {
    &&& fits(kind, value)
    &&& (kind == DBFieldType::String ==> value.len() / 2 + 1 <= 255)
}

/// Reading back the wire form of an encodable field, whatever follows it,
/// gives the same field and consumes exactly its wire form.
pub proof fn lemma_field_round_trip(kind: DBFieldType, value: Seq<u8>, rest: Seq<u8>)
    requires
        encodable(kind, value),
    ensures
        decode_field(kind.argument_type(), field_bytes(kind, value) + rest) == Some(
            ((kind, value), field_bytes(kind, value).len()),
        ),
{
    let s = field_bytes(kind, value) + rest;
    let k = kind.argument_type();
    match kind {
        DBFieldType::String => {
            assert(be_u32(s[1], s[2], s[3], s[4]) == value.len() / 2 + 1);
            assert(s.subrange(5, 5 + value.len() as int) =~= value);
        },
        _ => {
            assert(s.subrange(1, 1 + width(k) as int) =~= value);
        },
    }
}

/// A string field whose four-byte count announces `payload.len() / 2 + 1`
/// code units reads as exactly the payload, whatever the tag and terminator
/// bytes hold; writing that field again ends it with a zero terminator unit.
pub proof fn lemma_string_payload(
    tag: u8,
    count: Seq<u8>,
    payload: Seq<u8>,
    terminator: Seq<u8>,
    rest: Seq<u8>,
)
    requires
        count.len() == 4,
        payload.len() % 2 == 0,
        be_u32(count[0], count[1], count[2], count[3]) == payload.len() / 2 + 1,
        terminator.len() == 2,
    ensures
        decode_field(ArgumentType::String, seq![tag] + count + payload + terminator + rest) == Some(
            ((DBFieldType::String, payload), payload.len() + 7),
        ),
        field_bytes(DBFieldType::String, payload).subrange(
            payload.len() + 5int,
            payload.len() + 7int,
        ) == seq![0u8, 0u8],
{
    let s = seq![tag] + count + payload + terminator + rest;
    assert(s[1] == count[0] && s[2] == count[1] && s[3] == count[2] && s[4] == count[3]);
    assert(s.subrange(5, 5 + payload.len() as int) =~= payload);
    assert(field_bytes(DBFieldType::String, payload).subrange(payload.len() + 5int, payload.len() + 7int)
        =~= seq![0u8, 0u8]);
}

} // verus!
