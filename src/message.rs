use vstd::prelude::*;

use crate::arguments::{
    collection_bytes, decode_collection, kinds_of, lemma_collection_round_trip,
    lemma_decoded_collection_bounded, ArgumentCollection,
    FieldView,
};
use crate::buffer::{append, bytes_mut_view, bytes_view, freeze_buffer, new_buffer, put_u8};
use crate::error::DecodeError;
use crate::field::{encodable, ArgumentType};

verus! {

/// Transaction marker carried by every frame, requests and replies alike.
pub const TRANSACTION_MARKER: u8 = 0x10;

/// Message type of a reply.
pub const REPLY_TYPE: u8 = 0x40;

/// Bytes in front of the argument collection: magic, category, marker, type and sub-type.
pub const MESSAGE_HEADER_LEN: usize = 13;

/// The fixed six bytes that open every frame.
pub open spec fn magic() -> Seq<u8> {
    seq![0x11u8, 0x87u8, 0x23u8, 0x49u8, 0xaeu8, 0x11u8]
}

/// A message as the contracts see it.
pub struct MessageView {
    pub category: Seq<u8>,
    pub transaction: u8,
    pub message_type: u8,
    pub sub_type: u8,
    pub args: Seq<FieldView>,
}

/// Wire form of a message.
pub open spec fn message_bytes(m: MessageView) -> Seq<u8> {
    magic() + m.category + seq![m.transaction, m.message_type, m.sub_type] + collection_bytes(m.args)
}

/// Reads a message from the front of `s`: the message and the bytes it took.
/// A frame that does not open with the magic sequence is `BadPreamble`; one
/// whose header or argument collection is cut short or inconsistent is
/// `MalformedArguments`.
pub open spec fn decode_message(s: Seq<u8>) -> Result<(MessageView, nat), DecodeError> {
    if s.len() < 6 || s.subrange(0, 6) != magic() {
        Err(DecodeError::BadPreamble)
    } else if s.len() < 13 {
        Err(DecodeError::MalformedArguments)
    } else {
        match decode_collection(s.subrange(13, s.len() as int)) {
            Some((fs, n)) => Ok(
                (
                    MessageView {
                        category: s.subrange(6, 10),
                        transaction: s[10],
                        message_type: s[11],
                        sub_type: s[12],
                        args: fs,
                    },
                    13 + n,
                ),
            ),
            None => Err(DecodeError::MalformedArguments),
        }
    }
}

/// What a request asks for.
#[derive(Debug, Clone, Copy, PartialEq, Eq, Structural)]
pub enum DBRequestType {
    /// Opening of a session.
    Setup,
    /// The top-level menu.
    RootMenuRequest,
    /// The header of a list: how many items a menu holds.
    QueryListItem,
    /// The items of a list.
    FetchListItemContent,
    /// Anything else.
    Unimplemented,
}

/// Classification of a request by its type, sub-type and argument kinds.
/// Type 0x00 opens a session, type 0x10 with sub-type 0x00 is the root menu,
/// a type between 0x10 and 0x2f with a non-zero sub-type and two integer
/// arguments asks for a list header, and type 0x30 with six integer
/// arguments asks for the list items.
pub open spec fn classify(message_type: u8, sub_type: u8, kinds: Seq<ArgumentType>) -> DBRequestType {
    if message_type == 0x00 && sub_type == 0x00 {
        DBRequestType::Setup
    } else if message_type == 0x10 && sub_type == 0x00 {
        DBRequestType::RootMenuRequest
    } else if 0x10 <= message_type < 0x30 && sub_type != 0x00 && kinds == seq![
        ArgumentType::U32,
        ArgumentType::U32,
    ] {
        DBRequestType::QueryListItem
    } else if message_type == 0x30 && kinds == Seq::new(6, |i: int| ArgumentType::U32) {
        DBRequestType::FetchListItemContent
    } else {
        DBRequestType::Unimplemented
    }
}

/// Kind of request a frame carries; a frame that does not decode is `Unimplemented`.
pub open spec fn frame_kind(s: Seq<u8>) -> DBRequestType {
    match decode_message(s) {
        Ok((m, _)) => classify(m.message_type, m.sub_type, kinds_of(m.args)),
        Err(_) => DBRequestType::Unimplemented,
    }
}

/// One protocol packet.
#[derive(Debug, PartialEq, Eq)]
pub struct DBMessage {
    /// Channel or player the frame belongs to, echoed in replies.
    pub category: [u8; 4],
    pub transaction: u8,
    pub message_type: u8,
    pub sub_type: u8,
    pub args: ArgumentCollection,
}

impl View for DBMessage {
    type V = MessageView;

    open spec fn view(&self) -> MessageView {
        MessageView {
            category: self.category@,
            transaction: self.transaction,
            message_type: self.message_type,
            sub_type: self.sub_type,
            args: self.args@,
        }
    }
}

impl DBMessage {
    /// Reads a message from the front of `input`, handing back the bytes that follow it.
    pub fn parse<'a>(input: &'a [u8]) -> (r: Result<(&'a [u8], DBMessage), DecodeError>)
        ensures
            match decode_message(input@) {
                Ok((m, n)) => r matches Ok((rest, msg)) && msg@ == m && rest@ == input@.subrange(
                    n as int,
                    input@.len() as int,
                ),
                Err(e) => r == Err::<(&'a [u8], DBMessage), DecodeError>(e),
            },
    {
        let len = input.len();
        if len < 6 || input[0] != 0x11 || input[1] != 0x87 || input[2] != 0x23 || input[3] != 0x49
            || input[4] != 0xae || input[5] != 0x11 {
            proof {
                if len >= 6 {
                    assert(input@.subrange(0, 6)[0] == input@[0]);
                    assert(input@.subrange(0, 6)[1] == input@[1]);
                    assert(input@.subrange(0, 6)[2] == input@[2]);
                    assert(input@.subrange(0, 6)[3] == input@[3]);
                    assert(input@.subrange(0, 6)[4] == input@[4]);
                    assert(input@.subrange(0, 6)[5] == input@[5]);
                }
            }
            return Err(DecodeError::BadPreamble);
        }
        assert(input@.subrange(0, 6) =~= magic());
        if len < MESSAGE_HEADER_LEN {
            return Err(DecodeError::MalformedArguments);
        }
        let body = vstd::slice::slice_subrange(input, MESSAGE_HEADER_LEN, len);
        match ArgumentCollection::decode(body) {
            Ok((rest, args)) => {
                let category: [u8; 4] = [input[6], input[7], input[8], input[9]];
                assert(category@ =~= input@.subrange(6, 10));
                let ghost n = (decode_collection(body@)->0).1;
                proof {
                    lemma_decoded_collection_bounded(body@);
                }
                assert(rest@ =~= input@.subrange(13 + n as int, len as int));
                Ok(
                    (
                        rest,
                        DBMessage {
                            category,
                            transaction: input[10],
                            message_type: input[11],
                            sub_type: input[12],
                            args,
                        },
                    ),
                )
            },
            Err(_) => Err(DecodeError::MalformedArguments),
        }
    }

    /// Kind of request this message carries.
    pub fn request_type(&self) -> (r: DBRequestType)
        ensures
            r == classify(self.message_type, self.sub_type, kinds_of(self.args@)),
    {
        let n = self.args.len();
        let mut all_u32 = true;
        let mut i: usize = 0;
        while i < n
            invariant
                n == self.args@.len(),
                i <= n,
                all_u32 == forall|k: int| 0 <= k < i ==> #[trigger] kinds_of(self.args@)[k] == ArgumentType::U32,
            decreases n - i,
        {
            let kind = self.args.get(i).kind();
            let is_u32 = ArgumentType::from(kind) == ArgumentType::U32;
            assert(kinds_of(self.args@)[i as int] == self.args@[i as int].0.argument_type());
            assert(is_u32 == (kinds_of(self.args@)[i as int] == ArgumentType::U32));
            all_u32 = all_u32 && is_u32;
            i = i + 1;
        }
        let ghost kinds = kinds_of(self.args@);
        proof {
            assert(kinds.len() == n);
            if all_u32 && n == 2 {
                assert(kinds =~= seq![ArgumentType::U32, ArgumentType::U32]);
            }
            if all_u32 && n == 6 {
                assert(kinds =~= Seq::new(6, |i: int| ArgumentType::U32));
            }
            if kinds == seq![ArgumentType::U32, ArgumentType::U32] {
                assert(kinds[0] == ArgumentType::U32);
                assert(kinds[1] == ArgumentType::U32);
            }
            if kinds == Seq::new(6, |i: int| ArgumentType::U32) {
                assert(forall|k: int| 0 <= k < 6 ==> kinds[k] == ArgumentType::U32);
            }
        }
        let t = self.message_type;
        let s = self.sub_type;
        if t == 0x00 && s == 0x00 {
            DBRequestType::Setup
        } else if t == 0x10 && s == 0x00 {
            DBRequestType::RootMenuRequest
        } else if 0x10 <= t && t < 0x30 && s != 0x00 && all_u32 && n == 2 {
            DBRequestType::QueryListItem
        } else if t == 0x30 && all_u32 && n == 6 {
            DBRequestType::FetchListItemContent
        } else {
            DBRequestType::Unimplemented
        }
    }

    /// The echoed opening of every reply: the magic sequence and this
    /// message's category.
    pub fn to_response(&self) -> (r: bytes::BytesMut)
        ensures
            bytes_mut_view(r) == magic() + self.category@,
    {
        let mut r = new_buffer();
        self.write_prefix(&mut r);
        assert(bytes_mut_view(r) =~= magic() + self.category@);
        r
    }

    /// Appends the magic sequence and this message's category to `out`.
    fn write_prefix(&self, out: &mut bytes::BytesMut)
        ensures
            bytes_mut_view(*final(out)) == bytes_mut_view(*old(out)) + magic() + self.category@,
    {
        let prefix: [u8; 10] = [0x11, 0x87, 0x23, 0x49, 0xae, 0x11, self.category[0], self.category[1],
            self.category[2], self.category[3]];
        assert(prefix@ =~= magic() + self.category@);
        append(out, &prefix);
        assert(bytes_mut_view(*out) =~= bytes_mut_view(*old(out)) + magic() + self.category@);
    }

    /// Appends the message's wire form to `out`.
    pub fn write_to(&self, out: &mut bytes::BytesMut)
        ensures
            bytes_mut_view(*final(out)) == bytes_mut_view(*old(out)) + message_bytes(self@),
    {
        let ghost start = bytes_mut_view(*out);
        self.write_prefix(out);
        put_u8(out, self.transaction);
        put_u8(out, self.message_type);
        put_u8(out, self.sub_type);
        let ghost before_args = bytes_mut_view(*out);
        self.args.write_to(out);
        assert(bytes_mut_view(*out) =~= start + message_bytes(self@));
    }

    /// The message's wire form.
    pub fn encode(&self) -> (r: bytes::Bytes)
        ensures
            bytes_view(r) == message_bytes(self@),
    {
        let mut out = new_buffer();
        self.write_to(&mut out);
        assert(bytes_mut_view(out) =~= message_bytes(self@));
        freeze_buffer(out)
    }
}

/// Reading back the wire form of a message whose category has four bytes and
/// whose arguments are at most twelve encodable fields gives the same message.
pub proof fn lemma_message_round_trip(m: MessageView, rest: Seq<u8>)
    requires
        m.category.len() == 4,
        m.args.len() <= 12,
        forall|i: int| 0 <= i < m.args.len() ==> encodable(#[trigger] m.args[i].0, m.args[i].1),
    ensures
        decode_message(message_bytes(m) + rest) == Ok::<(MessageView, nat), DecodeError>(
            (m, message_bytes(m).len()),
        ),
{
    let s = message_bytes(m) + rest;
    assert(s.subrange(0, 6) =~= magic());
    assert(s.subrange(13, s.len() as int) =~= collection_bytes(m.args) + rest);
    lemma_collection_round_trip(m.args, rest);
    assert(s.subrange(6, 10) =~= m.category);
}

/// Classifying a frame never fails, depends on the frame's bytes alone and,
/// for frames that decode, only on the type, the sub-type and the argument
/// kinds; re-encoding the decoded message and classifying it again gives the
/// same kind.
pub proof fn lemma_classification_stable(a: Seq<u8>, b: Seq<u8>)
    ensures
        a == b ==> frame_kind(a) == frame_kind(b),
        (decode_message(a) matches Ok((ma, _)) && decode_message(b) matches Ok((mb, _))
            && ma.message_type == mb.message_type && ma.sub_type == mb.sub_type
            && kinds_of(ma.args) == kinds_of(mb.args)) ==> frame_kind(a) == frame_kind(b),
        (decode_message(a) matches Ok((ma, _)) && forall|i: int|
            0 <= i < ma.args.len() ==> encodable(#[trigger] ma.args[i].0, ma.args[i].1))
            ==> frame_kind(message_bytes((decode_message(a)->Ok_0).0)) == frame_kind(a),
{
    if let Ok((ma, _)) = decode_message(a) {
        if forall|i: int| 0 <= i < ma.args.len() ==> encodable(#[trigger] ma.args[i].0, ma.args[i].1) {
            assert(ma.category.len() == 4);
            lemma_decoded_collection_bounded(a.subrange(13, a.len() as int));
            lemma_message_round_trip(ma, Seq::empty());
            assert(message_bytes(ma) + Seq::<u8>::empty() =~= message_bytes(ma));
        }
    }
}

} // verus!
