use vstd::prelude::*;

use crate::arguments::{fields_bytes, FieldView};
use crate::buffer::{bytes_view, freeze};
use crate::error::DecodeError;
use crate::field::DBFieldType;
use crate::message::{
    decode_message, frame_kind, lemma_message_round_trip, message_bytes, DBMessage, DBRequestType,
    MessageView,
};

verus! {

/// A 32-bit integer field given by its four bytes.
pub open spec fn u32_view(b0: u8, b1: u8, b2: u8, b3: u8) -> FieldView {
    (DBFieldType::U32, seq![b0, b1, b2, b3])
}

/// The session opening a player sends, on category ff ff ff fe.
pub open spec fn setup_request_view() -> MessageView {
    MessageView {
        category: seq![0xffu8, 0xffu8, 0xffu8, 0xfeu8],
        transaction: 0x10,
        message_type: 0x00,
        sub_type: 0x00,
        args: seq![u32_view(0, 0, 0, 0x02)],
    }
}

/// A captured root-menu request.
pub open spec fn root_menu_request_view() -> MessageView {
    MessageView {
        category: seq![0x05u8, 0x80u8, 0x00u8, 0x32u8],
        transaction: 0x10,
        message_type: 0x10,
        sub_type: 0x00,
        args: seq![u32_view(0x02, 0x01, 0x04, 0x01), u32_view(0, 0, 0, 0), u32_view(0, 0xff, 0xff, 0xff)],
    }
}

/// A captured request for the header of the artist list.
pub open spec fn artist_request_view() -> MessageView {
    MessageView {
        category: seq![0x05u8, 0x80u8, 0x00u8, 0x10u8],
        transaction: 0x10,
        message_type: 0x10,
        sub_type: 0x02,
        args: seq![u32_view(0x02, 0x02, 0x04, 0x01), u32_view(0, 0, 0, 0)],
    }
}

/// A captured request for the items of the root menu.
pub open spec fn render_root_menu_view() -> MessageView {
    MessageView {
        category: seq![0x05u8, 0x80u8, 0x00u8, 0x0fu8],
        transaction: 0x10,
        message_type: 0x30,
        sub_type: 0x00,
        args: seq![
            u32_view(0x02, 0x01, 0x04, 0x01),
            u32_view(0, 0, 0, 0),
            u32_view(0, 0, 0, 0x07),
            u32_view(0, 0, 0, 0),
            u32_view(0, 0, 0, 0x08),
            u32_view(0, 0, 0, 0),
        ],
    }
}

/// Decodes a captured frame that is known to hold `m` and nothing after it.
fn parse_capture(frame: &[u8], Ghost(m): Ghost<MessageView>) -> (r: DBMessage)
    requires
        frame@ == message_bytes(m),
        m.category.len() == 4,
        m.args.len() <= 12,
        forall|i: int| 0 <= i < m.args.len() ==> (#[trigger] m.args[i]).0 == DBFieldType::U32 && m.args[i].1.len() == 4,
    ensures
        r@ == m,
{
    proof {
        lemma_message_round_trip(m, Seq::empty());
        assert(message_bytes(m) + Seq::<u8>::empty() =~= message_bytes(m));
    }
    let (_rest, message) = DBMessage::parse(frame).unwrap();
    message
}

pub fn setup_request_packet() -> (r: Result<DBMessage, DecodeError>)
    ensures
        r matches Ok(m) && m@ == setup_request_view(),
{
    let frame = vec![
        0x11, 0x87, 0x23, 0x49, 0xae, 0x11, 0xff, 0xff, 0xff, 0xfe, 0x10, 0x00, 0x00, 0x0f, 0x01, 0x14,
        0x00, 0x00, 0x00, 0x0c, 0x06, 0x00, 0x00, 0x00, 0x00, 0x00, 0x00, 0x00, 0x00, 0x00, 0x00, 0x00,
        0x11, 0x00, 0x00, 0x00, 0x02,
    ];
    proof {
        reveal_with_fuel(fields_bytes, 7);
    }
    assert(frame@ =~= message_bytes(setup_request_view()));
    Ok(parse_capture(frame.as_slice(), Ghost(setup_request_view())))
}

/// The reply a player expects to the session opening.
pub fn setup_response_packet() -> (r: bytes::Bytes)
    ensures
        bytes_view(r) == seq![
            0x11u8, 0x87u8, 0x23u8, 0x49u8, 0xaeu8, 0x11u8, 0xffu8, 0xffu8, 0xffu8, 0xfeu8, 0x10u8,
            0x40u8, 0x00u8, 0x0fu8, 0x02u8, 0x14u8, 0x00u8, 0x00u8, 0x00u8, 0x0cu8, 0x06u8, 0x06u8,
            0x00u8, 0x00u8, 0x00u8, 0x00u8, 0x00u8, 0x00u8, 0x00u8, 0x00u8, 0x00u8, 0x00u8, 0x11u8,
            0x00u8, 0x00u8, 0x00u8, 0x00u8, 0x11u8, 0x00u8, 0x00u8, 0x00u8, 0x11u8,
        ],
{
    let frame = vec![
        0x11, 0x87, 0x23, 0x49, 0xae, 0x11, 0xff, 0xff, 0xff, 0xfe, 0x10, 0x40, 0x00, 0x0f, 0x02, 0x14,
        0x00, 0x00, 0x00, 0x0c, 0x06, 0x06, 0x00, 0x00, 0x00, 0x00, 0x00, 0x00, 0x00, 0x00, 0x00, 0x00,
        0x11, 0x00, 0x00, 0x00, 0x00, 0x11, 0x00, 0x00, 0x00, 0x11,
    ];
    freeze(frame)
}

pub fn root_menu_request() -> (r: Result<DBMessage, DecodeError>)
    ensures
        r matches Ok(m) && m@ == root_menu_request_view(),
{
    let frame = vec![
        0x11, 0x87, 0x23, 0x49, 0xae, 0x11, 0x05, 0x80, 0x00, 0x32, 0x10, 0x10, 0x00, 0x0f, 0x03, 0x14,
        0x00, 0x00, 0x00, 0x0c, 0x06, 0x06, 0x06, 0x00, 0x00, 0x00, 0x00, 0x00, 0x00, 0x00, 0x00, 0x00,
        0x11, 0x02, 0x01, 0x04, 0x01, 0x11, 0x00, 0x00, 0x00, 0x00, 0x11, 0x00, 0xff, 0xff, 0xff,
    ];
    proof {
        reveal_with_fuel(fields_bytes, 7);
    }
    assert(frame@ =~= message_bytes(root_menu_request_view()));
    Ok(parse_capture(frame.as_slice(), Ghost(root_menu_request_view())))
}

/// The reply a player expects to the root-menu request.
pub fn root_menu_response_packet() -> (r: bytes::Bytes)
    ensures
        bytes_view(r) == seq![
            0x11u8, 0x87u8, 0x23u8, 0x49u8, 0xaeu8, 0x11u8, 0x05u8, 0x80u8, 0x00u8, 0x32u8, 0x10u8,
            0x40u8, 0x00u8, 0x0fu8, 0x02u8, 0x14u8, 0x00u8, 0x00u8, 0x00u8, 0x0cu8, 0x06u8, 0x06u8,
            0x00u8, 0x00u8, 0x00u8, 0x00u8, 0x00u8, 0x00u8, 0x00u8, 0x00u8, 0x00u8, 0x00u8, 0x11u8,
            0x00u8, 0x00u8, 0x10u8, 0x00u8, 0x11u8, 0x00u8, 0x00u8, 0x00u8, 0x08u8,
        ],
{
    let frame = vec![
        0x11, 0x87, 0x23, 0x49, 0xae, 0x11, 0x05, 0x80, 0x00, 0x32, 0x10, 0x40, 0x00, 0x0f, 0x02, 0x14,
        0x00, 0x00, 0x00, 0x0c, 0x06, 0x06, 0x00, 0x00, 0x00, 0x00, 0x00, 0x00, 0x00, 0x00, 0x00, 0x00,
        0x11, 0x00, 0x00, 0x10, 0x00, 0x11, 0x00, 0x00, 0x00, 0x08,
    ];
    freeze(frame)
}

/// The artist-list header request, decoded.
pub fn artist_request_type() -> (r: DBMessage)
    ensures
        r@ == artist_request_view(),
{
    let frame = vec![
        0x11, 0x87, 0x23, 0x49, 0xae, 0x11, 0x05, 0x80, 0x00, 0x10, 0x10, 0x10, 0x02, 0x0f, 0x02, 0x14,
        0x00, 0x00, 0x00, 0x0c, 0x06, 0x06, 0x00, 0x00, 0x00, 0x00, 0x00, 0x00, 0x00, 0x00, 0x00, 0x00,
        0x11, 0x02, 0x02, 0x04, 0x01, 0x11, 0x00, 0x00, 0x00, 0x00,
    ];
    proof {
        reveal_with_fuel(fields_bytes, 7);
    }
    assert(frame@ =~= message_bytes(artist_request_view()));
    parse_capture(frame.as_slice(), Ghost(artist_request_view()))
}

/// The raw request for the items of the root menu.
pub fn render_root_menu_request() -> (r: Vec<u8>)
    ensures
        r@ == message_bytes(render_root_menu_view()),
        decode_message(r@) == Ok::<(MessageView, nat), DecodeError>((render_root_menu_view(), 62)),
        frame_kind(r@) == DBRequestType::FetchListItemContent,
{
    let frame = vec![
        0x11, 0x87, 0x23, 0x49, 0xae, 0x11, 0x05, 0x80, 0x00, 0x0f, 0x10, 0x30, 0x00, 0x0f, 0x06, 0x14,
        0x00, 0x00, 0x00, 0x0c, 0x06, 0x06, 0x06, 0x06, 0x06, 0x06, 0x00, 0x00, 0x00, 0x00, 0x00, 0x00,
        0x11, 0x02, 0x01, 0x04, 0x01, 0x11, 0x00, 0x00, 0x00, 0x00, 0x11, 0x00, 0x00, 0x00, 0x07, 0x11,
        0x00, 0x00, 0x00, 0x00, 0x11, 0x00, 0x00, 0x00, 0x08, 0x11, 0x00, 0x00, 0x00, 0x00,
    ];
    let ghost m = render_root_menu_view();
    proof {
        reveal_with_fuel(fields_bytes, 7);
    }
    assert(frame@ =~= message_bytes(m));
    proof {
        lemma_message_round_trip(m, Seq::empty());
        assert(message_bytes(m) + Seq::<u8>::empty() =~= message_bytes(m));
        assert(crate::arguments::kinds_of(m.args) =~= Seq::new(6, |i: int| crate::field::ArgumentType::U32));
    }
    frame
}

} // verus!
