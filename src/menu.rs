use vstd::prelude::*;

use crate::arguments::{ArgumentCollection, FieldView};
use crate::buffer::{bytes_mut_view, bytes_view, freeze_buffer, new_buffer};
use crate::field::{DBField, DBFieldType};
use crate::message::{message_bytes, DBMessage, MessageView, TRANSACTION_MARKER};

verus! {

/// A 32-bit integer field whose value fits in its last byte.
pub open spec fn small_u32(x: u8) -> FieldView {
    (DBFieldType::U32, seq![0u8, 0u8, 0u8, x])
}

/// Category under which the menu is sent: fixed first two bytes, then the
/// two bytes that key the menu.
pub open spec fn menu_category(r0: u8, r1: u8) -> Seq<u8> {
    seq![0x05u8, 0x80u8, r0, r1]
}

/// UTF-16BE form of an ASCII text.
pub open spec fn utf16_of_ascii(text: Seq<u8>) -> Seq<u8> {
    Seq::new(2 * text.len(), |i: int| if i % 2 == 0 { 0u8 } else { text[i / 2] })
}

/// A menu label: the text between the two marker code units.
pub open spec fn menu_label(text: Seq<u8>) -> Seq<u8> {
    seq![0xffu8, 0xfau8] + utf16_of_ascii(text) + seq![0xffu8, 0xfbu8]
}

/// The twelve fields of one menu entry: its position, its label and the
/// label's length in bytes with terminator, and the code the player sends
/// back when the entry is chosen.
pub open spec fn menu_item_args(id: u8, text: Seq<u8>, code: u8) -> Seq<FieldView> {
    seq![
        small_u32(0),
        small_u32(id),
        small_u32(((text.len() + 2) * 2 + 2) as u8),
        (DBFieldType::String, menu_label(text)),
        small_u32(2),
        (DBFieldType::String, Seq::empty()),
        small_u32(code),
        small_u32(0),
        small_u32(0),
        small_u32(0),
        small_u32(0),
        small_u32(0),
    ]
}

/// A menu frame of the given type with the given fields.
pub open spec fn menu_message(r0: u8, r1: u8, message_type: u8, args: Seq<FieldView>) -> MessageView {
    MessageView {
        category: menu_category(r0, r1),
        transaction: 0x10,
        message_type,
        sub_type: 0x01,
        args,
    }
}

/// Wire form of one menu entry.
pub open spec fn menu_item(r0: u8, r1: u8, id: u8, text: Seq<u8>, code: u8) -> Seq<u8> {
    message_bytes(menu_message(r0, r1, 0x41, menu_item_args(id, text, code)))
}

/// The whole menu: a header frame, one frame per entry and a closing frame
/// with no fields.
pub open spec fn menu_payload(r0: u8, r1: u8) -> Seq<u8> {
    message_bytes(menu_message(r0, r1, 0x40, seq![small_u32(1), small_u32(0)]))
        + menu_item(r0, r1, 0x02, seq![0x41u8, 0x52u8, 0x54u8, 0x49u8, 0x53u8, 0x54u8], 0x81)
        + menu_item(r0, r1, 0x03, seq![0x4au8, 0x4fu8, 0x4eu8, 0x41u8, 0x53u8], 0x82)
        + menu_item(r0, r1, 0x04, seq![0x54u8, 0x52u8, 0x41u8, 0x43u8, 0x4bu8], 0x83)
        + menu_item(r0, r1, 0x0c, seq![0x4bu8, 0x45u8, 0x59u8], 0x8b)
        + menu_item(
            r0,
            r1,
            0x05,
            seq![0x50u8, 0x4cu8, 0x41u8, 0x59u8, 0x4cu8, 0x49u8, 0x53u8, 0x54u8],
            0x84,
        )
        + menu_item(r0, r1, 0x16, seq![0x48u8, 0x49u8, 0x53u8, 0x54u8, 0x4fu8, 0x52u8, 0x59u8], 0x95)
        + menu_item(r0, r1, 0x12, seq![0x53u8, 0x45u8, 0x41u8, 0x52u8, 0x43u8, 0x48u8], 0x91)
        + message_bytes(menu_message(r0, r1, 0x42, Seq::empty()))
}

/// A 32-bit integer field holding `x`.
pub fn small_u32_field(x: u8) -> (r: DBField)
    ensures
        r@ == small_u32(x),
{
    let bytes: [u8; 4] = [0, 0, 0, x];
    assert(bytes@ =~= seq![0u8, 0u8, 0u8, x]);
    DBField::new(DBFieldType::U32, &bytes)
}

/// The label field for an ASCII text.
fn label_field(text: &[u8]) -> (r: DBField)
    requires
        text@.len() <= 64,
    ensures
        r@ == (DBFieldType::String, menu_label(text@)),
{
    let mut out: Vec<u8> = vec![0xff, 0xfa];
    let mut i: usize = 0;
    while i < text.len()
        invariant
            i <= text@.len(),
            text@.len() <= 64,
            out@ == seq![0xffu8, 0xfau8] + utf16_of_ascii(text@.take(i as int)),
        decreases text@.len() - i,
    {
        out.push(0);
        out.push(text[i]);
        assert(utf16_of_ascii(text@.take(i + 1)) =~= utf16_of_ascii(text@.take(i as int)) + seq![
            0u8,
            text@[i as int],
        ]);
        i = i + 1;
    }
    out.push(0xff);
    out.push(0xfb);
    assert(text@.take(text@.len() as int) =~= text@);
    assert(out@ =~= menu_label(text@));
    DBField::new(DBFieldType::String, out.as_slice())
}

/// Appends the frame of one menu entry to `out`.
fn write_menu_item(out: &mut bytes::BytesMut, r0: u8, r1: u8, id: u8, text: &[u8], code: u8)
    requires
        text@.len() <= 64,
    ensures
        bytes_mut_view(*final(out)) == bytes_mut_view(*old(out)) + menu_item(r0, r1, id, text@, code),
{
    let length_byte: u8 = ((text.len() + 2) * 2 + 2) as u8;
    let empty: [u8; 0] = [];
    assert(empty@ =~= Seq::<u8>::empty());
    let items = vec![
        small_u32_field(0),
        small_u32_field(id),
        small_u32_field(length_byte),
        label_field(text),
        small_u32_field(2),
        DBField::new(DBFieldType::String, &empty),
        small_u32_field(code),
        small_u32_field(0),
        small_u32_field(0),
        small_u32_field(0),
        small_u32_field(0),
        small_u32_field(0),
    ];
    let args = ArgumentCollection::new(items);
    assert(args@ =~= menu_item_args(id, text@, code));
    let message = DBMessage {
        category: [0x05, 0x80, r0, r1],
        transaction: TRANSACTION_MARKER,
        message_type: 0x41,
        sub_type: 0x01,
        args,
    };
    assert(message@.category =~= menu_category(r0, r1));
    assert(message@ == menu_message(r0, r1, 0x41, menu_item_args(id, text@, code)));
    message.write_to(out);
}

/// Server-side content of the library: the start page handed out on the
/// control port and the menu of browsing categories.
pub struct Library;

impl Library {
    /// Two bytes that answer a library query on the control port: the first
    /// session port, big-endian.
    pub fn start_page() -> (r: Vec<u8>)
        ensures
            r@ == seq![0xffu8, 0x20u8],
    {
        let r = vec![0xff, 0x20];
        assert(r@ =~= seq![0xffu8, 0x20u8]);
        r
    }

    /// The menu of browsing categories, keyed by two bytes of the request's category.
    pub fn tbd(reference: (u8, u8)) -> (r: bytes::Bytes)
        ensures
            bytes_view(r) == menu_payload(reference.0, reference.1),
    {
        let (r0, r1) = reference;
        let mut out = new_buffer();
        let header_args = ArgumentCollection::new(vec![small_u32_field(1), small_u32_field(0)]);
        assert(header_args@ =~= seq![small_u32(1), small_u32(0)]);
        let header = DBMessage {
            category: [0x05, 0x80, r0, r1],
            transaction: TRANSACTION_MARKER,
            message_type: 0x40,
            sub_type: 0x01,
            args: header_args,
        };
        assert(header@.category =~= menu_category(r0, r1));
        header.write_to(&mut out);

        let artist: [u8; 6] = [0x41, 0x52, 0x54, 0x49, 0x53, 0x54];
        let album: [u8; 5] = [0x4a, 0x4f, 0x4e, 0x41, 0x53];
        let track: [u8; 5] = [0x54, 0x52, 0x41, 0x43, 0x4b];
        let key: [u8; 3] = [0x4b, 0x45, 0x59];
        let playlist: [u8; 8] = [0x50, 0x4c, 0x41, 0x59, 0x4c, 0x49, 0x53, 0x54];
        let history: [u8; 7] = [0x48, 0x49, 0x53, 0x54, 0x4f, 0x52, 0x59];
        let search: [u8; 6] = [0x53, 0x45, 0x41, 0x52, 0x43, 0x48];
        assert(artist@ =~= seq![0x41u8, 0x52u8, 0x54u8, 0x49u8, 0x53u8, 0x54u8]);
        assert(album@ =~= seq![0x4au8, 0x4fu8, 0x4eu8, 0x41u8, 0x53u8]);
        assert(track@ =~= seq![0x54u8, 0x52u8, 0x41u8, 0x43u8, 0x4bu8]);
        assert(key@ =~= seq![0x4bu8, 0x45u8, 0x59u8]);
        assert(playlist@ =~= seq![0x50u8, 0x4cu8, 0x41u8, 0x59u8, 0x4cu8, 0x49u8, 0x53u8, 0x54u8]);
        assert(history@ =~= seq![0x48u8, 0x49u8, 0x53u8, 0x54u8, 0x4fu8, 0x52u8, 0x59u8]);
        assert(search@ =~= seq![0x53u8, 0x45u8, 0x41u8, 0x52u8, 0x43u8, 0x48u8]);
        write_menu_item(&mut out, r0, r1, 0x02, &artist, 0x81);
        write_menu_item(&mut out, r0, r1, 0x03, &album, 0x82);
        write_menu_item(&mut out, r0, r1, 0x04, &track, 0x83);
        write_menu_item(&mut out, r0, r1, 0x0c, &key, 0x8b);
        write_menu_item(&mut out, r0, r1, 0x05, &playlist, 0x84);
        write_menu_item(&mut out, r0, r1, 0x16, &history, 0x95);
        write_menu_item(&mut out, r0, r1, 0x12, &search, 0x91);

        let empty: Vec<DBField> = Vec::new();
        let footer = DBMessage {
            category: [0x05, 0x80, r0, r1],
            transaction: TRANSACTION_MARKER,
            message_type: 0x42,
            sub_type: 0x01,
            args: ArgumentCollection::new(empty),
        };
        assert(footer@.args =~= Seq::<FieldView>::empty());
        assert(footer@.category =~= menu_category(r0, r1));
        footer.write_to(&mut out);
        assert(bytes_mut_view(out) =~= menu_payload(r0, r1));
        freeze_buffer(out)
    }
}

} // verus!
