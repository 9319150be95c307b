use bytes::Bytes;
use rekordbox::controller::ClientContext;
use rekordbox::menu::Library;
use rekordbox::message::{DBMessage, DBRequestType};
use rekordbox::session::{process, PlayerState};

/// (list request, list reply, items request, items reply) as captured from a player.
type Dialog = (Bytes, Bytes, Bytes, Bytes);

pub fn title_by_artist_album_dialog() -> Dialog {
    (
        Bytes::from(vec![
            0x11, 0x87, 0x23, 0x49, 0xae, 0x11, 0x05, 0x80,
            0x00, 0x16, 0x10, 0x12, 0x02, 0x0f, 0x04, 0x14,
            0x00, 0x00, 0x00, 0x0c, 0x06, 0x06, 0x06, 0x06,
            0x00, 0x00, 0x00, 0x00, 0x00, 0x00, 0x00, 0x00,

            0x11, 0x02, 0x02, 0x04, 0x01, // player metadata
            0x11, 0x00, 0x00, 0x00, 0x00, // sort_id
            0x11, 0x00, 0x00, 0x00, 0x01, // item_id
            0x11, 0x00, 0x00, 0x00, 0x00  // item_id
        ]),
        Bytes::from(vec![
            0x11, 0x87, 0x23, 0x49, 0xae, 0x11, 0x05, 0x80,
            0x00, 0x16, 0x10, 0x40, 0x00, 0x0f, 0x02, 0x14,
            0x00, 0x00, 0x00, 0x0c, 0x06, 0x06, 0x00, 0x00,
            0x00, 0x00, 0x00, 0x00, 0x00, 0x00, 0x00, 0x00,
            0x11, 0x00, 0x00, 0x12, 0x02, 0x11, 0x00, 0x00,
            0x00, 0x01
        ]),
        Bytes::from(vec![
            0x11, 0x87, 0x23, 0x49, 0xae, 0x11, 0x05, 0x80,
            0x00, 0x17, 0x10, 0x30, 0x00, 0x0f, 0x06, 0x14,
            0x00, 0x00, 0x00, 0x0c, 0x06, 0x06, 0x06, 0x06,
            0x06, 0x06, 0x00, 0x00, 0x00, 0x00, 0x00, 0x00,
            0x11, 0x02, 0x02, 0x04, 0x01, 0x11, 0x00, 0x00,
            0x00, 0x00, 0x11, 0x00, 0x00, 0x00, 0x02, 0x11,
            0x00, 0x00, 0x00, 0x00, 0x11, 0x00, 0x00, 0x00,
            0x02, 0x11, 0x00, 0x00, 0x00, 0x00
        ]),
        Bytes::from(vec![
            0x11, 0x87, 0x23, 0x49, 0xae, 0x11, 0x05, 0x80,
            0x00, 0x17, 0x10, 0x40, 0x01, 0x0f, 0x02, 0x14,
            0x00, 0x00, 0x00, 0x0c, 0x06, 0x06, 0x00, 0x00,
            0x00, 0x00, 0x00, 0x00, 0x00, 0x00, 0x00, 0x00,
            0x11, 0x00, 0x00, 0x00, 0x01, 0x11, 0x00, 0x00,
            0x00, 0x00, 0x11, 0x87, 0x23, 0x49, 0xae, 0x11,
            0x05, 0x80, 0x00, 0x17, 0x10, 0x41, 0x01, 0x0f,
            0x0c, 0x14, 0x00, 0x00, 0x00, 0x0c, 0x06, 0x06,
            0x06, 0x02, 0x06, 0x02, 0x06, 0x06, 0x06, 0x06,
            0x06, 0x06, 0x11, 0x00, 0x00, 0x00, 0x00, 0x11,
            0x00, 0x00, 0x00, 0x05, 0x11, 0x00, 0x00, 0x00,
            0x1a, 0x26, 0x00, 0x00, 0x00, 0x0d, 0x00, 0x44,
            0x00, 0x65, 0x00, 0x6d, 0x00, 0x6f, 0x00, 0x20,
            0x00, 0x54, 0x00, 0x72, 0x00, 0x61, 0x00, 0x63,
            0x00, 0x6b, 0x00, 0x20, 0x00, 0x31, 0x00, 0x00,
            0x11, 0x00, 0x00, 0x00, 0x02, 0x26, 0x00, 0x00,
            0x00, 0x01, 0x00, 0x00, 0x11, 0x00, 0x00, 0x00,
            0x04, 0x11, 0x00, 0x00, 0x00, 0x00, 0x11, 0x00,
            0x00, 0x00, 0x00, 0x11, 0x00, 0x00, 0x00, 0x00,
            0x11, 0x00, 0x00, 0x01, 0x00, 0x11, 0x00, 0x00,
            0x00, 0x00, 0x11, 0x87, 0x23, 0x49, 0xae, 0x11,
            0x05, 0x80, 0x00, 0x17, 0x10, 0x41, 0x01, 0x0f,
            0x0c, 0x14, 0x00, 0x00, 0x00, 0x0c, 0x06, 0x06,
            0x06, 0x02, 0x06, 0x02, 0x06, 0x06, 0x06, 0x06,
            0x06, 0x06, 0x11, 0x00, 0x00, 0x00, 0x00, 0x11,
            0x00, 0x00, 0x00, 0x06, 0x11, 0x00, 0x00, 0x00,
            0x1a, 0x26, 0x00, 0x00, 0x00, 0x0d, 0x00, 0x44,
            0x00, 0x65, 0x00, 0x6d, 0x00, 0x6f, 0x00, 0x20,
            0x00, 0x54, 0x00, 0x72, 0x00, 0x61, 0x00, 0x63,
            0x00, 0x6b, 0x00, 0x20, 0x00, 0x32, 0x00, 0x00,
            0x11, 0x00, 0x00, 0x00, 0x02, 0x26, 0x00, 0x00,
            0x00, 0x01, 0x00, 0x00, 0x11, 0x00, 0x00, 0x00,
            0x04, 0x11, 0x00, 0x00, 0x00, 0x00, 0x11, 0x00,
            0x00, 0x00, 0x00, 0x11, 0x00, 0x00, 0x00, 0x00,
            0x11, 0x00, 0x00, 0x01, 0x00, 0x11, 0x00, 0x00,
            0x00, 0x00, 0x11, 0x87, 0x23, 0x49, 0xae, 0x11,
            0x05, 0x80, 0x00, 0x17, 0x10, 0x42, 0x01, 0x0f,
            0x00, 0x14, 0x00, 0x00, 0x00, 0x0c, 0x00, 0x00,
            0x00, 0x00, 0x00, 0x00, 0x00, 0x00, 0x00, 0x00,
            0x00, 0x00
        ]),
    )
}

pub fn album_by_artist_dialog() -> Dialog {
    (
        Bytes::from(vec![
            0x11, 0x87, 0x23, 0x49, 0xae, 0x11, 0x05, 0x80,
            0x00, 0x14, 0x10, 0x11, 0x02, 0x0f, 0x03, 0x14,
            0x00, 0x00, 0x00, 0x0c, 0x06, 0x06, 0x06, 0x00,
            0x00, 0x00, 0x00, 0x00, 0x00, 0x00, 0x00, 0x00,

            0x11, 0x02, 0x02, 0x04, 0x01, // player metadata
            0x11, 0x00, 0x00, 0x00, 0x00, // sort_id
            0x11, 0x00, 0x00, 0x00, 0x01, // item_id
        ]),
        Bytes::from(vec![
            0x11, 0x87, 0x23, 0x49, 0xae, 0x11, 0x05, 0x80,
            0x00, 0x14, 0x10, 0x40, 0x00, 0x0f, 0x02, 0x14,
            0x00, 0x00, 0x00, 0x0c, 0x06, 0x06, 0x00, 0x00,
            0x00, 0x00, 0x00, 0x00, 0x00, 0x00, 0x00, 0x00,
            0x11, 0x00, 0x00, 0x11, 0x02, 0x11, 0x00, 0x00,
            0x00, 0x01
        ]),
        Bytes::from(vec![
            0x11, 0x87, 0x23, 0x49, 0xae, 0x11, 0x05, 0x80,
            0x00, 0x15, 0x10, 0x30, 0x00, 0x0f, 0x06, 0x14,
            0x00, 0x00, 0x00, 0x0c, 0x06, 0x06, 0x06, 0x06,
            0x06, 0x06, 0x00, 0x00, 0x00, 0x00, 0x00, 0x00,
            0x11, 0x02, 0x02, 0x04, 0x01, 0x11, 0x00, 0x00,
            0x00, 0x00, 0x11, 0x00, 0x00, 0x00, 0x01, 0x11,
            0x00, 0x00, 0x00, 0x00, 0x11, 0x00, 0x00, 0x00,
            0x01, 0x11, 0x00, 0x00, 0x00, 0x00
        ]),
        Bytes::from(vec![
            0x11, 0x87, 0x23, 0x49, 0xae, 0x11, 0x05, 0x80,
            0x00, 0x15, 0x10, 0x40, 0x01, 0x0f, 0x02, 0x14,
            0x00, 0x00, 0x00, 0x0c, 0x06, 0x06, 0x00, 0x00,
            0x00, 0x00, 0x00, 0x00, 0x00, 0x00, 0x00, 0x00,
            0x11, 0x00, 0x00, 0x00, 0x01, 0x11, 0x00, 0x00,
            0x00, 0x00, 0x11, 0x87, 0x23, 0x49, 0xae, 0x11,
            0x05, 0x80, 0x00, 0x15, 0x10, 0x41, 0x01, 0x0f,
            0x0c, 0x14, 0x00, 0x00, 0x00, 0x0c, 0x06, 0x06,
            0x06, 0x02, 0x06, 0x02, 0x06, 0x06, 0x06, 0x06,
            0x06, 0x06, 0x11, 0x00, 0x00, 0x00, 0x00, 0x11,
            0x00, 0x00, 0x00, 0x00, 0x11, 0x00, 0x00, 0x00,
            0x10, 0x26, 0x00, 0x00, 0x00, 0x08, 0x00, 0x55,
            0x00, 0x6e, 0x00, 0x6b, 0x00, 0x6e, 0x00, 0x6f,
            0x00, 0x77, 0x00, 0x6e, 0x00, 0x00, 0x11, 0x00,
            0x00, 0x00, 0x02, 0x26, 0x00, 0x00, 0x00, 0x01,
            0x00, 0x00, 0x11, 0x00, 0x00, 0x00, 0x02, 0x11,
            0x00, 0x00, 0x00, 0x00, 0x11, 0x00, 0x00, 0x00,
            0x00, 0x11, 0x00, 0x00, 0x00, 0x00, 0x11, 0x00,
            0x00, 0x00, 0x00, 0x11, 0x00, 0x00, 0x00, 0x00,
            0x11, 0x87, 0x23, 0x49, 0xae, 0x11, 0x05, 0x80,
            0x00, 0x15, 0x10, 0x42, 0x01, 0x0f, 0x00, 0x14,
            0x00, 0x00, 0x00, 0x0c, 0x00, 0x00, 0x00, 0x00,
            0x00, 0x00, 0x00, 0x00, 0x00, 0x00, 0x00, 0x00
        ]),
    )
}

pub fn artist_dialog() -> (Bytes, Bytes, Bytes, Bytes) {
    (
        artist_request(),
        artist_response(),
        render_artist_request(),
        render_artist_response(),
    )
}

pub fn artist_request() -> Bytes {
    Bytes::from(vec![
        0x11, 0x87, 0x23, 0x49, 0xae, 0x11, 0x05, 0x80, 0x00, 0x10, 0x10, 0x10, 0x02, 0x0f, 0x02, 0x14,
        0x00, 0x00, 0x00, 0x0c, 0x06, 0x06, 0x00, 0x00, 0x00, 0x00, 0x00, 0x00, 0x00, 0x00, 0x00, 0x00,

        0x11, 0x02, 0x02, 0x04, 0x01,
        0x11, 0x00, 0x00, 0x00, 0x00
    ])
}

pub fn artist_response() -> Bytes {
    Bytes::from(vec![
        0x11, 0x87, 0x23, 0x49, 0xae, 0x11, 0x05, 0x80, 0x00, 0x10, 0x10, 0x40, 0x00, 0x0f, 0x02, 0x14,
        0x00, 0x00, 0x00, 0x0c, 0x06, 0x06, 0x00, 0x00, 0x00, 0x00, 0x00, 0x00, 0x00, 0x00, 0x00, 0x00,
        0x11, 0x00, 0x00, 0x10, 0x02, 0x11, 0x00, 0x00, 0x00, 0x01,
    ])
}

pub fn render_artist_request() -> Bytes {
    Bytes::from(vec![
        0x11, 0x87, 0x23, 0x49, 0xae, 0x11, 0x05, 0x80, 0x00, 0x41, 0x10, 0x30, 0x00, 0x0f, 0x06, 0x14,
        0x00, 0x00, 0x00, 0x0c, 0x06, 0x06, 0x06, 0x06, 0x06, 0x06, 0x00, 0x00, 0x00, 0x00, 0x00, 0x00,
        0x11, 0x02, 0x02, 0x04, 0x01, 0x11, 0x00, 0x00, 0x00, 0x00, 0x11, 0x00, 0x00, 0x00, 0x01, 0x11,
        0x00, 0x00, 0x00, 0x00, 0x11, 0x00, 0x00, 0x00, 0x01, 0x11, 0x00, 0x00, 0x00, 0x00,
    ])
}

pub fn render_artist_response() -> Bytes {
    Bytes::from(vec![
        0x11, 0x87, 0x23, 0x49, 0xae, 0x11, 0x05, 0x80, 0x00, 0x41, 0x10, 0x40, 0x01, 0x0f, 0x02, 0x14,
        0x00, 0x00, 0x00, 0x0c, 0x06, 0x06, 0x00, 0x00, 0x00, 0x00, 0x00, 0x00, 0x00, 0x00, 0x00, 0x00,
        0x11, 0x00, 0x00, 0x00, 0x01, 0x11, 0x00, 0x00, 0x00, 0x00, 0x11, 0x87, 0x23, 0x49, 0xae, 0x11,
        0x05, 0x80, 0x00, 0x41, 0x10, 0x41, 0x01, 0x0f, 0x0c, 0x14, 0x00, 0x00, 0x00, 0x0c, 0x06, 0x06,
        0x06, 0x02, 0x06, 0x02, 0x06, 0x06, 0x06, 0x06, 0x06, 0x06, 0x11, 0x00, 0x00, 0x00, 0x00, 0x11,
        0x00, 0x00, 0x00, 0x01, 0x11, 0x00, 0x00, 0x00, 0x18, 0x26, 0x00, 0x00, 0x00, 0x0c, 0x00, 0x4c,
        0x00, 0x6f, 0x00, 0x6f, 0x00, 0x70, 0x00, 0x6d, 0x00, 0x61, 0x00, 0x73, 0x00, 0x74, 0x00, 0x65,
        0x00, 0x72, 0x00, 0x73, 0x00, 0x00, 0x11, 0x00, 0x00, 0x00, 0x02, 0x26, 0x00, 0x00, 0x00, 0x01,
        0x00, 0x00, 0x11, 0x00, 0x00, 0x00, 0x07, 0x11, 0x00, 0x00, 0x00, 0x00, 0x11, 0x00, 0x00, 0x00,
        0x00, 0x11, 0x00, 0x00, 0x00, 0x00, 0x11, 0x00, 0x00, 0x00, 0x00, 0x11, 0x00, 0x00, 0x00, 0x00,
        0x11, 0x87, 0x23, 0x49, 0xae, 0x11, 0x05, 0x80, 0x00, 0x41, 0x10, 0x42, 0x01, 0x0f, 0x00, 0x14,
        0x00, 0x00, 0x00, 0x0c, 0x00, 0x00, 0x00, 0x00, 0x00, 0x00, 0x00, 0x00, 0x00, 0x00, 0x00, 0x00
    ])
}

pub fn raw_menu_footer_request() -> Bytes {
    Bytes::from(vec![
        0x11, 0x87, 0x23, 0x49, 0xae, 0x11, 0x05, 0x80, 0x00, 0x0f, 0x10, 0x42, 0x01, 0x0f,
        0x00, 0x14, 0x00, 0x00, 0x00, 0x0c, 0x00, 0x00, 0x00, 0x00, 0x00, 0x00, 0x00, 0x00,
        0x00, 0x00, 0x00, 0x00,
    ])
}

pub fn metadata_dialog() -> Dialog {
    (
        Bytes::from(vec![
            0x11, 0x87, 0x23, 0x49, 0xae, 0x11, 0x05, 0x80,
            0x00, 0x1f, 0x10, 0x20, 0x02, 0x0f, 0x02, 0x14,
            0x00, 0x00, 0x00, 0x0c, 0x06, 0x06, 0x00, 0x00,
            0x00, 0x00, 0x00, 0x00, 0x00, 0x00, 0x00, 0x00,
            0x11, 0x02, 0x01, 0x04, 0x01, 0x11, 0x00, 0x00,
            0x00, 0x05
        ]),
        Bytes::from(vec![
            0x11, 0x87, 0x23, 0x49, 0xae, 0x11, 0x05, 0x80,
            0x00, 0x1f, 0x10, 0x40, 0x00, 0x0f, 0x02, 0x14,
            0x00, 0x00, 0x00, 0x0c, 0x06, 0x06, 0x00, 0x00,
            0x00, 0x00, 0x00, 0x00, 0x00, 0x00, 0x00, 0x00,
            0x11, 0x00, 0x00, 0x20, 0x02, 0x11, 0x00, 0x00,
            0x00, 0x01
        ]),
        Bytes::from(vec![
            0x11, 0x87, 0x23, 0x49, 0xae, 0x11, 0x05, 0x80,
            0x00, 0x20, 0x10, 0x30, 0x00, 0x0f, 0x06, 0x14,
            0x00, 0x00, 0x00, 0x0c, 0x06, 0x06, 0x06, 0x06,
            0x06, 0x06, 0x00, 0x00, 0x00, 0x00, 0x00, 0x00,
            0x11, 0x02, 0x01, 0x04, 0x01, 0x11, 0x00, 0x00,
            0x00, 0x00, 0x11, 0x00, 0x00, 0x00, 0x01, 0x11,
            0x00, 0x00, 0x00, 0x00, 0x11, 0x00, 0x00, 0x00,
            0x01, 0x11, 0x00, 0x00, 0x00, 0x00
        ]),
        Bytes::from(vec![
            0x11, 0x87, 0x23, 0x49, 0xae, 0x11, 0x05, 0x80,
            0x00, 0x20, 0x10, 0x40, 0x01, 0x0f, 0x02, 0x14,
            0x00, 0x00, 0x00, 0x0c, 0x06, 0x06, 0x00, 0x00,
            0x00, 0x00, 0x00, 0x00, 0x00, 0x00, 0x00, 0x00,
            0x11, 0x00, 0x00, 0x00, 0x01, 0x11, 0x00, 0x00,
            0x00, 0x00, 0x11, 0x87, 0x23, 0x49, 0xae, 0x11,
            0x05, 0x80, 0x00, 0x20, 0x10, 0x41, 0x01, 0x0f,
            0x0c, 0x14, 0x00, 0x00, 0x00, 0x0c, 0x06, 0x06,
            0x06, 0x02, 0x06, 0x02, 0x06, 0x06, 0x06, 0x06,
            0x06, 0x06, 0x11, 0x00, 0x00, 0x00, 0x01, 0x11,
            0x00, 0x00, 0x00, 0x05, 0x11, 0x00, 0x00, 0x00,
            0x1a, 0x26, 0x00, 0x00, 0x00, 0x0d, 0x00, 0x44,
            0x00, 0x65, 0x00, 0x6d, 0x00, 0x6f, 0x00, 0x20,
            0x00, 0x54, 0x00, 0x72, 0x00, 0x61, 0x00, 0x63,
            0x00, 0x6b, 0x00, 0x20, 0x00, 0x31, 0x00, 0x00,
            0x11, 0x00, 0x00, 0x00, 0x02, 0x26, 0x00, 0x00,
            0x00, 0x01, 0x00, 0x00, 0x11, 0x00, 0x00, 0x00,
            0x04, 0x11, 0x00, 0x00, 0x00, 0x00, 0x11, 0x00,
            0x00, 0x00, 0x00, 0x11, 0x00, 0x00, 0x00, 0x00,
            0x11, 0x00, 0x00, 0x01, 0x00, 0x11, 0x00, 0x00,
            0x00, 0x00, 0x11, 0x87, 0x23, 0x49, 0xae, 0x11,
            0x05, 0x80, 0x00, 0x20, 0x10, 0x41, 0x01, 0x0f,
            0x0c, 0x14, 0x00, 0x00, 0x00, 0x0c, 0x06, 0x06,
            0x06, 0x02, 0x06, 0x02, 0x06, 0x06, 0x06, 0x06,
            0x06, 0x06, 0x11, 0x00, 0x00, 0x00, 0x01, 0x11,
            0x00, 0x00, 0x00, 0x01, 0x11, 0x00, 0x00, 0x00,
            0x18, 0x26, 0x00, 0x00, 0x00, 0x0c, 0x00, 0x4c,
            0x00, 0x6f, 0x00, 0x6f, 0x00, 0x70, 0x00, 0x6d,
            0x00, 0x61, 0x00, 0x73, 0x00, 0x74, 0x00, 0x65,
            0x00, 0x72, 0x00, 0x73, 0x00, 0x00, 0x11, 0x00,
            0x00, 0x00, 0x02, 0x26, 0x00, 0x00, 0x00, 0x01,
            0x00, 0x00, 0x11, 0x00, 0x00, 0x00, 0x07, 0x11,
            0x00, 0x00, 0x00, 0x00, 0x11, 0x00, 0x00, 0x00,
            0x00, 0x11, 0x00, 0x00, 0x00, 0x00, 0x11, 0x00,
            0x00, 0x00, 0x00, 0x11, 0x00, 0x00, 0x00, 0x00,
            0x11, 0x87, 0x23, 0x49, 0xae, 0x11, 0x05, 0x80,
            0x00, 0x20, 0x10, 0x41, 0x01, 0x0f, 0x0c, 0x14,
            0x00, 0x00, 0x00, 0x0c, 0x06, 0x06, 0x06, 0x02,
            0x06, 0x02, 0x06, 0x06, 0x06, 0x06, 0x06, 0x06,
            0x11, 0x00, 0x00, 0x00, 0x01, 0x11, 0x00, 0x00,
            0x00, 0x00, 0x11, 0x00, 0x00, 0x00, 0x02, 0x26,
            0x00, 0x00, 0x00, 0x01, 0x00, 0x00, 0x11, 0x00,
            0x00, 0x00, 0x02, 0x26, 0x00, 0x00, 0x00, 0x01,
            0x00, 0x00, 0x11, 0x00, 0x00, 0x00, 0x02, 0x11,
            0x00, 0x00, 0x00, 0x00, 0x11, 0x00, 0x00, 0x00,
            0x00, 0x11, 0x00, 0x00, 0x00, 0x00, 0x11, 0x00,
            0x00, 0x00, 0x00, 0x11, 0x00, 0x00, 0x00, 0x00,
            0x11, 0x87, 0x23, 0x49, 0xae, 0x11, 0x05, 0x80,
            0x00, 0x20, 0x10, 0x41, 0x01, 0x0f, 0x0c, 0x14,
            0x00, 0x00, 0x00, 0x0c, 0x06, 0x06, 0x06, 0x02,
            0x06, 0x02, 0x06, 0x06, 0x06, 0x06, 0x06, 0x06,
            0x11, 0x00, 0x00, 0x00, 0x00, 0x11, 0x00, 0x00,
            0x00, 0xac, 0x11, 0x00, 0x00, 0x00, 0x02, 0x26,
            0x00, 0x00, 0x00, 0x01, 0x00, 0x00, 0x11, 0x00,
            0x00, 0x00, 0x02, 0x26, 0x00, 0x00, 0x00, 0x01,
            0x00, 0x00, 0x11, 0x00, 0x00, 0x00, 0x0b, 0x11,
            0x00, 0x00, 0x00, 0x00, 0x11, 0x00, 0x00, 0x00,
            0x00, 0x11, 0x00, 0x00, 0x00, 0x00, 0x11, 0x00,
            0x00, 0x00, 0x00, 0x11, 0x00, 0x00, 0x00, 0x00,
            0x11, 0x87, 0x23, 0x49, 0xae, 0x11, 0x05, 0x80,
            0x00, 0x20, 0x10, 0x41, 0x01, 0x0f, 0x0c, 0x14,
            0x00, 0x00, 0x00, 0x0c, 0x06, 0x06, 0x06, 0x02,
            0x06, 0x02, 0x06, 0x06, 0x06, 0x06, 0x06, 0x06,
            0x11, 0x00, 0x00, 0x00, 0x00, 0x11, 0x00, 0x00,
            0x32, 0x00, 0x11, 0x00, 0x00, 0x00, 0x02, 0x26,
            0x00, 0x00, 0x00, 0x01, 0x00, 0x00, 0x11, 0x00,
            0x00, 0x00, 0x02, 0x26, 0x00, 0x00, 0x00, 0x01,
            0x00, 0x00, 0x11, 0x00, 0x00, 0x00, 0x0d, 0x11,
            0x00, 0x00, 0x00, 0x00, 0x11, 0x00, 0x00, 0x00,
            0x00, 0x11, 0x00, 0x00, 0x00, 0x00, 0x11, 0x00,
            0x00, 0x00, 0x00, 0x11, 0x00, 0x00, 0x00, 0x00,
            0x11, 0x87, 0x23, 0x49, 0xae, 0x11, 0x05, 0x80,
            0x00, 0x20, 0x10, 0x41, 0x01, 0x0f, 0x0c, 0x14,
            0x00, 0x00, 0x00, 0x0c, 0x06, 0x06, 0x06, 0x02,
            0x06, 0x02, 0x06, 0x06, 0x06, 0x06, 0x06, 0x06,
            0x11, 0x00, 0x00, 0x00, 0x00, 0x11, 0x00, 0x00,
            0x00, 0x05, 0x11, 0x00, 0x00, 0x00, 0x3c, 0x26,
            0x00, 0x00, 0x00, 0x1e, 0x00, 0x54, 0x00, 0x72,
            0x00, 0x61, 0x00, 0x63, 0x00, 0x6b, 0x00, 0x73,
            0x00, 0x20, 0x00, 0x62, 0x00, 0x79, 0x00, 0x20,
            0x00, 0x77, 0x00, 0x77, 0x00, 0x77, 0x00, 0x2e,
            0x00, 0x6c, 0x00, 0x6f, 0x00, 0x6f, 0x00, 0x70,
            0x00, 0x6d, 0x00, 0x61, 0x00, 0x73, 0x00, 0x74,
            0x00, 0x65, 0x00, 0x72, 0x00, 0x73, 0x00, 0x2e,
            0x00, 0x63, 0x00, 0x6f, 0x00, 0x6d, 0x00, 0x00,
            0x11, 0x00, 0x00, 0x00, 0x02, 0x26, 0x00, 0x00,
            0x00, 0x01, 0x00, 0x00, 0x11, 0x00, 0x00, 0x00,
            0x23, 0x11, 0x00, 0x00, 0x00, 0x00, 0x11, 0x00,
            0x00, 0x00, 0x00, 0x11, 0x00, 0x00, 0x00, 0x00,
            0x11, 0x00, 0x00, 0x00, 0x00, 0x11, 0x00, 0x00,
            0x00, 0x00, 0x11, 0x87, 0x23, 0x49, 0xae, 0x11,
            0x05, 0x80, 0x00, 0x20, 0x10, 0x41, 0x01, 0x0f,
            0x0c, 0x14, 0x00, 0x00, 0x00, 0x0c, 0x06, 0x06,
            0x06, 0x02, 0x06, 0x02, 0x06, 0x06, 0x06, 0x06,
            0x06, 0x06, 0x11, 0x00, 0x00, 0x00, 0x01, 0x11,
            0x00, 0x00, 0x00, 0x00, 0x11, 0x00, 0x00, 0x00,
            0x02, 0x26, 0x00, 0x00, 0x00, 0x01, 0x00, 0x00,
            0x11, 0x00, 0x00, 0x00, 0x02, 0x26, 0x00, 0x00,
            0x00, 0x01, 0x00, 0x00, 0x11, 0x00, 0x00, 0x00,
            0x0f, 0x11, 0x00, 0x00, 0x00, 0x00, 0x11, 0x00,
            0x00, 0x00, 0x00, 0x11, 0x00, 0x00, 0x00, 0x00,
            0x11, 0x00, 0x00, 0x00, 0x00, 0x11, 0x00, 0x00,
            0x00, 0x00, 0x11, 0x87, 0x23, 0x49, 0xae, 0x11,
            0x05, 0x80, 0x00, 0x20, 0x10, 0x41, 0x01, 0x0f,
            0x0c, 0x14, 0x00, 0x00, 0x00, 0x0c, 0x06, 0x06,
            0x06, 0x02, 0x06, 0x02, 0x06, 0x06, 0x06, 0x06,
            0x06, 0x06, 0x11, 0x00, 0x00, 0x00, 0x00, 0x11,
            0x00, 0x00, 0x00, 0x00, 0x11, 0x00, 0x00, 0x00,
            0x02, 0x26, 0x00, 0x00, 0x00, 0x01, 0x00, 0x00,
            0x11, 0x00, 0x00, 0x00, 0x02, 0x26, 0x00, 0x00,
            0x00, 0x01, 0x00, 0x00, 0x11, 0x00, 0x00, 0x00,
            0x0a, 0x11, 0x00, 0x00, 0x00, 0x00, 0x11, 0x00,
            0x00, 0x00, 0x00, 0x11, 0x00, 0x00, 0x00, 0x00,
            0x11, 0x00, 0x00, 0x00, 0x00, 0x11, 0x00, 0x00,
            0x00, 0x00, 0x11, 0x87, 0x23, 0x49, 0xae, 0x11,
            0x05, 0x80, 0x00, 0x20, 0x10, 0x41, 0x01, 0x0f,
            0x0c, 0x14, 0x00, 0x00, 0x00, 0x0c, 0x06, 0x06,
            0x06, 0x02, 0x06, 0x02, 0x06, 0x06, 0x06, 0x06,
            0x06, 0x06, 0x11, 0x00, 0x00, 0x00, 0x00, 0x11,
            0x00, 0x00, 0x00, 0x00, 0x11, 0x00, 0x00, 0x00,
            0x02, 0x26, 0x00, 0x00, 0x00, 0x01, 0x00, 0x00,
            0x11, 0x00, 0x00, 0x00, 0x02, 0x26, 0x00, 0x00,
            0x00, 0x01, 0x00, 0x00, 0x11, 0x00, 0x00, 0x00,
            0x13, 0x11, 0x00, 0x00, 0x00, 0x00, 0x11, 0x00,
            0x00, 0x00, 0x00, 0x11, 0x00, 0x00, 0x00, 0x00,
            0x11, 0x00, 0x00, 0x00, 0x00, 0x11, 0x00, 0x00,
            0x00, 0x00, 0x11, 0x87, 0x23, 0x49, 0xae, 0x11,
            0x05, 0x80, 0x00, 0x20, 0x10, 0x41, 0x01, 0x0f,
            0x0c, 0x14, 0x00, 0x00, 0x00, 0x0c, 0x06, 0x06,
            0x06, 0x02, 0x06, 0x02, 0x06, 0x06, 0x06, 0x06,
            0x06, 0x06, 0x11, 0x00, 0x00, 0x00, 0x00, 0x11,
            0x00, 0x00, 0x00, 0x00, 0x11, 0x00, 0x00, 0x00,
            0x02, 0x26, 0x00, 0x00, 0x00, 0x01, 0x00, 0x00,
            0x11, 0x00, 0x00, 0x00, 0x02, 0x26, 0x00, 0x00,
            0x00, 0x01, 0x00, 0x00, 0x11, 0x00, 0x00, 0x00,
            0x06, 0x11, 0x00, 0x00, 0x00, 0x00, 0x11, 0x00,
            0x00, 0x00, 0x00, 0x11, 0x00, 0x00, 0x00, 0x00,
            0x11, 0x00, 0x00, 0x00, 0x00, 0x11, 0x00, 0x00,
            0x00, 0x00, 0x11, 0x87, 0x23, 0x49, 0xae, 0x11,
            0x05, 0x80, 0x00, 0x20, 0x10, 0x42, 0x01, 0x0f,
            0x00, 0x14, 0x00, 0x00, 0x00, 0x0c, 0x00, 0x00,
            0x00, 0x00, 0x00, 0x00, 0x00, 0x00, 0x00, 0x00,
            0x00, 0x00
        ]),
    )
}

fn decode_all(frame: &[u8]) -> Vec<DBMessage> {
    let mut rest = frame;
    let mut messages = Vec::new();
    while !rest.is_empty() {
        let (next, message) = DBMessage::parse(rest).unwrap();
        messages.push(message);
        rest = next;
    }
    messages
}

fn dialogs() -> Vec<Dialog> {
    vec![title_by_artist_album_dialog(), album_by_artist_dialog(), artist_dialog(), metadata_dialog()]
}

#[test]
fn captured_frames_decode_and_reencode_exactly() {
    let mut frames = vec![raw_menu_footer_request()];
    for (a, b, c, d) in dialogs() {
        frames.extend([a, b, c, d]);
    }
    for frame in frames {
        let mut again = Vec::new();
        for message in decode_all(&frame) {
            again.extend_from_slice(&message.encode());
        }
        assert_eq!(Bytes::from(again), frame);
    }
}

#[test]
fn captured_requests_are_classified() {
    let kind = |frame: &Bytes| DBMessage::parse(frame).unwrap().1.request_type();
    assert_eq!(kind(&artist_request()), DBRequestType::QueryListItem);
    assert_eq!(kind(&render_artist_request()), DBRequestType::FetchListItemContent);
    assert_eq!(kind(&metadata_dialog().0), DBRequestType::QueryListItem);
    assert_eq!(kind(&title_by_artist_album_dialog().0), DBRequestType::Unimplemented);
    assert_eq!(kind(&album_by_artist_dialog().0), DBRequestType::Unimplemented);
    for (_, _, items_request, _) in dialogs() {
        assert_eq!(kind(&items_request), DBRequestType::FetchListItemContent);
    }
}

#[test]
fn captured_replies_have_the_reply_shape() {
    for (request, reply, _, items) in dialogs() {
        let (_, request) = DBMessage::parse(&request).unwrap();
        let reply = decode_all(&reply);
        assert_eq!(reply.len(), 1);
        assert_eq!(reply[0].category, request.category);
        assert_eq!((reply[0].message_type, reply[0].sub_type), (0x40, 0x00));
        assert_eq!(
            reply[0].args.get(0).value(),
            &[0x00, 0x00, request.message_type, request.sub_type][..]
        );
        let items = decode_all(&items);
        assert!(items.len() >= 2);
        assert_eq!((items[0].message_type, items[0].sub_type), (0x40, 0x01));
        for item in &items[1..items.len() - 1] {
            assert_eq!((item.message_type, item.sub_type), (0x41, 0x01));
            assert_eq!(item.args.len(), 12);
        }
        let last = &items[items.len() - 1];
        assert_eq!((last.message_type, last.sub_type), (0x42, 0x01));
        assert_eq!(last.args.len(), 0);
    }
}

#[test]
fn list_header_reply_matches_capture_up_to_the_count() {
    let context = ClientContext::new();
    let mut state = PlayerState::new();
    let ours = process(&artist_request(), &context, &mut state).unwrap();
    let captured = artist_response();
    assert_eq!(ours.len(), captured.len());
    assert_eq!(&ours[..41], &captured[..41]);
}

#[test]
fn menu_footer_matches_capture() {
    let menu = Library::tbd((0x00, 0x0f));
    assert_eq!(&menu[menu.len() - 32..], &raw_menu_footer_request()[..]);
}
