use vstd::prelude::*;

use crate::buffer::{bytes_view, freeze};
use crate::controller::{dispatch, reply_for, unimplemented_reply, ClientContext, UnimplementedController};
use crate::arguments::kinds_of;
use crate::error::DecodeError;
use crate::message::{classify, decode_message, magic, DBMessage, DBRequestType};

verus! {

/// Length of the greeting a player sends when it opens a session connection.
pub const GREETING_LEN: usize = 5;

/// What one session connection remembers between frames.
pub struct PlayerState {
    /// Type of the list the player opened last; `None` at the root menu.
    pub current_page: Option<u8>,
}

impl PlayerState {
    pub fn new() -> (r: PlayerState)
        ensures
            r.current_page is None,
    {
        PlayerState { current_page: None }
    }
}

/// What a session answers to one frame: a greeting is echoed; a decoded
/// request gets the reply for its kind; a frame without the magic sequence
/// is refused; any other frame that does not decode gets the diagnostic.
pub open spec fn session_reply(s: Seq<u8>) -> Result<Seq<u8>, DecodeError> {
    if s.len() == 5 {
        Ok(s)
    } else {
        match decode_message(s) {
            Ok((m, _)) => Ok(reply_for(m)),
            Err(DecodeError::BadPreamble) => Err(DecodeError::BadPreamble),
            Err(_) => Ok(unimplemented_reply()),
        }
    }
}

/// The open page after one frame: a list-header request opens the list of
/// its type, a root-menu request goes back to the root, anything else keeps the page.
pub open spec fn next_page(s: Seq<u8>, page: Option<u8>) -> Option<u8> {
    if s.len() == 5 {
        page
    } else {
        match decode_message(s) {
            Ok((m, _)) => match classify(m.message_type, m.sub_type, kinds_of(m.args)) {
                DBRequestType::RootMenuRequest => None,
                DBRequestType::QueryListItem => Some(m.message_type),
                _ => page,
            },
            Err(_) => page,
        }
    }
}

/// Handles one frame read from a session connection: the reply to write
/// back, or `BadPreamble` when the connection is to be dropped.
pub fn process(bytes: &[u8], context: &ClientContext, player_state: &mut PlayerState) -> (r: Result<
    bytes::Bytes,
    DecodeError,
>)
    ensures
        match session_reply(bytes@) {
            Ok(reply) => r matches Ok(b) && bytes_view(b) == reply,
            Err(e) => r matches Err(x) && x == e,
        },
        final(player_state).current_page == next_page(bytes@, old(player_state).current_page),
{
    if bytes.len() == GREETING_LEN {
        return Ok(freeze(vstd::slice::slice_to_vec(bytes)));
    }
    match DBMessage::parse(bytes) {
        Ok((_rest, message)) => {
            match message.request_type() {
                DBRequestType::RootMenuRequest => {
                    player_state.current_page = None;
                },
                DBRequestType::QueryListItem => {
                    player_state.current_page = Some(message.message_type);
                },
                _ => {},
            }
            Ok(dispatch(message, context))
        },
        Err(DecodeError::BadPreamble) => Err(DecodeError::BadPreamble),
        Err(_) => Ok(UnimplementedController::reply()),
    }
}

/// Every frame that opens with the magic sequence is answered, so the
/// connection stays open; one that does not decode is answered with the
/// diagnostic and leaves the open page as it was.
pub proof fn lemma_malformed_frames_answered(s: Seq<u8>, page: Option<u8>)
    requires
        s.len() >= 6,
        s.subrange(0, 6) == magic(),
    ensures
        session_reply(s) is Ok,
        decode_message(s) is Err ==> session_reply(s) == Ok::<Seq<u8>, DecodeError>(unimplemented_reply())
            && next_page(s, page) == page,
{
}

/// Only a frame that does not open with the magic sequence is refused.
pub proof fn lemma_only_bad_preamble_refused(s: Seq<u8>)
    ensures
        session_reply(s) is Err <==> (s.len() != 5 && (s.len() < 6 || s.subrange(0, 6) != magic())),
{
}

} // verus!
