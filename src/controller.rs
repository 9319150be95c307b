use vstd::prelude::*;

use crate::arguments::{kinds_of, ArgumentCollection, FieldView};
use crate::buffer::{bytes_mut_view, bytes_view, freeze, freeze_buffer};
use crate::field::{DBField, DBFieldType};
use crate::menu::{menu_payload, small_u32, small_u32_field, Library};
use crate::message::{classify, magic, message_bytes, DBMessage, DBRequestType, MessageView, REPLY_TYPE};

verus! {

/// State shared by every session of one server; dispatch borrows it.
pub struct ClientContext {}

impl ClientContext {
    pub fn new() -> (r: ClientContext)
        ensures
            r == (ClientContext {}),
    {
        ClientContext {}
    }
}

/// The reply to `request` that carries `args`: same category, reply type, sub-type zero.
pub open spec fn reply_message(request: MessageView, args: Seq<FieldView>) -> MessageView {
    MessageView {
        category: request.category,
        transaction: 0x10,
        message_type: 0x40,
        sub_type: 0x00,
        args,
    }
}

/// Fields of the reply to a session opening.
pub open spec fn setup_reply_args() -> Seq<FieldView> {
    seq![small_u32(0), small_u32(0x11)]
}

/// Fields of the reply to a root-menu request: item count and list length.
pub open spec fn root_menu_reply_args() -> Seq<FieldView> {
    seq![(DBFieldType::U32, seq![0u8, 0u8, 0x10u8, 0u8]), small_u32(0x08)]
}

/// Fields of the reply to a list-header request: the requested type and
/// sub-type, then the count of items that follow.
pub open spec fn list_header_reply_args(request: MessageView) -> Seq<FieldView> {
    seq![(DBFieldType::U32, seq![0u8, 0u8, request.message_type, request.sub_type]), small_u32(0x02)]
}

/// The literal answer to a request that is not handled.
pub open spec fn unimplemented_reply() -> Seq<u8> {
    seq![0x55u8, 0x6eu8, 0x69u8, 0x6du8, 0x70u8, 0x6cu8, 0x65u8, 0x6du8, 0x65u8, 0x6eu8, 0x74u8, 0x65u8, 0x64u8]
}

/// Bytes sent back for a decoded request, chosen by its kind.
pub open spec fn reply_for(m: MessageView) -> Seq<u8> {
    match classify(m.message_type, m.sub_type, kinds_of(m.args)) {
        DBRequestType::Setup => message_bytes(reply_message(m, setup_reply_args())),
        DBRequestType::RootMenuRequest => message_bytes(reply_message(m, root_menu_reply_args())),
        DBRequestType::QueryListItem => message_bytes(reply_message(m, list_header_reply_args(m))),
        DBRequestType::FetchListItemContent => menu_payload(m.category[2], m.category[3]),
        DBRequestType::Unimplemented => unimplemented_reply(),
    }
}

/// The field that opens every reply after the echoed header: marker, reply
/// type and sub-type zero, read as one 16-bit field.
pub fn ok_request() -> (r: DBField)
    ensures
        r@ == (DBFieldType::U16, seq![REPLY_TYPE, 0u8]),
{
    let bytes: [u8; 2] = [REPLY_TYPE, 0x00];
    assert(bytes@ =~= seq![REPLY_TYPE, 0u8]);
    DBField::new(DBFieldType::U16, &bytes)
}

/// A request as a controller receives it.
pub struct RequestWrapper {
    pub message: DBMessage,
}

impl RequestWrapper {
    /// The echoed opening of the reply: magic sequence and category.
    pub fn to_response(&self) -> (r: bytes::BytesMut)
        ensures
            bytes_mut_view(r) == magic() + self.message.category@,
    {
        self.message.to_response()
    }

    /// The reply to this request that carries `args`.
    pub fn reply_with(&self, args: &ArgumentCollection) -> (r: bytes::Bytes)
        ensures
            bytes_view(r) == message_bytes(reply_message(self.message@, args@)),
    {
        let mut out = self.to_response();
        let ok = ok_request();
        ok.write_to(&mut out);
        args.write_to(&mut out);
        assert(bytes_mut_view(out) =~= message_bytes(reply_message(self.message@, args@)));
        freeze_buffer(out)
    }
}

/// Something that turns a request into a reply. Each controller of this
/// library states the reply it gives in its own `ensures`.
pub trait ControllerTrait {
    type Item;

    fn to_response(self, request: RequestWrapper, context: &ClientContext) -> Self::Item;
}

/// Answers a session opening.
pub struct SetupController;

impl SetupController {
    pub fn reply(request: &RequestWrapper) -> (r: bytes::Bytes)
        ensures
            bytes_view(r) == message_bytes(reply_message(request.message@, setup_reply_args())),
    {
        let args = ArgumentCollection::new(vec![small_u32_field(0x00), small_u32_field(0x11)]);
        assert(args@ =~= setup_reply_args());
        request.reply_with(&args)
    }
}

impl ControllerTrait for SetupController {
    type Item = bytes::Bytes;

    fn to_response(self, request: RequestWrapper, _context: &ClientContext) -> (r: bytes::Bytes)
        ensures
            bytes_view(r) == message_bytes(reply_message(request.message@, setup_reply_args())),
    {
        SetupController::reply(&request)
    }
}

/// Answers a root-menu request.
pub struct RootMenuController;

impl RootMenuController {
    pub fn reply(request: &RequestWrapper) -> (r: bytes::Bytes)
        ensures
            bytes_view(r) == message_bytes(reply_message(request.message@, root_menu_reply_args())),
    {
        let count: [u8; 4] = [0x00, 0x00, 0x10, 0x00];
        assert(count@ =~= seq![0u8, 0u8, 0x10u8, 0u8]);
        let args = ArgumentCollection::new(
            vec![DBField::new(DBFieldType::U32, &count), small_u32_field(0x08)],
        );
        assert(args@ =~= root_menu_reply_args());
        request.reply_with(&args)
    }
}

impl ControllerTrait for RootMenuController {
    type Item = bytes::Bytes;

    fn to_response(self, request: RequestWrapper, _context: &ClientContext) -> (r: bytes::Bytes)
        ensures
            bytes_view(r) == message_bytes(reply_message(request.message@, root_menu_reply_args())),
    {
        RootMenuController::reply(&request)
    }
}

/// Answers a list-header request.
pub struct QueryListController;

impl QueryListController {
    pub fn reply(request: &RequestWrapper) -> (r: bytes::Bytes)
        ensures
            bytes_view(r) == message_bytes(
                reply_message(request.message@, list_header_reply_args(request.message@)),
            ),
    {
        let requested: [u8; 4] = [0x00, 0x00, request.message.message_type, request.message.sub_type];
        assert(requested@ =~= seq![0u8, 0u8, request.message.message_type, request.message.sub_type]);
        let args = ArgumentCollection::new(
            vec![DBField::new(DBFieldType::U32, &requested), small_u32_field(0x02)],
        );
        assert(args@ =~= list_header_reply_args(request.message@));
        request.reply_with(&args)
    }
}

impl ControllerTrait for QueryListController {
    type Item = bytes::Bytes;

    fn to_response(self, request: RequestWrapper, _context: &ClientContext) -> (r: bytes::Bytes)
        ensures
            bytes_view(r) == message_bytes(
                reply_message(request.message@, list_header_reply_args(request.message@)),
            ),
    {
        QueryListController::reply(&request)
    }
}

/// Answers a request for list items with the menu.
pub struct MenuController;

impl MenuController {
    pub fn reply(request: &RequestWrapper) -> (r: bytes::Bytes)
        ensures
            bytes_view(r) == menu_payload(request.message.category@[2], request.message.category@[3]),
    {
        Library::tbd((request.message.category[2], request.message.category[3]))
    }
}

impl ControllerTrait for MenuController {
    type Item = bytes::Bytes;

    fn to_response(self, request: RequestWrapper, _context: &ClientContext) -> (r: bytes::Bytes)
        ensures
            bytes_view(r) == menu_payload(request.message.category@[2], request.message.category@[3]),
    {
        MenuController::reply(&request)
    }
}

/// Answers anything else with a literal diagnostic.
pub struct UnimplementedController;

impl UnimplementedController {
    pub fn reply() -> (r: bytes::Bytes)
        ensures
            bytes_view(r) == unimplemented_reply(),
    {
        let text = vec![0x55, 0x6e, 0x69, 0x6d, 0x70, 0x6c, 0x65, 0x6d, 0x65, 0x6e, 0x74, 0x65, 0x64];
        assert(text@ =~= unimplemented_reply());
        freeze(text)
    }
}

impl ControllerTrait for UnimplementedController {
    type Item = bytes::Bytes;

    fn to_response(self, _request: RequestWrapper, _context: &ClientContext) -> (r: bytes::Bytes)
        ensures
            bytes_view(r) == unimplemented_reply(),
    {
        UnimplementedController::reply()
    }
}

/// A request paired with the controller that answers it.
pub struct RequestHandler<'a, T: ControllerTrait> {
    pub request: RequestWrapper,
    pub controller: T,
    pub context: &'a ClientContext,
}

impl<'a, T: ControllerTrait> RequestHandler<'a, T> {
    pub fn new(request_handler: T, message: DBMessage, context: &'a ClientContext) -> (r: RequestHandler<'a, T>)
        ensures
            r.request.message == message,
            r.controller == request_handler,
            r.context == context,
    {
        RequestHandler { request: RequestWrapper { message }, controller: request_handler, context }
    }

    /// The controller's reply to the request.
    pub fn respond_to(self) -> (r: T::Item)
        ensures
            call_ensures(T::to_response, (self.controller, self.request, self.context), r),
    {
        self.controller.to_response(self.request, self.context)
    }
}

/// Answers a decoded request, choosing the controller by the request's kind.
pub fn dispatch(request: DBMessage, context: &ClientContext) -> (r: bytes::Bytes)
    ensures
        bytes_view(r) == reply_for(request@),
{
    let kind = request.request_type();
    let wrapper = RequestWrapper { message: request };
    match kind {
        DBRequestType::Setup => SetupController::reply(&wrapper),
        DBRequestType::RootMenuRequest => RootMenuController::reply(&wrapper),
        DBRequestType::QueryListItem => QueryListController::reply(&wrapper),
        DBRequestType::FetchListItemContent => MenuController::reply(&wrapper),
        DBRequestType::Unimplemented => UnimplementedController::reply(),
    }
}

} // verus!
