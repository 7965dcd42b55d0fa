//! The requests that a connection makes of the server on the user's behalf.
//!
//! A request is described here; it is carried out on the network side, and
//! its result comes back to the caller across the bridge between the two
//! sides.
use vstd::prelude::*;
use crate::auth::{AuthData, AuthDataView};

verus! {

/// The seconds for which the server shows a typing notice that is not
/// renewed.
pub const TYPING_NOTICE_TIMEOUT: u64 = 4;

/// Whether a 128-bit value is a random UUID: version 4 of the RFC 4122
/// variant.
pub open spec fn is_random_uuid(id: u128) -> bool {
    (id >> 76) & 0xf == 4 && (id >> 62) & 0x3 == 2
}

/// A fresh transaction id.
///
/// Calls `Uuid::new_v4` of the `uuid` crate and returns the UUID as a
/// number, most significant byte first. The crate fills the UUID with random
/// bytes of the operating system and then sets its version to 4 and its
/// variant to RFC 4122; that much, and no more, is claimed of the result. The
/// call does not return if the operating system has no random bytes to give.
#[verifier::external_body]
fn fresh_transaction_id() -> (id: u128)
    ensures
        is_random_uuid(id),
{
    uuid::Uuid::new_v4().as_u128()
}

/// The transaction id of a message: the caller's own where there is one, a
/// fresh random one otherwise.
///
/// A caller that sends a message again under the id of the first attempt
/// gets that id both times, so the server can tell that the two are one.
///
/// A fresh id is drawn from the random bytes of the operating system. Where
/// the system has none to give, the draw panics: with no id of the caller's
/// the function then does not return.
pub fn transaction_id_or_fresh(transaction_id: Option<u128>) -> (id: u128)
    ensures
        match transaction_id {
            Some(given) => id == given,
            None => is_random_uuid(id),
        },
{
    match transaction_id {
        Some(given) => given,
        None => fresh_transaction_id(),
    }
}

/// A message to send to a room.
pub struct SendMessageRequest<C> {
    /// The id of the room.
    pub room_id: String,
    /// The content of the message.
    pub content: C,
    /// The id by which the server recognises a repeated send.
    pub transaction_id: u128,
}

/// The mathematical value of a [`SendMessageRequest`].
pub ghost struct SendMessageView<C> {
    pub room_id: Seq<char>,
    pub content: C,
    pub transaction_id: u128,
}

impl<C> View for SendMessageRequest<C> {
    type V = SendMessageView<C>;

    open spec fn view(&self) -> SendMessageView<C> {
        SendMessageView {
            room_id: self.room_id@,
            content: self.content,
            transaction_id: self.transaction_id,
        }
    }
}

/// The values of a list of texts, in order.
pub open spec fn texts_view(texts: Seq<String>) -> Seq<Seq<char>> {
    Seq::new(texts.len(), |i: int| texts[i]@)
}

/// The value of authentication data that may be absent.
pub open spec fn auth_view(auth: Option<AuthData>) -> Option<AuthDataView> {
    match auth {
        Some(data) => Some(data@),
        None => None,
    }
}

/// Devices to delete, with the proof of identity that the server may ask
/// for.
#[derive(Clone, Debug, PartialEq, Eq)]
pub struct DeleteDevicesRequest {
    /// The ids of the devices.
    pub devices: Vec<String>,
    /// The authentication data, where the user supplied any.
    pub auth: Option<AuthData>,
}

/// The mathematical value of a [`DeleteDevicesRequest`].
pub ghost struct DeleteDevicesView {
    pub devices: Seq<Seq<char>>,
    pub auth: Option<AuthDataView>,
}

impl View for DeleteDevicesRequest {
    type V = DeleteDevicesView;

    open spec fn view(&self) -> DeleteDevicesView {
        DeleteDevicesView { devices: texts_view(self.devices@), auth: auth_view(self.auth) }
    }
}

/// The direction in which a page of messages is read from a point of the
/// timeline.
#[derive(Clone, Copy, Debug, PartialEq, Eq, Structural)]
pub enum Direction {
    /// Towards older messages.
    Backward,
    /// Towards newer messages.
    Forward,
}

/// A page of the history of a room.
#[derive(Clone, Debug, PartialEq, Eq)]
pub struct MessagesRequest {
    /// The id of the room.
    pub room_id: String,
    /// The point of the timeline at which the page starts.
    pub from: String,
    /// The direction in which the page is read.
    pub direction: Direction,
}

/// The mathematical value of a [`MessagesRequest`].
pub ghost struct MessagesView {
    pub room_id: Seq<char>,
    pub from: Seq<char>,
    pub direction: Direction,
}

impl View for MessagesRequest {
    type V = MessagesView;

    open spec fn view(&self) -> MessagesView {
        MessagesView { room_id: self.room_id@, from: self.from@, direction: self.direction }
    }
}

impl MessagesRequest {
    /// The page of messages older than `from`.
    pub fn backward(room_id: String, from: String) -> (request: Self)
        ensures
            request@ == (MessagesView {
                room_id: room_id@,
                from: from@,
                direction: Direction::Backward,
            }),
    {
        MessagesRequest { room_id, from, direction: Direction::Backward }
    }
}

/// Whether the user is typing, and if so, for how many seconds the server
/// may show it.
#[derive(Clone, Copy, Debug, PartialEq, Eq, Structural)]
pub enum Typing {
    Yes(u64),
    No,
}

/// A typing notice for a room.
#[derive(Clone, Debug, PartialEq, Eq)]
pub struct TypingRequest {
    /// The id of the room.
    pub room_id: String,
    /// The notice.
    pub typing: Typing,
}

/// The mathematical value of a [`TypingRequest`].
pub ghost struct TypingView {
    pub room_id: Seq<char>,
    pub typing: Typing,
}

impl View for TypingRequest {
    type V = TypingView;

    open spec fn view(&self) -> TypingView {
        TypingView { room_id: self.room_id@, typing: self.typing }
    }
}

/// The notice that sets or clears the typing indicator.
pub open spec fn typing_notice(typing: bool) -> Typing {
    if typing {
        Typing::Yes(TYPING_NOTICE_TIMEOUT)
    } else {
        Typing::No
    }
}

/// The network side did not finish a piece of work.
#[derive(Clone, Copy, Debug, PartialEq, Eq, Structural)]
pub enum JoinFailure {
    /// The work was cancelled: the network side was shut down.
    Cancelled,
    /// The work panicked.
    Panicked,
}

/// The bridge to the network side could not deliver a result. This is no
/// answer of the server: the request may never have reached it.
#[derive(Clone, Copy, Debug, PartialEq, Eq, Structural)]
pub enum BridgeError {
    /// The network side is gone or gave the work up.
    Unavailable(JoinFailure),
}

} // verus!
