//! A connection to a homeserver: the account it logs in with, the two loops
//! that it runs, and the requests that it makes.
use vstd::prelude::*;
use crate::auth::{password_auth, session_view, AuthDataView, InteractiveAuthInfo};
use crate::dispatcher::Dispatcher;
use crate::message::Protocol;
use crate::request::{
    is_random_uuid, texts_view, transaction_id_or_fresh, typing_notice, BridgeError,
    DeleteDevicesRequest, DeleteDevicesView, Direction, JoinFailure, MessagesRequest, MessagesView,
    SendMessageRequest, SendMessageView, Typing, TypingRequest, TypingView, TYPING_NOTICE_TIMEOUT,
};
use crate::sync::{initial, SyncLoop};

verus! {

/// The number of messages that the channel from the sync loop to the
/// response receiver holds before a send has to wait.
pub const EVENT_CHANNEL_CAPACITY: usize = 1000;

/// An active connection to a homeserver.
pub struct Connection {
    username: String,
    password: String,
    server_name: String,
}

/// The mathematical value of a [`Connection`]: the account and the server's
/// name.
pub ghost struct ConnectionView {
    pub username: Seq<char>,
    pub password: Seq<char>,
    pub server_name: Seq<char>,
}

impl View for Connection {
    type V = ConnectionView;

    closed spec fn view(&self) -> ConnectionView {
        ConnectionView {
            username: self.username@,
            password: self.password@,
            server_name: self.server_name@,
        }
    }
}

/// The authentication data for a request, where the user supplied any.
pub open spec fn auth_for(auth_info: Option<InteractiveAuthInfo>) -> Option<AuthDataView> {
    match auth_info {
        Some(info) => Some(password_auth(info.user@, info.password@, session_view(info.session))),
        None => None,
    }
}

/// The request that sends `content` to the room under the transaction id.
pub open spec fn message_request<C>(
    room_id: Seq<char>,
    content: C,
    transaction_id: u128,
) -> SendMessageView<C> {
    SendMessageView { room_id, content, transaction_id }
}

impl Connection {
    /// A connection for the given account on the named server.
    pub fn new(username: String, password: String, server_name: String) -> (connection: Self)
        ensures
            connection@ == (ConnectionView {
                username: username@,
                password: password@,
                server_name: server_name@,
            }),
    {
        Connection { username, password, server_name }
    }

    /// The sync loop of the connection, before it starts.
    pub fn sync_loop<P: Protocol>(&self) -> (machine: SyncLoop<P>)
        ensures
            machine@ == initial::<P>(self@.username, self@.password, self@.server_name),
    {
        SyncLoop::new(self.username.clone(), self.password.clone(), self.server_name.clone())
    }

    /// The response receiver of the connection, running.
    pub fn response_receiver(&self) -> (receiver: Dispatcher)
        ensures
            receiver.running(),
    {
        Dispatcher::new()
    }

    /// The result of a piece of work that was handed to the network side:
    /// what the work returned if it ran to its end, and a bridge error if
    /// the network side did not finish it.
    pub fn spawn<T>(&self, finished: Result<T, JoinFailure>) -> (output: Result<T, BridgeError>)
        ensures
            match finished {
                Ok(value) => output == Ok::<T, BridgeError>(value),
                Err(failure) => output == Err::<T, BridgeError>(BridgeError::Unavailable(failure)),
            },
    {
        match finished {
            Ok(value) => Ok(value),
            Err(failure) => Err(BridgeError::Unavailable(failure)),
        }
    }

    /// The request that sends a message to a room.
    ///
    /// With a transaction id of the caller's the request carries that id, so
    /// that sending the same message again under the same id makes the same
    /// request. Without one the request carries a fresh random id, drawn
    /// from the random bytes of the operating system; where the system has
    /// none to give, the draw panics and the function does not return.
    pub fn send_message<C>(
        &self,
        room_id: &str,
        content: C,
        transaction_id: Option<u128>,
    ) -> (request: SendMessageRequest<C>)
        ensures
            request@ == message_request(room_id@, content, request@.transaction_id),
            match transaction_id {
                Some(given) => request@.transaction_id == given,
                None => is_random_uuid(request@.transaction_id),
            },
    {
        SendMessageRequest {
            room_id: room_id.to_owned(),
            content,
            transaction_id: transaction_id_or_fresh(transaction_id),
        }
    }

    /// The request that deletes the given devices, with the user's password
    /// authentication where the user supplied the means for it.
    pub fn delete_devices(
        &self,
        devices: Vec<String>,
        auth_info: Option<InteractiveAuthInfo>,
    ) -> (request: DeleteDevicesRequest)
        ensures
            request@ == (DeleteDevicesView {
                devices: texts_view(devices@),
                auth: auth_for(auth_info),
            }),
    {
        let auth = match auth_info {
            Some(info) => Some(info.as_auth_data()),
            None => None,
        };
        DeleteDevicesRequest { devices, auth }
    }

    /// The request that fetches the messages of a room that are older than
    /// `prev_batch`.
    pub fn room_messages(&self, room_id: String, prev_batch: String) -> (request: MessagesRequest)
        ensures
            request@ == (MessagesView {
                room_id: room_id@,
                from: prev_batch@,
                direction: Direction::Backward,
            }),
    {
        MessagesRequest::backward(room_id, prev_batch)
    }

    /// The request that sets or clears the typing notice of a room. A notice
    /// that is set lasts [`TYPING_NOTICE_TIMEOUT`] seconds unless renewed.
    pub fn send_typing_notice(&self, room_id: &str, typing: bool) -> (request: TypingRequest)
        ensures
            request@ == (TypingView { room_id: room_id@, typing: typing_notice(typing) }),
    {
        let typing = if typing {
            Typing::Yes(TYPING_NOTICE_TIMEOUT)
        } else {
            Typing::No
        };
        TypingRequest { room_id: room_id.to_owned(), typing }
    }
}

} // verus!
