//! The messages that the sync loop hands to the response receiver.
use vstd::prelude::*;

verus! {

/// The payload types of the chat protocol.
///
/// A connection carries values of these types from the network side to the
/// handlers of the server object and never looks inside them.
pub trait Protocol {
    /// The session information that a successful login returns.
    type Login;

    /// A state event of a joined room.
    type StateEvent;

    /// A timeline event of a joined room.
    type TimelineEvent;

    /// The full membership list of a room.
    type Members;

    /// A room as it was stored by an earlier session.
    type Room;
}

/// A message from the sync loop to the response receiver.
///
/// Every variant that concerns a room names the room itself, so that the
/// receiver never has to guess a room from the order of arrival.
pub enum ClientMessage<P: Protocol> {
    /// The login succeeded.
    LoginMessage(P::Login),
    /// A state event arrived for the room with the given id.
    SyncState(String, P::StateEvent),
    /// A timeline event arrived for the room with the given id.
    SyncEvent(String, P::TimelineEvent),
    /// The full member list of the room with the given id was fetched.
    Members(String, P::Members),
    /// A room was restored from the store.
    RestoredRoom(P::Room),
}

/// The mathematical value of a [`ClientMessage`]: room ids are sequences of
/// characters, payloads stand for themselves.
pub ghost enum MessageView<P: Protocol> {
    LoginMessage(P::Login),
    SyncState(Seq<char>, P::StateEvent),
    SyncEvent(Seq<char>, P::TimelineEvent),
    Members(Seq<char>, P::Members),
    RestoredRoom(P::Room),
}

impl<P: Protocol> MessageView<P> {
    /// The room that the message concerns, if it concerns one.
    pub open spec fn room_id(self) -> Option<Seq<char>> {
        match self {
            MessageView::LoginMessage(_) => None,
            MessageView::SyncState(room, _) => Some(room),
            MessageView::SyncEvent(room, _) => Some(room),
            MessageView::Members(room, _) => Some(room),
            MessageView::RestoredRoom(_) => None,
        }
    }
}

impl<P: Protocol> View for ClientMessage<P> {
    type V = MessageView<P>;

    open spec fn view(&self) -> MessageView<P> {
        match self {
            ClientMessage::LoginMessage(login) => MessageView::LoginMessage(*login),
            ClientMessage::SyncState(room, event) => MessageView::SyncState(room@, *event),
            ClientMessage::SyncEvent(room, event) => MessageView::SyncEvent(room@, *event),
            ClientMessage::Members(room, members) => MessageView::Members(room@, *members),
            ClientMessage::RestoredRoom(room) => MessageView::RestoredRoom(*room),
        }
    }
}

impl<P: Protocol> ClientMessage<P> {
    /// The id of the room that the message concerns, if it concerns one.
    pub fn room_id(&self) -> (room: Option<&String>)
        ensures
            match room {
                Some(id) => self@.room_id() == Some(id@),
                None => self@.room_id() is None,
            },
    {
        match self {
            ClientMessage::LoginMessage(_) => None,
            ClientMessage::SyncState(room, _) => Some(room),
            ClientMessage::SyncEvent(room, _) => Some(room),
            ClientMessage::Members(room, _) => Some(room),
            ClientMessage::RestoredRoom(_) => None,
        }
    }
}

/// The message that reports a finished member fetch: the member list under
/// the room's id if the fetch succeeded, nothing if it failed.
pub fn members_message<P: Protocol, E>(room_id: String, fetched: Result<P::Members, E>) -> (message:
    Option<ClientMessage<P>>)
    ensures
        match fetched {
            Ok(members) => message matches Some(m) && m@ == MessageView::<P>::Members(
                room_id@,
                members,
            ),
            Err(_) => message is None,
        },
{
    match fetched {
        Ok(members) => Some(ClientMessage::Members(room_id, members)),
        Err(_) => None,
    }
}

} // verus!
