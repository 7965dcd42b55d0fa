//! The response receiver: the loop on the main thread that takes what the
//! sync loop sent and applies it to the server object, one message at a time
//! and in the order of arrival.
//!
//! The receiver decides here which handler of the server a delivery goes to,
//! and when the loop ends. Waiting for the channel and calling the handler
//! are the caller's part.
use vstd::prelude::*;
use vstd::string::StringExecFns;
use crate::message::{ClientMessage, MessageView, Protocol};

verus! {

/// What the channel from the sync loop handed over.
pub enum Delivery<P: Protocol> {
    /// A message of the sync loop.
    Message(ClientMessage<P>),
    /// A fatal error of the sync loop, as the text that describes it.
    Failure(String),
    /// Nothing: the channel is closed and holds no more messages.
    Closed,
}

/// The mathematical value of a [`Delivery`].
pub ghost enum DeliveryView<P: Protocol> {
    Message(MessageView<P>),
    Failure(Seq<char>),
    Closed,
}

impl<P: Protocol> View for Delivery<P> {
    type V = DeliveryView<P>;

    open spec fn view(&self) -> DeliveryView<P> {
        match self {
            Delivery::Message(message) => DeliveryView::Message(message@),
            Delivery::Failure(text) => DeliveryView::Failure(text@),
            Delivery::Closed => DeliveryView::Closed,
        }
    }
}

/// A call of one handler of the server object.
pub enum HandlerCall<P: Protocol> {
    /// Take note of the login.
    ReceiveLogin(P::Login),
    /// Apply a state event to the joined room with this id.
    ReceiveJoinedStateEvent(String, P::StateEvent),
    /// Apply a timeline event to the joined room with this id.
    ReceiveJoinedTimelineEvent(String, P::TimelineEvent),
    /// Apply the member list to the room with this id.
    ReceiveMembers(String, P::Members),
    /// Restore a room.
    RestoreRoom(P::Room),
    /// Show the error to the user.
    PrintError(String),
}

/// The mathematical value of a [`HandlerCall`].
pub ghost enum CallView<P: Protocol> {
    ReceiveLogin(P::Login),
    ReceiveJoinedStateEvent(Seq<char>, P::StateEvent),
    ReceiveJoinedTimelineEvent(Seq<char>, P::TimelineEvent),
    ReceiveMembers(Seq<char>, P::Members),
    RestoreRoom(P::Room),
    PrintError(Seq<char>),
}

impl<P: Protocol> View for HandlerCall<P> {
    type V = CallView<P>;

    open spec fn view(&self) -> CallView<P> {
        match self {
            HandlerCall::ReceiveLogin(login) => CallView::ReceiveLogin(*login),
            HandlerCall::ReceiveJoinedStateEvent(room, event) => CallView::ReceiveJoinedStateEvent(
                room@,
                *event,
            ),
            HandlerCall::ReceiveJoinedTimelineEvent(room, event) =>
                CallView::ReceiveJoinedTimelineEvent(room@, *event),
            HandlerCall::ReceiveMembers(room, members) => CallView::ReceiveMembers(room@, *members),
            HandlerCall::RestoreRoom(room) => CallView::RestoreRoom(*room),
            HandlerCall::PrintError(text) => CallView::PrintError(text@),
        }
    }
}

/// The value of a handler call that may be absent.
pub open spec fn call_view<P: Protocol>(call: Option<HandlerCall<P>>) -> Option<CallView<P>> {
    match call {
        Some(c) => Some(c@),
        None => None,
    }
}

/// The handler that a message goes to: one handler per variant, with the
/// message's room and payload as they are.
pub open spec fn handler_for<P: Protocol>(message: MessageView<P>) -> CallView<P> {
    match message {
        MessageView::LoginMessage(login) => CallView::ReceiveLogin(login),
        MessageView::SyncState(room, event) => CallView::ReceiveJoinedStateEvent(room, event),
        MessageView::SyncEvent(room, event) => CallView::ReceiveJoinedTimelineEvent(room, event),
        MessageView::Members(room, members) => CallView::ReceiveMembers(room, members),
        MessageView::RestoredRoom(room) => CallView::RestoreRoom(room),
    }
}

/// The error shown for a fatal error of the sync loop.
pub open spec fn failure_text(text: Seq<char>) -> Seq<char> {
    "Ruma error "@ + text
}

/// One turn of the receiver: whether it is still running afterwards, and the
/// handler to call, if any.
///
/// A receiver that has stopped, or whose server object is gone, calls no
/// handler. A message goes to its handler and the receiver runs on. A fatal
/// error of the sync loop is shown to the user and ends the receiver. A closed
/// channel ends the receiver too, and is no error to show: nothing is called.
pub open spec fn spec_receive<P: Protocol>(
    running: bool,
    delivery: DeliveryView<P>,
    server_alive: bool,
) -> (bool, Option<CallView<P>>) {
    if !running || !server_alive {
        (false, None)
    } else {
        match delivery {
            DeliveryView::Message(message) => (true, Some(handler_for(message))),
            DeliveryView::Failure(text) => (false, Some(CallView::PrintError(failure_text(text)))),
            DeliveryView::Closed => (false, None),
        }
    }
}

/// The handler call for a message.
pub fn handler_call<P: Protocol>(message: ClientMessage<P>) -> (call: HandlerCall<P>)
    ensures
        call@ == handler_for(message@),
{
    match message {
        ClientMessage::LoginMessage(login) => HandlerCall::ReceiveLogin(login),
        ClientMessage::SyncState(room, event) => HandlerCall::ReceiveJoinedStateEvent(room, event),
        ClientMessage::SyncEvent(room, event) => HandlerCall::ReceiveJoinedTimelineEvent(
            room,
            event,
        ),
        ClientMessage::Members(room, members) => HandlerCall::ReceiveMembers(room, members),
        ClientMessage::RestoredRoom(room) => HandlerCall::RestoreRoom(room),
    }
}

/// The response receiver of one connection.
pub struct Dispatcher {
    running: bool,
}

impl Dispatcher {
    /// Whether the receiver is still running.
    pub closed spec fn running(&self) -> bool {
        self.running
    }

    /// A receiver that is running.
    pub fn new() -> (receiver: Self)
        ensures
            receiver.running(),
    {
        Dispatcher { running: true }
    }

    /// Whether the receiver is still running.
    pub fn is_running(&self) -> (running: bool)
        ensures
            running == self.running(),
    {
        self.running
    }

    /// Ends the receiver: the connection that it belongs to was dropped.
    /// Whatever arrives afterwards is applied no more.
    pub fn close(&mut self)
        ensures
            !final(self).running(),
    {
        self.running = false;
    }

    /// One turn of the receiver: takes what the channel handed over and
    /// whether the server object still exists, and returns the handler to
    /// call, if any.
    pub fn receive<P: Protocol>(&mut self, delivery: Delivery<P>, server_alive: bool) -> (call:
        Option<HandlerCall<P>>)
        ensures
            (final(self).running(), call_view(call)) == spec_receive(
                old(self).running(),
                delivery@,
                server_alive,
            ),
    {
        if !self.running || !server_alive {
            self.running = false;
            return None;
        }
        match delivery {
            Delivery::Message(message) => Some(handler_call(message)),
            Delivery::Failure(text) => {
                self.running = false;
                let mut shown = "Ruma error ".to_owned();
                shown.append(text.as_str());
                Some(HandlerCall::PrintError(shown))
            },
            Delivery::Closed => {
                self.running = false;
                None
            },
        }
    }
}

/// What a receiver does with a series of deliveries, taken one after the
/// other while the server object exists: whether it is running afterwards,
/// and the handler called for each delivery, if any.
pub open spec fn receive_all<P: Protocol>(running: bool, deliveries: Seq<DeliveryView<P>>) -> (
    bool,
    Seq<Option<CallView<P>>>,
)
    decreases deliveries.len(),
{
    if deliveries.len() == 0 {
        (running, Seq::empty())
    } else {
        let (before, calls) = receive_all(running, deliveries.drop_last());
        let (after, call) = spec_receive(before, deliveries.last(), true);
        (after, calls.push(call))
    }
}

/// The deliveries that carry the given messages, in order.
pub open spec fn deliveries_of<P: Protocol>(messages: Seq<MessageView<P>>) -> Seq<
    DeliveryView<P>,
> {
    Seq::new(messages.len(), |i: int| DeliveryView::Message(messages[i]))
}

/// A running receiver applies every message that arrives, each exactly once
/// and in the order of arrival: the handler calls are the messages' handlers,
/// one for one, and the receiver is still running afterwards.
pub proof fn messages_applied_in_order<P: Protocol>(messages: Seq<MessageView<P>>)
    ensures
        receive_all(true, deliveries_of(messages)).0,
        receive_all(true, deliveries_of(messages)).1 == Seq::new(
            messages.len(),
            |i: int| Some(handler_for(messages[i])),
        ),
    decreases messages.len(),
{
    let deliveries = deliveries_of(messages);
    if messages.len() > 0 {
        messages_applied_in_order(messages.drop_last());
        assert(deliveries.drop_last() =~= deliveries_of(messages.drop_last()));
        assert(receive_all(true, deliveries).1 =~= Seq::new(
            messages.len(),
            |i: int| Some(handler_for(messages[i])),
        ));
    } else {
        assert(receive_all(true, deliveries).1 =~= Seq::new(
            messages.len(),
            |i: int| Some(handler_for(messages[i])),
        ));
    }
}

/// A receiver that has stopped stays stopped and calls no handler, whatever
/// is still queued and whatever arrives later. So it is after a fatal error,
/// after the channel was closed, and after [`Dispatcher::close`], with which
/// a connection that is dropped ends its receiver.
pub proof fn nothing_applied_after_stop<P: Protocol>(deliveries: Seq<DeliveryView<P>>)
    ensures
        !receive_all(false, deliveries).0,
        receive_all(false, deliveries).1 == Seq::new(
            deliveries.len(),
            |i: int| None::<CallView<P>>,
        ),
    decreases deliveries.len(),
{
    if deliveries.len() > 0 {
        nothing_applied_after_stop(deliveries.drop_last());
    }
    assert(receive_all(false, deliveries).1 =~= Seq::new(
        deliveries.len(),
        |i: int| None::<CallView<P>>,
    ));
}

/// Every delivery has its place among the handler calls: there are as many
/// places as deliveries.
pub proof fn one_place_per_delivery<P: Protocol>(running: bool, deliveries: Seq<DeliveryView<P>>)
    ensures
        receive_all(running, deliveries).1.len() == deliveries.len(),
    decreases deliveries.len(),
{
    if deliveries.len() > 0 {
        one_place_per_delivery(running, deliveries.drop_last());
    }
}

/// A fatal error of the sync loop and a closed channel each end the
/// receiver, and it applies nothing that arrives later. The error is shown
/// to the user, once; the closed channel is shown to nobody.
pub proof fn end_of_receiver<P: Protocol>(first: DeliveryView<P>, later: Seq<DeliveryView<P>>)
    requires
        !(first is Message),
    ensures
        !receive_all(true, seq![first] + later).0,
        receive_all(true, seq![first] + later).1.len() == later.len() + 1,
        receive_all(true, seq![first] + later).1[0] == match first {
            DeliveryView::Failure(text) => Some(CallView::<P>::PrintError(failure_text(text))),
            _ => None,
        },
        forall|i: int|
            1 <= i <= later.len() ==> (#[trigger] receive_all(true, seq![first] + later).1[i])
                is None,
    decreases later.len(),
{
    let all = seq![first] + later;
    let (before, calls) = receive_all(true, all.drop_last());
    one_place_per_delivery(true, all.drop_last());
    if later.len() == 0 {
        assert(all.drop_last() =~= Seq::<DeliveryView<P>>::empty());
        assert(all.last() == first);
        assert(before);
        assert(calls.len() == 0);
    } else {
        end_of_receiver(first, later.drop_last());
        assert(all.drop_last() =~= seq![first] + later.drop_last());
        assert(all.last() == later.last());
        assert(!before);
        assert(receive_all(true, all).1 == calls.push(None));
    }
}

} // verus!
