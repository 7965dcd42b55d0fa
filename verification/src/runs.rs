//! Runs of the sync loop: what holds of the loop over every series of events
//! that a caller may report to it.
use vstd::prelude::*;
use crate::channel::{all_sent_is_received, received_in_order_sent, sent, ChannelView, Operation};
use crate::dispatcher::{deliveries_of, handler_for, messages_applied_in_order, receive_all};
use crate::message::{MessageView, Protocol};
use crate::sync::{
    advance, initial, response_steps, room_messages, room_steps, send_steps, spec_step,
    write_error_text, ActionView, EventView, LoopView, MemberSync, PhaseView, RoomView, StepView,
};

verus! {

/// The loop after a series of events, taken one after the other, and the
/// action with which it answered each of them.
pub open spec fn run<P: Protocol>(s: LoopView<P>, events: Seq<EventView<P>>) -> (
    LoopView<P>,
    Seq<ActionView<P>>,
)
    decreases events.len(),
{
    if events.len() == 0 {
        (s, Seq::empty())
    } else {
        let (before, actions) = run(s, events.drop_last());
        let (after, action) = spec_step(before, events.last());
        (after, actions.push(action))
    }
}

/// The messages that a series of actions sends, in order.
pub open spec fn sent_messages<P: Protocol>(actions: Seq<ActionView<P>>) -> Seq<MessageView<P>>
    decreases actions.len(),
{
    if actions.len() == 0 {
        Seq::empty()
    } else {
        match actions.last() {
            ActionView::SendMessage(message) => sent_messages(actions.drop_last()).push(message),
            _ => sent_messages(actions.drop_last()),
        }
    }
}

/// The messages that a series of steps sends, in order.
pub open spec fn step_messages<P: Protocol>(steps: Seq<StepView<P>>) -> Seq<MessageView<P>>
    decreases steps.len(),
{
    if steps.len() == 0 {
        Seq::empty()
    } else {
        match steps.last() {
            StepView::Send(message) => step_messages(steps.drop_last()).push(message),
            StepView::CheckMembers(_) => step_messages(steps.drop_last()),
        }
    }
}

/// The messages of a whole response: those of its rooms, room after room,
/// and within a room the state events before the timeline events, each kind
/// in the server's order.
pub open spec fn response_messages<P: Protocol>(rooms: Seq<RoomView<P>>) -> Seq<MessageView<P>>
    decreases rooms.len(),
{
    if rooms.len() == 0 {
        Seq::empty()
    } else {
        response_messages(rooms.drop_last()) + room_messages(rooms.last())
    }
}

/// How many of the actions announce a login to the response receiver.
pub open spec fn login_announcements<P: Protocol>(actions: Seq<ActionView<P>>) -> nat
    decreases actions.len(),
{
    if actions.len() == 0 {
        0
    } else {
        login_announcements(actions.drop_last()) + if actions.last() matches ActionView::SendMessage(
            MessageView::LoginMessage(_),
        ) {
            1nat
        } else {
            0nat
        }
    }
}

/// Whether the steps that are left to do only send what a response holds:
/// state events and timeline events.
pub open spec fn pending_from_response<P: Protocol>(s: LoopView<P>) -> bool {
    forall|i: int|
        0 <= i < s.pending.len() ==> match #[trigger] s.pending[i] {
            StepView::Send(message) => message is SyncState || message is SyncEvent,
            StepView::CheckMembers(_) => true,
        }
}

/// Whether the loop has yet to hear whether the device id was saved.
pub open spec fn before_announcement<P: Protocol>(phase: PhaseView<P>) -> bool {
    phase is Created || phase is CheckingSession || phase is LoadingDeviceId || phase is LoggingIn
        || phase is SavingDeviceId
}

proof fn step_messages_of_concat<P: Protocol>(a: Seq<StepView<P>>, b: Seq<StepView<P>>)
    ensures
        step_messages(a + b) == step_messages(a) + step_messages(b),
    decreases b.len(),
{
    if b.len() == 0 {
        assert(a + b =~= a);
        assert(step_messages(a) + step_messages(b) =~= step_messages(a));
    } else {
        step_messages_of_concat(a, b.drop_last());
        assert((a + b).drop_last() =~= a + b.drop_last());
        assert((a + b).last() == b.last());
        match b.last() {
            StepView::Send(message) => {
                assert(step_messages(a + b) =~= step_messages(a) + step_messages(b));
            },
            StepView::CheckMembers(_) => {},
        }
    }
}

proof fn step_messages_of_sends<P: Protocol>(messages: Seq<MessageView<P>>)
    ensures
        step_messages(send_steps(messages)) == messages,
    decreases messages.len(),
{
    if messages.len() == 0 {
        assert(step_messages(send_steps(messages)) =~= messages);
    } else {
        step_messages_of_sends(messages.drop_last());
        assert(send_steps(messages).drop_last() =~= send_steps(messages.drop_last()));
        assert(step_messages(send_steps(messages)) =~= messages);
    }
}

proof fn step_messages_of_room<P: Protocol>(room: RoomView<P>)
    ensures
        step_messages(room_steps(room)) == room_messages(room),
{
    let steps = room_steps(room);
    assert(steps.drop_last() =~= send_steps(room_messages(room)));
    step_messages_of_sends(room_messages(room));
}

/// The steps of a response send exactly the messages of the response.
pub proof fn steps_send_response<P: Protocol>(rooms: Seq<RoomView<P>>)
    ensures
        step_messages(response_steps(rooms)) == response_messages(rooms),
    decreases rooms.len(),
{
    if rooms.len() > 0 {
        steps_send_response(rooms.drop_last());
        step_messages_of_room(rooms.last());
        step_messages_of_concat(response_steps(rooms.drop_last()), room_steps(rooms.last()));
    }
}

proof fn step_messages_from_front<P: Protocol>(steps: Seq<StepView<P>>)
    requires
        steps.len() > 0,
    ensures
        step_messages(steps) == match steps[0] {
            StepView::Send(message) => seq![message] + step_messages(steps.drop_first()),
            StepView::CheckMembers(_) => step_messages(steps.drop_first()),
        },
{
    let head = seq![steps[0]];
    assert(head + steps.drop_first() =~= steps);
    step_messages_of_concat(head, steps.drop_first());
    assert(head.drop_last() =~= Seq::<StepView<P>>::empty());
    assert(step_messages(Seq::<StepView<P>>::empty()) =~= Seq::<MessageView<P>>::empty());
    match steps[0] {
        StepView::Send(message) => {
            assert(step_messages(head) =~= seq![message]);
        },
        StepView::CheckMembers(_) => {
            assert(step_messages(head) =~= Seq::<MessageView<P>>::empty());
            assert(step_messages(head) + step_messages(steps.drop_first()) =~= step_messages(
                steps.drop_first(),
            ));
        },
    }
}

/// Whether a loop that deals with a response is on course: what it has sent
/// and what it has yet to send make up the messages of the response, in
/// order.
spec fn on_course<P: Protocol>(
    s: LoopView<P>,
    actions: Seq<ActionView<P>>,
    all: Seq<MessageView<P>>,
) -> bool {
    match s.phase {
        PhaseView::Emitting | PhaseView::QueryingMembers(_) | PhaseView::StartingFetch =>
            sent_messages(actions) + step_messages(s.pending) == all,
        PhaseView::Streaming => s.pending.len() == 0 && sent_messages(actions) == all,
        PhaseView::Stopped => sent_messages(actions).is_prefix_of(all),
        _ => false,
    }
}

proof fn advance_stays_on_course<P: Protocol>(
    s: LoopView<P>,
    actions: Seq<ActionView<P>>,
    all: Seq<MessageView<P>>,
)
    requires
        sent_messages(actions) + step_messages(s.pending) == all,
    ensures
        on_course(advance(s).0, actions.push(advance(s).1), all),
{
    let (after, action) = advance(s);
    let answered = actions.push(action);
    assert(answered.drop_last() =~= actions);
    if s.pending.len() == 0 {
        assert(sent_messages(actions) + step_messages(s.pending) =~= sent_messages(actions));
    } else {
        step_messages_from_front(s.pending);
        match s.pending[0] {
            StepView::Send(message) => {
                assert(sent_messages(answered) + step_messages(after.pending) =~= sent_messages(
                    actions,
                ) + step_messages(s.pending));
            },
            StepView::CheckMembers(_) => {},
        }
    }
}

proof fn step_stays_on_course<P: Protocol>(
    s: LoopView<P>,
    actions: Seq<ActionView<P>>,
    all: Seq<MessageView<P>>,
    event: EventView<P>,
)
    requires
        on_course(s, actions, all),
        !(event is Response),
    ensures
        on_course(spec_step(s, event).0, actions.push(spec_step(s, event).1), all),
{
    let (after, action) = spec_step(s, event);
    let answered = actions.push(action);
    assert(answered.drop_last() =~= actions);
    if after.phase is Stopped {
        assert(action is Stop);
        assert(sent_messages(answered) == sent_messages(actions));
        if !(s.phase is Stopped) && !(s.phase is Streaming) {
            assert(sent_messages(actions) =~= all.subrange(0, sent_messages(actions).len() as int));
        }
    } else {
        match (s.phase, event) {
            (PhaseView::Emitting, EventView::Sent) => {
                advance_stays_on_course(s, actions, all);
            },
            (PhaseView::QueryingMembers(_), EventView::MembersChecked(members)) => {
                if members == MemberSync::Incomplete {
                } else {
                    advance_stays_on_course(s, actions, all);
                }
            },
            (PhaseView::StartingFetch, EventView::FetchStarted) => {
                advance_stays_on_course(s, actions, all);
            },
            _ => {},
        }
    }
}

/// The messages of a response go out in the server's order, none twice and
/// none left out.
///
/// Take a loop that is polling, the response that arrives, and whatever the
/// caller reports afterwards, short of a further response. Then what the loop
/// sends is a beginning of the messages of the response, and it is all of
/// them once the loop is polling again.
pub proof fn response_sent_in_order<P: Protocol>(
    s: LoopView<P>,
    rooms: Seq<RoomView<P>>,
    replies: Seq<EventView<P>>,
)
    requires
        s.phase is Streaming,
        s.pending.len() == 0,
        forall|i: int| 0 <= i < replies.len() ==> !(#[trigger] replies[i] is Response),
    ensures
        sent_messages(run(s, seq![EventView::Response(rooms)] + replies).1).is_prefix_of(
            response_messages(rooms),
        ),
        run(s, seq![EventView::Response(rooms)] + replies).0.phase is Streaming ==> sent_messages(
            run(s, seq![EventView::Response(rooms)] + replies).1,
        ) == response_messages(rooms),
{
    response_run_on_course(s, rooms, replies);
    let (end, actions) = run(s, seq![EventView::Response(rooms)] + replies);
    let all = response_messages(rooms);
    if !(end.phase is Stopped) && !(end.phase is Streaming) {
        assert(sent_messages(actions) =~= all.subrange(0, sent_messages(actions).len() as int));
    }
}

/// The messages of a response reach the handlers of the server object in
/// the server's order.
///
/// Take a loop that is polling, a response, and the caller's reports as in
/// [`response_sent_in_order`]. Let the loop's messages go through a channel
/// that was empty, with receives in between as they come, and let a running
/// receiver take what the channel hands out. Then the receiver calls one
/// handler per message received, the message's own, in the order of the
/// response; and once the loop is polling again and the channel is empty,
/// every message of the response has had its call.
pub proof fn response_applied_in_order<P: Protocol>(
    s: LoopView<P>,
    rooms: Seq<RoomView<P>>,
    replies: Seq<EventView<P>>,
    capacity: nat,
    ops: Seq<Operation<MessageView<P>>>,
)
    requires
        s.phase is Streaming,
        s.pending.len() == 0,
        forall|i: int| 0 <= i < replies.len() ==> !(#[trigger] replies[i] is Response),
        ChannelView::<MessageView<P>>::new(capacity).admits_all(ops),
        sent(ops) == sent_messages(run(s, seq![EventView::Response(rooms)] + replies).1),
    ensures
        ({
            let got = ChannelView::<MessageView<P>>::new(capacity).received(ops);
            let left = ChannelView::<MessageView<P>>::new(capacity).apply_all(ops).queue;
            let (running, calls) = receive_all(true, deliveries_of(got));
            &&& running
            &&& got.is_prefix_of(response_messages(rooms))
            &&& calls.len() == got.len()
            &&& forall|i: int|
                0 <= i < got.len() ==> #[trigger] calls[i] == Some(
                    handler_for(response_messages(rooms)[i]),
                )
            &&& run(s, seq![EventView::Response(rooms)] + replies).0.phase is Streaming
                && left.len() == 0 ==> got == response_messages(rooms)
        }),
{
    let channel = ChannelView::<MessageView<P>>::new(capacity);
    let got = channel.received(ops);
    response_sent_in_order(s, rooms, replies);
    received_in_order_sent(capacity, ops);
    messages_applied_in_order(got);
    if channel.apply_all(ops).queue.len() == 0 {
        all_sent_is_received(capacity, ops);
    }
}

proof fn response_run_on_course<P: Protocol>(
    s: LoopView<P>,
    rooms: Seq<RoomView<P>>,
    replies: Seq<EventView<P>>,
)
    requires
        s.phase is Streaming,
        s.pending.len() == 0,
        forall|i: int| 0 <= i < replies.len() ==> !(#[trigger] replies[i] is Response),
    ensures
        on_course(
            run(s, seq![EventView::Response(rooms)] + replies).0,
            run(s, seq![EventView::Response(rooms)] + replies).1,
            response_messages(rooms),
        ),
    decreases replies.len(),
{
    let events = seq![EventView::Response(rooms)] + replies;
    let all = response_messages(rooms);
    if replies.len() == 0 {
        assert(events.drop_last() =~= Seq::<EventView<P>>::empty());
        assert(events.last() == EventView::Response(rooms));
        let filled = LoopView { pending: s.pending + response_steps(rooms), ..s };
        assert(filled.pending =~= response_steps(rooms));
        steps_send_response(rooms);
        let none = Seq::<ActionView<P>>::empty();
        assert(run(s, Seq::<EventView<P>>::empty()) == (s, none));
        assert(sent_messages(none) =~= Seq::<MessageView<P>>::empty());
        assert(sent_messages(none) + step_messages(filled.pending) =~= all);
        advance_stays_on_course(filled, none, all);
    } else {
        response_run_on_course(s, rooms, replies.drop_last());
        assert(events.drop_last() =~= seq![EventView::Response(rooms)] + replies.drop_last());
        assert(events.last() == replies.last());
        let (before, actions) = run(s, events.drop_last());
        step_stays_on_course(before, actions, all, replies.last());
    }
}

/// Once the loop has stopped it stays stopped: it answers every event with
/// `Stop` and sends nothing more.
pub proof fn stopped_stays_stopped<P: Protocol>(s: LoopView<P>, events: Seq<EventView<P>>)
    requires
        s.phase is Stopped,
    ensures
        run(s, events).0.phase is Stopped,
        run(s, events).1.len() == events.len(),
        forall|i: int| 0 <= i < events.len() ==> (#[trigger] run(s, events).1[i]) is Stop,
        sent_messages(run(s, events).1) == Seq::<MessageView<P>>::empty(),
    decreases events.len(),
{
    if events.len() > 0 {
        stopped_stays_stopped(s, events.drop_last());
        let (before, actions) = run(s, events.drop_last());
        let answered = run(s, events).1;
        assert(answered.drop_last() =~= actions);
    }
}

/// A fatal error is the last thing that the loop sends: after the action
/// that sends it, the loop answers the next event, whatever it is, by
/// stopping, and every later one with `Stop`.
pub proof fn error_ends_loop<P: Protocol>(
    s: LoopView<P>,
    event: EventView<P>,
    later: Seq<EventView<P>>,
)
    requires
        spec_step(s, event).1 is SendError,
    ensures
        spec_step(s, event).0.phase is Failing,
        run(spec_step(s, event).0, later).1.len() == later.len(),
        forall|i: int|
            0 <= i < later.len() ==> (#[trigger] run(spec_step(s, event).0, later).1[i]) is Stop,
        later.len() > 0 ==> run(spec_step(s, event).0, later).0.phase is Stopped,
    decreases later.len(),
{
    if later.len() > 0 {
        error_ends_loop(s, event, later.drop_last());
    }
}

/// A device id that cannot be saved ends the loop with one error and no
/// login: the loop sends the error that names the server and the failure,
/// and answers everything after it with `Stop`.
pub proof fn failed_save_ends_loop<P: Protocol>(
    s: LoopView<P>,
    detail: Seq<char>,
    later: Seq<EventView<P>>,
)
    requires
        s.phase is SavingDeviceId,
    ensures
        spec_step(s, EventView::DeviceIdNotSaved(detail)).1 == ActionView::<P>::SendError(
            write_error_text(s.server_name, detail),
        ),
        forall|i: int|
            0 <= i < later.len() ==> (#[trigger] run(
                spec_step(s, EventView::DeviceIdNotSaved(detail)).0,
                later,
            ).1[i]) is Stop,
{
    error_ends_loop(s, EventView::DeviceIdNotSaved(detail), later);
}

/// Whether a run from the start is sound so far: the pending steps come
/// from responses, and a login was announced at most once, and not at all
/// while the loop has yet to hear that the device id was saved.
spec fn announced_soundly<P: Protocol>(s: LoopView<P>, actions: Seq<ActionView<P>>) -> bool {
    &&& pending_from_response(s)
    &&& login_announcements(actions) <= 1
    &&& before_announcement(s.phase) ==> login_announcements(actions) == 0
}

proof fn response_steps_from_response<P: Protocol>(rooms: Seq<RoomView<P>>)
    ensures
        forall|i: int|
            0 <= i < response_steps(rooms).len() ==> match #[trigger] response_steps(rooms)[i] {
                StepView::Send(message) => message is SyncState || message is SyncEvent,
                StepView::CheckMembers(_) => true,
            },
    decreases rooms.len(),
{
    if rooms.len() > 0 {
        response_steps_from_response(rooms.drop_last());
    }
}

proof fn step_announces_soundly<P: Protocol>(
    s: LoopView<P>,
    actions: Seq<ActionView<P>>,
    event: EventView<P>,
)
    requires
        announced_soundly(s, actions),
    ensures
        announced_soundly(spec_step(s, event).0, actions.push(spec_step(s, event).1)),
{
    let (after, action) = spec_step(s, event);
    let answered = actions.push(action);
    assert(answered.drop_last() =~= actions);
    if let EventView::Response(rooms) = event {
        response_steps_from_response(rooms);
    }
    if action matches ActionView::SendMessage(MessageView::LoginMessage(_)) {
        assert(s.phase is SavingDeviceId);
    }
}

/// Whatever the caller reports, the loop announces a login at most once.
pub proof fn login_announced_at_most_once<P: Protocol>(
    username: Seq<char>,
    password: Seq<char>,
    server_name: Seq<char>,
    events: Seq<EventView<P>>,
)
    ensures
        login_announcements(run(initial::<P>(username, password, server_name), events).1) <= 1,
{
    run_announces_soundly::<P>(username, password, server_name, events);
}

proof fn run_announces_soundly<P: Protocol>(
    username: Seq<char>,
    password: Seq<char>,
    server_name: Seq<char>,
    events: Seq<EventView<P>>,
)
    ensures
        announced_soundly(
            run(initial::<P>(username, password, server_name), events).0,
            run(initial::<P>(username, password, server_name), events).1,
        ),
    decreases events.len(),
{
    let start = initial::<P>(username, password, server_name);
    if events.len() > 0 {
        run_announces_soundly::<P>(username, password, server_name, events.drop_last());
        let (before, actions) = run(start, events.drop_last());
        step_announces_soundly(before, actions, events.last());
    }
}

/// The loop announces a login only when it hears that the device id was
/// saved, and the login it announces is the one that the server returned.
pub proof fn login_announced_after_save<P: Protocol>(
    s: LoopView<P>,
    event: EventView<P>,
    login: P::Login,
)
    requires
        pending_from_response(s),
        spec_step(s, event).1 == ActionView::<P>::SendMessage(MessageView::LoginMessage(login)),
    ensures
        s.phase == PhaseView::<P>::SavingDeviceId(login),
        event is DeviceIdSaved,
{
    if let EventView::Response(rooms) = event {
        response_steps_from_response(rooms);
        let filled = s.pending + response_steps(rooms);
        if filled.len() > 0 {
            if s.pending.len() > 0 {
                assert(filled[0] == s.pending[0]);
            } else {
                assert(filled[0] == response_steps(rooms)[0]);
            }
        }
    }
    if s.pending.len() > 0 {
        assert(s.pending[0] is CheckMembers || s.pending[0] is Send);
    }
}

} // verus!
