//! The sync loop: logging in, negotiating the sync filter, and turning every
//! long-poll response into messages for the response receiver.
//!
//! The loop is a state machine. It names the next thing to do as a
//! [`LoopAction`]; the caller does it on the network side and reports what
//! came of it as a [`LoopEvent`]. The machine never waits and never fails: an
//! event that it did not ask for stops it.
use std::collections::VecDeque;
use vstd::prelude::*;
use vstd::string::StringExecFns;
use crate::device_id::{
    file_name, load_device_id, save_device_id, spec_file_name, spec_load, spec_save, ReadOutcome,
    ReadView, WriteRequest, WriteView,
};
use crate::message::{ClientMessage, MessageView, Protocol};

verus! {

/// The seconds that the server may hold one long-poll request open.
pub const DEFAULT_SYNC_TIMEOUT: u64 = 30;

/// The number of state events that the sync filter asks for per room.
pub const STATE_EVENT_LIMIT: u16 = 10;

/// The display name that a login gives to a new device.
pub open spec fn device_display_name() -> Seq<char> {
    "Weechat-Matrix-rs"@
}

/// The name under which the sync filter is stored.
pub open spec fn filter_name() -> Seq<char> {
    "sync"@
}

/// Whether room members are loaded lazily, and if so, whether members that
/// the client has seen already are sent again.
#[derive(Clone, Copy, Debug, PartialEq, Eq, Structural)]
pub enum LazyLoad {
    Disabled,
    Enabled { include_redundant_members: bool },
}

/// The filter that the sync loop negotiates with the server. It concerns the
/// state events of rooms; everything else is left at the server's default.
#[derive(Clone, Copy, Debug, PartialEq, Eq, Structural)]
pub struct SyncFilter {
    /// How the members of a room are loaded.
    pub lazy_load: LazyLoad,
    /// The largest number of state events per room, if it is limited.
    pub limit: Option<u16>,
}

/// The sync filter: members are loaded lazily and not repeated, and a room
/// sends at most [`STATE_EVENT_LIMIT`] state events.
pub open spec fn spec_sync_filter() -> SyncFilter {
    SyncFilter {
        lazy_load: LazyLoad::Enabled { include_redundant_members: false },
        limit: Some(STATE_EVENT_LIMIT),
    }
}

/// The filter that the sync loop asks the server to apply.
pub fn sync_filter() -> (filter: SyncFilter)
    ensures
        filter == spec_sync_filter(),
{
    SyncFilter {
        lazy_load: LazyLoad::Enabled { include_redundant_members: false },
        limit: Some(STATE_EVENT_LIMIT),
    }
}

/// What one long-poll response holds for one joined room, in the order in
/// which the server gave it.
pub struct JoinedRoom<P: Protocol> {
    pub room_id: String,
    pub state: Vec<P::StateEvent>,
    pub timeline: Vec<P::TimelineEvent>,
}

/// The mathematical value of a [`JoinedRoom`].
pub ghost struct RoomView<P: Protocol> {
    pub room_id: Seq<char>,
    pub state: Seq<P::StateEvent>,
    pub timeline: Seq<P::TimelineEvent>,
}

impl<P: Protocol> View for JoinedRoom<P> {
    type V = RoomView<P>;

    open spec fn view(&self) -> RoomView<P> {
        RoomView { room_id: self.room_id@, state: self.state@, timeline: self.timeline@ }
    }
}

/// The values of the rooms of a response, in order.
pub open spec fn rooms_view<P: Protocol>(rooms: Seq<JoinedRoom<P>>) -> Seq<RoomView<P>> {
    Seq::new(rooms.len(), |i: int| rooms[i]@)
}

/// What the client knows of the members of a room.
#[derive(Clone, Copy, Debug, PartialEq, Eq, Structural)]
pub enum MemberSync {
    /// The client does not know the room as a joined room.
    UnknownRoom,
    /// The client holds the full member list.
    Synced,
    /// The client holds only part of the member list.
    Incomplete,
}

/// One thing that a response makes the loop do.
pub enum Step<P: Protocol> {
    /// Send the message to the response receiver.
    Send(ClientMessage<P>),
    /// Find out whether the members of the room need fetching.
    CheckMembers(String),
}

/// The mathematical value of a [`Step`].
pub ghost enum StepView<P: Protocol> {
    Send(MessageView<P>),
    CheckMembers(Seq<char>),
}

impl<P: Protocol> View for Step<P> {
    type V = StepView<P>;

    open spec fn view(&self) -> StepView<P> {
        match self {
            Step::Send(message) => StepView::Send(message@),
            Step::CheckMembers(room) => StepView::CheckMembers(room@),
        }
    }
}

/// The values of a queue of steps, in order.
pub open spec fn steps_view<P: Protocol>(steps: Seq<Step<P>>) -> Seq<StepView<P>> {
    Seq::new(steps.len(), |i: int| steps[i]@)
}

/// The state events of a room as messages, in the server's order.
pub open spec fn state_messages<P: Protocol>(room: RoomView<P>) -> Seq<MessageView<P>> {
    Seq::new(room.state.len(), |i: int| MessageView::SyncState(room.room_id, room.state[i]))
}

/// The timeline events of a room as messages, in the server's order.
pub open spec fn timeline_messages<P: Protocol>(room: RoomView<P>) -> Seq<MessageView<P>> {
    Seq::new(
        room.timeline.len(),
        |i: int| MessageView::SyncEvent(room.room_id, room.timeline[i]),
    )
}

/// The messages that a room of a response gives rise to: one per state
/// event, then one per timeline event.
pub open spec fn room_messages<P: Protocol>(room: RoomView<P>) -> Seq<MessageView<P>> {
    state_messages(room) + timeline_messages(room)
}

/// The steps that send the given messages, in order.
pub open spec fn send_steps<P: Protocol>(messages: Seq<MessageView<P>>) -> Seq<StepView<P>> {
    Seq::new(messages.len(), |i: int| StepView::Send(messages[i]))
}

/// The steps for one room of a response: its messages, then the check of its
/// member list.
pub open spec fn room_steps<P: Protocol>(room: RoomView<P>) -> Seq<StepView<P>> {
    send_steps(room_messages(room)).push(StepView::CheckMembers(room.room_id))
}

/// The steps for a whole response: those of its rooms, room after room.
pub open spec fn response_steps<P: Protocol>(rooms: Seq<RoomView<P>>) -> Seq<StepView<P>>
    decreases rooms.len(),
{
    if rooms.len() == 0 {
        Seq::empty()
    } else {
        response_steps(rooms.drop_last()) + room_steps(rooms.last())
    }
}

/// Puts the steps for one room at the end of the queue.
fn enqueue_room<P: Protocol>(pending: &mut VecDeque<Step<P>>, room: JoinedRoom<P>)
    ensures
        steps_view(final(pending)@) == steps_view(old(pending)@) + room_steps(room@),
{
    let ghost before = steps_view(pending@);
    let ghost value = room@;
    let JoinedRoom { room_id, state, timeline } = room;
    let ghost state_events = state@;
    let ghost timeline_events = timeline@;
    assert(steps_view(pending@) =~= before + send_steps(state_messages(value).take(0)));
    for event in it: state
        invariant
            it.seq() == state_events,
            value.room_id == room_id@,
            value.state == state_events,
            steps_view(pending@) == before + send_steps(
                state_messages(value).take(it.index()),
            ),
    {
        let ghost done = it.index();
        let ghost queued = pending@;
        pending.push_back(Step::Send(ClientMessage::SyncState(room_id.clone(), event)));
        assert(steps_view(pending@) =~= steps_view(queued).push(
            StepView::Send(state_messages(value)[done]),
        ));
        assert(send_steps(state_messages(value).take(done + 1)) =~= send_steps(
            state_messages(value).take(done),
        ).push(StepView::Send(state_messages(value)[done])));
    }
    assert(state_messages(value).take(state_events.len() as int) =~= state_messages(value));
    let ghost middle = steps_view(pending@);
    assert(steps_view(pending@) =~= middle + send_steps(timeline_messages(value).take(0)));
    for event in it: timeline
        invariant
            it.seq() == timeline_events,
            value.room_id == room_id@,
            value.timeline == timeline_events,
            steps_view(pending@) == middle + send_steps(
                timeline_messages(value).take(it.index()),
            ),
    {
        let ghost done = it.index();
        let ghost queued = pending@;
        pending.push_back(Step::Send(ClientMessage::SyncEvent(room_id.clone(), event)));
        assert(steps_view(pending@) =~= steps_view(queued).push(
            StepView::Send(timeline_messages(value)[done]),
        ));
        assert(send_steps(timeline_messages(value).take(done + 1)) =~= send_steps(
            timeline_messages(value).take(done),
        ).push(StepView::Send(timeline_messages(value)[done])));
    }
    assert(timeline_messages(value).take(timeline_events.len() as int) =~= timeline_messages(
        value,
    ));
    let ghost queued = pending@;
    pending.push_back(Step::CheckMembers(room_id));
    assert(steps_view(pending@) =~= steps_view(queued).push(StepView::CheckMembers(value.room_id)));
    assert(send_steps(room_messages(value)) =~= send_steps(state_messages(value)) + send_steps(
        timeline_messages(value),
    ));
    assert(steps_view(pending@) =~= before + room_steps(value));
}

/// Puts the steps for a response at the end of the queue.
fn enqueue_response<P: Protocol>(pending: &mut VecDeque<Step<P>>, rooms: Vec<JoinedRoom<P>>)
    ensures
        steps_view(final(pending)@) == steps_view(old(pending)@) + response_steps(
            rooms_view(rooms@),
        ),
{
    let ghost before = steps_view(pending@);
    let ghost all = rooms_view(rooms@);
    let ghost given = rooms@;
    assert(all.take(0) =~= Seq::<RoomView<P>>::empty());
    for room in it: rooms
        invariant
            it.seq() == given,
            all == rooms_view(given),
            steps_view(pending@) == before + response_steps(all.take(it.index())),
    {
        let ghost done = it.index();
        assert(all.take(done + 1).drop_last() =~= all.take(done));
        assert(all.take(done + 1).last() == room@);
        enqueue_room(pending, room);
        assert(steps_view(pending@) =~= before + response_steps(all.take(done + 1)));
    }
    assert(all.take(all.len() as int) =~= all);
}

/// What the caller reports back to the loop.
pub enum LoopEvent<P: Protocol> {
    /// The loop was put on the network side and may begin.
    Started,
    /// The client was asked whether it holds a session: `true` if it does.
    SessionChecked(bool),
    /// The user's device id file was read, with this outcome.
    DeviceIdRead(ReadOutcome),
    /// The server accepted the login and issued or confirmed the device id.
    LoggedIn { device_id: String, response: P::Login },
    /// The login failed; the text describes the failure.
    LoginFailed(String),
    /// The device id was written to the user's file.
    DeviceIdSaved,
    /// Writing the device id failed; the text describes the failure.
    DeviceIdNotSaved(String),
    /// The message was put into the channel to the response receiver.
    Sent,
    /// The message could not be sent: the response receiver is gone.
    ChannelClosed,
    /// The server holds the sync filter under this id.
    FilterReady(String),
    /// The sync filter could not be had; the text describes the failure.
    FilterFailed(String),
    /// The stored resumption token was looked up.
    TokenLoaded(Option<String>),
    /// A long-poll request returned with these joined rooms.
    Response(Vec<JoinedRoom<P>>),
    /// The client was asked what it knows of the members of the room.
    MembersChecked(MemberSync),
    /// The fetch of the room's members was started on a task of its own.
    FetchStarted,
}

/// The mathematical value of a [`LoopEvent`].
pub ghost enum EventView<P: Protocol> {
    Started,
    SessionChecked(bool),
    DeviceIdRead(ReadView),
    LoggedIn { device_id: Seq<char>, response: P::Login },
    LoginFailed(Seq<char>),
    DeviceIdSaved,
    DeviceIdNotSaved(Seq<char>),
    Sent,
    ChannelClosed,
    FilterReady(Seq<char>),
    FilterFailed(Seq<char>),
    TokenLoaded(Option<Seq<char>>),
    Response(Seq<RoomView<P>>),
    MembersChecked(MemberSync),
    FetchStarted,
}

/// The value of a text that may be absent.
pub open spec fn text_view(text: Option<String>) -> Option<Seq<char>> {
    match text {
        Some(t) => Some(t@),
        None => None,
    }
}

impl<P: Protocol> View for LoopEvent<P> {
    type V = EventView<P>;

    open spec fn view(&self) -> EventView<P> {
        match self {
            LoopEvent::Started => EventView::Started,
            LoopEvent::SessionChecked(logged_in) => EventView::SessionChecked(*logged_in),
            LoopEvent::DeviceIdRead(outcome) => EventView::DeviceIdRead(outcome@),
            LoopEvent::LoggedIn { device_id, response } => EventView::LoggedIn {
                device_id: device_id@,
                response: *response,
            },
            LoopEvent::LoginFailed(detail) => EventView::LoginFailed(detail@),
            LoopEvent::DeviceIdSaved => EventView::DeviceIdSaved,
            LoopEvent::DeviceIdNotSaved(detail) => EventView::DeviceIdNotSaved(detail@),
            LoopEvent::Sent => EventView::Sent,
            LoopEvent::ChannelClosed => EventView::ChannelClosed,
            LoopEvent::FilterReady(id) => EventView::FilterReady(id@),
            LoopEvent::FilterFailed(detail) => EventView::FilterFailed(detail@),
            LoopEvent::TokenLoaded(token) => EventView::TokenLoaded(text_view(*token)),
            LoopEvent::Response(rooms) => EventView::Response(rooms_view(rooms@)),
            LoopEvent::MembersChecked(members) => EventView::MembersChecked(*members),
            LoopEvent::FetchStarted => EventView::FetchStarted,
        }
    }
}

/// What the loop asks the caller to do next.
pub enum LoopAction<P: Protocol> {
    /// Ask the client whether it holds a session already.
    CheckSession,
    /// Read the named file from the server's storage directory.
    LoadDeviceId { file_name: String },
    /// Log in with these credentials.
    Login { username: String, password: String, device_id: Option<String>, display_name: String },
    /// Write the device id file.
    SaveDeviceId(WriteRequest),
    /// Send the message to the response receiver.
    SendMessage(ClientMessage<P>),
    /// Send the error to the response receiver; it ends the loop.
    SendError(String),
    /// Upload the filter under the name, or look up the id it has already.
    NegotiateFilter { name: String, filter: SyncFilter },
    /// Look up the resumption token of an earlier sync.
    LoadSyncToken,
    /// Begin to long-poll with these settings, and report every response.
    Sync { timeout: u64, filter_id: String, token: Option<String> },
    /// The response is dealt with: go on polling.
    AwaitResponse,
    /// Ask the client what it knows of the members of the room.
    QueryMembers(String),
    /// Fetch the members of the room on a task of its own.
    FetchMembers(String),
    /// The loop has ended.
    Stop,
}

/// The mathematical value of a [`LoopAction`].
pub ghost enum ActionView<P: Protocol> {
    CheckSession,
    LoadDeviceId { file_name: Seq<char> },
    Login {
        username: Seq<char>,
        password: Seq<char>,
        device_id: Option<Seq<char>>,
        display_name: Seq<char>,
    },
    SaveDeviceId(WriteView),
    SendMessage(MessageView<P>),
    SendError(Seq<char>),
    NegotiateFilter { name: Seq<char>, filter: SyncFilter },
    LoadSyncToken,
    Sync { timeout: u64, filter_id: Seq<char>, token: Option<Seq<char>> },
    AwaitResponse,
    QueryMembers(Seq<char>),
    FetchMembers(Seq<char>),
    Stop,
}

impl<P: Protocol> View for LoopAction<P> {
    type V = ActionView<P>;

    open spec fn view(&self) -> ActionView<P> {
        match self {
            LoopAction::CheckSession => ActionView::CheckSession,
            LoopAction::LoadDeviceId { file_name } => ActionView::LoadDeviceId {
                file_name: file_name@,
            },
            LoopAction::Login { username, password, device_id, display_name } => ActionView::Login {
                username: username@,
                password: password@,
                device_id: text_view(*device_id),
                display_name: display_name@,
            },
            LoopAction::SaveDeviceId(request) => ActionView::SaveDeviceId(request@),
            LoopAction::SendMessage(message) => ActionView::SendMessage(message@),
            LoopAction::SendError(text) => ActionView::SendError(text@),
            LoopAction::NegotiateFilter { name, filter } => ActionView::NegotiateFilter {
                name: name@,
                filter: *filter,
            },
            LoopAction::LoadSyncToken => ActionView::LoadSyncToken,
            LoopAction::Sync { timeout, filter_id, token } => ActionView::Sync {
                timeout: *timeout,
                filter_id: filter_id@,
                token: text_view(*token),
            },
            LoopAction::AwaitResponse => ActionView::AwaitResponse,
            LoopAction::QueryMembers(room) => ActionView::QueryMembers(room@),
            LoopAction::FetchMembers(room) => ActionView::FetchMembers(room@),
            LoopAction::Stop => ActionView::Stop,
        }
    }
}

/// Where the loop stands: what it has asked for and is waiting to hear of.
pub enum Phase<P: Protocol> {
    /// Not started yet.
    Created,
    /// Asked whether the client holds a session.
    CheckingSession,
    /// Asked for the stored device id.
    LoadingDeviceId,
    /// Asked for a login.
    LoggingIn,
    /// Asked for the device id to be written; holds the login to announce.
    SavingDeviceId(P::Login),
    /// Asked for the login to be announced to the response receiver.
    AnnouncingLogin,
    /// Asked for a fatal error to be sent to the response receiver.
    Failing,
    /// Asked for the sync filter.
    NegotiatingFilter,
    /// Asked for the resumption token; holds the filter id.
    LoadingToken(String),
    /// Polling: waiting for the next response.
    Streaming,
    /// Asked for a message of the current response to be sent.
    Emitting,
    /// Asked what the client knows of the members of the room.
    QueryingMembers(String),
    /// Asked for a member fetch to be started.
    StartingFetch,
    /// Ended. The loop never leaves this phase.
    Stopped,
}

/// The mathematical value of a [`Phase`].
pub ghost enum PhaseView<P: Protocol> {
    Created,
    CheckingSession,
    LoadingDeviceId,
    LoggingIn,
    SavingDeviceId(P::Login),
    AnnouncingLogin,
    Failing,
    NegotiatingFilter,
    LoadingToken(Seq<char>),
    Streaming,
    Emitting,
    QueryingMembers(Seq<char>),
    StartingFetch,
    Stopped,
}

impl<P: Protocol> View for Phase<P> {
    type V = PhaseView<P>;

    open spec fn view(&self) -> PhaseView<P> {
        match self {
            Phase::Created => PhaseView::Created,
            Phase::CheckingSession => PhaseView::CheckingSession,
            Phase::LoadingDeviceId => PhaseView::LoadingDeviceId,
            Phase::LoggingIn => PhaseView::LoggingIn,
            Phase::SavingDeviceId(login) => PhaseView::SavingDeviceId(*login),
            Phase::AnnouncingLogin => PhaseView::AnnouncingLogin,
            Phase::Failing => PhaseView::Failing,
            Phase::NegotiatingFilter => PhaseView::NegotiatingFilter,
            Phase::LoadingToken(filter_id) => PhaseView::LoadingToken(filter_id@),
            Phase::Streaming => PhaseView::Streaming,
            Phase::Emitting => PhaseView::Emitting,
            Phase::QueryingMembers(room) => PhaseView::QueryingMembers(room@),
            Phase::StartingFetch => PhaseView::StartingFetch,
            Phase::Stopped => PhaseView::Stopped,
        }
    }
}

/// The sync loop of one connection.
pub struct SyncLoop<P: Protocol> {
    username: String,
    password: String,
    server_name: String,
    phase: Phase<P>,
    pending: VecDeque<Step<P>>,
}

/// The mathematical value of a [`SyncLoop`]: the settings it was made with,
/// its phase, and the steps of the current response that are still to do.
pub ghost struct LoopView<P: Protocol> {
    pub username: Seq<char>,
    pub password: Seq<char>,
    pub server_name: Seq<char>,
    pub phase: PhaseView<P>,
    pub pending: Seq<StepView<P>>,
}

impl<P: Protocol> View for SyncLoop<P> {
    type V = LoopView<P>;

    closed spec fn view(&self) -> LoopView<P> {
        LoopView {
            username: self.username@,
            password: self.password@,
            server_name: self.server_name@,
            phase: self.phase@,
            pending: steps_view(self.pending@),
        }
    }
}

/// The error that reports a failed read of the device id file.
pub open spec fn read_error_text(server_name: Seq<char>, detail: Seq<char>) -> Seq<char> {
    "Error while reading the device id for server "@ + server_name + ": "@ + detail
}

/// The error that reports a failed write of the device id file.
pub open spec fn write_error_text(server_name: Seq<char>, detail: Seq<char>) -> Seq<char> {
    "Error while writing the device id for server "@ + server_name + ": "@ + detail
}

/// The error that reports a failed login.
pub open spec fn login_error_text(server_name: Seq<char>, detail: Seq<char>) -> Seq<char> {
    "Error while logging in to server "@ + server_name + ": "@ + detail
}

/// The error that reports a failed negotiation of the sync filter.
pub open spec fn filter_error_text(server_name: Seq<char>, detail: Seq<char>) -> Seq<char> {
    "Error while negotiating the sync filter for server "@ + server_name + ": "@ + detail
}

/// The loop as it is before it starts.
pub open spec fn initial<P: Protocol>(
    username: Seq<char>,
    password: Seq<char>,
    server_name: Seq<char>,
) -> LoopView<P> {
    LoopView { username, password, server_name, phase: PhaseView::Created, pending: Seq::empty() }
}

/// The loop after it has ended: nothing is left to do.
pub open spec fn stopped<P: Protocol>(s: LoopView<P>) -> (LoopView<P>, ActionView<P>) {
    (LoopView { phase: PhaseView::Stopped, pending: Seq::empty(), ..s }, ActionView::Stop)
}

/// The loop after it has sent a fatal error on its way.
pub open spec fn failing<P: Protocol>(s: LoopView<P>, text: Seq<char>) -> (
    LoopView<P>,
    ActionView<P>,
) {
    (LoopView { phase: PhaseView::Failing, ..s }, ActionView::SendError(text))
}

/// The loop as it asks for the sync filter.
pub open spec fn negotiating<P: Protocol>(s: LoopView<P>) -> (LoopView<P>, ActionView<P>) {
    (
        LoopView { phase: PhaseView::NegotiatingFilter, ..s },
        ActionView::NegotiateFilter { name: filter_name(), filter: spec_sync_filter() },
    )
}

/// The loop as it takes up the next step of the current response: the first
/// of the pending steps, or polling on if none is left.
pub open spec fn advance<P: Protocol>(s: LoopView<P>) -> (LoopView<P>, ActionView<P>) {
    if s.pending.len() == 0 {
        (LoopView { phase: PhaseView::Streaming, ..s }, ActionView::AwaitResponse)
    } else {
        match s.pending[0] {
            StepView::Send(message) => (
                LoopView { phase: PhaseView::Emitting, pending: s.pending.drop_first(), ..s },
                ActionView::SendMessage(message),
            ),
            StepView::CheckMembers(room) => (
                LoopView {
                    phase: PhaseView::QueryingMembers(room),
                    pending: s.pending.drop_first(),
                    ..s
                },
                ActionView::QueryMembers(room),
            ),
        }
    }
}

/// One turn of the loop: the state after the event, and the next action.
///
/// Each phase waits for the outcome of the action that led to it. Any other
/// event stops the loop.
pub open spec fn spec_step<P: Protocol>(s: LoopView<P>, event: EventView<P>) -> (
    LoopView<P>,
    ActionView<P>,
) {
    match (s.phase, event) {
        (PhaseView::Created, EventView::Started) => (
            LoopView { phase: PhaseView::CheckingSession, ..s },
            ActionView::CheckSession,
        ),
        (PhaseView::CheckingSession, EventView::SessionChecked(logged_in)) => if logged_in {
            negotiating(s)
        } else {
            (
                LoopView { phase: PhaseView::LoadingDeviceId, ..s },
                ActionView::LoadDeviceId { file_name: spec_file_name(s.username) },
            )
        },
        (PhaseView::LoadingDeviceId, EventView::DeviceIdRead(outcome)) => match spec_load(
            outcome,
        ) {
            Ok(device_id) => (
                LoopView { phase: PhaseView::LoggingIn, ..s },
                ActionView::Login {
                    username: s.username,
                    password: s.password,
                    device_id,
                    display_name: device_display_name(),
                },
            ),
            Err(detail) => failing(s, read_error_text(s.server_name, detail)),
        },
        (PhaseView::LoggingIn, EventView::LoggedIn { device_id, response }) => (
            LoopView { phase: PhaseView::SavingDeviceId(response), ..s },
            ActionView::SaveDeviceId(spec_save(s.username, device_id)),
        ),
        (PhaseView::LoggingIn, EventView::LoginFailed(detail)) => failing(
            s,
            login_error_text(s.server_name, detail),
        ),
        (PhaseView::SavingDeviceId(login), EventView::DeviceIdSaved) => (
            LoopView { phase: PhaseView::AnnouncingLogin, ..s },
            ActionView::SendMessage(MessageView::LoginMessage(login)),
        ),
        (PhaseView::SavingDeviceId(_), EventView::DeviceIdNotSaved(detail)) => failing(
            s,
            write_error_text(s.server_name, detail),
        ),
        (PhaseView::AnnouncingLogin, EventView::Sent) => negotiating(s),
        (PhaseView::Failing, EventView::Sent) => stopped(s),
        (PhaseView::NegotiatingFilter, EventView::FilterReady(filter_id)) => (
            LoopView { phase: PhaseView::LoadingToken(filter_id), ..s },
            ActionView::LoadSyncToken,
        ),
        (PhaseView::NegotiatingFilter, EventView::FilterFailed(detail)) => failing(
            s,
            filter_error_text(s.server_name, detail),
        ),
        (PhaseView::LoadingToken(filter_id), EventView::TokenLoaded(token)) => (
            LoopView { phase: PhaseView::Streaming, ..s },
            ActionView::Sync { timeout: DEFAULT_SYNC_TIMEOUT, filter_id, token },
        ),
        (PhaseView::Streaming, EventView::Response(rooms)) => advance(
            LoopView { pending: s.pending + response_steps(rooms), ..s },
        ),
        (PhaseView::Emitting, EventView::Sent) => advance(s),
        (PhaseView::QueryingMembers(room), EventView::MembersChecked(members)) => if members
            == MemberSync::Incomplete {
            (LoopView { phase: PhaseView::StartingFetch, ..s }, ActionView::FetchMembers(room))
        } else {
            advance(s)
        },
        (PhaseView::StartingFetch, EventView::FetchStarted) => advance(s),
        _ => stopped(s),
    }
}

/// The text `prefix`, `server_name`, a colon with a space, and `detail`.
fn server_error(prefix: &str, server_name: &str, detail: &str) -> (text: String)
    ensures
        text@ == prefix@ + server_name@ + ": "@ + detail@,
{
    let mut text = prefix.to_owned();
    text.append(server_name);
    text.append(": ");
    text.append(detail);
    text
}

impl<P: Protocol> SyncLoop<P> {
    /// The sync loop for the given account on the named server, before it
    /// starts.
    pub fn new(username: String, password: String, server_name: String) -> (machine: Self)
        ensures
            machine@ == initial::<P>(username@, password@, server_name@),
    {
        let machine = SyncLoop {
            username,
            password,
            server_name,
            phase: Phase::Created,
            pending: VecDeque::new(),
        };
        assert(steps_view(machine.pending@) =~= Seq::<StepView<P>>::empty());
        machine
    }

    /// Whether the loop has ended.
    pub fn is_stopped(&self) -> (ended: bool)
        ensures
            ended == (self@.phase is Stopped),
    {
        match &self.phase {
            Phase::Stopped => true,
            _ => false,
        }
    }

    /// Ends the loop and drops what was left to do.
    fn stop(&mut self) -> (action: LoopAction<P>)
        ensures
            (final(self)@, action@) == stopped(old(self)@),
    {
        self.phase = Phase::Stopped;
        self.pending = VecDeque::new();
        assert(steps_view(self.pending@) =~= Seq::<StepView<P>>::empty());
        LoopAction::Stop
    }

    /// Sends a fatal error on its way.
    fn fail(&mut self, text: String) -> (action: LoopAction<P>)
        ensures
            (final(self)@, action@) == failing(old(self)@, text@),
    {
        self.phase = Phase::Failing;
        LoopAction::SendError(text)
    }

    /// Asks for the sync filter.
    fn negotiate(&mut self) -> (action: LoopAction<P>)
        ensures
            (final(self)@, action@) == negotiating(old(self)@),
    {
        self.phase = Phase::NegotiatingFilter;
        LoopAction::NegotiateFilter { name: "sync".to_owned(), filter: sync_filter() }
    }

    /// Takes up the next pending step.
    fn next_step(&mut self) -> (action: LoopAction<P>)
        ensures
            (final(self)@, action@) == advance(old(self)@),
    {
        let ghost queued = self.pending@;
        match self.pending.pop_front() {
            None => {
                self.phase = Phase::Streaming;
                LoopAction::AwaitResponse
            },
            Some(Step::Send(message)) => {
                assert(steps_view(self.pending@) =~= steps_view(queued).drop_first());
                self.phase = Phase::Emitting;
                LoopAction::SendMessage(message)
            },
            Some(Step::CheckMembers(room)) => {
                assert(steps_view(self.pending@) =~= steps_view(queued).drop_first());
                let asked = room.clone();
                self.phase = Phase::QueryingMembers(room);
                LoopAction::QueryMembers(asked)
            },
        }
    }

    /// One turn of the loop: takes the outcome of the action that the loop
    /// asked for last, and returns the action to do next.
    ///
    /// Before the first action the loop takes [`LoopEvent::Started`]. An
    /// event that the loop is not waiting for stops it, and so does a message
    /// that could not be sent. Once stopped, the loop answers every event
    /// with [`LoopAction::Stop`].
    pub fn step(&mut self, event: LoopEvent<P>) -> (action: LoopAction<P>)
        ensures
            (final(self)@, action@) == spec_step(old(self)@, event@),
    {
        let mut phase = Phase::Stopped;
        core::mem::swap(&mut self.phase, &mut phase);
        match (phase, event) {
            (Phase::Created, LoopEvent::Started) => {
                self.phase = Phase::CheckingSession;
                LoopAction::CheckSession
            },
            (Phase::CheckingSession, LoopEvent::SessionChecked(logged_in)) => {
                if logged_in {
                    self.negotiate()
                } else {
                    self.phase = Phase::LoadingDeviceId;
                    LoopAction::LoadDeviceId { file_name: file_name(self.username.as_str()) }
                }
            },
            (Phase::LoadingDeviceId, LoopEvent::DeviceIdRead(outcome)) => {
                match load_device_id(outcome) {
                    Ok(device_id) => {
                        self.phase = Phase::LoggingIn;
                        LoopAction::Login {
                            username: self.username.clone(),
                            password: self.password.clone(),
                            device_id,
                            display_name: "Weechat-Matrix-rs".to_owned(),
                        }
                    },
                    Err(detail) => {
                        let text = server_error(
                            "Error while reading the device id for server ",
                            self.server_name.as_str(),
                            detail.as_str(),
                        );
                        self.fail(text)
                    },
                }
            },
            (Phase::LoggingIn, LoopEvent::LoggedIn { device_id, response }) => {
                self.phase = Phase::SavingDeviceId(response);
                LoopAction::SaveDeviceId(
                    save_device_id(self.username.as_str(), device_id.as_str()),
                )
            },
            (Phase::LoggingIn, LoopEvent::LoginFailed(detail)) => {
                let text = server_error(
                    "Error while logging in to server ",
                    self.server_name.as_str(),
                    detail.as_str(),
                );
                self.fail(text)
            },
            (Phase::SavingDeviceId(login), LoopEvent::DeviceIdSaved) => {
                self.phase = Phase::AnnouncingLogin;
                LoopAction::SendMessage(ClientMessage::LoginMessage(login))
            },
            (Phase::SavingDeviceId(_), LoopEvent::DeviceIdNotSaved(detail)) => {
                let text = server_error(
                    "Error while writing the device id for server ",
                    self.server_name.as_str(),
                    detail.as_str(),
                );
                self.fail(text)
            },
            (Phase::AnnouncingLogin, LoopEvent::Sent) => self.negotiate(),
            (Phase::Failing, LoopEvent::Sent) => self.stop(),
            (Phase::NegotiatingFilter, LoopEvent::FilterReady(filter_id)) => {
                self.phase = Phase::LoadingToken(filter_id);
                LoopAction::LoadSyncToken
            },
            (Phase::NegotiatingFilter, LoopEvent::FilterFailed(detail)) => {
                let text = server_error(
                    "Error while negotiating the sync filter for server ",
                    self.server_name.as_str(),
                    detail.as_str(),
                );
                self.fail(text)
            },
            (Phase::LoadingToken(filter_id), LoopEvent::TokenLoaded(token)) => {
                self.phase = Phase::Streaming;
                LoopAction::Sync { timeout: DEFAULT_SYNC_TIMEOUT, filter_id, token }
            },
            (Phase::Streaming, LoopEvent::Response(rooms)) => {
                enqueue_response(&mut self.pending, rooms);
                self.next_step()
            },
            (Phase::Emitting, LoopEvent::Sent) => self.next_step(),
            (Phase::QueryingMembers(room), LoopEvent::MembersChecked(members)) => {
                match members {
                    MemberSync::Incomplete => {
                        self.phase = Phase::StartingFetch;
                        LoopAction::FetchMembers(room)
                    },
                    _ => self.next_step(),
                }
            },
            (Phase::StartingFetch, LoopEvent::FetchStarted) => self.next_step(),
            _ => self.stop(),
        }
    }
}

} // verus!
