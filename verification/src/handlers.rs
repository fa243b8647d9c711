use vstd::prelude::*;
use tokio::sync::broadcast::{Receiver, Sender};
use crate::channel::{fresh_id, now, open_channel, CHANNEL_CAPACITY};
use crate::codec::{message_json, text_message};
use crate::json::rendered_json;
use crate::models::{AppState, DeviceEntry, DeviceStatus, MessageView, StatusView, WsMessage};
use crate::registry::{insert_client, insert_device};
use crate::router::{
    command_delivery, invalid_registration_notice, make_invalid_registration_notice,
    not_found_notice, reported_ids, route_command, route_status, routed_as, DeliveryView, Routed,
};
use crate::utils::{cleanup_client_connection, cleanup_device_connection, touch_device};

verus! {

/// What a connection reports to its session.
pub enum SessionEvent {
    /// A frame arrived from the peer and its payload is this text.
    Text(String),
    /// A frame arrived from the peer whose payload is not text.
    Unreadable,
    /// A message arrived on the session's fan-out channel, to be passed on
    /// to the peer.
    Outbound(WsMessage),
    /// The text of the last `Send` was written to the peer.
    Sent,
    /// The connection ended: the peer closed it, a read or a write
    /// failed, or the fan-out channel was closed.
    Closed,
}

/// The mathematical value of a [`SessionEvent`].
pub enum EventView {
    Text(Seq<char>),
    Unreadable,
    Outbound(MessageView),
    Sent,
    Closed,
}

impl View for SessionEvent {
    type V = EventView;

    open spec fn view(&self) -> EventView {
        match self {
            SessionEvent::Text(text) => EventView::Text(text@),
            SessionEvent::Unreadable => EventView::Unreadable,
            SessionEvent::Outbound(message) => EventView::Outbound(message@),
            SessionEvent::Sent => EventView::Sent,
            SessionEvent::Closed => EventView::Closed,
        }
    }
}

/// What a session asks its connection to do next.
pub enum SessionAction {
    /// Nothing: wait for the next event.
    Wait,
    /// Write this text to the peer, then report `Sent`, or `Closed` if the
    /// write failed.
    Send(String),
    /// The device is registered: from now on also pass on what arrives on
    /// this subscription to its fan-out channel, as `Outbound` events.
    Relay(Receiver<WsMessage>),
    /// Tear the connection down; the session is over.
    Close,
}

/// The mathematical value of a [`SessionAction`]: the subscription left
/// out.
pub enum ActionView {
    Wait,
    Send(Seq<char>),
    Relay,
    Close,
}

impl View for SessionAction {
    type V = ActionView;

    open spec fn view(&self) -> ActionView {
        match self {
            SessionAction::Wait => ActionView::Wait,
            SessionAction::Send(text) => ActionView::Send(text@),
            SessionAction::Relay(_) => ActionView::Relay,
            SessionAction::Close => ActionView::Close,
        }
    }
}

/// The text of the frame that carries a message.
pub open spec fn frame(message: MessageView) -> Seq<char> {
    rendered_json(message_json(message))
}

/// Where the session of a device connection stands.
#[derive(Debug)]
pub enum DeviceSession {
    /// The connection is accepted and the device has not registered yet.
    AwaitingRegistration,
    /// The device asked to register under this id and the acknowledgement
    /// is being written to it.
    Acknowledging { device_id: String },
    /// The device is registered under this id; commands and status updates
    /// are passed on.
    Relaying { device_id: String },
    /// The session is over.
    Disconnected,
}

/// The mathematical value of a [`DeviceSession`].
pub enum DeviceSessionView {
    AwaitingRegistration,
    Acknowledging { device_id: Seq<char> },
    Relaying { device_id: Seq<char> },
    Disconnected,
}

impl View for DeviceSession {
    type V = DeviceSessionView;

    open spec fn view(&self) -> DeviceSessionView {
        match self {
            DeviceSession::AwaitingRegistration => DeviceSessionView::AwaitingRegistration,
            DeviceSession::Acknowledging { device_id } => DeviceSessionView::Acknowledging {
                device_id: device_id@,
            },
            DeviceSession::Relaying { device_id } => DeviceSessionView::Relaying {
                device_id: device_id@,
            },
            DeviceSession::Disconnected => DeviceSessionView::Disconnected,
        }
    }
}

/// The state machine of a device connection: the next state and what the
/// connection is asked to do.
///
/// Before registration, a text that is no message ends the session, and
/// so does a frame that is no text. A registration is acknowledged, and
/// the device is registered once the acknowledgement is written. Any
/// other message is answered with the invalid-registration notice.
/// While relaying, what comes from the fan-out channel is written to the
/// device, and nothing that the device sends is answered. The end of the
/// connection ends the session in every state.
pub open spec fn device_step(session: DeviceSessionView, event: EventView) -> (
    DeviceSessionView,
    ActionView,
) {
    match session {
        DeviceSessionView::AwaitingRegistration => match event {
            EventView::Text(text) => match text_message(text) {
                None => (DeviceSessionView::Disconnected, ActionView::Close),
                Some(MessageView::DeviceRegistration { device_id }) => (
                    DeviceSessionView::Acknowledging { device_id },
                    ActionView::Send(frame(MessageView::DeviceRegistered { device_id })),
                ),
                Some(_) => (session, ActionView::Send(frame(invalid_registration_notice()))),
            },
            EventView::Unreadable => (DeviceSessionView::Disconnected, ActionView::Close),
            EventView::Closed => (DeviceSessionView::Disconnected, ActionView::Close),
            _ => (session, ActionView::Wait),
        },
        DeviceSessionView::Acknowledging { device_id } => match event {
            EventView::Sent => (DeviceSessionView::Relaying { device_id }, ActionView::Relay),
            EventView::Closed => (DeviceSessionView::Disconnected, ActionView::Close),
            _ => (session, ActionView::Wait),
        },
        DeviceSessionView::Relaying { device_id } => match event {
            EventView::Outbound(message) => (session, ActionView::Send(frame(message))),
            EventView::Closed => (DeviceSessionView::Disconnected, ActionView::Close),
            _ => (session, ActionView::Wait),
        },
        DeviceSessionView::Disconnected => (session, ActionView::Close),
    }
}

/// What a step of a device session does to the device registry: the
/// device is entered, with the initial status, when its acknowledgement is
/// written, and taken out when its relaying connection ends. Nothing else
/// changes the registry.
pub open spec fn devices_after(
    session: DeviceSessionView,
    event: EventView,
    devices: Map<Seq<char>, StatusView>,
) -> Map<Seq<char>, StatusView> {
    match (session, event) {
        (DeviceSessionView::Acknowledging { device_id }, EventView::Sent) => devices.insert(
            device_id,
            StatusView::initial(device_id),
        ),
        (DeviceSessionView::Relaying { device_id }, EventView::Closed) => devices.remove(device_id),
        _ => devices,
    }
}

/// Whether a step of a device session broadcasts a status to the clients:
/// it does when a relaying device sends a status update.
pub open spec fn broadcasts_status(session: DeviceSessionView, event: EventView) -> bool {
    match (session, event) {
        (DeviceSessionView::Relaying { .. }, EventView::Text(text)) => text_message(text) matches Some(
            MessageView::StatusUpdate(_),
        ),
        _ => false,
    }
}

/// What one step of a device session led to.
pub struct DeviceStep {
    /// What the connection is asked to do.
    pub action: SessionAction,
    /// The clients that a status update was published to, each with
    /// whether its channel had a subscriber to take it. Empty unless this
    /// step broadcast a status.
    pub reached: Vec<(u128, bool)>,
}

impl DeviceSession {
    /// The session of a connection that was just accepted.
    pub fn new() -> (session: DeviceSession)
        ensures
            session@ == DeviceSessionView::AwaitingRegistration,
    {
        DeviceSession::AwaitingRegistration
    }
}

/// Enters a device into the registry under `device_id`, with a new
/// channel, the initial status and the present time, replacing an entry
/// that was there. Hands out the first subscription to the new channel.
pub fn register_device(state: &mut AppState, device_id: &String) -> (subscription: Receiver<
    WsMessage,
>)
    ensures
        final(state).device_view() == old(state).device_view().insert(
            device_id@,
            StatusView::initial(device_id@),
        ),
        final(state).device_view().dom().contains(device_id@),
        final(state).clients == old(state).clients,
        old(state).wf() ==> final(state).wf(),
{
    let (tx, subscription) = open_channel(CHANNEL_CAPACITY);
    let entry = DeviceEntry {
        tx,
        status: DeviceStatus::initial(device_id.clone()),
        last_seen: now(),
    };
    insert_device(&mut state.devices, device_id.clone(), entry);
    proof {
        if old(state).wf() {
            assert forall|id: Seq<char>| #[trigger]
                state.device_view().dom().contains(id) implies state.device_view()[id].device_id
                == id && state.device_view()[id].wf() by {
                if id != device_id@ {
                    assert(old(state).device_view().dom().contains(id));
                }
            }
        }
    }
    subscription
}

/// Takes one step of a device connection's session: decides by
/// [`device_step`], and enters the device into the registry, broadcasts
/// its status to the clients, or takes it out, as the step calls for.
pub fn handle_device(session: &mut DeviceSession, state: &mut AppState, event: SessionEvent) -> (step:
    DeviceStep)
    ensures
        (final(session)@, step.action@) == device_step(old(session)@, event@),
        final(state).device_view() == devices_after(
            old(session)@,
            event@,
            old(state).device_view(),
        ),
        final(state).clients == old(state).clients,
        old(state).wf() ==> final(state).wf(),
        reported_ids(step.reached@).no_duplicates(),
        broadcasts_status(old(session)@, event@) ==> reported_ids(step.reached@).to_set() == old(
            state,
        ).client_view(),
        !broadcasts_status(old(session)@, event@) ==> step.reached@.len() == 0,
{
    let mut reached: Vec<(u128, bool)> = Vec::new();
    assert(reported_ids(reached@) =~= Seq::<u128>::empty());
    let (next, action) = match &*session {
        DeviceSession::AwaitingRegistration => match event {
            SessionEvent::Text(text) => match WsMessage::decode(text.as_str()) {
                None => (DeviceSession::Disconnected, SessionAction::Close),
                Some(WsMessage::DeviceRegistration { device_id }) => {
                    let reply = WsMessage::DeviceRegistered { device_id: device_id.clone() };
                    (DeviceSession::Acknowledging { device_id }, SessionAction::Send(reply.encode()))
                },
                Some(_) => (
                    DeviceSession::AwaitingRegistration,
                    SessionAction::Send(make_invalid_registration_notice().encode()),
                ),
            },
            SessionEvent::Unreadable => (DeviceSession::Disconnected, SessionAction::Close),
            SessionEvent::Closed => (DeviceSession::Disconnected, SessionAction::Close),
            _ => (DeviceSession::AwaitingRegistration, SessionAction::Wait),
        },
        DeviceSession::Acknowledging { device_id } => match event {
            SessionEvent::Sent => {
                let subscription = register_device(state, device_id);
                (
                    DeviceSession::Relaying { device_id: device_id.clone() },
                    SessionAction::Relay(subscription),
                )
            },
            SessionEvent::Closed => (DeviceSession::Disconnected, SessionAction::Close),
            _ => (DeviceSession::Acknowledging { device_id: device_id.clone() }, SessionAction::Wait),
        },
        DeviceSession::Relaying { device_id } => match event {
            SessionEvent::Text(text) => {
                touch_device(state, device_id.as_str());
                match WsMessage::decode(text.as_str()) {
                    Some(WsMessage::StatusUpdate(status)) => {
                        reached = route_status(state, &status);
                    },
                    _ => {},
                }
                (DeviceSession::Relaying { device_id: device_id.clone() }, SessionAction::Wait)
            },
            SessionEvent::Unreadable => {
                touch_device(state, device_id.as_str());
                (DeviceSession::Relaying { device_id: device_id.clone() }, SessionAction::Wait)
            },
            SessionEvent::Outbound(message) => {
                touch_device(state, device_id.as_str());
                (
                    DeviceSession::Relaying { device_id: device_id.clone() },
                    SessionAction::Send(message.encode()),
                )
            },
            SessionEvent::Sent => (
                DeviceSession::Relaying { device_id: device_id.clone() },
                SessionAction::Wait,
            ),
            SessionEvent::Closed => {
                cleanup_device_connection(device_id.as_str(), state);
                (DeviceSession::Disconnected, SessionAction::Close)
            },
        },
        DeviceSession::Disconnected => (DeviceSession::Disconnected, SessionAction::Close),
    };
    *session = next;
    DeviceStep { action, reached }
}

/// The session of a client connection.
pub struct ClientSession {
    /// The id under which the client is registered.
    pub client_id: u128,
    /// The client's own fan-out channel.
    pub tx: Sender<WsMessage>,
    /// Whether the session is still relaying.
    pub connected: bool,
}

/// The state machine of a client connection: whether the session goes
/// on, and what the connection is asked to do. What comes from the
/// fan-out channel is written to the client; nothing that the client
/// sends is answered on the connection itself; the end of the connection
/// ends the session.
pub open spec fn client_step(connected: bool, event: EventView) -> (bool, ActionView) {
    if !connected {
        (false, ActionView::Close)
    } else {
        match event {
            EventView::Outbound(message) => (true, ActionView::Send(frame(message))),
            EventView::Closed => (false, ActionView::Close),
            _ => (true, ActionView::Wait),
        }
    }
}

/// Where a step of a client session sends what the client sent: a text
/// that is a message goes by the command-routing rule, anything else
/// goes nowhere.
pub open spec fn client_delivery(
    connected: bool,
    event: EventView,
    registered: Set<Seq<char>>,
) -> DeliveryView {
    match event {
        EventView::Text(text) => match text_message(text) {
            Some(message) => if connected {
                command_delivery(registered, message)
            } else {
                DeliveryView::Nothing
            },
            None => DeliveryView::Nothing,
        },
        _ => DeliveryView::Nothing,
    }
}

/// What one step of a client session led to.
pub struct ClientStep {
    /// What the connection is asked to do.
    pub action: SessionAction,
    /// What became of the message that the client sent, if it sent one.
    pub routed: Routed,
}

/// Opens the session of a client connection that was just accepted: gives
/// the client a random id and a channel of its own, and enters it into
/// the client registry. Hands out the session and the subscription to the
/// client's channel.
pub fn connect_client(state: &mut AppState) -> (opened: (ClientSession, Receiver<WsMessage>))
    ensures
        opened.0.connected,
        final(state).client_view() == old(state).client_view().insert(opened.0.client_id),
        final(state).devices == old(state).devices,
{
    let client_id = fresh_id();
    let (tx, subscription) = open_channel(CHANNEL_CAPACITY);
    insert_client(&mut state.clients, client_id, tx.clone());
    (ClientSession { client_id, tx, connected: true }, subscription)
}

/// Takes one step of a client connection's session: decides by
/// [`client_step`], routes a command that the client sent, and takes the
/// client out of the registry when its connection ends.
pub fn handle_client(session: &mut ClientSession, state: &mut AppState, event: SessionEvent) -> (step:
    ClientStep)
    ensures
        (final(session).connected, step.action@) == client_step(old(session).connected, event@),
        final(session).client_id == old(session).client_id,
        routed_as(
            step.routed,
            client_delivery(old(session).connected, event@, old(state).device_view().dom()),
        ),
        final(state).devices == old(state).devices,
        final(state).client_view() == if old(session).connected && event@ is Closed {
            old(state).client_view().remove(old(session).client_id)
        } else {
            old(state).client_view()
        },
{
    if !session.connected {
        return ClientStep { action: SessionAction::Close, routed: Routed::Ignored };
    }
    match event {
        SessionEvent::Text(text) => {
            let routed = match WsMessage::decode(text.as_str()) {
                Some(message) => route_command(state, &session.tx, message),
                None => Routed::Ignored,
            };
            ClientStep { action: SessionAction::Wait, routed }
        },
        SessionEvent::Outbound(message) => ClientStep {
            action: SessionAction::Send(message.encode()),
            routed: Routed::Ignored,
        },
        SessionEvent::Closed => {
            cleanup_client_connection(session.client_id, state);
            session.connected = false;
            ClientStep { action: SessionAction::Close, routed: Routed::Ignored }
        },
        _ => ClientStep { action: SessionAction::Wait, routed: Routed::Ignored },
    }
}

/// Once the acknowledgement of a registration is written, the session
/// relays, and the registry holds the device under its id with the initial
/// status. A map has one entry for a key, so it is the only one.
pub proof fn lemma_registration_enters_device(
    devices: Map<Seq<char>, StatusView>,
    device_id: Seq<char>,
)
    ensures
        device_step(DeviceSessionView::Acknowledging { device_id }, EventView::Sent) == (
            DeviceSessionView::Relaying { device_id },
            ActionView::Relay,
        ),
        devices_after(
            DeviceSessionView::Acknowledging { device_id },
            EventView::Sent,
            devices,
        ).dom().contains(device_id),
        devices_after(
            DeviceSessionView::Acknowledging { device_id },
            EventView::Sent,
            devices,
        )[device_id] == StatusView::initial(device_id),
{
}

/// A client's command for a device id that is not registered is answered
/// with the not-found notice on the client's own channel, and the client's
/// connection goes on.
pub proof fn lemma_client_command_for_unknown_device(
    registered: Set<Seq<char>>,
    text: Seq<char>,
    message: MessageView,
)
    requires
        text_message(text) == Some(message),
        message.command_target() matches Some(device_id) && !registered.contains(device_id),
    ensures
        client_delivery(true, EventView::Text(text), registered) == (DeliveryView::ToSender {
            notice: not_found_notice(),
        }),
        client_step(true, EventView::Text(text)) == (true, ActionView::Wait),
{
}

/// The end of a relaying device's connection takes the device out of the
/// registry, and a second end changes nothing more.
pub proof fn lemma_disconnect_once(devices: Map<Seq<char>, StatusView>, device_id: Seq<char>)
    ensures
        device_step(DeviceSessionView::Relaying { device_id }, EventView::Closed).0
            == DeviceSessionView::Disconnected,
        !devices_after(
            DeviceSessionView::Relaying { device_id },
            EventView::Closed,
            devices,
        ).dom().contains(device_id),
        devices_after(
            DeviceSessionView::Disconnected,
            EventView::Closed,
            devices.remove(device_id),
        ) == devices.remove(device_id),
{
}

} // verus!
