use vstd::prelude::*;
use tokio::sync::broadcast::Sender;
use crate::channel::publish;
use crate::models::{AppState, DeviceStatus, MessageView, WsMessage};
use crate::registry::{client_channels, client_ids_of, find_device};

verus! {

/// Where a message from a client goes.
pub enum Delivery {
    /// The message is no command: it goes nowhere.
    Nothing,
    /// The command goes onto the channel of the device that it names.
    ToDevice { channel: Sender<WsMessage>, command: WsMessage },
    /// The command names no registered device: a notice goes back to the
    /// client that sent it, and to nobody else.
    ToSender { notice: WsMessage },
}

/// The mathematical value of a [`Delivery`]: the channel handle left out.
pub enum DeliveryView {
    Nothing,
    ToDevice { command: MessageView },
    ToSender { notice: MessageView },
}

impl View for Delivery {
    type V = DeliveryView;

    open spec fn view(&self) -> DeliveryView {
        match self {
            Delivery::Nothing => DeliveryView::Nothing,
            Delivery::ToDevice { command, .. } => DeliveryView::ToDevice { command: command@ },
            Delivery::ToSender { notice } => DeliveryView::ToSender { notice: notice@ },
        }
    }
}

/// What became of a message from a client.
#[derive(Debug, PartialEq, Eq, Structural, Clone, Copy)]
pub enum Routed {
    /// It was no command.
    Ignored,
    /// It was published on the device's channel; `delivered` says whether
    /// the channel had a subscriber to take it.
    Forwarded { delivered: bool },
    /// It named an unknown device and the notice was published on the
    /// sender's own channel; `notified` says whether that channel had a
    /// subscriber to take it.
    Rejected { notified: bool },
}

/// The notice that answers a command for an unknown device.
pub open spec fn not_found_notice() -> MessageView {
    MessageView::Error { message: "Device not found"@, code: 404 }
}

/// The answer to anything but a registration from a device that has not
/// registered yet.
pub open spec fn invalid_registration_notice() -> MessageView {
    MessageView::Error { message: "Invalid registration"@, code: 400 }
}

/// The command-routing rule: a command for a registered device goes to
/// that device, a command for any other id is answered with the
/// not-found notice, and what is no command goes nowhere.
pub open spec fn command_delivery(registered: Set<Seq<char>>, message: MessageView) -> DeliveryView {
    match message.command_target() {
        None => DeliveryView::Nothing,
        Some(device_id) => if registered.contains(device_id) {
            DeliveryView::ToDevice { command: message }
        } else {
            DeliveryView::ToSender { notice: not_found_notice() }
        },
    }
}

/// Whether an outcome is the one that a delivery leads to.
pub open spec fn routed_as(routed: Routed, delivery: DeliveryView) -> bool {
    match delivery {
        DeliveryView::Nothing => routed == Routed::Ignored,
        DeliveryView::ToDevice { .. } => routed is Forwarded,
        DeliveryView::ToSender { .. } => routed is Rejected,
    }
}

pub fn make_not_found_notice() -> (notice: WsMessage)
    ensures
        notice@ == not_found_notice(),
{
    WsMessage::Error { message: "Device not found".to_owned(), code: 404 }
}

pub fn make_invalid_registration_notice() -> (notice: WsMessage)
    ensures
        notice@ == invalid_registration_notice(),
{
    WsMessage::Error { message: "Invalid registration".to_owned(), code: 400 }
}

/// Decides where a message from a client goes, by the command-routing
/// rule. The registries are only read.
pub fn plan_command(state: &AppState, message: WsMessage) -> (delivery: Delivery)
    ensures
        delivery@ == command_delivery(state.device_view().dom(), message@),
{
    let found = match message.command_target() {
        None => {
            return Delivery::Nothing;
        },
        Some(device_id) => find_device(&state.devices, device_id.as_str()),
    };
    match found {
        Some(entry) => Delivery::ToDevice { channel: entry.tx, command: message },
        None => Delivery::ToSender { notice: make_not_found_notice() },
    }
}

/// Carries a delivery out: publishes the command on the device's channel,
/// or the notice on `reply`, the channel of the client that sent the
/// command. Whether a publish finds a subscriber is not in this
/// function's hands; the outcome reports it.
pub fn deliver(reply: &Sender<WsMessage>, delivery: Delivery) -> (routed: Routed)
    ensures
        routed_as(routed, delivery@),
{
    match delivery {
        Delivery::Nothing => Routed::Ignored,
        Delivery::ToDevice { channel, command } => Routed::Forwarded {
            delivered: publish(&channel, command),
        },
        Delivery::ToSender { notice } => Routed::Rejected { notified: publish(reply, notice) },
    }
}

/// Routes one message from a client: plans the delivery and carries it
/// out. `reply` is the channel of the client that sent the message.
pub fn route_command(state: &AppState, reply: &Sender<WsMessage>, message: WsMessage) -> (routed:
    Routed)
    ensures
        routed_as(routed, command_delivery(state.device_view().dom(), message@)),
{
    let delivery = plan_command(state, message);
    deliver(reply, delivery)
}

/// The ids in a delivery report, in order.
pub open spec fn reported_ids(report: Seq<(u128, bool)>) -> Seq<u128> {
    Seq::new(report.len(), |i: int| report[i].0)
}

/// The status-routing rule: publishes the status update on the channel of
/// every connected client. The report names each client once, with
/// whether its channel had a subscriber to take the update.
pub fn route_status(state: &AppState, status: &DeviceStatus) -> (report: Vec<(u128, bool)>)
    ensures
        reported_ids(report@).no_duplicates(),
        reported_ids(report@).to_set() == state.client_view(),
{
    let channels = client_channels(&state.clients);
    let mut report: Vec<(u128, bool)> = Vec::new();
    let mut i: usize = 0;
    while i < channels.len()
        invariant
            i <= channels.len(),
            report.len() == i,
            forall|k: int| 0 <= k < i ==> (#[trigger] report[k]).0 == channels[k].0,
        decreases channels.len() - i,
    {
        let update = WsMessage::StatusUpdate(status.clone());
        assert(update@ == MessageView::StatusUpdate(status@));
        let delivered = publish(&channels[i].1, update);
        report.push((channels[i].0, delivered));
        i = i + 1;
    }
    assert(reported_ids(report@) =~= client_ids_of(channels@));
    report
}

/// A command for a device id that is not registered is answered with
/// exactly the not-found notice, to its sender, whatever else the command
/// says.
pub proof fn lemma_unknown_device_rejected(registered: Set<Seq<char>>, message: MessageView)
    requires
        message.command_target() matches Some(device_id) && !registered.contains(device_id),
    ensures
        command_delivery(registered, message) == (DeliveryView::ToSender {
            notice: not_found_notice(),
        }),
{
}

} // verus!
