use vstd::prelude::*;
use dashmap::DashMap;
use tokio::sync::broadcast::Sender;
use tokio::time::Instant;
use crate::registry::{client_ids, device_last_seen, device_statuses, new_clients, new_devices};

verus! {

/// A snapshot of what a device last reported about itself.
#[derive(Debug)]
pub struct DeviceStatus {
    pub device_id: String,
    pub power: bool,
    pub brightness: u8,
    pub color: [u8; 3],
    pub auto_brightness: bool,
    pub pos: [u8; 4],
    pub auto_pos: bool,
}

/// The mathematical value of a [`DeviceStatus`].
pub struct StatusView {
    pub device_id: Seq<char>,
    pub power: bool,
    pub brightness: u8,
    pub color: Seq<u8>,
    pub auto_brightness: bool,
    pub pos: Seq<u8>,
    pub auto_pos: bool,
}

impl StatusView {
    /// A color has three channels and a position four.
    pub open spec fn wf(self) -> bool {
        self.color.len() == 3 && self.pos.len() == 4
    }

    /// The status of a device that has reported nothing yet.
    pub open spec fn initial(device_id: Seq<char>) -> StatusView {
        StatusView {
            device_id,
            power: false,
            brightness: 0,
            color: seq![0u8, 0u8, 0u8],
            auto_brightness: false,
            pos: seq![0u8, 0u8, 0u8, 0u8],
            auto_pos: false,
        }
    }
}

impl View for DeviceStatus {
    type V = StatusView;

    open spec fn view(&self) -> StatusView {
        StatusView {
            device_id: self.device_id@,
            power: self.power,
            brightness: self.brightness,
            color: self.color@,
            auto_brightness: self.auto_brightness,
            pos: self.pos@,
            auto_pos: self.auto_pos,
        }
    }
}

impl Clone for DeviceStatus {
    fn clone(&self) -> (copy: Self)
        ensures
            copy == *self,
    {
        DeviceStatus {
            device_id: self.device_id.clone(),
            power: self.power,
            brightness: self.brightness,
            color: self.color,
            auto_brightness: self.auto_brightness,
            pos: self.pos,
            auto_pos: self.auto_pos,
        }
    }
}

impl DeviceStatus {
    /// The status a device has right after it registered: everything off
    /// and zero.
    pub fn initial(device_id: String) -> (status: DeviceStatus)
        ensures
            status@ == StatusView::initial(device_id@),
            status@.wf(),
    {
        let status = DeviceStatus {
            device_id,
            power: false,
            brightness: 0,
            color: [0, 0, 0],
            auto_brightness: false,
            pos: [0, 0, 0, 0],
            auto_pos: false,
        };
        assert(status.color@ =~= seq![0u8, 0u8, 0u8]);
        assert(status.pos@ =~= seq![0u8, 0u8, 0u8, 0u8]);
        status
    }
}

/// One message on the wire, between the hub and a device or a client.
#[derive(Debug)]
pub enum WsMessage {
    DeviceRegistration { device_id: String },
    DeviceRegistered { device_id: String },
    StatusUpdate(DeviceStatus),
    SetPower { device_id: String, power: bool },
    SetBrightness { device_id: String, brightness: u8 },
    SetColor { device_id: String, color: [u8; 3] },
    SetAutoBrightness { device_id: String, auto_brightness: bool },
    SetPosition { device_id: String, pos: [u8; 4] },
    SetAutoPosition { device_id: String, auto_pos: bool },
    StatusRequest { device_id: String },
    Error { message: String, code: u16 },
}

/// The mathematical value of a [`WsMessage`].
pub enum MessageView {
    DeviceRegistration { device_id: Seq<char> },
    DeviceRegistered { device_id: Seq<char> },
    StatusUpdate(StatusView),
    SetPower { device_id: Seq<char>, power: bool },
    SetBrightness { device_id: Seq<char>, brightness: u8 },
    SetColor { device_id: Seq<char>, color: Seq<u8> },
    SetAutoBrightness { device_id: Seq<char>, auto_brightness: bool },
    SetPosition { device_id: Seq<char>, pos: Seq<u8> },
    SetAutoPosition { device_id: Seq<char>, auto_pos: bool },
    StatusRequest { device_id: Seq<char> },
    Error { message: Seq<char>, code: u16 },
}

impl MessageView {
    /// Every color in the message has three channels and every position
    /// four.
    pub open spec fn wf(self) -> bool {
        match self {
            MessageView::StatusUpdate(status) => status.wf(),
            MessageView::SetColor { color, .. } => color.len() == 3,
            MessageView::SetPosition { pos, .. } => pos.len() == 4,
            _ => true,
        }
    }

    /// The device that a command is addressed to. Only the six `Set*`
    /// messages are commands.
    pub open spec fn command_target(self) -> Option<Seq<char>> {
        match self {
            MessageView::SetPower { device_id, .. } => Some(device_id),
            MessageView::SetBrightness { device_id, .. } => Some(device_id),
            MessageView::SetColor { device_id, .. } => Some(device_id),
            MessageView::SetAutoBrightness { device_id, .. } => Some(device_id),
            MessageView::SetPosition { device_id, .. } => Some(device_id),
            MessageView::SetAutoPosition { device_id, .. } => Some(device_id),
            _ => None,
        }
    }
}

impl View for WsMessage {
    type V = MessageView;

    open spec fn view(&self) -> MessageView {
        match self {
            WsMessage::DeviceRegistration { device_id } => MessageView::DeviceRegistration {
                device_id: device_id@,
            },
            WsMessage::DeviceRegistered { device_id } => MessageView::DeviceRegistered {
                device_id: device_id@,
            },
            WsMessage::StatusUpdate(status) => MessageView::StatusUpdate(status@),
            WsMessage::SetPower { device_id, power } => MessageView::SetPower {
                device_id: device_id@,
                power: *power,
            },
            WsMessage::SetBrightness { device_id, brightness } => MessageView::SetBrightness {
                device_id: device_id@,
                brightness: *brightness,
            },
            WsMessage::SetColor { device_id, color } => MessageView::SetColor {
                device_id: device_id@,
                color: color@,
            },
            WsMessage::SetAutoBrightness { device_id, auto_brightness } => {
                MessageView::SetAutoBrightness {
                    device_id: device_id@,
                    auto_brightness: *auto_brightness,
                }
            },
            WsMessage::SetPosition { device_id, pos } => MessageView::SetPosition {
                device_id: device_id@,
                pos: pos@,
            },
            WsMessage::SetAutoPosition { device_id, auto_pos } => MessageView::SetAutoPosition {
                device_id: device_id@,
                auto_pos: *auto_pos,
            },
            WsMessage::StatusRequest { device_id } => MessageView::StatusRequest {
                device_id: device_id@,
            },
            WsMessage::Error { message, code } => MessageView::Error {
                message: message@,
                code: *code,
            },
        }
    }
}

impl Clone for WsMessage {
    fn clone(&self) -> (copy: Self)
        ensures
            copy == *self,
    {
        match self {
            WsMessage::DeviceRegistration { device_id } => WsMessage::DeviceRegistration {
                device_id: device_id.clone(),
            },
            WsMessage::DeviceRegistered { device_id } => WsMessage::DeviceRegistered {
                device_id: device_id.clone(),
            },
            WsMessage::StatusUpdate(status) => WsMessage::StatusUpdate(status.clone()),
            WsMessage::SetPower { device_id, power } => WsMessage::SetPower {
                device_id: device_id.clone(),
                power: *power,
            },
            WsMessage::SetBrightness { device_id, brightness } => WsMessage::SetBrightness {
                device_id: device_id.clone(),
                brightness: *brightness,
            },
            WsMessage::SetColor { device_id, color } => WsMessage::SetColor {
                device_id: device_id.clone(),
                color: *color,
            },
            WsMessage::SetAutoBrightness { device_id, auto_brightness } => {
                WsMessage::SetAutoBrightness {
                    device_id: device_id.clone(),
                    auto_brightness: *auto_brightness,
                }
            },
            WsMessage::SetPosition { device_id, pos } => WsMessage::SetPosition {
                device_id: device_id.clone(),
                pos: *pos,
            },
            WsMessage::SetAutoPosition { device_id, auto_pos } => WsMessage::SetAutoPosition {
                device_id: device_id.clone(),
                auto_pos: *auto_pos,
            },
            WsMessage::StatusRequest { device_id } => WsMessage::StatusRequest {
                device_id: device_id.clone(),
            },
            WsMessage::Error { message, code } => WsMessage::Error {
                message: message.clone(),
                code: *code,
            },
        }
    }
}

impl WsMessage {
    /// The device that this message commands, if it is one of the six
    /// `Set*` commands.
    pub fn command_target(&self) -> (target: Option<&String>)
        ensures
            match target {
                Some(id) => self@.command_target() == Some(id@),
                None => self@.command_target() is None,
            },
    {
        match self {
            WsMessage::SetPower { device_id, .. } => Some(device_id),
            WsMessage::SetBrightness { device_id, .. } => Some(device_id),
            WsMessage::SetColor { device_id, .. } => Some(device_id),
            WsMessage::SetAutoBrightness { device_id, .. } => Some(device_id),
            WsMessage::SetPosition { device_id, .. } => Some(device_id),
            WsMessage::SetAutoPosition { device_id, .. } => Some(device_id),
            _ => None,
        }
    }
}

/// What the hub keeps for one registered device.
pub struct DeviceEntry {
    /// The channel on which commands for the device are published.
    pub tx: Sender<WsMessage>,
    /// The cached status of the device.
    pub status: DeviceStatus,
    /// When the device was last heard of.
    pub last_seen: Instant,
}

impl Clone for DeviceEntry {
    fn clone(&self) -> (copy: Self)
        ensures
            copy.status == self.status,
            copy.last_seen == self.last_seen,
    {
        DeviceEntry { tx: self.tx.clone(), status: self.status.clone(), last_seen: self.last_seen }
    }
}

/// The two registries of the hub.
///
/// The functions that change a registry take the state by `&mut`: what
/// they state holds as long as nothing else reaches into the maps while
/// one of them runs. A program that shares the state among tasks keeps it
/// behind a lock and holds the lock for the length of a call.
pub struct AppState {
    pub devices: DashMap<String, DeviceEntry>,
    pub clients: DashMap<u128, Sender<WsMessage>>,
}

impl AppState {
    /// The registered devices: each id with the status cached for it.
    pub open spec fn device_view(&self) -> Map<Seq<char>, StatusView> {
        device_statuses(self.devices)
    }

    /// When each registered device was last heard of.
    pub open spec fn seen_view(&self) -> Map<Seq<char>, Instant> {
        device_last_seen(self.devices)
    }

    /// The ids of the connected clients.
    pub open spec fn client_view(&self) -> Set<u128> {
        client_ids(self.clients)
    }

    /// Every cached status is filed under the id that it names, and is
    /// well formed.
    pub open spec fn wf(&self) -> bool {
        forall|id: Seq<char>| #[trigger]
            self.device_view().dom().contains(id) ==> self.device_view()[id].device_id == id
                && self.device_view()[id].wf()
    }

    /// A hub with no device and no client.
    pub fn new() -> (state: AppState)
        ensures
            state.device_view() == Map::<Seq<char>, StatusView>::empty(),
            state.seen_view() == Map::<Seq<char>, Instant>::empty(),
            state.client_view() == Set::<u128>::empty(),
            state.wf(),
    {
        let state = AppState { devices: new_devices(), clients: new_clients() };
        assert(state.device_view() =~= Map::<Seq<char>, StatusView>::empty());
        assert(state.seen_view() =~= Map::<Seq<char>, Instant>::empty());
        state
    }
}

} // verus!
