use vstd::prelude::*;
use crate::error::AppError;
use crate::models::{DeviceStatus, StatusView, WsMessage};

verus! {

/// Something that takes commands and reports its status.
pub trait Device {
    /// The status that the device would report now.
    spec fn status_view(&self) -> StatusView;

    /// Carries a command out on the device, or refuses it.
    fn handle_command(&mut self, command: WsMessage) -> (outcome: Result<(), AppError>);

    /// Reports the device's status.
    fn get_status(&self) -> (status: DeviceStatus)
        ensures
            status@ == self.status_view(),
    ;
}

/// A lamp with a switch, a dimmer and a color.
pub struct SmartLamp {
    pub power: bool,
    pub brightness: u8,
    pub color: [u8; 3],
}

/// What a command makes of a lamp's switch, dimmer and color: the three
/// commands that a lamp knows set one of them each, and any other message
/// is refused. The device id in the command is not looked at.
pub open spec fn lamp_after(lamp: SmartLamp, command: WsMessage) -> Option<SmartLamp> {
    match command {
        WsMessage::SetPower { power, .. } => Some(SmartLamp { power, ..lamp }),
        WsMessage::SetBrightness { brightness, .. } => Some(SmartLamp { brightness, ..lamp }),
        WsMessage::SetColor { color, .. } => Some(SmartLamp { color, ..lamp }),
        _ => None,
    }
}

impl SmartLamp {
    /// A lamp that is switched off, dimmed to zero and white.
    pub fn new() -> (lamp: SmartLamp)
        ensures
            !lamp.power,
            lamp.brightness == 0,
            lamp.color@ == seq![255u8, 255u8, 255u8],
    {
        let lamp = SmartLamp { power: false, brightness: 0, color: [255, 255, 255] };
        assert(lamp.color@ =~= seq![255u8, 255u8, 255u8]);
        lamp
    }
}

impl Device for SmartLamp {
    /// A lamp reports under a fixed id, with automatic brightness and
    /// positioning off and the position at zero.
    open spec fn status_view(&self) -> StatusView {
        StatusView {
            device_id: "smart_lamp_001"@,
            power: self.power,
            brightness: self.brightness,
            color: self.color@,
            auto_brightness: false,
            pos: seq![0u8, 0u8, 0u8, 0u8],
            auto_pos: false,
        }
    }

    /// Sets the switch, the dimmer or the color. Any other message is an
    /// `UnsupportedCommand` and leaves the lamp as it was.
    fn handle_command(&mut self, command: WsMessage) -> (outcome: Result<(), AppError>)
        ensures
            match lamp_after(*old(self), command) {
                Some(lamp) => outcome is Ok && *final(self) == lamp,
                None => outcome matches Err(AppError::UnsupportedCommand) && *final(self) == *old(
                    self,
                ),
            },
    {
        match command {
            WsMessage::SetPower { power, .. } => {
                self.power = power;
                Ok(())
            },
            WsMessage::SetBrightness { brightness, .. } => {
                self.brightness = brightness;
                Ok(())
            },
            WsMessage::SetColor { color, .. } => {
                self.color = color;
                Ok(())
            },
            _ => Err(AppError::UnsupportedCommand),
        }
    }

    fn get_status(&self) -> (status: DeviceStatus) {
        let status = DeviceStatus {
            device_id: "smart_lamp_001".to_owned(),
            power: self.power,
            brightness: self.brightness,
            color: self.color,
            auto_brightness: false,
            pos: [0, 0, 0, 0],
            auto_pos: false,
        };
        assert(status.pos@ =~= seq![0u8, 0u8, 0u8, 0u8]);
        status
    }
}

} // verus!
