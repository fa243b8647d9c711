use device_hub::commands::{
    create_set_power_command, dispatch, CommandFactory, CommandHandler, SetPowerCommand,
    SetPowerCommandFactory,
};
use device_hub::devices::{Device, SmartLamp};
use device_hub::error::AppError;
use device_hub::handlers::register_device;
use device_hub::json::Json;
use device_hub::models::{AppState, WsMessage};

fn payload(power: Json) -> Json {
    Json::Object(vec![("power".to_string(), power)])
}

#[test]
fn set_power_changes_the_cached_status() {
    let mut state = AppState::new();
    let _lamp = register_device(&mut state, &"lamp1".to_string());
    let _other = register_device(&mut state, &"lamp2".to_string());
    assert!(SetPowerCommand { power: true }.execute(&mut state, "lamp1").is_ok());
    let status = state.status_of("lamp1").unwrap();
    assert_eq!(status.device_id, "lamp1");
    assert!(status.power);
    assert_eq!(status.brightness, 0);
    assert_eq!(status.color, [0, 0, 0]);
    assert!(!state.status_of("lamp2").unwrap().power);
    assert!(SetPowerCommand { power: false }.execute(&mut state, "lamp1").is_ok());
    assert!(!state.status_of("lamp1").unwrap().power);
    assert_eq!(state.devices.len(), 2);
}

#[test]
fn set_power_keeps_the_device_on_its_channel() {
    let mut state = AppState::new();
    let mut lamp = register_device(&mut state, &"lamp1".to_string());
    SetPowerCommand { power: true }.execute(&mut state, "lamp1").unwrap();
    let report = device_hub::utils::check_device_statuses(&mut state);
    assert!(report.evicted.is_empty());
    assert_eq!(report.probes, vec![("lamp1".to_string(), true)]);
    assert!(matches!(lamp.try_recv(), Ok(WsMessage::StatusRequest { .. })));
}

#[test]
fn set_power_on_an_unknown_device_fails() {
    let mut state = AppState::new();
    let _lamp = register_device(&mut state, &"lamp1".to_string());
    let outcome = SetPowerCommand { power: true }.execute(&mut state, "lamp2");
    assert!(matches!(outcome, Err(AppError::DeviceNotFound)));
    assert!(!state.status_of("lamp1").unwrap().power);
    assert_eq!(state.devices.len(), 1);
}

#[test]
fn factory_reads_the_power_member() {
    assert!(matches!(create_set_power_command(&payload(Json::Bool(true))), Ok(c) if c.power));
    assert!(matches!(create_set_power_command(&payload(Json::Bool(false))), Ok(c) if !c.power));
    assert!(SetPowerCommandFactory.create(&payload(Json::Bool(true))).is_ok());
}

#[test]
fn factory_refuses_a_payload_without_a_boolean_power() {
    let refused = vec![
        Json::Object(vec![]),
        payload(Json::Unsigned(1)),
        payload(Json::Text("true".to_string())),
        payload(Json::Null),
        Json::Bool(true),
        Json::Array(vec![Json::Bool(true)]),
    ];
    for json in refused {
        match create_set_power_command(&json) {
            Err(AppError::Internal(cause)) => assert_eq!(cause, "Missing power field"),
            _ => panic!("{:?} was not refused", json),
        }
        assert!(matches!(SetPowerCommandFactory.create(&json), Err(AppError::Internal(_))));
    }
}

#[test]
fn dispatch_leaves_the_other_devices_as_they_were() {
    let mut state = AppState::new();
    let _lamp = register_device(&mut state, &"lamp1".to_string());
    let _other = register_device(&mut state, &"lamp2".to_string());
    let factory = SetPowerCommandFactory;
    assert!(dispatch(&factory, &mut state, &payload(Json::Bool(true)), "lamp2").is_ok());
    assert!(state.status_of("lamp2").unwrap().power);
    assert_eq!(state.status_of("lamp2").unwrap().device_id, "lamp2");
    assert!(!state.status_of("lamp1").unwrap().power);
    assert!(dispatch(&factory, &mut state, &payload(Json::Bool(false)), "lamp2").is_ok());
    assert!(!state.status_of("lamp2").unwrap().power);
    assert_eq!(state.devices.len(), 2);
}

#[test]
fn dispatch_makes_the_command_and_carries_it_out() {
    let mut state = AppState::new();
    let _lamp = register_device(&mut state, &"lamp1".to_string());
    let factory = SetPowerCommandFactory;
    assert!(dispatch(&factory, &mut state, &payload(Json::Bool(true)), "lamp1").is_ok());
    assert!(state.status_of("lamp1").unwrap().power);
    assert!(matches!(
        dispatch(&factory, &mut state, &payload(Json::Bool(false)), "lamp2"),
        Err(AppError::DeviceNotFound)
    ));
    assert!(matches!(
        dispatch(&factory, &mut state, &Json::Null, "lamp1"),
        Err(AppError::Internal(_))
    ));
    assert!(state.status_of("lamp1").unwrap().power);
}

#[test]
fn errors_have_their_words() {
    assert_eq!(AppError::DeviceNotFound.message(), "Device not found");
    assert_eq!(AppError::UnsupportedCommand.message(), "Unsupported command");
    assert_eq!(
        AppError::Validation("brightness".to_string()).message(),
        "Validation error: brightness"
    );
    assert_eq!(AppError::Internal("cause".to_string()).message(), "Internal server error");
}

#[test]
fn new_lamp_is_off_and_white() {
    let lamp = SmartLamp::new();
    assert!(!lamp.power);
    assert_eq!(lamp.brightness, 0);
    assert_eq!(lamp.color, [255, 255, 255]);
    let status = lamp.get_status();
    assert_eq!(status.device_id, "smart_lamp_001");
    assert!(!status.power);
    assert_eq!(status.brightness, 0);
    assert_eq!(status.color, [255, 255, 255]);
    assert!(!status.auto_brightness);
    assert_eq!(status.pos, [0, 0, 0, 0]);
    assert!(!status.auto_pos);
}

#[test]
fn lamp_takes_its_three_commands() {
    let mut lamp = SmartLamp::new();
    let id = || "any".to_string();
    assert!(lamp.handle_command(WsMessage::SetPower { device_id: id(), power: true }).is_ok());
    assert!(lamp
        .handle_command(WsMessage::SetBrightness { device_id: id(), brightness: 128 })
        .is_ok());
    assert!(lamp.handle_command(WsMessage::SetColor { device_id: id(), color: [1, 2, 3] }).is_ok());
    let status = lamp.get_status();
    assert!(status.power);
    assert_eq!(status.brightness, 128);
    assert_eq!(status.color, [1, 2, 3]);
}

#[test]
fn lamp_refuses_everything_else() {
    let mut lamp = SmartLamp::new();
    let id = || "any".to_string();
    let refused = vec![
        WsMessage::SetAutoBrightness { device_id: id(), auto_brightness: true },
        WsMessage::SetPosition { device_id: id(), pos: [1, 2, 3, 4] },
        WsMessage::SetAutoPosition { device_id: id(), auto_pos: true },
        WsMessage::StatusRequest { device_id: id() },
        WsMessage::DeviceRegistration { device_id: id() },
    ];
    for command in refused {
        assert!(matches!(lamp.handle_command(command), Err(AppError::UnsupportedCommand)));
    }
    assert!(!lamp.power);
    assert_eq!(lamp.brightness, 0);
    assert_eq!(lamp.color, [255, 255, 255]);
}
