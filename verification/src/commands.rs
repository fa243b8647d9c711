use vstd::prelude::*;
use crate::codec::bool_field;
use crate::error::AppError;
use crate::json::{Json, JsonView};
use crate::models::{AppState, DeviceEntry, StatusView};
use crate::registry::{find_device, insert_device};

verus! {

/// A command that can be carried out on a registered device.
pub trait CommandHandler {
    /// What the command makes of a device's status.
    spec fn applied(&self, status: StatusView) -> StatusView;

    /// Carries the command out on the device registered under
    /// `device_id`. For an id that is not registered it fails with
    /// `DeviceNotFound` and changes nothing. For a registered device it
    /// succeeds, and changes the cached status of that one device to what
    /// [`Self::applied`] makes of it.
    fn execute(&self, state: &mut AppState, device_id: &str) -> (outcome: Result<(), AppError>)
        ensures
            outcome is Ok <==> old(state).device_view().dom().contains(device_id@),
            !old(state).device_view().dom().contains(device_id@) ==> outcome matches Err(
                AppError::DeviceNotFound,
            ),
            outcome is Err ==> final(state).device_view() == old(state).device_view(),
            outcome is Ok ==> final(state).device_view() == old(state).device_view().insert(
                device_id@,
                self.applied(old(state).device_view()[device_id@]),
            ),
            final(state).clients == old(state).clients,
    ;
}

/// Makes commands of one kind from an untyped payload.
pub trait CommandFactory {
    /// Whether the factory makes a command of this payload.
    spec fn accepts(&self, payload: JsonView) -> bool;

    /// What the command made of this payload makes of a device's status.
    spec fn effect(&self, payload: JsonView, status: StatusView) -> StatusView;

    /// Makes a command of the payload, or refuses the payload. Which
    /// payloads a factory takes, and what its commands do, is the
    /// factory's own: [`Self::accepts`] and [`Self::effect`] say it.
    fn create(&self, payload: &Json) -> (made: Result<Box<dyn CommandHandler>, AppError>)
        ensures
            made is Ok <==> self.accepts(payload@),
            made matches Ok(command) ==> forall|status: StatusView| #[trigger]
                command.applied(status) == self.effect(payload@, status),
    ;
}

/// Switches a device on or off.
pub struct SetPowerCommand {
    pub power: bool,
}

/// A status with its power set and everything else as it was.
pub open spec fn with_power(status: StatusView, power: bool) -> StatusView {
    StatusView { power, ..status }
}

/// Puts a changed status back under the id of the device that it was read
/// for, with the channel and the time of the entry as they were.
fn store_status(state: &mut AppState, device_id: &str, entry: DeviceEntry)
    ensures
        final(state).device_view() == old(state).device_view().insert(device_id@, entry.status@),
        final(state).clients == old(state).clients,
{
    insert_device(&mut state.devices, device_id.to_owned(), entry);
}

impl CommandHandler for SetPowerCommand {
    open spec fn applied(&self, status: StatusView) -> StatusView {
        with_power(status, self.power)
    }

    /// Sets the power of the device registered under `device_id`.
    fn execute(&self, state: &mut AppState, device_id: &str) -> (outcome: Result<(), AppError>)
        ensures
            old(state).wf() ==> final(state).wf(),
    {
        match find_device(&state.devices, device_id) {
            None => Err(AppError::DeviceNotFound),
            Some(entry) => {
                let mut entry = entry;
                entry.status.power = self.power;
                store_status(state, device_id, entry);
                Ok(())
            },
        }
    }
}

/// What a payload says of the power to set: the boolean member `power`.
pub open spec fn payload_power(payload: crate::json::JsonView) -> Option<bool> {
    bool_field(payload, "power"@)
}

/// Reads a set-power command from a payload. It fails with `Internal`,
/// holding the words "Missing power field", unless the payload is an
/// object with a boolean member `power`.
pub fn create_set_power_command(payload: &Json) -> (made: Result<SetPowerCommand, AppError>)
    ensures
        match made {
            Ok(command) => payload_power(payload@) == Some(command.power),
            Err(AppError::Internal(cause)) => payload_power(payload@) is None && cause@
                == "Missing power field"@,
            Err(_) => false,
        },
{
    let power = match payload.get("power") {
        Some(value) => value.as_bool(),
        None => None,
    };
    match power {
        Some(power) => Ok(SetPowerCommand { power }),
        None => Err(AppError::Internal("Missing power field".to_owned())),
    }
}

/// The factory of set-power commands.
pub struct SetPowerCommandFactory;

impl CommandFactory for SetPowerCommandFactory {
    /// A payload is taken exactly when it is an object with a boolean
    /// member `power`.
    open spec fn accepts(&self, payload: JsonView) -> bool {
        payload_power(payload) is Some
    }

    /// The command sets the power to what the payload says.
    open spec fn effect(&self, payload: JsonView, status: StatusView) -> StatusView {
        with_power(status, payload_power(payload).unwrap())
    }

    /// Makes a set-power command of a payload that has a boolean member
    /// `power`, and refuses any other with `Internal`, holding the words
    /// "Missing power field".
    fn create(&self, payload: &Json) -> (made: Result<Box<dyn CommandHandler>, AppError>)
        ensures
            made matches Err(error) ==> error matches AppError::Internal(cause) && cause@
                == "Missing power field"@,
    {
        match create_set_power_command(payload) {
            Ok(command) => Ok(Box::new(command)),
            Err(error) => Err(error),
        }
    }
}

/// The registry holds the same devices as before, and each but the one
/// under `device_id` has the status that it had.
pub open spec fn only_status_changed(
    before: Map<Seq<char>, StatusView>,
    after: Map<Seq<char>, StatusView>,
    device_id: Seq<char>,
) -> bool {
    &&& before.dom().contains(device_id)
    &&& after.dom() == before.dom()
    &&& forall|other: Seq<char>|
        other != device_id && before.dom().contains(other) ==> #[trigger] after[other]
            == before[other]
}

/// Makes a command from a payload with the given factory and carries it
/// out on a device. The factory may be of any kind: new kinds are added by
/// writing a factory, and this function does not change.
///
/// It succeeds exactly when the factory takes the payload and the device
/// is registered; the cached status of that one device is then what the
/// command made of the payload makes of it, and nothing else has changed.
/// A payload that the factory refuses fails with the factory's error, and
/// a payload that it takes fails with `DeviceNotFound` for a device that
/// is not registered. A failure changes nothing.
pub fn dispatch(
    factory: &dyn CommandFactory,
    state: &mut AppState,
    payload: &Json,
    device_id: &str,
) -> (outcome: Result<(), AppError>)
    ensures
        outcome is Ok <==> factory.accepts(payload@) && old(state).device_view().dom().contains(
            device_id@,
        ),
        factory.accepts(payload@) && outcome is Err ==> outcome matches Err(
            AppError::DeviceNotFound,
        ),
        outcome is Ok ==> final(state).device_view() == old(state).device_view().insert(
            device_id@,
            factory.effect(payload@, old(state).device_view()[device_id@]),
        ),
        outcome is Ok ==> only_status_changed(
            old(state).device_view(),
            final(state).device_view(),
            device_id@,
        ),
        outcome is Err ==> final(state).device_view() == old(state).device_view(),
        final(state).clients == old(state).clients,
{
    match factory.create(payload) {
        Err(error) => Err(error),
        Ok(command) => {
            let outcome = command.execute(state, device_id);
            proof {
                if outcome is Ok {
                    assert(command.applied(old(state).device_view()[device_id@]) == factory.effect(
                        payload@,
                        old(state).device_view()[device_id@],
                    ));
                    assert(state.device_view().dom() =~= old(state).device_view().dom());
                }
            }
            outcome
        },
    }
}

} // verus!
