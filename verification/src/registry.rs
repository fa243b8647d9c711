use vstd::prelude::*;
use dashmap::DashMap;
use tokio::sync::broadcast::Sender;
use tokio::time::Instant;
use crate::models::{DeviceEntry, StatusView, WsMessage};

verus! {

/// `dashmap::DashMap`, the concurrent map that both registries are kept
/// in. What a registry holds is known only through the two names below
/// and the functions that speak of them.
#[verifier::external_type_specification]
#[verifier::external_body]
#[verifier::reject_recursive_types(K)]
#[verifier::reject_recursive_types(V)]
#[verifier::reject_recursive_types(S)]
pub struct ExDashMap<K, V, S>(DashMap<K, V, S>);

/// What the device registry holds: for each registered device id, the
/// status cached in its entry.
pub uninterp spec fn device_statuses(devices: DashMap<String, DeviceEntry>) -> Map<
    Seq<char>,
    StatusView,
>;

/// When each registered device was last heard of: for each registered
/// device id, the time kept in its entry.
pub uninterp spec fn device_last_seen(devices: DashMap<String, DeviceEntry>) -> Map<
    Seq<char>,
    Instant,
>;

/// What the client registry holds: the ids of the connected clients.
pub uninterp spec fn client_ids(clients: DashMap<u128, Sender<WsMessage>>) -> Set<u128>;

/// The ids in a list of device channels, in order.
pub open spec fn device_ids_of(channels: Seq<(String, Sender<WsMessage>)>) -> Seq<Seq<char>> {
    Seq::new(channels.len(), |i: int| channels[i].0@)
}

/// The ids in a list of client channels, in order.
pub open spec fn client_ids_of(channels: Seq<(u128, Sender<WsMessage>)>) -> Seq<u128> {
    Seq::new(channels.len(), |i: int| channels[i].0)
}

/// Calls `DashMap::new`: the new map is empty.
#[verifier::external_body]
pub(crate) fn new_devices() -> (devices: DashMap<String, DeviceEntry>)
    ensures
        device_statuses(devices).dom() == Set::<Seq<char>>::empty(),
        device_last_seen(devices).dom() == Set::<Seq<char>>::empty(),
{
    DashMap::new()
}

/// Calls `DashMap::insert`, which puts the entry under the key and
/// replaces an entry that was there: the key then has the entry's status
/// and the entry's time. The caller holds the map exclusively, so nothing
/// else changes it meanwhile.
#[verifier::external_body]
pub(crate) fn insert_device(
    devices: &mut DashMap<String, DeviceEntry>,
    device_id: String,
    entry: DeviceEntry,
)
    ensures
        device_statuses(*final(devices)) == device_statuses(*old(devices)).insert(
            device_id@,
            entry.status@,
        ),
        device_last_seen(*final(devices)) == device_last_seen(*old(devices)).insert(
            device_id@,
            entry.last_seen,
        ),
{
    devices.insert(device_id, entry);
}

/// Calls `DashMap::remove`, which takes the entry under the key out if
/// there is one, and says whether there was one.
#[verifier::external_body]
pub(crate) fn remove_device(devices: &mut DashMap<String, DeviceEntry>, device_id: &str) -> (removed:
    bool)
    ensures
        device_statuses(*final(devices)) == device_statuses(*old(devices)).remove(device_id@),
        device_last_seen(*final(devices)) == device_last_seen(*old(devices)).remove(device_id@),
        removed == device_statuses(*old(devices)).dom().contains(device_id@),
{
    devices.remove(device_id).is_some()
}

/// Calls `DashMap::get` and hands out a copy of the entry found: there is
/// one exactly when the key is in the map, and it carries the status and
/// the time held there.
#[verifier::external_body]
pub(crate) fn find_device(devices: &DashMap<String, DeviceEntry>, device_id: &str) -> (found: Option<
    DeviceEntry,
>)
    ensures
        found is Some == device_statuses(*devices).dom().contains(device_id@),
        found is Some == device_last_seen(*devices).dom().contains(device_id@),
        found matches Some(entry) ==> entry.status@ == device_statuses(*devices)[device_id@],
        found matches Some(entry) ==> entry.last_seen == device_last_seen(*devices)[device_id@],
{
    devices.get(device_id).map(|entry| entry.value().clone())
}

/// Calls `DashMap::iter` and hands out each key with a handle on its
/// entry's channel: every key of the map once, in no stated order.
#[verifier::external_body]
pub(crate) fn device_channels(devices: &DashMap<String, DeviceEntry>) -> (channels: Vec<
    (String, Sender<WsMessage>),
>)
    ensures
        device_ids_of(channels@).no_duplicates(),
        device_ids_of(channels@).to_set() == device_statuses(*devices).dom(),
{
    devices.iter().map(|entry| (entry.key().clone(), entry.value().tx.clone())).collect()
}

/// Calls `DashMap::new`: the new map is empty.
#[verifier::external_body]
pub(crate) fn new_clients() -> (clients: DashMap<u128, Sender<WsMessage>>)
    ensures
        client_ids(clients) == Set::<u128>::empty(),
{
    DashMap::new()
}

/// Calls `DashMap::insert`, which puts the channel under the id and
/// replaces one that was there.
#[verifier::external_body]
pub(crate) fn insert_client(
    clients: &mut DashMap<u128, Sender<WsMessage>>,
    client_id: u128,
    tx: Sender<WsMessage>,
)
    ensures
        client_ids(*final(clients)) == client_ids(*old(clients)).insert(client_id),
{
    clients.insert(client_id, tx);
}

/// Calls `DashMap::remove`, which takes the channel under the id out if
/// there is one, and says whether there was one.
#[verifier::external_body]
pub(crate) fn remove_client(clients: &mut DashMap<u128, Sender<WsMessage>>, client_id: u128) -> (removed:
    bool)
    ensures
        client_ids(*final(clients)) == client_ids(*old(clients)).remove(client_id),
        removed == client_ids(*old(clients)).contains(client_id),
{
    clients.remove(&client_id).is_some()
}

/// Calls `DashMap::iter` and hands out each id with a handle on its
/// channel: every id of the map once, in no stated order.
#[verifier::external_body]
pub(crate) fn client_channels(clients: &DashMap<u128, Sender<WsMessage>>) -> (channels: Vec<
    (u128, Sender<WsMessage>),
>)
    ensures
        client_ids_of(channels@).no_duplicates(),
        client_ids_of(channels@).to_set() == client_ids(*clients),
{
    clients.iter().map(|entry| (*entry.key(), entry.value().clone())).collect()
}

} // verus!
