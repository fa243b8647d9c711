use vstd::prelude::*;
use tokio::time::Instant;
use crate::channel::{now, publish};
use crate::models::{AppState, DeviceEntry, DeviceStatus, MessageView, StatusView, WsMessage};
use crate::registry::{
    device_channels, device_ids_of, find_device, insert_device, remove_client, remove_device,
};

verus! {

/// The ids in a list of probe results, in order.
pub open spec fn probed_ids(probes: Seq<(String, bool)>) -> Seq<Seq<char>> {
    Seq::new(probes.len(), |i: int| probes[i].0@)
}

/// The ids whose probe found no subscriber, in the order of the probes.
pub open spec fn unresponsive(probes: Seq<(String, bool)>) -> Seq<Seq<char>>
    decreases probes.len(),
{
    if probes.len() == 0 {
        Seq::empty()
    } else if probes.last().1 {
        unresponsive(probes.drop_last())
    } else {
        unresponsive(probes.drop_last()).push(probes.last().0@)
    }
}

/// The characters of each id in a list.
pub open spec fn id_views(ids: Seq<String>) -> Seq<Seq<char>> {
    Seq::new(ids.len(), |i: int| ids[i]@)
}

/// Every id among the unresponsive ones belongs to a probe that failed,
/// and every failed probe's id is among them.
pub proof fn lemma_unresponsive_members(probes: Seq<(String, bool)>, id: Seq<char>)
    ensures
        unresponsive(probes).contains(id) <==> exists|i: int|
            0 <= i < probes.len() && !(#[trigger] probes[i]).1 && probes[i].0@ == id,
    decreases probes.len(),
{
    if probes.len() > 0 {
        let rest = probes.drop_last();
        lemma_unresponsive_members(rest, id);
        let last = probes.last();
        if unresponsive(probes).contains(id) {
            if !last.1 && last.0@ == id {
                assert(!probes[probes.len() - 1].1 && probes[probes.len() - 1].0@ == id);
            } else {
                if !last.1 {
                    let at = choose|k: int|
                        0 <= k < unresponsive(probes).len() && unresponsive(probes)[k] == id;
                    assert(unresponsive(rest)[at] == id);
                }
                assert(unresponsive(rest).contains(id));
                let i = choose|i: int|
                    0 <= i < rest.len() && !(#[trigger] rest[i]).1 && rest[i].0@ == id;
                assert(!probes[i].1 && probes[i].0@ == id);
            }
        }
        if exists|i: int| 0 <= i < probes.len() && !(#[trigger] probes[i]).1 && probes[i].0@ == id {
            let i = choose|i: int|
                0 <= i < probes.len() && !(#[trigger] probes[i]).1 && probes[i].0@ == id;
            if i < rest.len() {
                assert(!rest[i].1 && rest[i].0@ == id);
                assert(unresponsive(rest).contains(id));
                let at = choose|k: int|
                    0 <= k < unresponsive(rest).len() && unresponsive(rest)[k] == id;
                if !last.1 {
                    assert(unresponsive(probes)[at] == id);
                }
            } else {
                assert(unresponsive(probes).last() == id);
            }
        }
    }
}

/// Where no id was probed twice, none is listed twice as unresponsive.
pub proof fn lemma_unresponsive_distinct(probes: Seq<(String, bool)>)
    requires
        probed_ids(probes).no_duplicates(),
    ensures
        unresponsive(probes).no_duplicates(),
    decreases probes.len(),
{
    if probes.len() > 0 {
        let rest = probes.drop_last();
        assert forall|i: int, j: int|
            0 <= i < rest.len() && 0 <= j < rest.len() && i != j implies probed_ids(rest)[i]
            != probed_ids(rest)[j] by {
            assert(probed_ids(probes)[i] != probed_ids(probes)[j]);
        }
        lemma_unresponsive_distinct(rest);
        let last = probes.last();
        if !last.1 {
            lemma_unresponsive_members(rest, last.0@);
            if unresponsive(rest).contains(last.0@) {
                let i = choose|i: int|
                    0 <= i < rest.len() && !(#[trigger] rest[i]).1 && rest[i].0@ == last.0@;
                assert(probed_ids(probes)[i] == probed_ids(probes)[probes.len() - 1]);
            }
        }
    }
}

/// A device whose probe found no subscriber is gone after the sweep, and
/// a device that no failed probe names is kept as it was.
pub proof fn lemma_sweep_evicts(
    devices: Map<Seq<char>, StatusView>,
    probes: Seq<(String, bool)>,
    id: Seq<char>,
)
    ensures
        (exists|i: int| 0 <= i < probes.len() && !(#[trigger] probes[i]).1 && probes[i].0@ == id)
            ==> !devices.remove_keys(unresponsive(probes).to_set()).dom().contains(id),
        devices.dom().contains(id) && !(exists|i: int|
            0 <= i < probes.len() && !(#[trigger] probes[i]).1 && probes[i].0@ == id)
            ==> devices.remove_keys(unresponsive(probes).to_set()).dom().contains(id)
            && devices.remove_keys(unresponsive(probes).to_set())[id] == devices[id],
{
    lemma_unresponsive_members(probes, id);
}

/// Taking a device out twice leaves the registry as taking it out once
/// does, and taking out a device that is not there changes nothing.
pub proof fn lemma_remove_idempotent(devices: Map<Seq<char>, StatusView>, id: Seq<char>)
    ensures
        devices.remove(id).remove(id) == devices.remove(id),
        !devices.remove(id).dom().contains(id),
        !devices.dom().contains(id) ==> devices.remove(id) == devices,
{
    assert(devices.remove(id).remove(id) =~= devices.remove(id));
    if !devices.dom().contains(id) {
        assert(devices.remove(id) =~= devices);
    }
}

impl AppState {
    /// The cached status of a device, if it is registered.
    pub fn status_of(&self, device_id: &str) -> (status: Option<DeviceStatus>)
        ensures
            status is Some == self.device_view().dom().contains(device_id@),
            status matches Some(s) ==> s@ == self.device_view()[device_id@],
    {
        match find_device(&self.devices, device_id) {
            Some(entry) => Some(entry.status),
            None => None,
        }
    }
}

/// What noting a device as heard of at `seen` does to the times kept: a
/// registered device gets that time, and for a device that is not
/// registered nothing is noted.
pub open spec fn seen_after(
    times: Map<Seq<char>, Instant>,
    device_id: Seq<char>,
    seen: Option<Instant>,
) -> Map<Seq<char>, Instant> {
    match seen {
        Some(at) => times.insert(device_id, at),
        None => times,
    }
}

/// Notes that a device was heard of just now, if it is still registered,
/// and hands out the time noted: the entry of a registered device then
/// keeps that time as the last at which the device was heard of, and for
/// a device that is not registered nothing is noted. The registry holds
/// the same devices with the same statuses as before.
pub fn touch_device(state: &mut AppState, device_id: &str) -> (seen: Option<Instant>)
    ensures
        seen is Some == old(state).device_view().dom().contains(device_id@),
        final(state).seen_view() == seen_after(old(state).seen_view(), device_id@, seen),
        final(state).device_view() == old(state).device_view(),
        final(state).clients == old(state).clients,
        old(state).wf() ==> final(state).wf(),
{
    match find_device(&state.devices, device_id) {
        Some(entry) => {
            let at = now();
            let noted = DeviceEntry { tx: entry.tx, status: entry.status, last_seen: at };
            insert_device(&mut state.devices, device_id.to_owned(), noted);
            assert(state.device_view() =~= old(state).device_view());
            Some(at)
        },
        None => None,
    }
}

/// Takes a device out of the registry when its connection is gone. Doing
/// so again, or for a device that is not registered, changes nothing.
pub fn cleanup_device_connection(device_id: &str, state: &mut AppState)
    ensures
        final(state).device_view() == old(state).device_view().remove(device_id@),
        !final(state).device_view().dom().contains(device_id@),
        !old(state).device_view().dom().contains(device_id@) ==> final(state).device_view() == old(
            state,
        ).device_view(),
        final(state).clients == old(state).clients,
        old(state).wf() ==> final(state).wf(),
{
    proof {
        lemma_remove_idempotent(state.device_view(), device_id@);
    }
    remove_device(&mut state.devices, device_id);
}

/// Takes a client out of the registry when its connection is gone. Doing
/// so again, or for a client that is not connected, changes nothing.
pub fn cleanup_client_connection(client_id: u128, state: &mut AppState)
    ensures
        final(state).client_view() == old(state).client_view().remove(client_id),
        !final(state).client_view().contains(client_id),
        !old(state).client_view().contains(client_id) ==> final(state).client_view() == old(
            state,
        ).client_view(),
        final(state).devices == old(state).devices,
{
    remove_client(&mut state.clients, client_id);
    proof {
        if !old(state).client_view().contains(client_id) {
            assert(state.client_view() =~= old(state).client_view());
        }
    }
}

/// Publishes a status request on the channel of every registered device.
/// The result names each registered device once, with whether its channel
/// had a subscriber to take the request.
pub fn probe_devices(state: &AppState) -> (probes: Vec<(String, bool)>)
    ensures
        probed_ids(probes@).no_duplicates(),
        probed_ids(probes@).to_set() == state.device_view().dom(),
{
    let channels = device_channels(&state.devices);
    let mut probes: Vec<(String, bool)> = Vec::new();
    let mut i: usize = 0;
    while i < channels.len()
        invariant
            i <= channels.len(),
            probes.len() == i,
            forall|k: int| 0 <= k < i ==> (#[trigger] probes[k]).0@ == channels[k].0@,
        decreases channels.len() - i,
    {
        let request = WsMessage::StatusRequest { device_id: channels[i].0.clone() };
        assert(request@ == MessageView::StatusRequest { device_id: channels[i as int].0@ });
        let delivered = publish(&channels[i].1, request);
        probes.push((channels[i].0.clone(), delivered));
        i = i + 1;
    }
    assert(probed_ids(probes@) =~= device_ids_of(channels@));
    probes
}

/// Takes out of the registry every device whose probe found no
/// subscriber, and lists the ids taken out, in the order of the probes.
pub fn evict_unresponsive(state: &mut AppState, probes: &Vec<(String, bool)>) -> (evicted: Vec<
    String,
>)
    ensures
        id_views(evicted@) == unresponsive(probes@),
        final(state).device_view() == old(state).device_view().remove_keys(
            unresponsive(probes@).to_set(),
        ),
        final(state).clients == old(state).clients,
        old(state).wf() ==> final(state).wf(),
{
    let mut evicted: Vec<String> = Vec::new();
    let mut i: usize = 0;
    assert(probes@.take(0) =~= Seq::<(String, bool)>::empty());
    assert(id_views(evicted@) =~= unresponsive(probes@.take(0)));
    assert(state.device_view() =~= old(state).device_view().remove_keys(
        unresponsive(probes@.take(0)).to_set(),
    ));
    while i < probes.len()
        invariant
            i <= probes.len(),
            id_views(evicted@) == unresponsive(probes@.take(i as int)),
            state.device_view() == old(state).device_view().remove_keys(
                unresponsive(probes@.take(i as int)).to_set(),
            ),
            state.clients == old(state).clients,
        decreases probes.len() - i,
    {
        let ghost before = probes@.take(i as int);
        let ghost after = probes@.take(i + 1);
        assert(after.drop_last() =~= before);
        assert(after.last() == probes@[i as int]);
        if !probes[i].1 {
            remove_device(&mut state.devices, probes[i].0.as_str());
            evicted.push(probes[i].0.clone());
            proof {
                let id = probes@[i as int].0@;
                unresponsive(before).lemma_push_to_set_commute(id);
                assert(id_views(evicted@) =~= unresponsive(before).push(id));
                assert(state.device_view() =~= old(state).device_view().remove_keys(
                    unresponsive(after).to_set(),
                ));
            }
        }
        i = i + 1;
    }
    assert(probes@.take(i as int) =~= probes@);
    evicted
}

/// What one liveness sweep found and did.
pub struct SweepReport {
    /// Every device that was registered when the sweep began, each once,
    /// with whether its channel had a subscriber to take the status
    /// request.
    pub probes: Vec<(String, bool)>,
    /// The devices that the sweep took out of the registry: those whose
    /// probe found no subscriber, in the order of the probes.
    pub evicted: Vec<String>,
}

/// One liveness sweep: publishes a status request on the channel of
/// every registered device, and takes out of the registry each device
/// whose channel had no subscriber to take it.
///
/// Whether a channel has a subscriber depends on the device's
/// connection, so the report says what was found: every device that was
/// registered is probed exactly once, the devices taken out are exactly
/// those whose probe failed, and every other device is kept as it was.
pub fn check_device_statuses(state: &mut AppState) -> (report: SweepReport)
    ensures
        probed_ids(report.probes@).no_duplicates(),
        probed_ids(report.probes@).to_set() == old(state).device_view().dom(),
        id_views(report.evicted@) == unresponsive(report.probes@),
        id_views(report.evicted@).no_duplicates(),
        id_views(report.evicted@).to_set().subset_of(old(state).device_view().dom()),
        final(state).device_view() == old(state).device_view().remove_keys(
            id_views(report.evicted@).to_set(),
        ),
        final(state).clients == old(state).clients,
        old(state).wf() ==> final(state).wf(),
{
    let probes = probe_devices(state);
    proof {
        lemma_unresponsive_distinct(probes@);
        assert forall|id: Seq<char>| unresponsive(probes@).to_set().contains(id) implies old(
            state,
        ).device_view().dom().contains(id) by {
            lemma_unresponsive_members(probes@, id);
            let i = choose|i: int|
                0 <= i < probes@.len() && !(#[trigger] probes@[i]).1 && probes@[i].0@ == id;
            assert(probed_ids(probes@)[i] == id);
            assert(probed_ids(probes@).to_set().contains(id));
        }
    }
    let evicted = evict_unresponsive(state, &probes);
    SweepReport { probes, evicted }
}

} // verus!
