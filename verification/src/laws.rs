//! What holds of the store in every state and across its operations.

use vstd::prelude::*;
use crate::domain::DeviceType;
use crate::errors::StoreError;
use crate::ident::Id;
use crate::model::DeviceEntry;
use crate::model::DeviceRecord;
use crate::model::RoomRecord;
use crate::model::Snapshot;
use crate::seq_facts::lemma_filter_keeps_each;
use crate::seq_facts::lemma_filter_keeps_pairs;
use crate::seq_facts::lemma_filter_none;
use crate::seq_facts::lemma_filter_one_in;
use crate::seq_facts::lemma_filter_one_out;

verus! {

/// The empty store obeys the rules.
pub proof fn law_empty_is_valid()
    ensures
        Snapshot::empty().wf(),
{
}

/// In a valid store the room called `name` is the only one of that name, and
/// the only one with its identifier.
pub proof fn law_room_is_unique(s: Snapshot, name: Seq<char>, i: int)
    requires
        s.wf(),
        0 <= i < s.rooms.len(),
    ensures
        s.rooms[i].name == name ==> s.has_room(name) && s.room_id(name) == s.rooms[i].id,
        s.has_room(name) && s.rooms[i].id == s.room_id(name) ==> s.rooms[i].name == name,
{
    if s.has_room(name) {
        let k = choose|k: int| 0 <= k < s.rooms.len() && (#[trigger] s.rooms[k]).name == name;
        if s.rooms[i].name == name && i != k {
            assert(s.rooms[i].name != s.rooms[k].name);
        }
        if s.rooms[i].id == s.room_id(name) && i != k {
            assert(s.rooms[i].id.value != s.rooms[k].id.value);
        }
    }
}

/// In a valid store the device called `name` in the room `room_id` is the
/// only one of that name there.
pub proof fn law_device_is_unique(s: Snapshot, room_id: Id, name: Seq<char>, i: int)
    requires
        s.wf(),
        0 <= i < s.devices.len(),
        s.devices[i].room_id == room_id,
        s.devices[i].name == name,
    ensures
        s.has_device(room_id, name),
        s.device_id(room_id, name) == s.devices[i].id,
{
    let k = choose|k: int|
        0 <= k < s.devices.len() && (#[trigger] s.devices[k]).room_id == room_id
            && s.devices[k].name == name;
    if i != k {
        assert(s.devices[i].name != s.devices[k].name);
    }
}

/// Adding a room to a valid store that has none of that name leaves a valid
/// store.
pub proof fn law_add_room_keeps_valid(s: Snapshot, name: Seq<char>)
    requires
        s.wf(),
        !s.rooms_full(),
    ensures
        s.add_room(name).1.wf(),
{
    if !s.has_room(name) {
        let t = s.with_room(name);
        assert forall|i: int| 0 <= i < t.devices.len() implies t.has_room_id(
            (#[trigger] t.devices[i]).room_id,
        ) by {
            assert(s.has_room_id(s.devices[i].room_id));
            let k = choose|k: int|
                0 <= k < s.rooms.len() && (#[trigger] s.rooms[k]).id == s.devices[i].room_id;
            assert(t.rooms[k].id == t.devices[i].room_id);
        }
    }
}

/// Removing a room from a valid store leaves a valid store: the devices of the
/// room go with it, so none is left without a room.
pub proof fn law_remove_room_keeps_valid(s: Snapshot, name: Seq<char>)
    requires
        s.wf(),
    ensures
        s.remove_room(name).1.wf(),
{
    if s.has_room(name) {
        let t = s.without_room(name);
        let room_id = s.room_id(name);
        let keep_room = |room: RoomRecord| room.name != name;
        let keep_device = |device: DeviceRecord| device.room_id != room_id;
        lemma_filter_keeps_each(
            s.rooms,
            keep_room,
            |room: RoomRecord| room.id.value < s.rooms_issued,
        );
        lemma_filter_keeps_pairs(
            s.rooms,
            keep_room,
            |a: RoomRecord, b: RoomRecord| a.id.value < b.id.value,
        );
        lemma_filter_keeps_pairs(s.rooms, keep_room, |a: RoomRecord, b: RoomRecord| a.name != b.name);
        lemma_devices_stay_valid(s, keep_device);
        assert forall|i: int| 0 <= i < t.devices.len() implies t.has_room_id(
            (#[trigger] t.devices[i]).room_id,
        ) by {
            let device = t.devices[i];
            s.devices.lemma_filter_pred(keep_device, i);
            assert(s.has_room_id(device.room_id));
            let k = choose|k: int|
                0 <= k < s.rooms.len() && (#[trigger] s.rooms[k]).id == device.room_id;
            law_room_is_unique(s, name, k);
            s.rooms.lemma_filter_contains(keep_room, k);
            let m = choose|m: int| 0 <= m < t.rooms.len() && t.rooms[m] == s.rooms[k];
            assert(t.rooms[m].id == device.room_id);
        }
    }
}

/// Adding a device to a valid store leaves a valid store.
pub proof fn law_add_device_keeps_valid(
    s: Snapshot,
    room_name: Seq<char>,
    name: Seq<char>,
    device_type: DeviceType,
)
    requires
        s.wf(),
        !s.devices_full(),
    ensures
        s.add_device(room_name, name, device_type).1.wf(),
{
    if s.add_device(room_name, name, device_type).0 is Ok {
        let t = s.with_device(room_name, name, device_type);
        let k = choose|k: int| 0 <= k < s.rooms.len() && (#[trigger] s.rooms[k]).name == room_name;
        assert(s.rooms[k].id == s.room_id(room_name));
        assert(t.has_room_id(s.room_id(room_name)));
        assert forall|i: int| 0 <= i < t.devices.len() implies t.has_room_id(
            (#[trigger] t.devices[i]).room_id,
        ) by {
            if i < s.devices.len() {
                assert(s.has_room_id(s.devices[i].room_id));
            }
        }
    }
}

/// Removing a device from a valid store leaves a valid store.
pub proof fn law_remove_device_keeps_valid(s: Snapshot, room_name: Seq<char>, name: Seq<char>)
    requires
        s.wf(),
    ensures
        s.remove_device(room_name, name).1.wf(),
{
    if s.remove_device(room_name, name).0 is Ok {
        let room_id = s.room_id(room_name);
        lemma_devices_stay_valid(
            s,
            |device: DeviceRecord| !(device.room_id == room_id && device.name == name),
        );
    }
}

/// Dropping devices from a valid store breaks no rule.
pub proof fn lemma_devices_stay_valid(s: Snapshot, keep: spec_fn(DeviceRecord) -> bool)
    requires
        s.wf(),
    ensures
        (Snapshot { devices: s.devices.filter(keep), ..s }).wf(),
{
    lemma_filter_keeps_each(
        s.devices,
        keep,
        |device: DeviceRecord| device.id.value < s.devices_issued,
    );
    lemma_filter_keeps_pairs(
        s.devices,
        keep,
        |a: DeviceRecord, b: DeviceRecord| a.id.value < b.id.value,
    );
    lemma_filter_keeps_pairs(
        s.devices,
        keep,
        |a: DeviceRecord, b: DeviceRecord| a.room_id == b.room_id ==> a.name != b.name,
    );
    lemma_filter_keeps_each(s.devices, keep, |device: DeviceRecord| s.has_room_id(device.room_id));
}

/// The store that a run of `add_room` calls, one for each of `names` in turn,
/// makes of `s`.
pub open spec fn after_adding_rooms(s: Snapshot, names: Seq<Seq<char>>) -> Snapshot
    decreases names.len(),
{
    if names.len() == 0 {
        s
    } else {
        after_adding_rooms(s, names.drop_last()).add_room(names.last()).1
    }
}

/// Whatever run of `add_room` calls a valid store goes through, it stays
/// valid: no two of its rooms share a name.
pub proof fn law_added_rooms_differ_in_name(s: Snapshot, names: Seq<Seq<char>>)
    requires
        s.wf(),
        s.rooms_issued + names.len() <= u64::MAX,
    ensures
        after_adding_rooms(s, names).wf(),
        after_adding_rooms(s, names).room_names_unique(),
        after_adding_rooms(s, names).rooms_issued <= s.rooms_issued + names.len(),
    decreases names.len(),
{
    if names.len() > 0 {
        law_added_rooms_differ_in_name(s, names.drop_last());
        law_add_room_keeps_valid(after_adding_rooms(s, names.drop_last()), names.last());
    }
}

/// In a run of `add_room` calls, a call that repeats the name of an earlier
/// call is refused as a duplicate and changes nothing.
pub proof fn law_repeated_room_is_refused(s: Snapshot, names: Seq<Seq<char>>, i: int, j: int)
    requires
        0 <= i < j < names.len(),
        names[i] == names[j],
    ensures
        ({
            let before = after_adding_rooms(s, names.take(j));
            before.add_room(names[j]) == (Err::<(), StoreError>(StoreError::DuplicateName), before)
        }),
{
    lemma_asked_room_exists(s, names, i, j);
}

/// In a run of `add_room` calls, the room that one call asked for exists
/// after every later call.
pub proof fn lemma_asked_room_exists(s: Snapshot, names: Seq<Seq<char>>, i: int, k: int)
    requires
        0 <= i < k <= names.len(),
    ensures
        after_adding_rooms(s, names.take(k)).has_room(names[i]),
    decreases k,
{
    let earlier = after_adding_rooms(s, names.take(k - 1));
    assert(names.take(k).drop_last() == names.take(k - 1));
    assert(names.take(k).last() == names[k - 1]);
    if k - 1 == i {
        law_second_room_is_refused(earlier, names[i]);
    } else {
        lemma_asked_room_exists(s, names, i, k - 1);
        lemma_add_room_keeps_rooms(earlier, names[k - 1], names[i]);
    }
}

/// Adding a room removes none.
pub proof fn lemma_add_room_keeps_rooms(s: Snapshot, name: Seq<char>, other: Seq<char>)
    requires
        s.has_room(other),
    ensures
        s.add_room(name).1.has_room(other),
{
    let i = choose|i: int| 0 <= i < s.rooms.len() && (#[trigger] s.rooms[i]).name == other;
    assert(s.add_room(name).1.rooms[i].name == other);
}

/// Once a room called `name` was asked for, asking again is refused as a
/// duplicate and changes nothing.
pub proof fn law_second_room_is_refused(s: Snapshot, name: Seq<char>)
    ensures
        ({
            let t = s.add_room(name).1;
            t.add_room(name) == (Err::<(), StoreError>(StoreError::DuplicateName), t)
        }),
{
    if !s.has_room(name) {
        let t = s.with_room(name);
        assert(t.rooms[s.rooms.len() as int].name == name);
    }
}

/// A device name may be used once in each room: after a device of that name
/// was added to one room, another room still takes one of that name, and the
/// first room refuses a second, of whatever kind.
pub proof fn law_device_names_are_per_room(
    s: Snapshot,
    room: Seq<char>,
    other_room: Seq<char>,
    name: Seq<char>,
    device_type: DeviceType,
    other_type: DeviceType,
)
    requires
        s.wf(),
        s.has_room(room),
        s.has_room(other_room),
        room != other_room,
        !s.has_device(s.room_id(room), name),
        !s.has_device(s.room_id(other_room), name),
    ensures
        ({
            let (first, t) = s.add_device(room, name, device_type);
            let (second, u) = t.add_device(other_room, name, device_type);
            let (third, v) = u.add_device(room, name, other_type);
            &&& first is Ok
            &&& second is Ok
            &&& third == Err::<(), StoreError>(StoreError::DuplicateDeviceName)
            &&& v == u
        }),
{
    let t = s.with_device(room, name, device_type);
    let u = t.with_device(other_room, name, device_type);
    let i = choose|i: int| 0 <= i < s.rooms.len() && (#[trigger] s.rooms[i]).name == room;
    law_room_is_unique(s, other_room, i);
    assert(t.devices[s.devices.len() as int].room_id == s.room_id(room));
    assert(u.devices[s.devices.len() as int].room_id == s.room_id(room));
    assert(!t.has_device(s.room_id(other_room), name)) by {
        if t.has_device(s.room_id(other_room), name) {
            let k = choose|k: int|
                0 <= k < t.devices.len() && (#[trigger] t.devices[k]).room_id == s.room_id(
                    other_room,
                ) && t.devices[k].name == name;
            if k < s.devices.len() {
                assert(s.devices[k] == t.devices[k]);
            }
        }
    }
}

/// Removing a room takes its devices with it: afterwards no room has that
/// name or that identifier, no device names the removed room, the room cannot
/// be listed, and every device that is left has its room.
pub proof fn law_remove_room_cascades(s: Snapshot, name: Seq<char>)
    requires
        s.wf(),
        s.has_room(name),
    ensures
        ({
            let (outcome, t) = s.remove_room(name);
            &&& outcome is Ok
            &&& !t.has_room(name)
            &&& !t.has_room_id(s.room_id(name))
            &&& forall|i: int|
                0 <= i < t.devices.len() ==> (#[trigger] t.devices[i]).room_id != s.room_id(name)
            &&& t.devices_of(s.room_id(name)) == Seq::<DeviceRecord>::empty()
            &&& t.list_devices(name) == Err::<Seq<DeviceEntry>, StoreError>(
                StoreError::RoomNotFound,
            )
            &&& t.devices_owned()
        }),
{
    let t = s.without_room(name);
    let room_id = s.room_id(name);
    let keep_room = |room: RoomRecord| room.name != name;
    let keep_device = |device: DeviceRecord| device.room_id != room_id;
    law_remove_room_keeps_valid(s, name);
    assert forall|i: int| 0 <= i < t.rooms.len() implies (#[trigger] t.rooms[i]).name != name
        && t.rooms[i].id != room_id by {
        s.rooms.lemma_filter_pred(keep_room, i);
        s.rooms.lemma_filter_contains_rev(keep_room, t.rooms[i]);
        let k = choose|k: int| 0 <= k < s.rooms.len() && s.rooms[k] == t.rooms[i];
        law_room_is_unique(s, name, k);
    }
    assert forall|i: int| 0 <= i < t.devices.len() implies (#[trigger] t.devices[i]).room_id
        != room_id by {
        s.devices.lemma_filter_pred(keep_device, i);
    }
    lemma_filter_none(t.devices, |device: DeviceRecord| device.room_id == room_id);
}

/// After a device was removed from a room, the room has no device of that
/// name; the other devices, of this room and of the others, stay.
pub proof fn law_removed_device_is_gone(s: Snapshot, room_name: Seq<char>, name: Seq<char>)
    requires
        s.wf(),
        s.remove_device(room_name, name).0 is Ok,
    ensures
        ({
            let t = s.remove_device(room_name, name).1;
            let room_id = s.room_id(room_name);
            &&& !t.has_device(room_id, name)
            &&& t.devices.len() == s.devices.len() - 1
            &&& forall|i: int|
                0 <= i < s.devices.len() && !((#[trigger] s.devices[i]).room_id == room_id
                    && s.devices[i].name == name) ==> t.devices.contains(s.devices[i])
        }),
{
    let t = s.without_device(room_name, name);
    let room_id = s.room_id(room_name);
    let keep = |device: DeviceRecord| !(device.room_id == room_id && device.name == name);
    if t.has_device(room_id, name) {
        let k = choose|k: int|
            0 <= k < t.devices.len() && (#[trigger] t.devices[k]).room_id == room_id
                && t.devices[k].name == name;
        s.devices.lemma_filter_pred(keep, k);
    }
    let at = choose|at: int|
        0 <= at < s.devices.len() && (#[trigger] s.devices[at]).room_id == room_id
            && s.devices[at].name == name;
    assert forall|i: int| 0 <= i < s.devices.len() && i != at implies keep(
        #[trigger] s.devices[i],
    ) by {
        if !keep(s.devices[i]) {
            if i < at {
                assert(s.devices[i].name != s.devices[at].name);
            } else {
                assert(s.devices[at].name != s.devices[i].name);
            }
        }
    }
    lemma_filter_one_out(s.devices, keep, at);
    assert forall|i: int|
        0 <= i < s.devices.len() && keep(#[trigger] s.devices[i]) implies t.devices.contains(
        s.devices[i],
    ) by {
        s.devices.lemma_filter_contains(keep, i);
    }
}

/// A room that is removed and added again under its old name gets an
/// identifier that it did not have before, and that no room had.
pub proof fn law_readded_room_is_renumbered(s: Snapshot, name: Seq<char>)
    requires
        s.wf(),
        s.has_room(name),
        !s.rooms_full(),
    ensures
        ({
            let (removed, t) = s.remove_room(name);
            let (added, u) = t.add_room(name);
            &&& removed is Ok
            &&& added is Ok
            &&& u.has_room(name)
            &&& u.room_id(name) != s.room_id(name)
            &&& !s.has_room_id(u.room_id(name))
        }),
{
    let t = s.without_room(name);
    law_remove_room_cascades(s, name);
    law_remove_room_keeps_valid(s, name);
    let u = t.with_room(name);
    law_add_room_keeps_valid(t, name);
    let last = t.rooms.len() as int;
    assert(u.rooms[last].name == name);
    law_room_is_unique(u, name, last);
    assert(u.room_id(name).value == s.rooms_issued);
    let k = choose|k: int| 0 <= k < s.rooms.len() && (#[trigger] s.rooms[k]).name == name;
    assert(s.rooms[k].id.value < s.rooms_issued);
    assert(!s.has_room_id(u.room_id(name))) by {
        if s.has_room_id(u.room_id(name)) {
            let m = choose|m: int|
                0 <= m < s.rooms.len() && (#[trigger] s.rooms[m]).id == u.room_id(name);
            assert(s.rooms[m].id.value < s.rooms_issued);
        }
    }
}

/// No operation takes back an identifier: the count of those that a table
/// has given out never falls, and only adding to the table raises it.
pub proof fn law_issued_counts_never_fall(
    s: Snapshot,
    room_name: Seq<char>,
    name: Seq<char>,
    device_type: DeviceType,
)
    ensures
        s.add_room(name).1.rooms_issued >= s.rooms_issued,
        s.add_room(name).1.devices_issued == s.devices_issued,
        s.remove_room(name).1.rooms_issued == s.rooms_issued,
        s.remove_room(name).1.devices_issued == s.devices_issued,
        s.add_device(room_name, name, device_type).1.devices_issued >= s.devices_issued,
        s.add_device(room_name, name, device_type).1.rooms_issued == s.rooms_issued,
        s.remove_device(room_name, name).1.rooms_issued == s.rooms_issued,
        s.remove_device(room_name, name).1.devices_issued == s.devices_issued,
{
}

/// A room that is added gets the identifier that the count of those given
/// out stands at: one above every identifier in the table, and so held by no
/// room. The rooms that were there keep theirs.
pub proof fn law_new_room_is_numbered_afresh(s: Snapshot, name: Seq<char>)
    requires
        s.wf(),
        !s.has_room(name),
        !s.rooms_full(),
    ensures
        ({
            let t = s.add_room(name).1;
            &&& t.room_id(name).value == s.rooms_issued
            &&& !s.has_room_id(t.room_id(name))
            &&& forall|i: int|
                0 <= i < s.rooms.len() ==> t.rooms[i] == #[trigger] s.rooms[i]
                    && s.rooms[i].id.value < t.room_id(name).value
        }),
{
    let t = s.with_room(name);
    let last = s.rooms.len() as int;
    law_add_room_keeps_valid(s, name);
    assert(t.rooms[last].name == name);
    law_room_is_unique(t, name, last);
    if s.has_room_id(t.room_id(name)) {
        let m = choose|m: int|
            0 <= m < s.rooms.len() && (#[trigger] s.rooms[m]).id == t.room_id(name);
        assert(s.rooms[m].id.value < s.rooms_issued);
    }
}

/// A device that is added gets the identifier that the count of those given
/// out stands at: one above every identifier in the table. The devices that
/// were there keep theirs.
pub proof fn law_new_device_is_numbered_afresh(
    s: Snapshot,
    room_name: Seq<char>,
    name: Seq<char>,
    device_type: DeviceType,
)
    requires
        s.wf(),
        s.add_device(room_name, name, device_type).0 is Ok,
        !s.devices_full(),
    ensures
        ({
            let t = s.add_device(room_name, name, device_type).1;
            let room_id = s.room_id(room_name);
            &&& t.has_device(room_id, name)
            &&& t.device_id(room_id, name).value == s.devices_issued
            &&& forall|i: int|
                0 <= i < s.devices.len() ==> t.devices[i] == #[trigger] s.devices[i]
                    && s.devices[i].id.value < t.device_id(room_id, name).value
        }),
{
    let t = s.with_device(room_name, name, device_type);
    let last = s.devices.len() as int;
    law_add_device_keeps_valid(s, room_name, name, device_type);
    assert(t.devices[last].name == name);
    law_device_is_unique(t, s.room_id(room_name), name, last);
}

/// How often `name` stands in `names`.
pub open spec fn occurrences(names: Seq<Seq<char>>, name: Seq<char>) -> nat {
    names.filter(equals(name)).len()
}

/// The test that a name is `name`.
pub open spec fn equals(name: Seq<char>) -> spec_fn(Seq<char>) -> bool {
    |other: Seq<char>| other == name
}

/// After a room called `name` was asked for, the list of rooms holds that
/// name exactly once.
pub proof fn law_added_room_is_listed_once(s: Snapshot, name: Seq<char>)
    requires
        s.wf(),
        !s.rooms_full(),
    ensures
        occurrences(s.add_room(name).1.room_names(), name) == 1,
{
    let t = s.add_room(name).1;
    law_add_room_keeps_valid(s, name);
    law_second_room_is_refused(s, name);
    let i = choose|i: int| 0 <= i < t.rooms.len() && (#[trigger] t.rooms[i]).name == name;
    let names = t.room_names();
    assert forall|j: int| 0 <= j < names.len() && j != i implies #[trigger] names[j] != name by {
        law_room_is_unique(t, name, j);
        assert(t.rooms[i].id.value != t.rooms[j].id.value);
    }
    lemma_filter_one_in(names, equals(name), i);
}

/// A room that was just added has no devices: its listing is empty.
pub proof fn law_new_room_is_empty(s: Snapshot, name: Seq<char>)
    requires
        s.wf(),
        !s.has_room(name),
        !s.rooms_full(),
    ensures
        ({
            let (added, t) = s.add_room(name);
            &&& added is Ok
            &&& t.has_room(name)
            &&& t.devices_of(t.room_id(name)) == Seq::<DeviceRecord>::empty()
            &&& t.list_devices(name) == Ok::<Seq<DeviceEntry>, StoreError>(Seq::empty())
        }),
{
    let t = s.with_room(name);
    let last = s.rooms.len() as int;
    law_add_room_keeps_valid(s, name);
    assert(t.rooms[last].name == name);
    law_room_is_unique(t, name, last);
    let room_id = t.room_id(name);
    assert forall|i: int| 0 <= i < t.devices.len() implies (#[trigger] t.devices[i]).room_id
        != room_id by {
        assert(s.has_room_id(s.devices[i].room_id));
        let k = choose|k: int|
            0 <= k < s.rooms.len() && (#[trigger] s.rooms[k]).id == s.devices[i].room_id;
        assert(s.rooms[k].id.value < s.rooms_issued);
    }
    lemma_filter_none(t.devices, |device: DeviceRecord| device.room_id == room_id);
    assert(t.listing(room_id) == Seq::<DeviceEntry>::empty());
}

/// After the room called `name` was removed, the list of rooms does not hold
/// that name.
pub proof fn law_removed_room_is_not_listed(s: Snapshot, name: Seq<char>)
    requires
        s.wf(),
    ensures
        !s.remove_room(name).1.room_names().contains(name),
        occurrences(s.remove_room(name).1.room_names(), name) == 0,
{
    let t = s.remove_room(name).1;
    let names = t.room_names();
    if s.has_room(name) {
        law_remove_room_cascades(s, name);
    }
    assert forall|j: int| 0 <= j < names.len() implies #[trigger] names[j] != name by {
        assert(t.rooms[j].name != name);
    }
    lemma_filter_none(names, equals(name));
}

} // verus!
