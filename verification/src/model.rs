//! The mathematical model of the store: its two tables as sequences of
//! records, the rules that a valid store obeys, and what each operation
//! makes of a store.

use vstd::prelude::*;
use crate::domain::DeviceType;
use crate::errors::StoreError;
use crate::ident::Id;

verus! {

/// A row of the room table.
pub struct RoomRecord {
    pub id: Id,
    pub name: Seq<char>,
}

/// A row of the device table.
pub struct DeviceRecord {
    pub id: Id,
    pub room_id: Id,
    pub name: Seq<char>,
    pub is_on: bool,
    pub device_type: DeviceType,
}

/// What a listing shows of a device.
pub struct DeviceEntry {
    pub device_name: Seq<char>,
    pub is_on: bool,
    pub device_type: Seq<char>,
}

/// The entry that a listing shows for `device`.
pub open spec fn entry_of(device: DeviceRecord) -> DeviceEntry {
    DeviceEntry {
        device_name: device.name,
        is_on: device.is_on,
        device_type: device.device_type.name(),
    }
}

/// The state of the store: both tables in insertion order, and how many
/// identifiers each of them has given out.
#[verifier::ext_equal]
pub struct Snapshot {
    pub rooms: Seq<RoomRecord>,
    pub devices: Seq<DeviceRecord>,
    pub rooms_issued: nat,
    pub devices_issued: nat,
}

/// Whether one of `rooms` is called `name`.
pub open spec fn room_called(rooms: Seq<RoomRecord>, name: Seq<char>) -> bool {
    exists|i: int| 0 <= i < rooms.len() && (#[trigger] rooms[i]).name == name
}

/// Whether one of `rooms` has the identifier `id`.
pub open spec fn room_identified(rooms: Seq<RoomRecord>, id: Id) -> bool {
    exists|i: int| 0 <= i < rooms.len() && (#[trigger] rooms[i]).id == id
}

/// The identifier of the one of `rooms` that is called `name`.
pub open spec fn id_of_room(rooms: Seq<RoomRecord>, name: Seq<char>) -> Id {
    let i = choose|i: int| 0 <= i < rooms.len() && (#[trigger] rooms[i]).name == name;
    rooms[i].id
}

/// Whether one of `devices` belongs to the room `room_id` and is called `name`.
pub open spec fn device_called(devices: Seq<DeviceRecord>, room_id: Id, name: Seq<char>) -> bool {
    exists|i: int|
        0 <= i < devices.len() && (#[trigger] devices[i]).room_id == room_id && devices[i].name
            == name
}

/// The identifier of the one of `devices` that belongs to the room `room_id`
/// and is called `name`.
pub open spec fn id_of_device(devices: Seq<DeviceRecord>, room_id: Id, name: Seq<char>) -> Id {
    let i = choose|i: int|
        0 <= i < devices.len() && (#[trigger] devices[i]).room_id == room_id && devices[i].name
            == name;
    devices[i].id
}

impl Snapshot {
    /// The store that holds nothing and has issued no identifier.
    pub open spec fn empty() -> Snapshot {
        Snapshot { rooms: Seq::empty(), devices: Seq::empty(), rooms_issued: 0, devices_issued: 0 }
    }

    /// Whether a room is called `name`.
    pub open spec fn has_room(self, name: Seq<char>) -> bool {
        room_called(self.rooms, name)
    }

    /// Whether a room has the identifier `id`.
    pub open spec fn has_room_id(self, id: Id) -> bool {
        room_identified(self.rooms, id)
    }

    /// The identifier of the room called `name`.
    pub open spec fn room_id(self, name: Seq<char>) -> Id {
        id_of_room(self.rooms, name)
    }

    /// Whether the room `room_id` has a device called `name`.
    pub open spec fn has_device(self, room_id: Id, name: Seq<char>) -> bool {
        device_called(self.devices, room_id, name)
    }

    /// The identifier of the device called `name` in the room `room_id`.
    pub open spec fn device_id(self, room_id: Id, name: Seq<char>) -> Id {
        id_of_device(self.devices, room_id, name)
    }

    /// The devices of the room `room_id`, in insertion order.
    pub open spec fn devices_of(self, room_id: Id) -> Seq<DeviceRecord> {
        self.devices.filter(|device: DeviceRecord| device.room_id == room_id)
    }

    /// The names of all rooms, in insertion order.
    pub open spec fn room_names(self) -> Seq<Seq<char>> {
        self.rooms.map_values(|room: RoomRecord| room.name)
    }

    /// What a listing of the room `room_id` shows, in insertion order.
    pub open spec fn listing(self, room_id: Id) -> Seq<DeviceEntry> {
        self.devices_of(room_id).map_values(|device: DeviceRecord| entry_of(device))
    }

    /// The room table can take no further row.
    pub open spec fn rooms_full(self) -> bool {
        self.rooms_issued >= u64::MAX
    }

    /// The device table can take no further row.
    pub open spec fn devices_full(self) -> bool {
        self.devices_issued >= u64::MAX
    }

    /// Room identifiers grow along the insertion order and have all been issued.
    pub open spec fn room_ids_ascend(self) -> bool {
        &&& forall|i: int|
            0 <= i < self.rooms.len() ==> (#[trigger] self.rooms[i]).id.value < self.rooms_issued
        &&& forall|i: int, j: int|
            0 <= i < j < self.rooms.len() ==> (#[trigger] self.rooms[i]).id.value
                < (#[trigger] self.rooms[j]).id.value
    }

    /// Device identifiers grow along the insertion order and have all been
    /// issued.
    pub open spec fn device_ids_ascend(self) -> bool {
        &&& forall|i: int|
            0 <= i < self.devices.len() ==> (#[trigger] self.devices[i]).id.value
                < self.devices_issued
        &&& forall|i: int, j: int|
            0 <= i < j < self.devices.len() ==> (#[trigger] self.devices[i]).id.value
                < (#[trigger] self.devices[j]).id.value
    }

    /// No two rooms share a name.
    pub open spec fn room_names_unique(self) -> bool {
        forall|i: int, j: int|
            0 <= i < j < self.rooms.len() ==> (#[trigger] self.rooms[i]).name
                != (#[trigger] self.rooms[j]).name
    }

    /// No two devices of one room share a name.
    pub open spec fn device_names_unique(self) -> bool {
        forall|i: int, j: int|
            0 <= i < j < self.devices.len() && (#[trigger] self.devices[i]).room_id
                == (#[trigger] self.devices[j]).room_id ==> self.devices[i].name
                != self.devices[j].name
    }

    /// Every device belongs to a room that exists.
    pub open spec fn devices_owned(self) -> bool {
        forall|i: int|
            0 <= i < self.devices.len() ==> self.has_room_id((#[trigger] self.devices[i]).room_id)
    }

    /// The rules of a valid store.
    pub open spec fn wf(self) -> bool {
        &&& self.room_ids_ascend()
        &&& self.device_ids_ascend()
        &&& self.room_names_unique()
        &&& self.device_names_unique()
        &&& self.devices_owned()
    }

    /// The store after a room called `name` was added.
    pub open spec fn with_room(self, name: Seq<char>) -> Snapshot {
        Snapshot {
            rooms: self.rooms.push(RoomRecord { id: Id { value: self.rooms_issued as u64 }, name }),
            rooms_issued: self.rooms_issued + 1,
            ..self
        }
    }

    /// The store after the room called `name` was removed together with its
    /// devices.
    pub open spec fn without_room(self, name: Seq<char>) -> Snapshot {
        let room_id = self.room_id(name);
        Snapshot {
            rooms: self.rooms.filter(|room: RoomRecord| room.name != name),
            devices: self.devices.filter(|device: DeviceRecord| device.room_id != room_id),
            ..self
        }
    }

    /// The store after a device called `name`, of kind `device_type` and
    /// switched off, was added to the room called `room_name`.
    pub open spec fn with_device(
        self,
        room_name: Seq<char>,
        name: Seq<char>,
        device_type: DeviceType,
    ) -> Snapshot {
        Snapshot {
            devices: self.devices.push(
                DeviceRecord {
                    id: Id { value: self.devices_issued as u64 },
                    room_id: self.room_id(room_name),
                    name,
                    is_on: false,
                    device_type,
                },
            ),
            devices_issued: self.devices_issued + 1,
            ..self
        }
    }

    /// The store after the device called `name` was removed from the room
    /// called `room_name`.
    pub open spec fn without_device(self, room_name: Seq<char>, name: Seq<char>) -> Snapshot {
        let room_id = self.room_id(room_name);
        Snapshot {
            devices: self.devices.filter(
                |device: DeviceRecord| !(device.room_id == room_id && device.name == name),
            ),
            ..self
        }
    }

    /// What adding a room called `name` answers, and the store it leaves.
    pub open spec fn add_room(self, name: Seq<char>) -> (Result<(), StoreError>, Snapshot) {
        if self.has_room(name) {
            (Err(StoreError::DuplicateName), self)
        } else {
            (Ok(()), self.with_room(name))
        }
    }

    /// What removing the room called `name` answers, and the store it leaves.
    pub open spec fn remove_room(self, name: Seq<char>) -> (Result<(), StoreError>, Snapshot) {
        if self.has_room(name) {
            (Ok(()), self.without_room(name))
        } else {
            (Err(StoreError::RoomNotFound), self)
        }
    }

    /// What adding a device called `name` to the room called `room_name`
    /// answers, and the store it leaves.
    pub open spec fn add_device(
        self,
        room_name: Seq<char>,
        name: Seq<char>,
        device_type: DeviceType,
    ) -> (Result<(), StoreError>, Snapshot) {
        if !self.has_room(room_name) {
            (Err(StoreError::RoomNotFound), self)
        } else if self.has_device(self.room_id(room_name), name) {
            (Err(StoreError::DuplicateDeviceName), self)
        } else {
            (Ok(()), self.with_device(room_name, name, device_type))
        }
    }

    /// What removing the device called `name` from the room called `room_name`
    /// answers, and the store it leaves.
    pub open spec fn remove_device(self, room_name: Seq<char>, name: Seq<char>) -> (
        Result<(), StoreError>,
        Snapshot,
    ) {
        if !self.has_room(room_name) {
            (Err(StoreError::RoomNotFound), self)
        } else if !self.has_device(self.room_id(room_name), name) {
            (Err(StoreError::DeviceNotFound), self)
        } else {
            (Ok(()), self.without_device(room_name, name))
        }
    }

    /// What listing the devices of the room called `room_name` answers.
    pub open spec fn list_devices(self, room_name: Seq<char>) -> Result<
        Seq<DeviceEntry>,
        StoreError,
    > {
        if self.has_room(room_name) {
            Ok(self.listing(self.room_id(room_name)))
        } else {
            Err(StoreError::RoomNotFound)
        }
    }
}

} // verus!
