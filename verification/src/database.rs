//! The relational store: a table of rooms and a table of devices, and the
//! operations that keep the two consistent.

use vstd::prelude::*;
use crate::domain::Device;
use crate::domain::DeviceDto;
use crate::domain::DeviceType;
use crate::domain::Room;
use crate::errors::StoreError;
use crate::ident::Id;
use crate::laws::law_add_device_keeps_valid;
use crate::laws::law_add_room_keeps_valid;
use crate::laws::law_remove_device_keeps_valid;
use crate::laws::law_device_is_unique;
use crate::laws::law_new_device_is_numbered_afresh;
use crate::laws::law_remove_room_cascades;
use crate::laws::law_removed_device_is_gone;
use crate::laws::law_second_room_is_refused;
use crate::laws::law_remove_room_keeps_valid;
use crate::laws::law_room_is_unique;
use crate::model::entry_of;
use crate::model::DeviceEntry;
use crate::model::DeviceRecord;
use crate::model::RoomRecord;
use crate::model::Snapshot;
use crate::seq_facts::lemma_filter_map;
use crate::seq_facts::lemma_filter_one_out;
use crate::seq_facts::lemma_filter_same;
use crate::table::accepts;
use crate::table::rejects;
use crate::table::Row;
use crate::table::Table;

verus! {

/// The record that stands for a row of the room table.
pub open spec fn room_record(row: Row<Room>) -> RoomRecord {
    RoomRecord { id: row.id, name: row.data.name@ }
}

/// The record that stands for a row of the device table.
pub open spec fn device_record(row: Row<Device>) -> DeviceRecord {
    DeviceRecord {
        id: row.id,
        room_id: row.data.room_id,
        name: row.data.name@,
        is_on: row.data.is_on,
        device_type: row.data.device_type,
    }
}

/// The entry that `dto` shows.
pub open spec fn entry_shown(dto: DeviceDto) -> DeviceEntry {
    DeviceEntry {
        device_name: dto.device_name@,
        is_on: dto.is_on,
        device_type: dto.device_type@,
    }
}

/// The rooms and devices of one house.
///
/// A room does not hold a list of its devices: each device names its room,
/// and what a room holds is read off the device table. Every operation that
/// changes the store takes it by exclusive reference, so the test that an
/// operation makes and the change that follows it are one step to every other
/// user of the store.
#[derive(Debug)]
pub struct Database {
    room: Table<Room>,
    device: Table<Device>,
}

impl View for Database {
    type V = Snapshot;

    closed spec fn view(&self) -> Snapshot {
        Snapshot {
            rooms: self.room.rows().map_values(|row: Row<Room>| room_record(row)),
            devices: self.device.rows().map_values(|row: Row<Device>| device_record(row)),
            rooms_issued: self.room.issued(),
            devices_issued: self.device.issued(),
        }
    }
}

impl Database {
    /// The store obeys its rules: room names are unique, device names are
    /// unique within a room, every device has its room, and identifiers are
    /// never given out twice.
    pub open spec fn wf(&self) -> bool {
        self@.wf()
    }

    /// An empty store.
    pub fn new() -> (db: Self)
        ensures
            db@ == Snapshot::empty(),
            db.wf(),
    {
        let db = Database { room: Table::new(), device: Table::new() };
        assert(db@ =~= Snapshot::empty());
        db
    }

    /// Tells whether the room table has run out of identifiers.
    pub fn rooms_full(&self) -> (b: bool)
        ensures
            b == self@.rooms_full(),
    {
        self.room.is_full()
    }

    /// Tells whether the device table has run out of identifiers.
    pub fn devices_full(&self) -> (b: bool)
        ensures
            b == self@.devices_full(),
    {
        self.device.is_full()
    }

    /// The identifier of the room called `name`, if there is one.
    pub fn room_id(&self, name: &str) -> (id: Option<Id>)
        requires
            self.wf(),
        ensures
            id == (if self@.has_room(name@) {
                Some(self@.room_id(name@))
            } else {
                None
            }),
    {
        let wanted = name.to_owned();
        let called = |row: &Row<Room>| -> (b: bool)
            ensures b == (row.data.name@ == name@)
            { row.data.name == wanted };
        let found = self.room.find(called);
        match found {
            Some(row) => {
                proof {
                    let i = choose|i: int|
                        0 <= i < self.room.rows().len() && *row == #[trigger] self.room.rows()[i];
                    assert(self@.rooms[i] == room_record(self.room.rows()[i]));
                    law_room_is_unique(self@, name@, i);
                }
                Some(row.id)
            },
            None => {
                proof {
                    assert forall|i: int| 0 <= i < self@.rooms.len() implies (
                    #[trigger] self@.rooms[i]).name != name@ by {
                        assert(rejects(called, self.room.rows()[i]));
                    }
                }
                None
            },
        }
    }

    /// The identifier of the device called `name` in the room `room_id`, if
    /// there is one.
    pub fn device_id(&self, room_id: Id, name: &str) -> (id: Option<Id>)
        requires
            self.wf(),
        ensures
            id == (if self@.has_device(room_id, name@) {
                Some(self@.device_id(room_id, name@))
            } else {
                None
            }),
    {
        let wanted = name.to_owned();
        let called = |row: &Row<Device>| -> (b: bool)
            ensures b == (row.data.room_id == room_id && row.data.name@ == name@)
            { row.data.room_id == room_id && row.data.name == wanted };
        let found = self.device.find(called);
        match found {
            Some(row) => {
                proof {
                    let i = choose|i: int|
                        0 <= i < self.device.rows().len() && *row
                            == #[trigger] self.device.rows()[i] && accepts(
                            called,
                            self.device.rows()[i],
                        );
                    assert(self@.devices[i] == device_record(self.device.rows()[i]));
                    law_device_is_unique(self@, room_id, name@, i);
                }
                Some(row.id)
            },
            None => {
                proof {
                    assert forall|i: int| 0 <= i < self@.devices.len() implies !((
                    #[trigger] self@.devices[i]).room_id == room_id && self@.devices[i].name
                        == name@) by {
                        assert(rejects(called, self.device.rows()[i]));
                    }
                }
                None
            },
        }
    }

    /// Adds a room called `name`, with no devices. It fails where a room of
    /// that name exists, and then changes nothing.
    pub fn add_room(&mut self, name: &str) -> (outcome: Result<(), StoreError>)
        requires
            old(self).wf(),
            !old(self)@.rooms_full(),
        ensures
            (outcome, final(self)@) == old(self)@.add_room(name@),
            final(self)@.has_room(name@),
            final(self).wf(),
    {
        match self.room_id(name) {
            Some(_) => Err(StoreError::DuplicateName),
            None => {
                proof {
                    law_add_room_keeps_valid(self@, name@);
                    law_second_room_is_refused(self@, name@);
                }
                let id = self.room.insert(Room { name: name.to_owned() });
                assert(self@.rooms == old(self)@.rooms.push(RoomRecord { id, name: name@ }));
                Ok(())
            },
        }
    }

    /// Removes the room called `name` and, with it, every device of that room.
    /// It fails where no room has that name, and then changes nothing.
    pub fn remove_room(&mut self, name: &str) -> (outcome: Result<(), StoreError>)
        requires
            old(self).wf(),
        ensures
            (outcome, final(self)@) == old(self)@.remove_room(name@),
            !final(self)@.has_room(name@),
            final(self).wf(),
    {
        let room_id = match self.room_id(name) {
            Some(id) => id,
            None => {
                return Err(StoreError::RoomNotFound);
            },
        };
        proof {
            law_remove_room_keeps_valid(self@, name@);
            law_remove_room_cascades(self@, name@);
        }
        let of_room = |row: &Row<Device>| -> (b: bool)
            ensures b == (row.data.room_id == room_id)
            { row.data.room_id == room_id };
        let _ = self.device.delete_where(of_room);
        let removed = self.room.delete(room_id);
        proof {
            let rows = old(self).device.rows();
            let kept = |row: Row<Device>| row.data.room_id != room_id;
            lemma_filter_same(rows, |row: Row<Device>| rejects(of_room, row), kept);
            lemma_filter_map(
                rows,
                kept,
                |row: Row<Device>| device_record(row),
                |device: DeviceRecord| device.room_id != room_id,
            );
            let rooms = old(self)@.rooms;
            assert(removed is Some) by {
                let k = choose|k: int| 0 <= k < rooms.len() && (#[trigger] rooms[k]).name == name@;
                assert(old(self).room.rows()[k].id == room_id);
            }
            let i = choose|i: int|
                0 <= i < old(self).room.rows().len() && (#[trigger] old(self).room.rows()[i]).id
                    == room_id && self.room.rows() == old(self).room.rows().remove(i);
            assert(rooms[i].id == room_id);
            assert forall|j: int| 0 <= j < rooms.len() implies ((#[trigger] rooms[j]).name == name@
                <==> j == i) by {
                law_room_is_unique(old(self)@, name@, j);
                if j != i {
                    assert(rooms[j].id.value != rooms[i].id.value);
                }
            }
            lemma_filter_one_out(rooms, |room: RoomRecord| room.name != name@, i);
            assert(self@.rooms == rooms.remove(i));
            assert(self@ == old(self)@.without_room(name@));
        }
        Ok(())
    }

    /// Adds a device called `device_name`, of kind `device_type` and switched
    /// off, to the room called `room_name`. It fails where no room has that
    /// name or where the room has a device of that name, and then changes
    /// nothing.
    pub fn add_device(&mut self, room_name: &str, device_name: &str, device_type: DeviceType) -> (outcome:
        Result<(), StoreError>)
        requires
            old(self).wf(),
            !old(self)@.devices_full(),
        ensures
            (outcome, final(self)@) == old(self)@.add_device(room_name@, device_name@, device_type),
            outcome is Ok ==> final(self)@.has_device(
                final(self)@.room_id(room_name@),
                device_name@,
            ),
            final(self).wf(),
    {
        let room_id = match self.room_id(room_name) {
            Some(id) => id,
            None => {
                return Err(StoreError::RoomNotFound);
            },
        };
        if self.device_id(room_id, device_name).is_some() {
            return Err(StoreError::DuplicateDeviceName);
        }
        proof {
            law_add_device_keeps_valid(self@, room_name@, device_name@, device_type);
            law_new_device_is_numbered_afresh(self@, room_name@, device_name@, device_type);
        }
        let id = self.device.insert(
            Device { room_id, name: device_name.to_owned(), is_on: false, device_type },
        );
        assert(self@.devices == old(self)@.devices.push(
            DeviceRecord { id, room_id, name: device_name@, is_on: false, device_type },
        ));
        Ok(())
    }

    /// Removes the device called `device_name` from the room called
    /// `room_name`. It fails where no room has that name or where the room has
    /// no device of that name, and then changes nothing.
    pub fn remove_device(&mut self, room_name: &str, device_name: &str) -> (outcome: Result<
        (),
        StoreError,
    >)
        requires
            old(self).wf(),
        ensures
            (outcome, final(self)@) == old(self)@.remove_device(room_name@, device_name@),
            outcome is Ok ==> !final(self)@.has_device(
                final(self)@.room_id(room_name@),
                device_name@,
            ),
            final(self).wf(),
    {
        let room_id = match self.room_id(room_name) {
            Some(id) => id,
            None => {
                return Err(StoreError::RoomNotFound);
            },
        };
        let device_id = match self.device_id(room_id, device_name) {
            Some(id) => id,
            None => {
                return Err(StoreError::DeviceNotFound);
            },
        };
        proof {
            law_remove_device_keeps_valid(self@, room_name@, device_name@);
            law_removed_device_is_gone(self@, room_name@, device_name@);
        }
        let removed = self.device.delete(device_id);
        proof {
            let devices = old(self)@.devices;
            let k = choose|k: int|
                0 <= k < devices.len() && (#[trigger] devices[k]).room_id == room_id
                    && devices[k].name == device_name@;
            assert(removed is Some) by {
                assert(old(self).device.rows()[k].id == device_id);
            }
            let i = choose|i: int|
                0 <= i < old(self).device.rows().len() && (
                #[trigger] old(self).device.rows()[i]).id == device_id && self.device.rows() == old(
                    self,
                ).device.rows().remove(i);
            assert(i == k) by {
                assert(devices[i].id == devices[k].id);
            }
            lemma_filter_one_out(
                devices,
                |device: DeviceRecord| !(device.room_id == room_id && device.name == device_name@),
                i,
            );
            assert(self@.devices == devices.remove(i));
            assert(self@ == old(self)@.without_device(room_name@, device_name@));
        }
        Ok(())
    }

    /// The names of all rooms, in the order in which the rooms were added.
    pub fn list_rooms(&self) -> (names: Vec<String>)
        ensures
            names@.map_values(|name: String| name@) == self@.room_names(),
    {
        let mut names: Vec<String> = Vec::new();
        let mut scan = self.room.scan();
        loop
            invariant
                scan.position <= self.room.rows().len(),
                names@.len() == scan.position,
                forall|j: int|
                    0 <= j < scan.position ==> (#[trigger] names@[j])@
                        == self.room.rows()[j].data.name@,
            ensures
                scan.position == self.room.rows().len(),
            decreases self.room.rows().len() - scan.position,
        {
            match self.room.next(&mut scan) {
                Some(row) => {
                    names.push(row.data.name.clone());
                },
                None => {
                    break ;
                },
            }
        }
        assert(names@.map_values(|name: String| name@) =~= self@.room_names());
        names
    }

    /// What the room called `room_name` holds: one entry for each of its
    /// devices, in the order in which the devices were added. A room without
    /// devices has an empty listing. It fails where no room has that name.
    pub fn list_devices(&self, room_name: &str) -> (listed: Result<Vec<DeviceDto>, StoreError>)
        requires
            self.wf(),
        ensures
            match listed {
                Ok(entries) => self@.list_devices(room_name@) == Ok::<Seq<DeviceEntry>, StoreError>(
                    entries@.map_values(|dto: DeviceDto| entry_shown(dto)),
                ),
                Err(error) => self@.list_devices(room_name@) == Err::<Seq<DeviceEntry>, StoreError>(
                    error,
                ),
            },
    {
        let room_id = match self.room_id(room_name) {
            Some(id) => id,
            None => {
                return Err(StoreError::RoomNotFound);
            },
        };
        let ghost of_room = |device: DeviceRecord| device.room_id == room_id;
        let ghost shown = |dto: DeviceDto| entry_shown(dto);
        let ghost listed = |device: DeviceRecord| entry_of(device);
        let mut entries: Vec<DeviceDto> = Vec::new();
        let mut scan = self.device.scan();
        proof {
            reveal(Seq::filter);
            assert(self@.devices.take(0).filter(of_room).map_values(listed) =~= entries@.map_values(
                shown,
            ));
        }
        loop
            invariant
                scan.position <= self.device.rows().len(),
                of_room == |device: DeviceRecord| device.room_id == room_id,
                shown == |dto: DeviceDto| entry_shown(dto),
                listed == |device: DeviceRecord| entry_of(device),
                entries@.map_values(shown) == self@.devices.take(scan.position as int).filter(
                    of_room,
                ).map_values(listed),
            ensures
                scan.position == self.device.rows().len(),
            decreases self.device.rows().len() - scan.position,
        {
            let ghost i = scan.position as int;
            let row = match self.device.next(&mut scan) {
                Some(row) => row,
                None => {
                    break ;
                },
            };
            proof {
                reveal(Seq::filter);
                assert(self@.devices.take(i + 1).drop_last() == self@.devices.take(i));
                assert(self@.devices.take(i + 1).last() == device_record(*row));
            }
            if row.data.room_id == room_id {
                let ghost before = entries@;
                entries.push(
                    DeviceDto {
                        device_name: row.data.name.clone(),
                        is_on: row.data.is_on,
                        device_type: row.data.device_type.to_str(),
                    },
                );
                proof {
                    assert(entries@.map_values(shown) == before.map_values(shown).push(
                        entry_of(device_record(*row)),
                    ));
                    assert(self@.devices.take(i + 1).filter(of_room).map_values(listed)
                        == self@.devices.take(i).filter(of_room).map_values(listed).push(
                        entry_of(device_record(*row)),
                    ));
                }
            }
        }
        proof {
            assert(self@.devices.take(scan.position as int) == self@.devices);
        }
        Ok(entries)
    }
}

} // verus!
