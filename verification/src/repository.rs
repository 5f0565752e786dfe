//! The operations on rooms and devices as callers of the smart house use
//! them: each asks the store and explains a refusal in words.

use vstd::prelude::*;
use crate::database::entry_shown;
use crate::database::Database;
use crate::domain::Device;
use crate::domain::DeviceDto;
use crate::domain::DeviceType;
use crate::domain::Room;
use crate::errors::explanation;
use crate::errors::SmartHouseError;
use crate::errors::StoreError;
use crate::errors::EXHAUSTED_ERROR;
use crate::model::DeviceEntry;

verus! {

impl Room {
    /// Adds a room called `name`, with no devices.
    ///
    /// It fails as a server error where the store has run out of room
    /// identifiers, and as a wrong request where a room of that name exists.
    /// A failure changes nothing.
    pub fn add(db: &mut Database, name: &str) -> (outcome: Result<(), SmartHouseError>)
        requires
            old(db).wf(),
        ensures
            final(db).wf(),
            outcome is Ok ==> final(db)@.has_room(name@),
            match outcome {
                Ok(()) => {
                    &&& !old(db)@.rooms_full()
                    &&& old(db)@.add_room(name@) == (Ok::<(), StoreError>(()), final(db)@)
                },
                Err(error) => {
                    &&& final(db)@ == old(db)@
                    &&& if old(db)@.rooms_full() {
                        error.fails_server_with(EXHAUSTED_ERROR@)
                    } else {
                        &&& old(db)@.has_room(name@)
                        &&& error.rejects_request_with(
                            explanation(StoreError::DuplicateName, name@, name@),
                        )
                    }
                },
            },
    {
        if db.rooms_full() {
            return Err(SmartHouseError::ServerError(EXHAUSTED_ERROR));
        }
        match db.add_room(name) {
            Ok(()) => Ok(()),
            Err(error) => Err(error.explain(name, name)),
        }
    }

    /// Removes the room called `room_name` and every device of it.
    ///
    /// It fails as a wrong request where no room has that name, and then
    /// changes nothing.
    pub fn remove(db: &mut Database, room_name: &str) -> (outcome: Result<(), SmartHouseError>)
        requires
            old(db).wf(),
        ensures
            final(db).wf(),
            !final(db)@.has_room(room_name@),
            match outcome {
                Ok(()) => old(db)@.remove_room(room_name@) == (Ok::<(), StoreError>(()), final(db)@),
                Err(error) => {
                    &&& final(db)@ == old(db)@
                    &&& !old(db)@.has_room(room_name@)
                    &&& error.rejects_request_with(
                        explanation(StoreError::RoomNotFound, room_name@, room_name@),
                    )
                },
            },
    {
        match db.remove_room(room_name) {
            Ok(()) => Ok(()),
            Err(error) => Err(error.explain(room_name, room_name)),
        }
    }

    /// The names of all rooms in the order in which they were added. A store
    /// without rooms has an empty list.
    pub fn rooms(db: &Database) -> (names: Vec<String>)
        ensures
            names@.map_values(|name: String| name@) == db@.room_names(),
    {
        db.list_rooms()
    }
}

impl Device {
    /// Adds a device called `device_name`, of kind `device_type` and switched
    /// off, to the room called `room_name`.
    ///
    /// It fails as a server error where the store has run out of device
    /// identifiers; as a wrong request where no room has that name, and where
    /// the room has a device of that name. A failure changes nothing.
    pub fn add(db: &mut Database, room_name: &str, device_name: &str, device_type: DeviceType) -> (outcome:
        Result<(), SmartHouseError>)
        requires
            old(db).wf(),
        ensures
            final(db).wf(),
            outcome is Ok ==> final(db)@.has_device(
                final(db)@.room_id(room_name@),
                device_name@,
            ),
            match outcome {
                Ok(()) => {
                    &&& !old(db)@.devices_full()
                    &&& old(db)@.add_device(room_name@, device_name@, device_type) == (
                        Ok::<(), StoreError>(()),
                        final(db)@,
                    )
                },
                Err(error) => {
                    &&& final(db)@ == old(db)@
                    &&& if old(db)@.devices_full() {
                        error.fails_server_with(EXHAUSTED_ERROR@)
                    } else {
                        &&& old(db)@.add_device(room_name@, device_name@, device_type).0 matches Err(
                            refusal,
                        )
                        &&& error.rejects_request_with(
                            explanation(refusal, room_name@, device_name@),
                        )
                    }
                },
            },
    {
        if db.devices_full() {
            return Err(SmartHouseError::ServerError(EXHAUSTED_ERROR));
        }
        match db.add_device(room_name, device_name, device_type) {
            Ok(()) => Ok(()),
            Err(error) => Err(error.explain(room_name, device_name)),
        }
    }

    /// Removes the device called `device_name` from the room called
    /// `room_name`.
    ///
    /// It fails as a wrong request where no room has that name, and where the
    /// room has no device of that name. A failure changes nothing.
    pub fn remove(db: &mut Database, room_name: &str, device_name: &str) -> (outcome: Result<
        (),
        SmartHouseError,
    >)
        requires
            old(db).wf(),
        ensures
            final(db).wf(),
            outcome is Ok ==> !final(db)@.has_device(
                final(db)@.room_id(room_name@),
                device_name@,
            ),
            match outcome {
                Ok(()) => old(db)@.remove_device(room_name@, device_name@) == (
                    Ok::<(), StoreError>(()),
                    final(db)@,
                ),
                Err(error) => {
                    &&& final(db)@ == old(db)@
                    &&& old(db)@.remove_device(room_name@, device_name@).0 matches Err(refusal)
                    &&& error.rejects_request_with(explanation(refusal, room_name@, device_name@))
                },
            },
    {
        match db.remove_device(room_name, device_name) {
            Ok(()) => Ok(()),
            Err(error) => Err(error.explain(room_name, device_name)),
        }
    }

    /// What the room called `room_name` holds: one entry for each of its
    /// devices, in the order in which they were added; none for a room without
    /// devices.
    ///
    /// It fails as a wrong request where no room has that name.
    pub fn devices(db: &Database, room_name: &str) -> (listed: Result<
        Vec<DeviceDto>,
        SmartHouseError,
    >)
        requires
            db.wf(),
        ensures
            match listed {
                Ok(entries) => db@.list_devices(room_name@) == Ok::<Seq<DeviceEntry>, StoreError>(
                    entries@.map_values(|dto: DeviceDto| entry_shown(dto)),
                ),
                Err(error) => {
                    &&& !db@.has_room(room_name@)
                    &&& error.rejects_request_with(
                        explanation(StoreError::RoomNotFound, room_name@, room_name@),
                    )
                },
            },
    {
        match db.list_devices(room_name) {
            Ok(entries) => Ok(entries),
            Err(error) => Err(error.explain(room_name, room_name)),
        }
    }
}

} // verus!
