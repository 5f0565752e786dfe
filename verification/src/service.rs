//! What the smart house answers to each request: a status and a body. The
//! transport that carries requests and answers is not part of this library.

use vstd::prelude::*;
use crate::database::entry_shown;
use crate::database::Database;
use crate::domain::device_type_named;
use crate::domain::AddDeviceDto;
use crate::domain::Device;
use crate::domain::DeviceDto;
use crate::domain::DeviceType;
use crate::domain::RemoveDeviceDto;
use crate::domain::Room;
use crate::domain::RoomDto;
use crate::errors::StoreError;
use crate::model::DeviceEntry;

verus! {

/// The notice that a room was added.
pub const ROOM_ADDED: &'static str = "room {} added";

/// The notice that a room was removed.
pub const ROOM_REMOVED: &'static str = "room {} removed";

/// How the answer starts where a room was not added.
pub const COULD_NOT_ADD_ROOM: &'static str = "could not add room ";

/// How the answer starts where a room was not removed.
pub const COULD_NOT_REMOVE_ROOM: &'static str = "could not remove room ";

/// The notice that a device was added.
pub const DEVICE_ADDED: &'static str = "device {} added";

/// The notice that a device was removed.
pub const DEVICE_REMOVED: &'static str = "device {} removed";

/// How the answer starts where a device was not added.
pub const COULD_NOT_ADD_DEVICE: &'static str = "could not add device ";

/// The answer where the kind of a device cannot be read.
pub const COULD_NOT_PARSE_DEVICE_TYPE: &'static str = "could not parse device type";

/// How the answer starts where a device was not removed.
pub const COULD_NOT_REMOVE_DEVICE: &'static str = "could not remove device ";

/// How a request ended.
#[derive(Clone, Copy, Debug, PartialEq, Eq, Structural)]
pub enum Status {
    /// The request was carried out.
    Success,
    /// The request was understood and there is nothing to show.
    NoContent,
    /// The request could not be carried out.
    BadRequest,
}

impl Status {
    /// The number that stands for this status.
    pub open spec fn number(self) -> u16 {
        match self {
            Status::Success => 200,
            Status::NoContent => 204,
            Status::BadRequest => 400,
        }
    }

    /// The number that stands for this status.
    pub fn code(self) -> (code: u16)
        ensures
            code == self.number(),
    {
        match self {
            Status::Success => 200,
            Status::NoContent => 204,
            Status::BadRequest => 400,
        }
    }
}

/// The answer to a request.
#[derive(Debug)]
pub struct Reply<T> {
    pub status: Status,
    pub body: T,
}

/// A notice of success: the notice, a blank, and the name it is about.
pub open spec fn notice(what: Seq<char>, name: Seq<char>) -> Seq<char> {
    what + " "@ + name
}

fn done(what: &str, name: &str) -> (reply: Reply<String>)
    ensures
        reply.status == Status::Success,
        reply.body@ == notice(what@, name@),
{
    let mut body = what.to_owned();
    body.append(" ");
    body.append(name);
    Reply { status: Status::Success, body }
}

fn refused(what: &str, name: &str) -> (reply: Reply<String>)
    ensures
        reply.status == Status::BadRequest,
        reply.body@ == what@ + name@,
{
    let mut body = what.to_owned();
    body.append(name);
    Reply { status: Status::BadRequest, body }
}

/// Answers a request to add a room.
///
/// The room is added where the store has none of that name and can still
/// number one; the answer then says so. Otherwise nothing changes and the
/// answer is a bad request that names the room.
pub fn add_room(db: &mut Database, room: &RoomDto) -> (reply: Reply<String>)
    requires
        old(db).wf(),
    ensures
        final(db).wf(),
        if !old(db)@.rooms_full() && !old(db)@.has_room(room.name@) {
            &&& final(db)@ == old(db)@.with_room(room.name@)
            &&& reply.status == Status::Success
            &&& reply.body@ == notice(ROOM_ADDED@, room.name@)
        } else {
            &&& final(db)@ == old(db)@
            &&& reply.status == Status::BadRequest
            &&& reply.body@ == COULD_NOT_ADD_ROOM@ + room.name@
        },
{
    match Room::add(db, room.name.as_str()) {
        Ok(()) => done(ROOM_ADDED, room.name.as_str()),
        Err(_) => refused(COULD_NOT_ADD_ROOM, room.name.as_str()),
    }
}

/// Answers a request to remove a room, which should name it.
///
/// The room and its devices are removed where a room has that name; the
/// answer then says so. Otherwise nothing changes and the answer is a bad
/// request: one that names the room, or an empty one where no name came.
pub fn remove_room(db: &mut Database, room_name: Option<&str>) -> (reply: Reply<String>)
    requires
        old(db).wf(),
    ensures
        final(db).wf(),
        match room_name {
            Some(name) => if old(db)@.has_room(name@) {
                &&& final(db)@ == old(db)@.without_room(name@)
                &&& reply.status == Status::Success
                &&& reply.body@ == notice(ROOM_REMOVED@, name@)
            } else {
                &&& final(db)@ == old(db)@
                &&& reply.status == Status::BadRequest
                &&& reply.body@ == COULD_NOT_REMOVE_ROOM@ + name@
            },
            None => {
                &&& final(db)@ == old(db)@
                &&& reply.status == Status::BadRequest
                &&& reply.body@ == Seq::<char>::empty()
            },
        },
{
    match room_name {
        Some(name) => match Room::remove(db, name) {
            Ok(()) => done(ROOM_REMOVED, name),
            Err(_) => refused(COULD_NOT_REMOVE_ROOM, name),
        },
        None => Reply { status: Status::BadRequest, body: String::new() },
    }
}

/// Answers a request for the names of all rooms: the names in the order in
/// which the rooms were added, or no content where there is no room.
pub fn rooms(db: &Database) -> (reply: Reply<Option<Vec<String>>>)
    ensures
        match reply.body {
            Some(names) => {
                &&& reply.status == Status::Success
                &&& names@.len() > 0
                &&& names@.map_values(|name: String| name@) == db@.room_names()
            },
            None => {
                &&& reply.status == Status::NoContent
                &&& db@.rooms.len() == 0
            },
        },
{
    let names = Room::rooms(db);
    if names.len() == 0 {
        assert(db@.room_names().len() == names@.map_values(|name: String| name@).len());
        Reply { status: Status::NoContent, body: None }
    } else {
        Reply { status: Status::Success, body: Some(names) }
    }
}

/// Answers a request to add a device.
///
/// Where the kind of device cannot be read, nothing changes and the answer is
/// a bad request that says so. Otherwise the device is added, switched off,
/// where the room exists, has no device of that name, and the store can still
/// number one; the answer then says so. In every other case nothing changes
/// and the answer is a bad request that names the device.
pub fn add_device(db: &mut Database, device: &AddDeviceDto) -> (reply: Reply<String>)
    requires
        old(db).wf(),
    ensures
        final(db).wf(),
        match device_type_named(device.device_type@) {
            None => {
                &&& final(db)@ == old(db)@
                &&& reply.status == Status::BadRequest
                &&& reply.body@ == COULD_NOT_PARSE_DEVICE_TYPE@
            },
            Some(device_type) => if !old(db)@.devices_full() && old(db)@.add_device(
                device.room_name@,
                device.device_name@,
                device_type,
            ).0 is Ok {
                &&& final(db)@ == old(db)@.with_device(
                    device.room_name@,
                    device.device_name@,
                    device_type,
                )
                &&& reply.status == Status::Success
                &&& reply.body@ == notice(DEVICE_ADDED@, device.device_name@)
            } else {
                &&& final(db)@ == old(db)@
                &&& reply.status == Status::BadRequest
                &&& reply.body@ == COULD_NOT_ADD_DEVICE@ + device.device_name@
            },
        },
{
    let device_type = match DeviceType::parse(device.device_type.as_str()) {
        Ok(device_type) => device_type,
        Err(_) => {
            return Reply {
                status: Status::BadRequest,
                body: COULD_NOT_PARSE_DEVICE_TYPE.to_owned(),
            };
        },
    };
    match Device::add(db, device.room_name.as_str(), device.device_name.as_str(), device_type) {
        Ok(()) => done(DEVICE_ADDED, device.device_name.as_str()),
        Err(_) => refused(COULD_NOT_ADD_DEVICE, device.device_name.as_str()),
    }
}

/// Answers a request to remove a device.
///
/// The device is removed where the room exists and has a device of that name;
/// the answer then says so. Otherwise nothing changes and the answer is a bad
/// request that names the device.
pub fn remove_device(db: &mut Database, device: &RemoveDeviceDto) -> (reply: Reply<String>)
    requires
        old(db).wf(),
    ensures
        final(db).wf(),
        if old(db)@.remove_device(device.room_name@, device.device_name@).0 is Ok {
            &&& final(db)@ == old(db)@.without_device(device.room_name@, device.device_name@)
            &&& reply.status == Status::Success
            &&& reply.body@ == notice(DEVICE_REMOVED@, device.device_name@)
        } else {
            &&& final(db)@ == old(db)@
            &&& reply.status == Status::BadRequest
            &&& reply.body@ == COULD_NOT_REMOVE_DEVICE@ + device.device_name@
        },
{
    match Device::remove(db, device.room_name.as_str(), device.device_name.as_str()) {
        Ok(()) => done(DEVICE_REMOVED, device.device_name.as_str()),
        Err(_) => refused(COULD_NOT_REMOVE_DEVICE, device.device_name.as_str()),
    }
}

/// Answers a request for the devices of a room, which should name it.
///
/// Where a room has that name, the answer holds one entry for each of its
/// devices, in the order in which they were added. Where none has, the answer
/// is empty and says no content; where no name came, it is empty and a bad
/// request.
pub fn devices(db: &Database, room_name: Option<&str>) -> (reply: Reply<Vec<DeviceDto>>)
    requires
        db.wf(),
    ensures
        match room_name {
            Some(name) => if db@.has_room(name@) {
                &&& reply.status == Status::Success
                &&& reply.body@.map_values(|dto: DeviceDto| entry_shown(dto)) == db@.listing(
                    db@.room_id(name@),
                )
            } else {
                &&& reply.status == Status::NoContent
                &&& reply.body@.len() == 0
            },
            None => {
                &&& reply.status == Status::BadRequest
                &&& reply.body@.len() == 0
            },
        },
{
    match room_name {
        Some(name) => match Device::devices(db, name) {
            Ok(entries) => Reply { status: Status::Success, body: entries },
            Err(_) => Reply { status: Status::NoContent, body: Vec::new() },
        },
        None => Reply { status: Status::BadRequest, body: Vec::new() },
    }
}

} // verus!
