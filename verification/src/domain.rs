//! The entities of the smart house and the values that requests carry.

use vstd::prelude::*;
use crate::errors::SmartHouseError;
use crate::errors::DEVICE_TYPE_ERROR;
use crate::ident::Id;

verus! {

/// A room. Its devices are the rows of the device table that name it.
#[derive(Clone, Debug, PartialEq, Eq)]
pub struct Room {
    pub name: String,
}

/// A device, which belongs to one room for as long as it exists.
#[derive(Clone, Debug, PartialEq, Eq)]
pub struct Device {
    pub room_id: Id,
    pub name: String,
    pub is_on: bool,
    pub device_type: DeviceType,
}

/// A request that names a room.
#[derive(Clone, Debug, PartialEq, Eq)]
pub struct RoomDto {
    pub name: String,
}

/// What a listing says of one device.
#[derive(Clone, Debug, PartialEq, Eq)]
pub struct DeviceDto {
    pub device_name: String,
    pub is_on: bool,
    pub device_type: String,
}

/// A request to add a device to a room.
#[derive(Clone, Debug, PartialEq, Eq)]
pub struct AddDeviceDto {
    pub room_name: String,
    pub device_name: String,
    pub device_type: String,
}

/// A request to remove a device from a room.
#[derive(Clone, Debug, PartialEq, Eq)]
pub struct RemoveDeviceDto {
    pub room_name: String,
    pub device_name: String,
}

/// The kinds of device.
#[derive(Clone, Copy, Debug, PartialEq, Eq, Structural)]
pub enum DeviceType {
    /// A socket that can be switched.
    Socket,
    /// A thermometer.
    Thermo,
}

/// The lower-case form of an ASCII capital; any other character is itself.
pub open spec fn ascii_lower(c: char) -> char {
    if 'A' <= c <= 'Z' {
        ((c as u32) + 32) as char
    } else {
        c
    }
}

/// Whether `token` spells `word` when the case of ASCII letters is ignored.
pub open spec fn spells(token: Seq<char>, word: Seq<char>) -> bool {
    &&& token.len() == word.len()
    &&& forall|i: int| 0 <= i < token.len() ==> ascii_lower(token[i]) == ascii_lower(word[i])
}

/// The kind of device that `token` names, if it names one.
pub open spec fn device_type_named(token: Seq<char>) -> Option<DeviceType> {
    if spells(token, "socket"@) {
        Some(DeviceType::Socket)
    } else if spells(token, "thermo"@) {
        Some(DeviceType::Thermo)
    } else {
        None
    }
}

fn to_ascii_lower(c: char) -> (lower: char)
    ensures
        lower == ascii_lower(c),
{
    if 'A' <= c && c <= 'Z' {
        ((c as u8) + 32) as char
    } else {
        c
    }
}

fn spells_word(token: &str, word: &str) -> (b: bool)
    ensures
        b == spells(token@, word@),
{
    let n = token.unicode_len();
    if n != word.unicode_len() {
        return false;
    }
    let mut i: usize = 0;
    while i < n
        invariant
            i <= n,
            n == token@.len(),
            n == word@.len(),
            forall|j: int| 0 <= j < i ==> ascii_lower(token@[j]) == ascii_lower(word@[j]),
        decreases n - i,
    {
        if to_ascii_lower(token.get_char(i)) != to_ascii_lower(word.get_char(i)) {
            return false;
        }
        i = i + 1;
    }
    true
}

impl DeviceType {
    /// Reads the name of a kind of device, `socket` or `thermo`, whatever the
    /// case of its letters. Any other token is refused as a wrong request.
    pub fn parse(value: &str) -> (parsed: Result<DeviceType, SmartHouseError>)
        ensures
            match parsed {
                Ok(device_type) => device_type_named(value@) == Some(device_type),
                Err(error) => {
                    &&& device_type_named(value@) is None
                    &&& error.rejects_request_with(DEVICE_TYPE_ERROR@)
                },
            },
    {
        if spells_word(value, "socket") {
            Ok(DeviceType::Socket)
        } else if spells_word(value, "thermo") {
            Ok(DeviceType::Thermo)
        } else {
            Err(SmartHouseError::WrongRequestDataError(DEVICE_TYPE_ERROR.to_owned()))
        }
    }

    /// The name of this kind of device, which `parse` reads back.
    pub fn to_str(&self) -> (name: String)
        ensures
            name@ == self.name(),
            device_type_named(name@) == Some(*self),
    {
        proof {
            law_names_are_read_back();
        }
        match self {
            DeviceType::Socket => "Socket".to_owned(),
            DeviceType::Thermo => "Thermo".to_owned(),
        }
    }

    /// The name of this kind of device.
    pub open spec fn name(&self) -> Seq<char> {
        match self {
            DeviceType::Socket => "Socket"@,
            DeviceType::Thermo => "Thermo"@,
        }
    }
}

/// Each kind of device is the one that its own name names.
pub proof fn law_names_are_read_back()
    ensures
        forall|device_type: DeviceType|
            device_type_named(#[trigger] device_type.name()) == Some(device_type),
{
    reveal_strlit("Socket");
    reveal_strlit("Thermo");
    reveal_strlit("socket");
    reveal_strlit("thermo");
    assert(spells("Socket"@, "socket"@));
    assert(!spells("Thermo"@, "socket"@)) by {
        assert(ascii_lower("Thermo"@[0]) != ascii_lower("socket"@[0]));
    }
    assert(spells("Thermo"@, "thermo"@));
}

} // verus!
