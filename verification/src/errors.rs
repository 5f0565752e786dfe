//! The errors of the store and of the operations built on it.

use vstd::prelude::*;

verus! {

/// How a message about a room starts.
pub const ROOM_ERROR: &'static str = "no such room";

/// How a message about a device starts.
pub const DEVICE_ERROR: &'static str = "no such device";

/// What `DeviceType::parse` says of a token it does not know.
pub const DEVICE_TYPE_ERROR: &'static str = "wrong device type";

/// What is said when a table has given out every identifier it can.
pub const EXHAUSTED_ERROR: &'static str = "out of identifiers";

/// The type `std::io::Error`, which a network failure carries. Nothing is
/// claimed of its contents.
#[verifier::external_type_specification]
#[verifier::external_body]
pub struct ExIoError(std::io::Error);

/// Why the store refused an operation.
#[derive(Clone, Copy, Debug, PartialEq, Eq, Structural)]
pub enum StoreError {
    /// A room of that name exists already.
    DuplicateName,
    /// The room has a device of that name already.
    DuplicateDeviceName,
    /// No room has that name.
    RoomNotFound,
    /// The room exists and has no device of that name.
    DeviceNotFound,
}

/// A failure of a device.
#[derive(Debug)]
pub enum DeviceError {
    /// A socket did not do what it was told.
    SocketError(&'static str),
    /// A thermometer did not do what it was told.
    ThermoError(&'static str),
}

/// A failure of the smart house as its callers see it.
#[derive(Debug)]
pub enum SmartHouseError {
    /// The request or the answer was lost on the way.
    NetworkError(std::io::Error),
    /// The request asks for what cannot be done; the text says why.
    WrongRequestDataError(String),
    /// A device failed.
    CommandError(DeviceError),
    /// The smart house itself cannot go on; the text says why.
    ServerError(&'static str),
}

impl SmartHouseError {
    /// Whether this is a complaint about the request whose text is `text`.
    pub open spec fn rejects_request_with(&self, text: Seq<char>) -> bool {
        match self {
            SmartHouseError::WrongRequestDataError(message) => message@ == text,
            _ => false,
        }
    }

    /// Whether this is a failure of the server whose text is `text`.
    pub open spec fn fails_server_with(&self, text: Seq<char>) -> bool {
        match self {
            SmartHouseError::ServerError(message) => message@ == text,
            _ => false,
        }
    }
}

/// The text of a complaint: what it is about, the name in question, and what
/// is wrong with it, with a blank between each two.
pub open spec fn complaint(about: Seq<char>, name: Seq<char>, wrong: Seq<char>) -> Seq<char> {
    about + " "@ + name + " "@ + wrong
}

/// The text that explains `error` to whoever asked for `room_name` and
/// `device_name`.
pub open spec fn explanation(error: StoreError, room_name: Seq<char>, device_name: Seq<char>) -> Seq<
    char,
> {
    match error {
        StoreError::DuplicateName => complaint(ROOM_ERROR@, room_name, "already"@),
        StoreError::RoomNotFound => complaint(ROOM_ERROR@, room_name, "doesn't"@),
        StoreError::DuplicateDeviceName => complaint(DEVICE_ERROR@, device_name, "already"@),
        StoreError::DeviceNotFound => complaint(DEVICE_ERROR@, device_name, "doesn't"@),
    }
}

fn complain(about: &str, name: &str, wrong: &str) -> (text: String)
    ensures
        text@ == complaint(about@, name@, wrong@),
{
    let mut text = about.to_owned();
    text.append(" ");
    text.append(name);
    text.append(" ");
    text.append(wrong);
    text
}

impl StoreError {
    /// Turns a refusal of the store into the error that a caller of the smart
    /// house sees, with a text that names the room or device in question.
    pub fn explain(self, room_name: &str, device_name: &str) -> (error: SmartHouseError)
        ensures
            error.rejects_request_with(explanation(self, room_name@, device_name@)),
    {
        let text = match self {
            StoreError::DuplicateName => complain(ROOM_ERROR, room_name, "already"),
            StoreError::RoomNotFound => complain(ROOM_ERROR, room_name, "doesn't"),
            StoreError::DuplicateDeviceName => complain(DEVICE_ERROR, device_name, "already"),
            StoreError::DeviceNotFound => complain(DEVICE_ERROR, device_name, "doesn't"),
        };
        SmartHouseError::WrongRequestDataError(text)
    }
}

} // verus!
