use smart_house::database::Database;
use smart_house::domain::AddDeviceDto;
use smart_house::domain::DeviceDto;
use smart_house::domain::RemoveDeviceDto;
use smart_house::domain::RoomDto;
use smart_house::service::add_device;
use smart_house::service::add_room;
use smart_house::service::devices;
use smart_house::service::remove_device;
use smart_house::service::remove_room;
use smart_house::service::rooms;
use smart_house::service::Status;

fn room(name: &str) -> RoomDto {
    RoomDto { name: name.to_string() }
}

fn new_device(room_name: &str, device_name: &str, device_type: &str) -> AddDeviceDto {
    AddDeviceDto {
        room_name: room_name.to_string(),
        device_name: device_name.to_string(),
        device_type: device_type.to_string(),
    }
}

fn old_device(room_name: &str, device_name: &str) -> RemoveDeviceDto {
    RemoveDeviceDto { room_name: room_name.to_string(), device_name: device_name.to_string() }
}

#[test]
fn status_numbers() {
    assert_eq!(Status::Success.code(), 200);
    assert_eq!(Status::NoContent.code(), 204);
    assert_eq!(Status::BadRequest.code(), 400);
}

#[test]
fn add_room_answers() {
    let mut db = Database::new();
    let reply = add_room(&mut db, &room("Kitchen"));
    assert_eq!((reply.status, reply.body.as_str()), (Status::Success, "room {} added Kitchen"));
    let reply = add_room(&mut db, &room("Kitchen"));
    assert_eq!(
        (reply.status, reply.body.as_str()),
        (Status::BadRequest, "could not add room Kitchen")
    );
    assert_eq!(db.list_rooms(), vec!["Kitchen"]);
}

#[test]
fn remove_room_answers() {
    let mut db = Database::new();
    add_room(&mut db, &room("Kitchen"));
    let reply = remove_room(&mut db, None);
    assert_eq!((reply.status, reply.body.as_str()), (Status::BadRequest, ""));
    let reply = remove_room(&mut db, Some("Hall"));
    assert_eq!(
        (reply.status, reply.body.as_str()),
        (Status::BadRequest, "could not remove room Hall")
    );
    assert_eq!(db.list_rooms(), vec!["Kitchen"]);
    let reply = remove_room(&mut db, Some("Kitchen"));
    assert_eq!(
        (reply.status, reply.body.as_str()),
        (Status::Success, "room {} removed Kitchen")
    );
    assert!(db.list_rooms().is_empty());
}

#[test]
fn rooms_answers() {
    let mut db = Database::new();
    let reply = rooms(&db);
    assert_eq!((reply.status, reply.body), (Status::NoContent, None));
    add_room(&mut db, &room("Kitchen"));
    add_room(&mut db, &room("Hall"));
    let reply = rooms(&db);
    assert_eq!(
        (reply.status, reply.body),
        (Status::Success, Some(vec!["Kitchen".to_string(), "Hall".to_string()]))
    );
}

#[test]
fn add_device_answers() {
    let mut db = Database::new();
    add_room(&mut db, &room("Hall"));
    let reply = add_device(&mut db, &new_device("Hall", "Lamp", "lamp"));
    assert_eq!(
        (reply.status, reply.body.as_str()),
        (Status::BadRequest, "could not parse device type")
    );
    let reply = add_device(&mut db, &new_device("Attic", "Lamp", "socket"));
    assert_eq!(
        (reply.status, reply.body.as_str()),
        (Status::BadRequest, "could not add device Lamp")
    );
    assert_eq!(db.list_devices("Hall"), Ok(vec![]));
    let reply = add_device(&mut db, &new_device("Hall", "Lamp", "socket"));
    assert_eq!((reply.status, reply.body.as_str()), (Status::Success, "device {} added Lamp"));
    let reply = add_device(&mut db, &new_device("Hall", "Lamp", "Thermo"));
    assert_eq!(
        (reply.status, reply.body.as_str()),
        (Status::BadRequest, "could not add device Lamp")
    );
    assert_eq!(
        db.list_devices("Hall"),
        Ok(vec![DeviceDto {
            device_name: "Lamp".to_string(),
            is_on: false,
            device_type: "Socket".to_string(),
        }])
    );
}

#[test]
fn an_unreadable_kind_is_reported_before_a_missing_room() {
    let mut db = Database::new();
    let reply = add_device(&mut db, &new_device("Nowhere", "Lamp", "lamp"));
    assert_eq!(
        (reply.status, reply.body.as_str()),
        (Status::BadRequest, "could not parse device type")
    );
}

#[test]
fn remove_device_answers() {
    let mut db = Database::new();
    add_room(&mut db, &room("Hall"));
    add_device(&mut db, &new_device("Hall", "Lamp", "socket"));
    let reply = remove_device(&mut db, &old_device("Attic", "Lamp"));
    assert_eq!(
        (reply.status, reply.body.as_str()),
        (Status::BadRequest, "could not remove device Lamp")
    );
    let reply = remove_device(&mut db, &old_device("Hall", "Lamp"));
    assert_eq!(
        (reply.status, reply.body.as_str()),
        (Status::Success, "device {} removed Lamp")
    );
    let reply = remove_device(&mut db, &old_device("Hall", "Lamp"));
    assert_eq!(
        (reply.status, reply.body.as_str()),
        (Status::BadRequest, "could not remove device Lamp")
    );
}

#[test]
fn devices_answers() {
    let mut db = Database::new();
    let reply = devices(&db, None);
    assert_eq!((reply.status, reply.body), (Status::BadRequest, vec![]));
    let reply = devices(&db, Some("Hall"));
    assert_eq!((reply.status, reply.body), (Status::NoContent, vec![]));
    add_room(&mut db, &room("Hall"));
    let reply = devices(&db, Some("Hall"));
    assert_eq!((reply.status, reply.body), (Status::Success, vec![]));
    add_device(&mut db, &new_device("Hall", "Heater", "THERMO"));
    let reply = devices(&db, Some("Hall"));
    assert_eq!(
        (reply.status, reply.body),
        (
            Status::Success,
            vec![DeviceDto {
                device_name: "Heater".to_string(),
                is_on: false,
                device_type: "Thermo".to_string(),
            }]
        )
    );
}
