use smart_house::database::Database;
use smart_house::domain::DeviceDto;
use smart_house::domain::DeviceType;
use smart_house::errors::StoreError;

fn entry(device_name: &str, is_on: bool, device_type: &str) -> DeviceDto {
    DeviceDto {
        device_name: device_name.to_string(),
        is_on,
        device_type: device_type.to_string(),
    }
}

fn count(names: &[String], name: &str) -> usize {
    names.iter().filter(|other| other.as_str() == name).count()
}

#[test]
fn new_store_is_empty() {
    let db = Database::new();
    assert!(db.list_rooms().is_empty());
    assert!(!db.rooms_full());
    assert!(!db.devices_full());
    assert_eq!(db.room_id("Kitchen"), None);
    assert_eq!(db.list_devices("Kitchen"), Err(StoreError::RoomNotFound));
}

#[test]
fn second_room_of_a_name_is_refused_and_changes_nothing() {
    let mut db = Database::new();
    assert_eq!(db.add_room("Hall"), Ok(()));
    assert_eq!(db.add_room("Kitchen"), Ok(()));
    let id = db.room_id("Kitchen");
    assert_eq!(db.add_room("Kitchen"), Err(StoreError::DuplicateName));
    assert_eq!(db.list_rooms(), vec!["Hall", "Kitchen"]);
    assert_eq!(db.room_id("Kitchen"), id);
    // The refused attempt took no identifier.
    assert_eq!(db.add_room("Attic"), Ok(()));
    assert_eq!(db.room_id("Attic").unwrap().value, 2);
}

#[test]
fn room_names_differ_by_case() {
    let mut db = Database::new();
    assert_eq!(db.add_room("Kitchen"), Ok(()));
    assert_eq!(db.add_room("kitchen"), Ok(()));
    assert_eq!(db.add_room(""), Ok(()));
    assert_eq!(db.add_room(""), Err(StoreError::DuplicateName));
    assert_eq!(db.list_rooms(), vec!["Kitchen", "kitchen", ""]);
}

#[test]
fn device_names_are_unique_within_a_room_only() {
    let mut db = Database::new();
    db.add_room("R1").unwrap();
    db.add_room("R2").unwrap();
    assert_eq!(db.add_device("R1", "D1", DeviceType::Socket), Ok(()));
    assert_eq!(db.add_device("R2", "D1", DeviceType::Socket), Ok(()));
    assert_eq!(
        db.add_device("R1", "D1", DeviceType::Thermo),
        Err(StoreError::DuplicateDeviceName)
    );
    assert_eq!(db.list_devices("R1"), Ok(vec![entry("D1", false, "Socket")]));
    assert_eq!(db.list_devices("R2"), Ok(vec![entry("D1", false, "Socket")]));
}

#[test]
fn add_device_needs_the_room() {
    let mut db = Database::new();
    db.add_room("R1").unwrap();
    assert_eq!(db.add_device("R9", "D1", DeviceType::Socket), Err(StoreError::RoomNotFound));
    assert_eq!(db.list_devices("R1"), Ok(vec![]));
}

#[test]
fn remove_room_takes_its_devices_along() {
    let mut db = Database::new();
    db.add_room("R").unwrap();
    db.add_room("S").unwrap();
    db.add_device("R", "D1", DeviceType::Socket).unwrap();
    db.add_device("S", "D1", DeviceType::Thermo).unwrap();
    db.add_device("R", "D2", DeviceType::Thermo).unwrap();
    let old_room = db.room_id("R").unwrap();
    assert_eq!(db.remove_room("R"), Ok(()));
    assert_eq!(db.list_devices("R"), Err(StoreError::RoomNotFound));
    assert_eq!(db.room_id("R"), None);
    assert_eq!(db.device_id(old_room, "D1"), None);
    assert_eq!(db.device_id(old_room, "D2"), None);
    assert_eq!(db.remove_device("R", "D1"), Err(StoreError::RoomNotFound));
    assert_eq!(db.list_rooms(), vec!["S"]);
    assert_eq!(db.list_devices("S"), Ok(vec![entry("D1", false, "Thermo")]));
    // A new room of the old name starts without devices.
    db.add_room("R").unwrap();
    assert_eq!(db.list_devices("R"), Ok(vec![]));
    assert_eq!(db.add_device("R", "D1", DeviceType::Socket), Ok(()));
}

#[test]
fn remove_room_needs_the_room() {
    let mut db = Database::new();
    db.add_room("R").unwrap();
    db.add_device("R", "D1", DeviceType::Socket).unwrap();
    assert_eq!(db.remove_room("S"), Err(StoreError::RoomNotFound));
    assert_eq!(db.list_rooms(), vec!["R"]);
    assert_eq!(db.list_devices("R"), Ok(vec![entry("D1", false, "Socket")]));
}

#[test]
fn room_added_again_gets_a_new_identifier() {
    let mut db = Database::new();
    db.add_room("Hall").unwrap();
    db.add_room("Kitchen").unwrap();
    let first = db.room_id("Kitchen").unwrap();
    assert_eq!(first.value, 1);
    db.remove_room("Kitchen").unwrap();
    db.add_room("Kitchen").unwrap();
    let second = db.room_id("Kitchen").unwrap();
    assert_ne!(first, second);
    assert_eq!(second.value, 2);
    assert_eq!(db.room_id("Hall").unwrap().value, 0);
}

#[test]
fn device_added_again_gets_a_new_identifier() {
    let mut db = Database::new();
    db.add_room("Hall").unwrap();
    let hall = db.room_id("Hall").unwrap();
    db.add_device("Hall", "Lamp", DeviceType::Socket).unwrap();
    let first = db.device_id(hall, "Lamp").unwrap();
    db.remove_device("Hall", "Lamp").unwrap();
    db.add_device("Hall", "Lamp", DeviceType::Socket).unwrap();
    let second = db.device_id(hall, "Lamp").unwrap();
    assert_eq!((first.value, second.value), (0, 1));
}

#[test]
fn added_room_is_listed_once_and_removed_room_not_at_all() {
    let mut db = Database::new();
    db.add_room("Kitchen").unwrap();
    assert_eq!(count(&db.list_rooms(), "Kitchen"), 1);
    let _ = db.add_room("Kitchen");
    assert_eq!(count(&db.list_rooms(), "Kitchen"), 1);
    db.remove_room("Kitchen").unwrap();
    assert_eq!(count(&db.list_rooms(), "Kitchen"), 0);
    assert!(db.list_rooms().is_empty());
}

#[test]
fn rooms_are_listed_in_the_order_they_were_added() {
    let mut db = Database::new();
    for name in ["Pantry", "Attic", "Hall", "Bath"] {
        db.add_room(name).unwrap();
    }
    db.remove_room("Attic").unwrap();
    db.add_room("Attic").unwrap();
    assert_eq!(db.list_rooms(), vec!["Pantry", "Hall", "Bath", "Attic"]);
}

#[test]
fn devices_are_listed_in_the_order_they_were_added() {
    let mut db = Database::new();
    db.add_room("Hall").unwrap();
    db.add_room("Bath").unwrap();
    db.add_device("Hall", "Lamp", DeviceType::Socket).unwrap();
    db.add_device("Bath", "Heater", DeviceType::Thermo).unwrap();
    db.add_device("Hall", "Heater", DeviceType::Thermo).unwrap();
    db.add_device("Hall", "Fan", DeviceType::Socket).unwrap();
    db.remove_device("Hall", "Lamp").unwrap();
    db.add_device("Hall", "Lamp", DeviceType::Thermo).unwrap();
    assert_eq!(
        db.list_devices("Hall"),
        Ok(vec![
            entry("Heater", false, "Thermo"),
            entry("Fan", false, "Socket"),
            entry("Lamp", false, "Thermo"),
        ])
    );
    assert_eq!(db.list_devices("Bath"), Ok(vec![entry("Heater", false, "Thermo")]));
}

#[test]
fn room_without_devices_lists_nothing() {
    let mut db = Database::new();
    db.add_room("Hall").unwrap();
    assert_eq!(db.list_devices("Hall"), Ok(vec![]));
}

#[test]
fn bedroom_lamp_scenario() {
    let mut db = Database::new();
    assert_eq!(db.add_room("Bedroom"), Ok(()));
    assert_eq!(db.add_device("Bedroom", "Lamp", DeviceType::parse("Socket").unwrap()), Ok(()));
    assert_eq!(db.list_devices("Bedroom"), Ok(vec![entry("Lamp", false, "Socket")]));
    assert_eq!(db.remove_device("Bedroom", "Lamp"), Ok(()));
    assert_eq!(db.remove_device("Bedroom", "Lamp"), Err(StoreError::DeviceNotFound));
    assert_eq!(db.list_devices("Bedroom"), Ok(vec![]));
}

#[test]
fn remove_device_removes_one_device_of_one_room() {
    let mut db = Database::new();
    db.add_room("R1").unwrap();
    db.add_room("R2").unwrap();
    db.add_device("R1", "D1", DeviceType::Socket).unwrap();
    db.add_device("R2", "D1", DeviceType::Thermo).unwrap();
    db.add_device("R1", "D2", DeviceType::Thermo).unwrap();
    assert_eq!(db.remove_device("R1", "D1"), Ok(()));
    assert_eq!(db.list_devices("R1"), Ok(vec![entry("D2", false, "Thermo")]));
    assert_eq!(db.list_devices("R2"), Ok(vec![entry("D1", false, "Thermo")]));
    assert_eq!(db.remove_device("R3", "D1"), Err(StoreError::RoomNotFound));
    assert_eq!(db.remove_device("R2", "D2"), Err(StoreError::DeviceNotFound));
}

#[test]
fn lookups_tell_rooms_and_devices_apart() {
    let mut db = Database::new();
    db.add_room("R1").unwrap();
    db.add_room("R2").unwrap();
    db.add_device("R2", "D1", DeviceType::Socket).unwrap();
    let r1 = db.room_id("R1").unwrap();
    let r2 = db.room_id("R2").unwrap();
    assert_eq!((r1.value, r2.value), (0, 1));
    assert_eq!(db.device_id(r1, "D1"), None);
    assert_eq!(db.device_id(r2, "D1").unwrap().value, 0);
    assert_eq!(db.device_id(r2, "D2"), None);
}
