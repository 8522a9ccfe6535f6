use smart_house::{error_chain_fmt, HouseError};

#[test]
fn message_of_room_not_found() {
    let e = HouseError::RoomNotFoundError("Attic".to_string());
    assert_eq!(e.message(), "Room `Attic` not found");
}

#[test]
fn message_of_room_already_exists() {
    let e = HouseError::RoomAlreadyExistsError("Attic".to_string());
    assert_eq!(e.message(), "Room `Attic` already exists");
}

#[test]
fn message_of_device_already_exists() {
    let e = HouseError::DeviceAlreadyExistsError("Lamp".to_string());
    assert_eq!(e.message(), "Device `Lamp` already exists");
}

#[test]
fn message_of_device_not_found() {
    let e = HouseError::DeviceNotFoundError("Lamp".to_string());
    assert_eq!(e.message(), "Device not found: Lamp");
}

#[test]
fn message_with_empty_name() {
    assert_eq!(
        HouseError::RoomNotFoundError(String::new()).message(),
        "Room `` not found"
    );
    assert_eq!(
        HouseError::DeviceNotFoundError(String::new()).message(),
        "Device not found: "
    );
}

#[test]
fn chain_without_causes_is_the_message_and_an_empty_line() {
    let e = HouseError::DeviceNotFoundError("Lamp".to_string());
    assert_eq!(
        error_chain_fmt(&e.message(), &Vec::new()),
        "Device not found: Lamp\n\n"
    );
    let e = HouseError::RoomAlreadyExistsError("Attic".to_string());
    assert_eq!(
        error_chain_fmt(&e.message(), &Vec::new()),
        "Room `Attic` already exists\n\n"
    );
}

#[test]
fn chain_lists_the_causes_in_their_order() {
    let causes = vec!["no power".to_string(), "fuse blown".to_string()];
    assert_eq!(
        error_chain_fmt("lamp is dark", &causes),
        "lamp is dark\n\nCaused by:\n\tno power\nCaused by:\n\tfuse blown\n"
    );
    assert_eq!(
        error_chain_fmt("", &vec![String::new()]),
        "\n\nCaused by:\n\t\n"
    );
}

#[test]
fn message_keeps_characters_outside_ascii() {
    let e = HouseError::RoomNotFoundError("Küche №1".to_string());
    assert_eq!(e.message(), "Room `Küche №1` not found");
}
