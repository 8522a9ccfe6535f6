use smart_house::{
    DeviceInfo, DeviceInfoReport, DeviceInfoReportComposer, DeviceKind, House, HouseError,
    Manager, Room, Socket, Thermo,
};

#[test]
fn house_list_devices_from_room() {
    let mut club = House::new("Club");
    let mut dance_hall = Room::new("Dance-hall");
    let thermo = Thermo::new("thermo", false);
    dance_hall.add(thermo.clone()).unwrap();
    club.add(dance_hall).unwrap();
    let actual: Vec<_> = club.iter_devices_for_room("Dance-hall").unwrap().collect();

    assert_eq!(&actual, &[&thermo]);
}

#[test]
fn add_room_to_house_and_check_name() {
    let mut club = House::new("Club");
    let mut dance_hall = Room::new("Dance-hall");
    let thermo = Thermo::new("thermo", false);
    dance_hall.add(thermo).unwrap();
    club.add(dance_hall.clone()).unwrap();
    assert_eq!(club.iter().nth(0).unwrap().name(), dance_hall.name());
}

#[test]
fn remove_room_from_house() {
    let mut club = House::new("Club");
    let mut dance_hall = Room::new("Dance-hall");
    let thermo = Thermo::new("thermo", false);
    dance_hall.add(thermo).unwrap();
    club.add(dance_hall).unwrap();
    club.remove("Dance-hall").unwrap();
    assert_eq!(club.iter().count(), 0);
}

#[test]
fn report_produces_correct_string() {
    let thermo = Thermo::new("Thermo", true).into();
    let socket = Socket::new("Socket", true).into();
    let mut room: Room<DeviceKind> = Room::new("Kitchen");
    room.add(thermo).unwrap();
    room.add(socket).unwrap();

    let mut house = House::new("Bunker");
    house.add(room).unwrap();

    let report = DeviceInfoReport::new("Thermo", "Kitchen");
    let report = house.report(report);
    assert_eq!(
        report,
        "Device with name Thermo and state true was found in room Kitchen"
    );
}

fn bunker() -> House<DeviceKind> {
    let mut kitchen: Room<DeviceKind> = Room::new("Kitchen");
    kitchen.add(Thermo::new("Thermo", true).into()).unwrap();
    kitchen.add(Socket::new("Socket", false).into()).unwrap();
    let mut hall: Room<DeviceKind> = Room::new("Hall");
    hall.add(Socket::new("Thermo", false).into()).unwrap();
    let mut house = House::new("Bunker");
    house.add(kitchen).unwrap();
    house.add(hall).unwrap();
    house
}

fn shape(house: &House<DeviceKind>) -> Vec<(String, Vec<DeviceKind>)> {
    house
        .iter()
        .map(|room| (room.name().to_string(), room.iter().cloned().collect()))
        .collect()
}

#[test]
fn house_knows_its_name() {
    let house: House<DeviceKind> = House::new("Bunker");
    assert_eq!(house.name(), "Bunker");
    assert_eq!(house.iter().count(), 0);
}

#[test]
fn report_gives_the_state_of_the_device_in_the_room_asked_for() {
    let house = bunker();
    assert_eq!(
        house.report(DeviceInfoReport::new("Socket", "Kitchen")),
        "Device with name Socket and state false was found in room Kitchen"
    );
    assert_eq!(
        house.report(DeviceInfoReport::new("Thermo", "Hall")),
        "Device with name Thermo and state false was found in room Hall"
    );
}

#[test]
fn report_of_a_missing_room() {
    let house = bunker();
    assert_eq!(
        house.report(DeviceInfoReport::new("Thermo", "Attic")),
        "Room `Attic` not found"
    );
}

#[test]
fn report_of_a_missing_device() {
    let house = bunker();
    assert_eq!(
        house.report(DeviceInfoReport::new("Lamp", "Kitchen")),
        "Device not found: Lamp"
    );
}

#[test]
fn report_names_the_room_first_where_both_are_missing() {
    let house = bunker();
    assert_eq!(
        house.report(DeviceInfoReport::new("Lamp", "Attic")),
        "Room `Attic` not found"
    );
}

#[test]
fn compose_gives_the_failure_itself() {
    let house = bunker();
    let r = DeviceInfoReport::new("Thermo", "Attic").compose(&house);
    assert!(matches!(r, Err(HouseError::RoomNotFoundError(ref n)) if n == "Attic"));
    let r = DeviceInfoReport::new("Lamp", "Hall").compose(&house);
    assert!(matches!(r, Err(HouseError::DeviceNotFoundError(ref n)) if n == "Lamp"));
    let r = DeviceInfoReport::new("Thermo", "Kitchen").compose(&house);
    assert_eq!(
        r.unwrap(),
        "Device with name Thermo and state true was found in room Kitchen"
    );
}

#[test]
fn query_holds_the_two_names() {
    let query = DeviceInfoReport::new("Thermo", "Kitchen");
    assert_eq!(query.device_name, "Thermo");
    assert_eq!(query.room_name, "Kitchen");
}

#[test]
fn house_rejects_a_second_room_of_one_name() {
    let mut house = bunker();
    let before = shape(&house);
    let mut other: Room<DeviceKind> = Room::new("Kitchen");
    other.add(Socket::new("Lamp", true).into()).unwrap();
    let r = house.add(other);
    assert!(matches!(r, Err(HouseError::RoomAlreadyExistsError(ref n)) if n == "Kitchen"));
    assert_eq!(shape(&house), before);
}

#[test]
fn house_rejects_the_removal_of_what_is_not_there() {
    let mut house = bunker();
    let before = shape(&house);
    let r = house.remove("Attic");
    assert!(matches!(r, Err(HouseError::RoomNotFoundError(ref n)) if n == "Attic"));
    assert_eq!(shape(&house), before);
}

#[test]
fn house_rejects_a_second_removal() {
    let mut house = bunker();
    house.remove("Kitchen").unwrap();
    let after_first = shape(&house);
    assert_eq!(after_first.len(), 1);
    assert_eq!(after_first[0].0, "Hall");
    let r = house.remove("Kitchen");
    assert!(matches!(r, Err(HouseError::RoomNotFoundError(ref n)) if n == "Kitchen"));
    assert_eq!(shape(&house), after_first);
}

#[test]
fn house_add_then_remove_gives_back_the_rooms() {
    let mut house = bunker();
    let before = shape(&house);
    house.add(Room::new("Attic")).unwrap();
    assert_eq!(house.iter().count(), 3);
    house.remove("Attic").unwrap();
    assert_eq!(shape(&house), before);
}

#[test]
fn removing_a_room_takes_its_devices_along() {
    let mut house = bunker();
    house.remove("Kitchen").unwrap();
    assert!(house.iter_devices_for_room("Kitchen").is_none());
    assert_eq!(
        house.report(DeviceInfoReport::new("Thermo", "Kitchen")),
        "Room `Kitchen` not found"
    );
}

#[test]
fn device_for_a_missing_room_changes_nothing() {
    let mut house = bunker();
    let before = shape(&house);
    let r = house.add_device_to_room(Socket::new("Lamp", true).into(), "NoSuchRoom");
    assert!(matches!(r, Err(HouseError::RoomNotFoundError(ref n)) if n == "NoSuchRoom"));
    assert_eq!(shape(&house), before);
}

#[test]
fn device_of_a_taken_name_changes_nothing() {
    let mut house = bunker();
    let before = shape(&house);
    let r = house.add_device_to_room(Socket::new("Thermo", false).into(), "Kitchen");
    assert!(matches!(r, Err(HouseError::DeviceAlreadyExistsError(ref n)) if n == "Thermo"));
    assert_eq!(shape(&house), before);
}

#[test]
fn device_goes_to_the_room_asked_for_only() {
    let mut house = bunker();
    house
        .add_device_to_room(Socket::new("Lamp", true).into(), "Hall")
        .unwrap();
    let rooms = shape(&house);
    assert_eq!(rooms[0].0, "Kitchen");
    assert_eq!(rooms[0].1.len(), 2);
    assert_eq!(rooms[1].0, "Hall");
    assert_eq!(rooms[1].1.len(), 2);
    assert_eq!(rooms[1].1[1], DeviceKind::from(Socket::new("Lamp", true)));
}

#[test]
fn removal_of_a_device_through_the_house() {
    let mut house = bunker();
    let r = house.remove_device_for_room("Thermo", "Attic");
    assert!(matches!(r, Err(HouseError::RoomNotFoundError(ref n)) if n == "Attic"));
    let r = house.remove_device_for_room("Lamp", "Kitchen");
    assert!(matches!(r, Err(HouseError::DeviceNotFoundError(ref n)) if n == "Lamp"));
    house.remove_device_for_room("Thermo", "Kitchen").unwrap();
    let rooms = shape(&house);
    assert_eq!(rooms[0].1, vec![DeviceKind::from(Socket::new("Socket", false))]);
    assert_eq!(rooms[1].1.len(), 1);
    let r = house.remove_device_for_room("Thermo", "Kitchen");
    assert!(matches!(r, Err(HouseError::DeviceNotFoundError(ref n)) if n == "Thermo"));
    assert_eq!(shape(&house), rooms);
}

#[test]
fn devices_of_a_room_that_is_not_there() {
    let house = bunker();
    assert!(house.iter_devices_for_room("Attic").is_none());
    let names: Vec<&str> = house
        .iter_devices_for_room("Kitchen")
        .unwrap()
        .map(|d| d.name())
        .collect();
    assert_eq!(names, vec!["Thermo", "Socket"]);
}
