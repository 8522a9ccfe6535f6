use smart_house::{DeviceInfo, DeviceKind, Socket, Thermo};

#[test]
fn test_device_socket() {
    let _socket: DeviceKind = Socket::new("my socket", true).into();
}

#[test]
fn test_device_thermo() {
    let _socket: DeviceKind = Thermo::new("my thermo", true).into();
}

#[test]
fn socket_answers_with_what_it_was_made_of() {
    let socket = Socket::new("my socket", true);
    assert_eq!(socket.name(), "my socket");
    assert!(socket.state());
    let off = Socket::new("other", false);
    assert_eq!(off.name(), "other");
    assert!(!off.state());
}

#[test]
fn thermo_answers_with_what_it_was_made_of() {
    let thermo = Thermo::new("my thermo", false);
    assert_eq!(thermo.name(), "my thermo");
    assert!(!thermo.state());
    assert!(Thermo::new("t", true).state());
}

#[test]
fn device_kind_asks_the_device_it_holds() {
    let socket: DeviceKind = Socket::new("plug", true).into();
    let thermo: DeviceKind = Thermo::new("heat", false).into();
    assert_eq!(socket.name(), "plug");
    assert!(socket.state());
    assert_eq!(thermo.name(), "heat");
    assert!(!thermo.state());
}

#[test]
fn device_kind_keeps_the_kind() {
    let socket = Socket::new("plug", true);
    let thermo = Thermo::new("plug", true);
    assert_eq!(DeviceKind::from(socket.clone()), DeviceKind::Socket(socket));
    assert_eq!(DeviceKind::from(thermo.clone()), DeviceKind::Thermo(thermo.clone()));
    assert_ne!(
        DeviceKind::from(Socket::new("plug", true)),
        DeviceKind::Thermo(thermo)
    );
}

#[test]
fn empty_name_is_taken_as_it_is() {
    let socket = Socket::new("", false);
    assert_eq!(socket.name(), "");
    let thermo = Thermo::new("", true);
    assert_eq!(thermo.name(), "");
}
