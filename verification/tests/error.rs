use serialport::{Error, ErrorKind};
use std::io;

fn native_kinds() -> Vec<io::ErrorKind> {
    vec![
        io::ErrorKind::NotFound,
        io::ErrorKind::PermissionDenied,
        io::ErrorKind::ConnectionRefused,
        io::ErrorKind::ConnectionReset,
        io::ErrorKind::ConnectionAborted,
        io::ErrorKind::NotConnected,
        io::ErrorKind::AddrInUse,
        io::ErrorKind::AddrNotAvailable,
        io::ErrorKind::BrokenPipe,
        io::ErrorKind::AlreadyExists,
        io::ErrorKind::WouldBlock,
        io::ErrorKind::InvalidInput,
        io::ErrorKind::InvalidData,
        io::ErrorKind::TimedOut,
        io::ErrorKind::WriteZero,
        io::ErrorKind::Interrupted,
        io::ErrorKind::Unsupported,
        io::ErrorKind::UnexpectedEof,
        io::ErrorKind::OutOfMemory,
        io::ErrorKind::Other,
    ]
}

#[test]
fn new_keeps_kind_and_description() {
    let error = Error::new(ErrorKind::NoDevice, "the device is gone");
    assert_eq!(error.kind(), ErrorKind::NoDevice);
    assert_eq!(error.kind, ErrorKind::NoDevice);
    assert_eq!(error.description(), "the device is gone");
    assert_eq!(error.description, "the device is gone");
}

#[test]
fn new_takes_an_owned_description() {
    let text = format!("rate {} refused", 7);
    let error = Error::new(ErrorKind::InvalidInput, &text);
    assert_eq!(error.kind(), ErrorKind::InvalidInput);
    assert_eq!(error.description(), "rate 7 refused");
}

#[test]
fn native_kind_of_each_kind() {
    assert_eq!(ErrorKind::NoDevice.native(), io::ErrorKind::NotFound);
    assert_eq!(ErrorKind::InvalidInput.native(), io::ErrorKind::InvalidInput);
    assert_eq!(ErrorKind::Unknown.native(), io::ErrorKind::Other);
    assert_eq!(ErrorKind::Io(io::ErrorKind::TimedOut).native(), io::ErrorKind::TimedOut);
}

#[test]
fn from_native_passes_the_kind_through() {
    let native = io::Error::new(io::ErrorKind::PermissionDenied, "not yours");
    let error = Error::from(native);
    assert_eq!(error.kind(), ErrorKind::Io(io::ErrorKind::PermissionDenied));
    assert_eq!(error.description(), "not yours");
}

#[test]
fn from_native_takes_the_message_of_an_os_error() {
    let native = io::Error::from_raw_os_error(2);
    let message = native.to_string();
    let kind = native.kind();
    let error = Error::from(native);
    assert_eq!(error.kind(), ErrorKind::Io(kind));
    assert_eq!(error.description(), message);
}

#[test]
fn to_native_maps_each_kind() {
    let gone: io::Error = Error::new(ErrorKind::NoDevice, "gone").into();
    assert_eq!(gone.kind(), io::ErrorKind::NotFound);
    assert_eq!(gone.to_string(), "gone");
    let bad: io::Error = Error::new(ErrorKind::InvalidInput, "bad").into();
    assert_eq!(bad.kind(), io::ErrorKind::InvalidInput);
    let unknown: io::Error = Error::new(ErrorKind::Unknown, "what").into();
    assert_eq!(unknown.kind(), io::ErrorKind::Other);
    let late: io::Error = Error::new(ErrorKind::Io(io::ErrorKind::TimedOut), "late").into();
    assert_eq!(late.kind(), io::ErrorKind::TimedOut);
    assert_eq!(late.to_string(), "late");
}

#[test]
fn native_kind_survives_the_round_trip() {
    for kind in native_kinds() {
        let native = io::Error::new(kind, "payload");
        let error = Error::from(native);
        assert_eq!(error.kind(), ErrorKind::Io(kind));
        let back = io::Error::from(error);
        assert_eq!(back.kind(), kind);
    }
}

#[test]
fn os_error_kind_survives_the_round_trip() {
    for code in [1, 2, 4, 5, 11, 13, 16, 19, 22, 32] {
        let native = io::Error::from_raw_os_error(code);
        let kind = native.kind();
        let back = io::Error::from(Error::from(native));
        assert_eq!(back.kind(), kind);
    }
}

#[test]
fn a_missing_device_is_never_invalid_input() {
    let native = io::Error::from_raw_os_error(2);
    assert_eq!(native.kind(), io::ErrorKind::NotFound);
    let error = Error::from(native);
    assert_eq!(error.kind(), ErrorKind::Io(io::ErrorKind::NotFound));
    assert_ne!(error.kind(), ErrorKind::InvalidInput);
}

#[test]
fn kinds_compare_by_value() {
    assert_eq!(ErrorKind::Io(io::ErrorKind::Other), ErrorKind::Io(io::ErrorKind::Other));
    assert_ne!(ErrorKind::Io(io::ErrorKind::Other), ErrorKind::Unknown);
    assert_ne!(ErrorKind::Io(io::ErrorKind::NotFound), ErrorKind::NoDevice);
    let kind = ErrorKind::NoDevice;
    let copy = kind;
    assert_eq!(kind, copy);
}

#[test]
fn to_string_gives_the_description() {
    let error = Error::new(ErrorKind::Unknown, "no discovery");
    assert_eq!(error.to_string(), "no discovery");
    assert_eq!(error.to_string(), error.description());
}

#[test]
fn with_kind_takes_the_message() {
    let error = Error::with_kind(io::Error::new(io::ErrorKind::Other, "gone away"), ErrorKind::NoDevice);
    assert_eq!(error.kind(), ErrorKind::NoDevice);
    assert_eq!(error.description(), "gone away");
}
