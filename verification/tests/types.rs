//! Tests for the endpoint address vocabulary.

use ht32f1yyy_hal::usb::{EndpointAddress, UsbDirection};

#[test]
fn endpoint_address_parts() {
    let a = EndpointAddress::from_parts(3, UsbDirection::In);
    assert_eq!(a.index(), 3);
    assert_eq!(a.direction(), UsbDirection::In);
    assert!(a.is_in());
    assert!(!a.is_out());

    let b = EndpointAddress::from_parts(0, UsbDirection::Out);
    assert_eq!(b.index(), 0);
    assert!(b.is_out());
    assert!(!b.is_in());
}

#[test]
fn endpoint_address_equality() {
    let a = EndpointAddress::from_parts(2, UsbDirection::Out);
    let b = EndpointAddress::from_parts(2, UsbDirection::Out);
    let c = EndpointAddress::from_parts(2, UsbDirection::In);
    assert_eq!(a, b);
    assert_ne!(a, c);
}
