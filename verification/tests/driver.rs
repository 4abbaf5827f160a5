use nusb::driver::Driver;

#[test]
fn driver_from_name() {
    assert_eq!(Driver::from_name("WinUSB"), Some(Driver::WinUsb));
    assert_eq!(Driver::from_name("libusb0"), Some(Driver::Libusb0));
    assert_eq!(Driver::from_name("usbccgp"), None);
}

#[test]
fn driver_from_name_any_ascii_case() {
    assert_eq!(Driver::from_name("winusb"), Some(Driver::WinUsb));
    assert_eq!(Driver::from_name("WINUSB"), Some(Driver::WinUsb));
    assert_eq!(Driver::from_name("wInUsB"), Some(Driver::WinUsb));
    assert_eq!(Driver::from_name("LIBUSB0"), Some(Driver::Libusb0));
    assert_eq!(Driver::from_name("LibUsb0"), Some(Driver::Libusb0));
}

#[test]
fn driver_from_name_rejects_near_misses() {
    assert_eq!(Driver::from_name(""), None);
    assert_eq!(Driver::from_name("winusb "), None);
    assert_eq!(Driver::from_name("winus"), None);
    assert_eq!(Driver::from_name("libusb"), None);
    assert_eq!(Driver::from_name("libusbK"), None);
    assert_eq!(Driver::from_name("libusb1"), None);
    // Only ASCII letters are folded: a Kelvin sign is no 'k', a dotless i no 'i'.
    assert_eq!(Driver::from_name("w\u{131}nusb"), None);
    assert_eq!(Driver::from_name("winusb\u{0}"), None);
}
