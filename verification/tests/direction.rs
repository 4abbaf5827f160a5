use nusb::direction::Direction;

#[test]
fn direction_from_address_reads_bit_seven() {
    assert_eq!(Direction::from_address(0x00), Direction::Out);
    assert_eq!(Direction::from_address(0x01), Direction::Out);
    assert_eq!(Direction::from_address(0x7f), Direction::Out);
    assert_eq!(Direction::from_address(0x80), Direction::In);
    assert_eq!(Direction::from_address(0x81), Direction::In);
    assert_eq!(Direction::from_address(0xff), Direction::In);
}
