#[test]
fn usbcan_official2() {
    // no such device is attached here
    let _ = rs_can::device::ZCanDeviceType::ZCAN_USBCAN2;
}
