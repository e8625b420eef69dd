use rs_can::context::ZDeviceInfo;
use rs_can::device::DeriveInfo;

#[test]
fn device_info_new() {
    let derive = DeriveInfo { canfd: false, channels: 2 };
    let device_info = ZDeviceInfo::from_derive(&derive);
    assert_eq!(device_info.chn, 2);
    assert_eq!(device_info.id(), "Derive USBCAN device");
    assert!(!device_info.canfd());

    let derive = DeriveInfo { canfd: true, channels: 2 };
    let device_info = ZDeviceInfo::from_derive(&derive);
    assert_eq!(device_info.chn, 2);
    assert_eq!(device_info.id(), "Derive USBCANFD device");
    assert!(device_info.canfd());
}

#[test]
fn device_version() {
    let dev_info = ZDeviceInfo {
        hwv: 0x0001,
        fwv: 0x0101,
        drv: 0x0A01,
        api: 0x0237,
        irq: 8,
        chn: 3,
        sn: String::new(),
        id: String::new(),
    };
    assert_eq!(dev_info.hardware_version(), "V0.01");
    assert_eq!(dev_info.firmware_version(), "V1.01");
    assert_eq!(dev_info.driver_version(), "V10.01");
    assert_eq!(dev_info.api_version(), "V2.37");
}

#[test]
fn version_with_high_nibble() {
    assert_eq!(ZDeviceInfo::version(0x1234), "V12.34");
    assert_eq!(ZDeviceInfo::version(0xF0FF), "V150.1515");
}
