use usb_descriptor_decoder::descriptors::desc_device::StandardUSBDeviceClassCode;
use usb_descriptor_decoder::descriptors::desc_hid::{
    HIDDescriptorTypes, USBHIDProtocolDescriptorType, USBHIDSubclassDescriptorType,
};
use usb_descriptor_decoder::descriptors::desc_uvc::uvc_endpoints::UVCVideoClassEndpointSubtypes;
use usb_descriptor_decoder::descriptors::desc_uvc::UVCDescriptorTypes;
use usb_descriptor_decoder::descriptors::{
    hi_byte, lo_byte, u16_le, PortSpeed, USBStandardDescriptorTypes,
};
use usb_descriptor_decoder::ParserError;

#[test]
fn catalog_codes_are_those_of_the_standard() {
    let catalog = [
        (0x01u8, USBStandardDescriptorTypes::Device),
        (0x02, USBStandardDescriptorTypes::Configuration),
        (0x03, USBStandardDescriptorTypes::String),
        (0x04, USBStandardDescriptorTypes::Interface),
        (0x05, USBStandardDescriptorTypes::Endpoint),
        (0x06, USBStandardDescriptorTypes::DeviceQualifier),
        (0x07, USBStandardDescriptorTypes::OtherSpeedConfiguration),
        (0x08, USBStandardDescriptorTypes::InterfacePower1),
        (0x09, USBStandardDescriptorTypes::OTG),
        (0x0a, USBStandardDescriptorTypes::Debug),
        (0x0b, USBStandardDescriptorTypes::InterfaceAssociation),
        (0x0f, USBStandardDescriptorTypes::Bos),
        (0x10, USBStandardDescriptorTypes::DeviceCapability),
        (0x30, USBStandardDescriptorTypes::SuperSpeedEndpointCompanion),
        (0x31, USBStandardDescriptorTypes::SuperSpeedPlusIsochEndpointCompanion),
    ];
    for (code, desc_type) in catalog {
        assert_eq!(USBStandardDescriptorTypes::from_u8(code), Some(desc_type));
        assert_eq!(desc_type.to_u8(), code);
    }
}

#[test]
fn every_other_code_is_outside_the_catalog() {
    let known = [
        0x01u8, 0x02, 0x03, 0x04, 0x05, 0x06, 0x07, 0x08, 0x09, 0x0a, 0x0b, 0x0f, 0x10, 0x30, 0x31,
    ];
    let mut outside = 0;
    for code in 0..=255u8 {
        if !known.contains(&code) {
            assert_eq!(USBStandardDescriptorTypes::from_u8(code), None);
            outside += 1;
        }
    }
    assert_eq!(outside, 241);
}

#[test]
fn catalog_names() {
    assert_eq!(USBStandardDescriptorTypes::Device.name(), "Device");
    assert_eq!(USBStandardDescriptorTypes::InterfaceAssociation.name(), "InterfaceAssociation");
    assert_eq!(
        USBStandardDescriptorTypes::SuperSpeedPlusIsochEndpointCompanion.name(),
        "SuperSpeedPlusIsochEndpointCompanion"
    );
    assert_eq!(USBStandardDescriptorTypes::OTG.name(), "OTG");
}

#[test]
fn peek_known_type_gives_type_and_declared_length() {
    let peeked = USBStandardDescriptorTypes::peek_type(&[9, 4, 0, 0]).unwrap();
    assert_eq!(peeked, (USBStandardDescriptorTypes::Interface, 9));
    let peeked = USBStandardDescriptorTypes::peek_type(&[18, 1]).unwrap();
    assert_eq!(peeked, (USBStandardDescriptorTypes::Device, 18));
}

#[test]
fn peek_does_not_consume_or_check_the_length() {
    let peeked = USBStandardDescriptorTypes::peek_type(&[200, 5]).unwrap();
    assert_eq!(peeked, (USBStandardDescriptorTypes::Endpoint, 200));
    let peeked = USBStandardDescriptorTypes::peek_type(&[0, 2]).unwrap();
    assert_eq!(peeked, (USBStandardDescriptorTypes::Configuration, 0));
}

#[test]
fn peek_all_zero_is_the_end_of_the_stream() {
    let peeked = USBStandardDescriptorTypes::peek_type(&[0, 0]);
    assert!(matches!(peeked, Err(ParserError::Ended)));
    let peeked = USBStandardDescriptorTypes::peek_type(&[0, 0, 9, 4]);
    assert!(matches!(peeked, Err(ParserError::Ended)));
}

#[test]
fn peek_short_slice_is_the_end_of_the_stream() {
    assert!(matches!(USBStandardDescriptorTypes::peek_type(&[]), Err(ParserError::Ended)));
    assert!(matches!(USBStandardDescriptorTypes::peek_type(&[9]), Err(ParserError::Ended)));
}

#[test]
fn peek_unknown_type_fails_with_the_type_byte() {
    let peeked = USBStandardDescriptorTypes::peek_type(&[9, 33, 1]);
    assert!(matches!(peeked, Err(ParserError::PeekFailed(33))));
    let peeked = USBStandardDescriptorTypes::peek_type(&[5, 0]);
    assert!(matches!(peeked, Err(ParserError::PeekFailed(0))));
    let peeked = USBStandardDescriptorTypes::peek_type(&[0, 0x24]);
    assert!(matches!(peeked, Err(ParserError::PeekFailed(0x24))));
}

#[test]
fn little_endian_words() {
    assert_eq!(u16_le(0, 2), 512);
    assert_eq!(u16_le(39, 6), 1575);
    assert_eq!(u16_le(255, 255), 65535);
    assert_eq!(u16_le(34, 0), 34);
    assert_eq!(lo_byte(1575), 39);
    assert_eq!(hi_byte(1575), 6);
    assert_eq!(lo_byte(65535), 255);
    assert_eq!(hi_byte(256), 1);
    assert_eq!(lo_byte(256), 0);
}

#[test]
fn port_speed_numbers() {
    assert_eq!(PortSpeed::from_u8(0), None);
    assert_eq!(PortSpeed::from_u8(1), Some(PortSpeed::FullSpeed));
    assert_eq!(PortSpeed::from_u8(2), Some(PortSpeed::LowSpeed));
    assert_eq!(PortSpeed::from_u8(3), Some(PortSpeed::HighSpeed));
    assert_eq!(PortSpeed::from_u8(4), Some(PortSpeed::SuperSpeed));
    assert_eq!(PortSpeed::from_u8(5), Some(PortSpeed::SuperSpeedPlus));
    assert_eq!(PortSpeed::from_u8(6), None);
}

#[test]
fn class_codes() {
    assert_eq!(StandardUSBDeviceClassCode::UseInterface.to_u8(), 0x00);
    assert_eq!(StandardUSBDeviceClassCode::HID.to_u8(), 0x03);
    assert_eq!(StandardUSBDeviceClassCode::MassStorage.to_u8(), 0x08);
    assert_eq!(StandardUSBDeviceClassCode::Hub.to_u8(), 0x09);
    assert_eq!(StandardUSBDeviceClassCode::Video.to_u8(), 0x0e);
    assert_eq!(StandardUSBDeviceClassCode::VendorSpecific.to_u8(), 0xff);
}

#[test]
fn hid_codes() {
    assert_eq!(HIDDescriptorTypes::from_u8(0x21), Some(HIDDescriptorTypes::Hid));
    assert_eq!(HIDDescriptorTypes::from_u8(0x22), Some(HIDDescriptorTypes::HIDReport));
    assert_eq!(HIDDescriptorTypes::from_u8(0x23), Some(HIDDescriptorTypes::HIDPhysical));
    assert_eq!(HIDDescriptorTypes::from_u8(0x24), None);
    assert_eq!(HIDDescriptorTypes::Hid.to_u8(), 0x21);
    assert_eq!(HIDDescriptorTypes::HIDPhysical.to_u8(), 0x23);
    assert_eq!(
        USBHIDSubclassDescriptorType::from_u8(0),
        Some(USBHIDSubclassDescriptorType::NoSubclass)
    );
    assert_eq!(
        USBHIDSubclassDescriptorType::from_u8(1),
        Some(USBHIDSubclassDescriptorType::BootInterface)
    );
    assert_eq!(USBHIDSubclassDescriptorType::from_u8(2), None);
    assert_eq!(
        USBHIDProtocolDescriptorType::from_u8(0),
        Some(USBHIDProtocolDescriptorType::NoProtocol)
    );
    assert_eq!(
        USBHIDProtocolDescriptorType::from_u8(1),
        Some(USBHIDProtocolDescriptorType::KeyBoard)
    );
    assert_eq!(USBHIDProtocolDescriptorType::from_u8(2), Some(USBHIDProtocolDescriptorType::Mouse));
    assert_eq!(USBHIDProtocolDescriptorType::from_u8(3), None);
}

#[test]
fn uvc_codes() {
    assert_eq!(UVCDescriptorTypes::from_u8(0x1f), None);
    assert_eq!(UVCDescriptorTypes::from_u8(0x20), Some(UVCDescriptorTypes::UVCClassSpecUnderfined));
    assert_eq!(UVCDescriptorTypes::from_u8(0x24), Some(UVCDescriptorTypes::UVCClassSpecInterface));
    assert_eq!(
        UVCDescriptorTypes::from_u8(0x25),
        Some(UVCDescriptorTypes::UVCClassSpecVideoControlInterruptEndpoint)
    );
    assert_eq!(UVCDescriptorTypes::from_u8(0x26), None);
    assert_eq!(UVCDescriptorTypes::UVCClassSpecString.to_u8(), 0x23);
    assert_eq!(
        UVCVideoClassEndpointSubtypes::from_u8(3),
        Some(UVCVideoClassEndpointSubtypes::INTERRUPT)
    );
    assert_eq!(UVCVideoClassEndpointSubtypes::from_u8(4), None);
    assert_eq!(UVCVideoClassEndpointSubtypes::GENERAL.to_u8(), 1);
}
