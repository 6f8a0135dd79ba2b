//! The device descriptor, the root of the tree.
use vstd::prelude::*;

use super::desc_configuration::{TopologyConfigDesc, TopologyConfigDescView};
use super::{hi_byte, lo_byte, spec_hi_byte, spec_lo_byte, spec_u16_le, u16_le};
use crate::TopologyDescriptor;

verus! {

/// The number of bytes of a device descriptor.
pub const DEVICE_DESCRIPTOR_SIZE: usize = 18;

/// The fixed fields of a device descriptor, in the order of the wire.
#[derive(Copy, Clone, Debug, Default, PartialEq, Eq, Structural)]
pub struct Device {
    pub len: u8,
    pub descriptor_type: u8,
    pub cd_usb: u16,
    pub class: u8,
    pub subclass: u8,
    pub protocol: u8,
    pub max_packet_size0: u8,
    pub vendor: u16,
    pub product_id: u16,
    pub device: u16,
    pub manufacture: u8,
    pub product: u8,
    pub serial_number: u8,
    pub num_configurations: u8,
}

impl Device {
    /// The record that the first 18 bytes of `bytes` hold.
    pub open spec fn spec_from_bytes(bytes: Seq<u8>) -> Device
        recommends
            bytes.len() >= DEVICE_DESCRIPTOR_SIZE,
    {
        Device {
            len: bytes[0],
            descriptor_type: bytes[1],
            cd_usb: spec_u16_le(bytes[2], bytes[3]),
            class: bytes[4],
            subclass: bytes[5],
            protocol: bytes[6],
            max_packet_size0: bytes[7],
            vendor: spec_u16_le(bytes[8], bytes[9]),
            product_id: spec_u16_le(bytes[10], bytes[11]),
            device: spec_u16_le(bytes[12], bytes[13]),
            manufacture: bytes[14],
            product: bytes[15],
            serial_number: bytes[16],
            num_configurations: bytes[17],
        }
    }

    /// The 18 bytes that hold the record.
    pub open spec fn spec_to_bytes(self) -> Seq<u8> {
        seq![
            self.len,
            self.descriptor_type,
            spec_lo_byte(self.cd_usb),
            spec_hi_byte(self.cd_usb),
            self.class,
            self.subclass,
            self.protocol,
            self.max_packet_size0,
            spec_lo_byte(self.vendor),
            spec_hi_byte(self.vendor),
            spec_lo_byte(self.product_id),
            spec_hi_byte(self.product_id),
            spec_lo_byte(self.device),
            spec_hi_byte(self.device),
            self.manufacture,
            self.product,
            self.serial_number,
            self.num_configurations,
        ]
    }

    /// Decodes the record at the start of `input`, field by field. `None`
    /// where `input` is shorter than the record.
    pub fn from_bytes(input: &[u8]) -> (decoded: Option<Device>)
        ensures
            decoded == if input@.len() >= DEVICE_DESCRIPTOR_SIZE {
                Some(Device::spec_from_bytes(input@))
            } else {
                None
            },
    {
        if input.len() < DEVICE_DESCRIPTOR_SIZE {
            return None;
        }
        Some(
            Device {
                len: input[0],
                descriptor_type: input[1],
                cd_usb: u16_le(input[2], input[3]),
                class: input[4],
                subclass: input[5],
                protocol: input[6],
                max_packet_size0: input[7],
                vendor: u16_le(input[8], input[9]),
                product_id: u16_le(input[10], input[11]),
                device: u16_le(input[12], input[13]),
                manufacture: input[14],
                product: input[15],
                serial_number: input[16],
                num_configurations: input[17],
            },
        )
    }

    /// Encodes the fixed fields as they stand on the wire.
    pub fn to_bytes(&self) -> (bytes: Vec<u8>)
        ensures
            bytes@ == self.spec_to_bytes(),
    {
        let mut bytes: Vec<u8> = Vec::new();
        bytes.push(self.len);
        bytes.push(self.descriptor_type);
        bytes.push(lo_byte(self.cd_usb));
        bytes.push(hi_byte(self.cd_usb));
        bytes.push(self.class);
        bytes.push(self.subclass);
        bytes.push(self.protocol);
        bytes.push(self.max_packet_size0);
        bytes.push(lo_byte(self.vendor));
        bytes.push(hi_byte(self.vendor));
        bytes.push(lo_byte(self.product_id));
        bytes.push(hi_byte(self.product_id));
        bytes.push(lo_byte(self.device));
        bytes.push(hi_byte(self.device));
        bytes.push(self.manufacture);
        bytes.push(self.product);
        bytes.push(self.serial_number);
        bytes.push(self.num_configurations);
        assert(bytes@ =~= self.spec_to_bytes());
        bytes
    }

    /// Decoding a device descriptor and encoding the record again gives back
    /// the 18 bytes that were decoded.
    pub proof fn lemma_decode_then_encode(bytes: Seq<u8>)
        requires
            bytes.len() >= DEVICE_DESCRIPTOR_SIZE,
        ensures
            Device::spec_from_bytes(bytes).spec_to_bytes() == bytes.subrange(
                0,
                DEVICE_DESCRIPTOR_SIZE as int,
            ),
    {
        assert(Device::spec_from_bytes(bytes).spec_to_bytes() =~= bytes.subrange(
            0,
            DEVICE_DESCRIPTOR_SIZE as int,
        ));
    }

    /// Whether the device leaves its class to its interfaces (class code 0).
    pub fn is_refer_interface(&self) -> (refers: bool)
        ensures
            refers == (self.class == 0),
    {
        self.class == 0
    }
}

/// The class codes that the standard assigns to devices and interfaces.
#[allow(non_camel_case_types)]
#[derive(Copy, Clone, Debug, PartialEq, Eq, Structural)]
pub enum StandardUSBDeviceClassCode {
    UseInterface,
    Audio,
    CommunicationsAndCDCControl,
    HID,
    Physical,
    Image,
    Printer,
    MassStorage,
    Hub,
    CDCData,
    SmartCard,
    ContentSecurity,
    Video,
    PersonalHealthcare,
    AudioVideo,
    Billboard,
    TypeCBridge,
    Diagnostic,
    WirelessController,
    Miscellaneous,
    ApplicationSpecific,
    VendorSpecific,
}

impl StandardUSBDeviceClassCode {
    /// The code of the class.
    pub open spec fn spec_to_u8(self) -> u8 {
        match self {
            StandardUSBDeviceClassCode::UseInterface => 0x00,
            StandardUSBDeviceClassCode::Audio => 0x01,
            StandardUSBDeviceClassCode::CommunicationsAndCDCControl => 0x02,
            StandardUSBDeviceClassCode::HID => 0x03,
            StandardUSBDeviceClassCode::Physical => 0x05,
            StandardUSBDeviceClassCode::Image => 0x06,
            StandardUSBDeviceClassCode::Printer => 0x07,
            StandardUSBDeviceClassCode::MassStorage => 0x08,
            StandardUSBDeviceClassCode::Hub => 0x09,
            StandardUSBDeviceClassCode::CDCData => 0x0a,
            StandardUSBDeviceClassCode::SmartCard => 0x0b,
            StandardUSBDeviceClassCode::ContentSecurity => 0x0d,
            StandardUSBDeviceClassCode::Video => 0x0e,
            StandardUSBDeviceClassCode::PersonalHealthcare => 0x0f,
            StandardUSBDeviceClassCode::AudioVideo => 0x10,
            StandardUSBDeviceClassCode::Billboard => 0x11,
            StandardUSBDeviceClassCode::TypeCBridge => 0x12,
            StandardUSBDeviceClassCode::Diagnostic => 0xdc,
            StandardUSBDeviceClassCode::WirelessController => 0xe0,
            StandardUSBDeviceClassCode::Miscellaneous => 0xef,
            StandardUSBDeviceClassCode::ApplicationSpecific => 0xfe,
            StandardUSBDeviceClassCode::VendorSpecific => 0xff,
        }
    }

    /// The code of the class.
    pub fn to_u8(&self) -> (code: u8)
        ensures
            code == self.spec_to_u8(),
    {
        match self {
            StandardUSBDeviceClassCode::UseInterface => 0x00,
            StandardUSBDeviceClassCode::Audio => 0x01,
            StandardUSBDeviceClassCode::CommunicationsAndCDCControl => 0x02,
            StandardUSBDeviceClassCode::HID => 0x03,
            StandardUSBDeviceClassCode::Physical => 0x05,
            StandardUSBDeviceClassCode::Image => 0x06,
            StandardUSBDeviceClassCode::Printer => 0x07,
            StandardUSBDeviceClassCode::MassStorage => 0x08,
            StandardUSBDeviceClassCode::Hub => 0x09,
            StandardUSBDeviceClassCode::CDCData => 0x0a,
            StandardUSBDeviceClassCode::SmartCard => 0x0b,
            StandardUSBDeviceClassCode::ContentSecurity => 0x0d,
            StandardUSBDeviceClassCode::Video => 0x0e,
            StandardUSBDeviceClassCode::PersonalHealthcare => 0x0f,
            StandardUSBDeviceClassCode::AudioVideo => 0x10,
            StandardUSBDeviceClassCode::Billboard => 0x11,
            StandardUSBDeviceClassCode::TypeCBridge => 0x12,
            StandardUSBDeviceClassCode::Diagnostic => 0xdc,
            StandardUSBDeviceClassCode::WirelessController => 0xe0,
            StandardUSBDeviceClassCode::Miscellaneous => 0xef,
            StandardUSBDeviceClassCode::ApplicationSpecific => 0xfe,
            StandardUSBDeviceClassCode::VendorSpecific => 0xff,
        }
    }
}

/// A decoded device: its descriptor and its configurations, in the order of
/// the buffer.
#[derive(Debug)]
pub struct TopologyDeviceDesc<E: TopologyDescriptor> {
    pub desc: Device,
    pub configs: Vec<TopologyConfigDesc<E>>,
}

/// The mathematical value of a [`TopologyDeviceDesc`].
pub struct TopologyDeviceDescView<E> {
    pub desc: Device,
    pub configs: Seq<TopologyConfigDescView<E>>,
}

/// The values of the configurations of a device, in order.
pub open spec fn configs_view<E: TopologyDescriptor>(configs: Seq<TopologyConfigDesc<E>>) -> Seq<
    TopologyConfigDescView<E>,
> {
    configs.map_values(|config: TopologyConfigDesc<E>| config@)
}

impl<E: TopologyDescriptor> View for TopologyDeviceDesc<E> {
    type V = TopologyDeviceDescView<E>;

    open spec fn view(&self) -> TopologyDeviceDescView<E> {
        TopologyDeviceDescView { desc: self.desc, configs: configs_view(self.configs@) }
    }
}

} // verus!
