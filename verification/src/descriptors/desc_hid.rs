//! The class descriptor of human-interface devices.
use vstd::prelude::*;

use super::{hi_byte, lo_byte, spec_hi_byte, spec_lo_byte, spec_u16_le, u16_le};
use crate::{Offset, TopologyDescriptor};

verus! {

/// The number of bytes of the fixed fields of a HID descriptor.
pub const HID_DESCRIPTOR_SIZE: usize = 9;

/// The fixed fields of a HID descriptor, in the order of the wire. The
/// descriptor ends in a list of (type, length) entries, one for each
/// subordinate descriptor; only the first entry is kept.
#[derive(Copy, Clone, Debug, Default, PartialEq, Eq, Structural)]
pub struct Hid {
    pub len: u8,
    pub descriptor_type: u8,
    pub hid_bcd: u16,
    pub country_code: u8,
    pub num_descriptions: u8,
    pub report_descriptor_type: u8,
    pub report_descriptor_len: u16,
}

impl Hid {
    /// The record that the first 9 bytes of `bytes` hold.
    pub open spec fn spec_from_bytes(bytes: Seq<u8>) -> Hid
        recommends
            bytes.len() >= HID_DESCRIPTOR_SIZE,
    {
        Hid {
            len: bytes[0],
            descriptor_type: bytes[1],
            hid_bcd: spec_u16_le(bytes[2], bytes[3]),
            country_code: bytes[4],
            num_descriptions: bytes[5],
            report_descriptor_type: bytes[6],
            report_descriptor_len: spec_u16_le(bytes[7], bytes[8]),
        }
    }

    /// The 9 bytes that hold the record.
    pub open spec fn spec_to_bytes(self) -> Seq<u8> {
        seq![
            self.len,
            self.descriptor_type,
            spec_lo_byte(self.hid_bcd),
            spec_hi_byte(self.hid_bcd),
            self.country_code,
            self.num_descriptions,
            self.report_descriptor_type,
            spec_lo_byte(self.report_descriptor_len),
            spec_hi_byte(self.report_descriptor_len),
        ]
    }

    /// Decodes the record at the start of `input`, field by field. `None`
    /// where `input` is shorter than the record.
    pub fn from_bytes(input: &[u8]) -> (decoded: Option<Hid>)
        ensures
            decoded == if input@.len() >= HID_DESCRIPTOR_SIZE {
                Some(Hid::spec_from_bytes(input@))
            } else {
                None
            },
    {
        if input.len() < HID_DESCRIPTOR_SIZE {
            return None;
        }
        Some(
            Hid {
                len: input[0],
                descriptor_type: input[1],
                hid_bcd: u16_le(input[2], input[3]),
                country_code: input[4],
                num_descriptions: input[5],
                report_descriptor_type: input[6],
                report_descriptor_len: u16_le(input[7], input[8]),
            },
        )
    }

    /// Encodes the fixed fields as they stand on the wire.
    pub fn to_bytes(&self) -> (bytes: Vec<u8>)
        ensures
            bytes@ == self.spec_to_bytes(),
    {
        let mut bytes: Vec<u8> = Vec::new();
        bytes.push(self.len);
        bytes.push(self.descriptor_type);
        bytes.push(lo_byte(self.hid_bcd));
        bytes.push(hi_byte(self.hid_bcd));
        bytes.push(self.country_code);
        bytes.push(self.num_descriptions);
        bytes.push(self.report_descriptor_type);
        bytes.push(lo_byte(self.report_descriptor_len));
        bytes.push(hi_byte(self.report_descriptor_len));
        assert(bytes@ =~= self.spec_to_bytes());
        bytes
    }

    /// Decoding a HID descriptor and encoding the record again gives back
    /// the 9 bytes that were decoded.
    pub proof fn lemma_decode_then_encode(bytes: Seq<u8>)
        requires
            bytes.len() >= HID_DESCRIPTOR_SIZE,
        ensures
            Hid::spec_from_bytes(bytes).spec_to_bytes() == bytes.subrange(
                0,
                HID_DESCRIPTOR_SIZE as int,
            ),
    {
        assert(Hid::spec_from_bytes(bytes).spec_to_bytes() =~= bytes.subrange(
            0,
            HID_DESCRIPTOR_SIZE as int,
        ));
    }
}

impl TopologyDescriptor for Hid {
    open spec fn spec_actual_len(&self) -> nat {
        self.len as nat
    }

    fn desc_type(&self) -> (desc_type: u8)
        ensures
            desc_type == self.descriptor_type,
    {
        self.descriptor_type
    }

    fn actual_len(&self) -> (len: Offset) {
        self.len as usize
    }
}

/// The subclass codes of the HID class.
#[derive(Copy, Clone, Debug, PartialEq, Eq, Structural)]
pub enum USBHIDSubclassDescriptorType {
    NoSubclass,
    BootInterface,
}

impl USBHIDSubclassDescriptorType {
    /// The subclass with the code `code`, if there is one.
    pub open spec fn spec_from_u8(code: u8) -> Option<USBHIDSubclassDescriptorType> {
        if code == 0 {
            Some(USBHIDSubclassDescriptorType::NoSubclass)
        } else if code == 1 {
            Some(USBHIDSubclassDescriptorType::BootInterface)
        } else {
            None
        }
    }

    /// The subclass with the code `code`, if there is one.
    pub fn from_u8(code: u8) -> (found: Option<USBHIDSubclassDescriptorType>)
        ensures
            found == Self::spec_from_u8(code),
    {
        if code == 0 {
            Some(USBHIDSubclassDescriptorType::NoSubclass)
        } else if code == 1 {
            Some(USBHIDSubclassDescriptorType::BootInterface)
        } else {
            None
        }
    }
}

/// The protocol codes of the HID class.
#[allow(non_camel_case_types)]
#[derive(Copy, Clone, Debug, PartialEq, Eq, Structural)]
pub enum USBHIDProtocolDescriptorType {
    NoProtocol,
    KeyBoard,
    Mouse,
}

impl USBHIDProtocolDescriptorType {
    /// The protocol with the code `code`, if there is one.
    pub open spec fn spec_from_u8(code: u8) -> Option<USBHIDProtocolDescriptorType> {
        if code == 0 {
            Some(USBHIDProtocolDescriptorType::NoProtocol)
        } else if code == 1 {
            Some(USBHIDProtocolDescriptorType::KeyBoard)
        } else if code == 2 {
            Some(USBHIDProtocolDescriptorType::Mouse)
        } else {
            None
        }
    }

    /// The protocol with the code `code`, if there is one.
    pub fn from_u8(code: u8) -> (found: Option<USBHIDProtocolDescriptorType>)
        ensures
            found == Self::spec_from_u8(code),
    {
        if code == 0 {
            Some(USBHIDProtocolDescriptorType::NoProtocol)
        } else if code == 1 {
            Some(USBHIDProtocolDescriptorType::KeyBoard)
        } else if code == 2 {
            Some(USBHIDProtocolDescriptorType::Mouse)
        } else {
            None
        }
    }
}

/// The descriptor types of the HID class.
#[allow(non_camel_case_types)]
#[derive(Copy, Clone, Debug, PartialEq, Eq, Structural)]
pub enum HIDDescriptorTypes {
    Hid,
    HIDReport,
    HIDPhysical,
}

impl HIDDescriptorTypes {
    /// The descriptor type with the code `code`, if there is one.
    pub open spec fn spec_from_u8(code: u8) -> Option<HIDDescriptorTypes> {
        if code == 0x21 {
            Some(HIDDescriptorTypes::Hid)
        } else if code == 0x22 {
            Some(HIDDescriptorTypes::HIDReport)
        } else if code == 0x23 {
            Some(HIDDescriptorTypes::HIDPhysical)
        } else {
            None
        }
    }

    /// The code of the descriptor type.
    pub open spec fn spec_to_u8(self) -> u8 {
        match self {
            HIDDescriptorTypes::Hid => 0x21,
            HIDDescriptorTypes::HIDReport => 0x22,
            HIDDescriptorTypes::HIDPhysical => 0x23,
        }
    }

    /// The descriptor type with the code `code`, if there is one.
    pub fn from_u8(code: u8) -> (found: Option<HIDDescriptorTypes>)
        ensures
            found == Self::spec_from_u8(code),
    {
        match code {
            0x21 => Some(HIDDescriptorTypes::Hid),
            0x22 => Some(HIDDescriptorTypes::HIDReport),
            0x23 => Some(HIDDescriptorTypes::HIDPhysical),
            _ => None,
        }
    }

    /// The code of the descriptor type.
    pub fn to_u8(&self) -> (code: u8)
        ensures
            code == self.spec_to_u8(),
            Self::spec_from_u8(code) == Some(*self),
    {
        match self {
            HIDDescriptorTypes::Hid => 0x21,
            HIDDescriptorTypes::HIDReport => 0x22,
            HIDDescriptorTypes::HIDPhysical => 0x23,
        }
    }
}

/// One event of a HID report.
#[derive(Debug)]
pub struct ReportEvent {
    pub usage_page: u32,
    pub usage: u32,
    pub value: i32,
    pub relative: bool,
}

} // verus!
