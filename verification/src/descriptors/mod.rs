//! The standard descriptor type catalog and the records of the tree.
use vstd::prelude::*;

use crate::{ParserError, ParserErrorView};

pub mod desc_configuration;
pub mod desc_device;
pub mod desc_endpoint;
pub mod desc_hid;
pub mod desc_interface;
pub mod desc_uvc;
pub mod grammar;
pub mod laws;
pub mod parser;
pub mod topological_desc;

verus! {

/// The 16-bit value whose little-endian bytes are `lo`, `hi`.
pub open spec fn spec_u16_le(lo: u8, hi: u8) -> u16 {
    (lo + 256 * hi) as u16
}

/// The low byte of `value`.
pub open spec fn spec_lo_byte(value: u16) -> u8 {
    (value % 256) as u8
}

/// The high byte of `value`.
pub open spec fn spec_hi_byte(value: u16) -> u8 {
    (value / 256) as u8
}

/// Joins two little-endian bytes into a 16-bit value.
pub fn u16_le(lo: u8, hi: u8) -> (value: u16)
    ensures
        value == spec_u16_le(lo, hi),
        spec_lo_byte(value) == lo,
        spec_hi_byte(value) == hi,
{
    let wide: u16 = hi as u16;
    lo as u16 + 256 * wide
}

/// The low byte of `value`.
pub fn lo_byte(value: u16) -> (byte: u8)
    ensures
        byte == spec_lo_byte(value),
{
    (value % 256) as u8
}

/// The high byte of `value`.
pub fn hi_byte(value: u16) -> (byte: u8)
    ensures
        byte == spec_hi_byte(value),
{
    (value / 256) as u8
}

/// The descriptor types of the standard catalog.
#[allow(non_camel_case_types)]
#[derive(Copy, Clone, Debug, PartialEq, Eq, Structural)]
pub enum USBStandardDescriptorTypes {
    Device,
    Configuration,
    String,
    Interface,
    Endpoint,
    DeviceQualifier,
    OtherSpeedConfiguration,
    InterfacePower1,
    OTG,
    Debug,
    InterfaceAssociation,
    Bos,
    DeviceCapability,
    SuperSpeedEndpointCompanion,
    SuperSpeedPlusIsochEndpointCompanion,
}

impl USBStandardDescriptorTypes {
    /// The name of the type, as it is written in the catalog.
    pub open spec fn spec_name(self) -> Seq<char> {
        match self {
            USBStandardDescriptorTypes::Device => "Device"@,
            USBStandardDescriptorTypes::Configuration => "Configuration"@,
            USBStandardDescriptorTypes::String => "String"@,
            USBStandardDescriptorTypes::Interface => "Interface"@,
            USBStandardDescriptorTypes::Endpoint => "Endpoint"@,
            USBStandardDescriptorTypes::DeviceQualifier => "DeviceQualifier"@,
            USBStandardDescriptorTypes::OtherSpeedConfiguration => "OtherSpeedConfiguration"@,
            USBStandardDescriptorTypes::InterfacePower1 => "InterfacePower1"@,
            USBStandardDescriptorTypes::OTG => "OTG"@,
            USBStandardDescriptorTypes::Debug => "Debug"@,
            USBStandardDescriptorTypes::InterfaceAssociation => "InterfaceAssociation"@,
            USBStandardDescriptorTypes::Bos => "Bos"@,
            USBStandardDescriptorTypes::DeviceCapability => "DeviceCapability"@,
            USBStandardDescriptorTypes::SuperSpeedEndpointCompanion =>
                "SuperSpeedEndpointCompanion"@,
            USBStandardDescriptorTypes::SuperSpeedPlusIsochEndpointCompanion =>
                "SuperSpeedPlusIsochEndpointCompanion"@,
        }
    }

    /// The name of the type, as it is written in the catalog.
    pub fn name(&self) -> (name: String)
        ensures
            name@ == self.spec_name(),
    {
        match self {
            USBStandardDescriptorTypes::Device => "Device".to_owned(),
            USBStandardDescriptorTypes::Configuration => "Configuration".to_owned(),
            USBStandardDescriptorTypes::String => "String".to_owned(),
            USBStandardDescriptorTypes::Interface => "Interface".to_owned(),
            USBStandardDescriptorTypes::Endpoint => "Endpoint".to_owned(),
            USBStandardDescriptorTypes::DeviceQualifier => "DeviceQualifier".to_owned(),
            USBStandardDescriptorTypes::OtherSpeedConfiguration =>
                "OtherSpeedConfiguration".to_owned(),
            USBStandardDescriptorTypes::InterfacePower1 => "InterfacePower1".to_owned(),
            USBStandardDescriptorTypes::OTG => "OTG".to_owned(),
            USBStandardDescriptorTypes::Debug => "Debug".to_owned(),
            USBStandardDescriptorTypes::InterfaceAssociation => "InterfaceAssociation".to_owned(),
            USBStandardDescriptorTypes::Bos => "Bos".to_owned(),
            USBStandardDescriptorTypes::DeviceCapability => "DeviceCapability".to_owned(),
            USBStandardDescriptorTypes::SuperSpeedEndpointCompanion =>
                "SuperSpeedEndpointCompanion".to_owned(),
            USBStandardDescriptorTypes::SuperSpeedPlusIsochEndpointCompanion =>
                "SuperSpeedPlusIsochEndpointCompanion".to_owned(),
        }
    }

    /// The type of the catalog that has the code `code`, if there is one.
    pub open spec fn spec_from_u8(code: u8) -> Option<USBStandardDescriptorTypes> {
        if code == 0x01 {
            Some(USBStandardDescriptorTypes::Device)
        } else if code == 0x02 {
            Some(USBStandardDescriptorTypes::Configuration)
        } else if code == 0x03 {
            Some(USBStandardDescriptorTypes::String)
        } else if code == 0x04 {
            Some(USBStandardDescriptorTypes::Interface)
        } else if code == 0x05 {
            Some(USBStandardDescriptorTypes::Endpoint)
        } else if code == 0x06 {
            Some(USBStandardDescriptorTypes::DeviceQualifier)
        } else if code == 0x07 {
            Some(USBStandardDescriptorTypes::OtherSpeedConfiguration)
        } else if code == 0x08 {
            Some(USBStandardDescriptorTypes::InterfacePower1)
        } else if code == 0x09 {
            Some(USBStandardDescriptorTypes::OTG)
        } else if code == 0x0a {
            Some(USBStandardDescriptorTypes::Debug)
        } else if code == 0x0b {
            Some(USBStandardDescriptorTypes::InterfaceAssociation)
        } else if code == 0x0f {
            Some(USBStandardDescriptorTypes::Bos)
        } else if code == 0x10 {
            Some(USBStandardDescriptorTypes::DeviceCapability)
        } else if code == 0x30 {
            Some(USBStandardDescriptorTypes::SuperSpeedEndpointCompanion)
        } else if code == 0x31 {
            Some(USBStandardDescriptorTypes::SuperSpeedPlusIsochEndpointCompanion)
        } else {
            None
        }
    }

    /// The code of the type.
    pub open spec fn spec_to_u8(self) -> u8 {
        match self {
            USBStandardDescriptorTypes::Device => 0x01,
            USBStandardDescriptorTypes::Configuration => 0x02,
            USBStandardDescriptorTypes::String => 0x03,
            USBStandardDescriptorTypes::Interface => 0x04,
            USBStandardDescriptorTypes::Endpoint => 0x05,
            USBStandardDescriptorTypes::DeviceQualifier => 0x06,
            USBStandardDescriptorTypes::OtherSpeedConfiguration => 0x07,
            USBStandardDescriptorTypes::InterfacePower1 => 0x08,
            USBStandardDescriptorTypes::OTG => 0x09,
            USBStandardDescriptorTypes::Debug => 0x0a,
            USBStandardDescriptorTypes::InterfaceAssociation => 0x0b,
            USBStandardDescriptorTypes::Bos => 0x0f,
            USBStandardDescriptorTypes::DeviceCapability => 0x10,
            USBStandardDescriptorTypes::SuperSpeedEndpointCompanion => 0x30,
            USBStandardDescriptorTypes::SuperSpeedPlusIsochEndpointCompanion => 0x31,
        }
    }

    /// What a peek at `data` yields: the type and the declared length of the
    /// record at its start; `Ended` where fewer than two bytes are left or
    /// both bytes are zero; `PeekFailed` with the type byte where that byte is
    /// outside the catalog.
    pub open spec fn spec_peek_type(data: Seq<u8>) -> Result<
        (USBStandardDescriptorTypes, u8),
        ParserErrorView,
    > {
        if data.len() < 2 {
            Err(ParserErrorView::Ended)
        } else {
            match Self::spec_from_u8(data[1]) {
                Some(desc_type) => Ok((desc_type, data[0])),
                None => if data[0] == 0 && data[1] == 0 {
                    Err(ParserErrorView::Ended)
                } else {
                    Err(ParserErrorView::PeekFailed(data[1]))
                },
            }
        }
    }

    /// Looks `code` up in the catalog.
    pub fn from_u8(code: u8) -> (found: Option<USBStandardDescriptorTypes>)
        ensures
            found == Self::spec_from_u8(code),
    {
        match code {
            0x01 => Some(USBStandardDescriptorTypes::Device),
            0x02 => Some(USBStandardDescriptorTypes::Configuration),
            0x03 => Some(USBStandardDescriptorTypes::String),
            0x04 => Some(USBStandardDescriptorTypes::Interface),
            0x05 => Some(USBStandardDescriptorTypes::Endpoint),
            0x06 => Some(USBStandardDescriptorTypes::DeviceQualifier),
            0x07 => Some(USBStandardDescriptorTypes::OtherSpeedConfiguration),
            0x08 => Some(USBStandardDescriptorTypes::InterfacePower1),
            0x09 => Some(USBStandardDescriptorTypes::OTG),
            0x0a => Some(USBStandardDescriptorTypes::Debug),
            0x0b => Some(USBStandardDescriptorTypes::InterfaceAssociation),
            0x0f => Some(USBStandardDescriptorTypes::Bos),
            0x10 => Some(USBStandardDescriptorTypes::DeviceCapability),
            0x30 => Some(USBStandardDescriptorTypes::SuperSpeedEndpointCompanion),
            0x31 => Some(USBStandardDescriptorTypes::SuperSpeedPlusIsochEndpointCompanion),
            _ => None,
        }
    }

    /// The code of the type.
    pub fn to_u8(&self) -> (code: u8)
        ensures
            code == self.spec_to_u8(),
            Self::spec_from_u8(code) == Some(*self),
    {
        match self {
            USBStandardDescriptorTypes::Device => 0x01,
            USBStandardDescriptorTypes::Configuration => 0x02,
            USBStandardDescriptorTypes::String => 0x03,
            USBStandardDescriptorTypes::Interface => 0x04,
            USBStandardDescriptorTypes::Endpoint => 0x05,
            USBStandardDescriptorTypes::DeviceQualifier => 0x06,
            USBStandardDescriptorTypes::OtherSpeedConfiguration => 0x07,
            USBStandardDescriptorTypes::InterfacePower1 => 0x08,
            USBStandardDescriptorTypes::OTG => 0x09,
            USBStandardDescriptorTypes::Debug => 0x0a,
            USBStandardDescriptorTypes::InterfaceAssociation => 0x0b,
            USBStandardDescriptorTypes::Bos => 0x0f,
            USBStandardDescriptorTypes::DeviceCapability => 0x10,
            USBStandardDescriptorTypes::SuperSpeedEndpointCompanion => 0x30,
            USBStandardDescriptorTypes::SuperSpeedPlusIsochEndpointCompanion => 0x31,
        }
    }

    /// Reads the header of the record at the start of `data` without
    /// consuming it. A slice of fewer than two bytes is the end of the stream.
    pub fn peek_type(data: &[u8]) -> (peeked: Result<(USBStandardDescriptorTypes, u8), ParserError>)
        ensures
            match peeked {
                Ok(header) => Self::spec_peek_type(data@) == Ok::<_, ParserErrorView>(header),
                Err(e) => Self::spec_peek_type(data@) == Err::<
                    (USBStandardDescriptorTypes, u8),
                    _,
                >(e@),
            },
    {
        if data.len() < 2 {
            return Err(ParserError::Ended);
        }
        match Self::from_u8(data[1]) {
            Some(desc_type) => Ok((desc_type, data[0])),
            None => if data[0] == 0 && data[1] == 0 {
                Err(ParserError::Ended)
            } else {
                Err(ParserError::PeekFailed(data[1]))
            },
        }
    }
}

/// The speed at which a port runs.
#[derive(Copy, Clone, Debug, PartialEq, Eq, Structural)]
pub enum PortSpeed {
    FullSpeed,
    LowSpeed,
    HighSpeed,
    SuperSpeed,
    SuperSpeedPlus,
}

} // verus!
