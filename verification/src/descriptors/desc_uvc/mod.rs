//! The class-specific descriptors of the video class.
use vstd::prelude::*;

pub mod uvc_endpoints;
pub mod uvc_interfaces;

verus! {

/// The class-specific descriptor types of the video class.
#[allow(non_camel_case_types)]
#[derive(Copy, Clone, Debug, PartialEq, Eq, Structural)]
pub enum UVCDescriptorTypes {
    UVCClassSpecUnderfined,
    UVCClassSpecDevice,
    UVCClassSpecConfiguration,
    UVCClassSpecString,
    UVCClassSpecInterface,
    UVCClassSpecVideoControlInterruptEndpoint,
}

impl UVCDescriptorTypes {
    /// The descriptor type with the code `code`, if there is one.
    pub open spec fn spec_from_u8(code: u8) -> Option<UVCDescriptorTypes> {
        if code == 0x20 {
            Some(UVCDescriptorTypes::UVCClassSpecUnderfined)
        } else if code == 0x21 {
            Some(UVCDescriptorTypes::UVCClassSpecDevice)
        } else if code == 0x22 {
            Some(UVCDescriptorTypes::UVCClassSpecConfiguration)
        } else if code == 0x23 {
            Some(UVCDescriptorTypes::UVCClassSpecString)
        } else if code == 0x24 {
            Some(UVCDescriptorTypes::UVCClassSpecInterface)
        } else if code == 0x25 {
            Some(UVCDescriptorTypes::UVCClassSpecVideoControlInterruptEndpoint)
        } else {
            None
        }
    }

    /// The code of the descriptor type.
    pub open spec fn spec_to_u8(self) -> u8 {
        match self {
            UVCDescriptorTypes::UVCClassSpecUnderfined => 0x20,
            UVCDescriptorTypes::UVCClassSpecDevice => 0x21,
            UVCDescriptorTypes::UVCClassSpecConfiguration => 0x22,
            UVCDescriptorTypes::UVCClassSpecString => 0x23,
            UVCDescriptorTypes::UVCClassSpecInterface => 0x24,
            UVCDescriptorTypes::UVCClassSpecVideoControlInterruptEndpoint => 0x25,
        }
    }

    /// The descriptor type with the code `code`, if there is one.
    pub fn from_u8(code: u8) -> (found: Option<UVCDescriptorTypes>)
        ensures
            found == Self::spec_from_u8(code),
    {
        match code {
            0x20 => Some(UVCDescriptorTypes::UVCClassSpecUnderfined),
            0x21 => Some(UVCDescriptorTypes::UVCClassSpecDevice),
            0x22 => Some(UVCDescriptorTypes::UVCClassSpecConfiguration),
            0x23 => Some(UVCDescriptorTypes::UVCClassSpecString),
            0x24 => Some(UVCDescriptorTypes::UVCClassSpecInterface),
            0x25 => Some(UVCDescriptorTypes::UVCClassSpecVideoControlInterruptEndpoint),
            _ => None,
        }
    }

    /// The code of the descriptor type.
    pub fn to_u8(&self) -> (code: u8)
        ensures
            code == self.spec_to_u8(),
            Self::spec_from_u8(code) == Some(*self),
    {
        match self {
            UVCDescriptorTypes::UVCClassSpecUnderfined => 0x20,
            UVCDescriptorTypes::UVCClassSpecDevice => 0x21,
            UVCDescriptorTypes::UVCClassSpecConfiguration => 0x22,
            UVCDescriptorTypes::UVCClassSpecString => 0x23,
            UVCDescriptorTypes::UVCClassSpecInterface => 0x24,
            UVCDescriptorTypes::UVCClassSpecVideoControlInterruptEndpoint => 0x25,
        }
    }
}

} // verus!
