//! The class-specific endpoint descriptors of the video class.
use vstd::prelude::*;

use crate::descriptors::{hi_byte, lo_byte, spec_hi_byte, spec_lo_byte, spec_u16_le, u16_le};

verus! {

/// The number of bytes of the interrupt endpoint descriptor of a video
/// control interface.
pub const UVC_INTERRUPT_ENDPOINT_SIZE: usize = 5;

/// The subtypes of the class-specific endpoint descriptors.
#[allow(non_camel_case_types)]
#[derive(Copy, Clone, Debug, PartialEq, Eq, Structural)]
pub enum UVCVideoClassEndpointSubtypes {
    UNDEFINED,
    GENERAL,
    ENDPOINT,
    INTERRUPT,
}

impl UVCVideoClassEndpointSubtypes {
    /// The subtype with the code `code`, if there is one.
    pub open spec fn spec_from_u8(code: u8) -> Option<UVCVideoClassEndpointSubtypes> {
        if code == 0 {
            Some(UVCVideoClassEndpointSubtypes::UNDEFINED)
        } else if code == 1 {
            Some(UVCVideoClassEndpointSubtypes::GENERAL)
        } else if code == 2 {
            Some(UVCVideoClassEndpointSubtypes::ENDPOINT)
        } else if code == 3 {
            Some(UVCVideoClassEndpointSubtypes::INTERRUPT)
        } else {
            None
        }
    }

    /// The code of the subtype.
    pub open spec fn spec_to_u8(self) -> u8 {
        match self {
            UVCVideoClassEndpointSubtypes::UNDEFINED => 0,
            UVCVideoClassEndpointSubtypes::GENERAL => 1,
            UVCVideoClassEndpointSubtypes::ENDPOINT => 2,
            UVCVideoClassEndpointSubtypes::INTERRUPT => 3,
        }
    }

    /// The subtype with the code `code`, if there is one.
    pub fn from_u8(code: u8) -> (found: Option<UVCVideoClassEndpointSubtypes>)
        ensures
            found == Self::spec_from_u8(code),
    {
        match code {
            0 => Some(UVCVideoClassEndpointSubtypes::UNDEFINED),
            1 => Some(UVCVideoClassEndpointSubtypes::GENERAL),
            2 => Some(UVCVideoClassEndpointSubtypes::ENDPOINT),
            3 => Some(UVCVideoClassEndpointSubtypes::INTERRUPT),
            _ => None,
        }
    }

    /// The code of the subtype.
    pub fn to_u8(&self) -> (code: u8)
        ensures
            code == self.spec_to_u8(),
            Self::spec_from_u8(code) == Some(*self),
    {
        match self {
            UVCVideoClassEndpointSubtypes::UNDEFINED => 0,
            UVCVideoClassEndpointSubtypes::GENERAL => 1,
            UVCVideoClassEndpointSubtypes::ENDPOINT => 2,
            UVCVideoClassEndpointSubtypes::INTERRUPT => 3,
        }
    }
}

/// The interrupt endpoint descriptor of a video control interface, in the
/// order of the wire.
#[allow(non_camel_case_types)]
#[derive(Copy, Clone, Debug, PartialEq, Eq, Structural)]
pub struct UVCVideoControlInterruptEndpoint {
    pub len: u8,
    pub descriptor_type: u8,
    pub descriptor_sub_type: UVCVideoClassEndpointSubtypes,
    pub max_transfer_size: u16,
}

impl UVCVideoControlInterruptEndpoint {
    /// The record that the first 5 bytes of `bytes` hold, where the third
    /// byte is the code of a subtype.
    pub open spec fn spec_from_bytes(bytes: Seq<u8>) -> Option<UVCVideoControlInterruptEndpoint>
        recommends
            bytes.len() >= UVC_INTERRUPT_ENDPOINT_SIZE,
    {
        match UVCVideoClassEndpointSubtypes::spec_from_u8(bytes[2]) {
            Some(descriptor_sub_type) => Some(
                UVCVideoControlInterruptEndpoint {
                    len: bytes[0],
                    descriptor_type: bytes[1],
                    descriptor_sub_type,
                    max_transfer_size: spec_u16_le(bytes[3], bytes[4]),
                },
            ),
            None => None,
        }
    }

    /// The 5 bytes that hold the record.
    pub open spec fn spec_to_bytes(self) -> Seq<u8> {
        seq![
            self.len,
            self.descriptor_type,
            self.descriptor_sub_type.spec_to_u8(),
            spec_lo_byte(self.max_transfer_size),
            spec_hi_byte(self.max_transfer_size),
        ]
    }

    /// Decodes the record at the start of `input`, field by field. `None`
    /// where `input` is shorter than the record or the third byte is not
    /// the code of a subtype.
    pub fn from_bytes(input: &[u8]) -> (decoded: Option<UVCVideoControlInterruptEndpoint>)
        ensures
            decoded == if input@.len() >= UVC_INTERRUPT_ENDPOINT_SIZE {
                UVCVideoControlInterruptEndpoint::spec_from_bytes(input@)
            } else {
                None
            },
    {
        if input.len() < UVC_INTERRUPT_ENDPOINT_SIZE {
            return None;
        }
        match UVCVideoClassEndpointSubtypes::from_u8(input[2]) {
            Some(descriptor_sub_type) => Some(
                UVCVideoControlInterruptEndpoint {
                    len: input[0],
                    descriptor_type: input[1],
                    descriptor_sub_type,
                    max_transfer_size: u16_le(input[3], input[4]),
                },
            ),
            None => None,
        }
    }

    /// Encodes the fields as they stand on the wire.
    pub fn to_bytes(&self) -> (bytes: Vec<u8>)
        ensures
            bytes@ == self.spec_to_bytes(),
    {
        let mut bytes: Vec<u8> = Vec::new();
        bytes.push(self.len);
        bytes.push(self.descriptor_type);
        bytes.push(self.descriptor_sub_type.to_u8());
        bytes.push(lo_byte(self.max_transfer_size));
        bytes.push(hi_byte(self.max_transfer_size));
        assert(bytes@ =~= self.spec_to_bytes());
        bytes
    }

    /// Decoding an interrupt endpoint descriptor and encoding the record
    /// again gives back the 5 bytes that were decoded.
    pub proof fn lemma_decode_then_encode(bytes: Seq<u8>)
        requires
            bytes.len() >= UVC_INTERRUPT_ENDPOINT_SIZE,
            UVCVideoControlInterruptEndpoint::spec_from_bytes(bytes) is Some,
        ensures
            UVCVideoControlInterruptEndpoint::spec_from_bytes(bytes).unwrap().spec_to_bytes()
                == bytes.subrange(0, UVC_INTERRUPT_ENDPOINT_SIZE as int),
    {
        assert(UVCVideoControlInterruptEndpoint::spec_from_bytes(bytes).unwrap().spec_to_bytes()
            =~= bytes.subrange(0, UVC_INTERRUPT_ENDPOINT_SIZE as int));
    }
}

} // verus!
