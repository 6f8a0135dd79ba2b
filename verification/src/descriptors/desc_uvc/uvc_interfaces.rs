//! The class-specific interface descriptors of the video class.
use vstd::prelude::*;

verus! {

/// The number of bytes of the header of a class-specific interface
/// descriptor.
pub const UVC_INTERFACE_HEADER_SIZE: usize = 3;

/// A class-specific interface descriptor of the video class, kept by its
/// header: the length it declares, its type and its subtype. What follows
/// the header differs from subtype to subtype and is not interpreted.
#[derive(Copy, Clone, Debug, PartialEq, Eq, Structural)]
pub struct UVCInterface {
    pub length: u8,
    pub descriptor_type: u8,
    pub descriptor_sub_type: u8,
}

impl UVCInterface {
    /// The header that the first 3 bytes of `bytes` hold.
    pub open spec fn spec_from_bytes(bytes: Seq<u8>) -> UVCInterface
        recommends
            bytes.len() >= UVC_INTERFACE_HEADER_SIZE,
    {
        UVCInterface { length: bytes[0], descriptor_type: bytes[1], descriptor_sub_type: bytes[2] }
    }

    /// Decodes the header at the start of `input`. `None` where `input` is
    /// shorter than the header.
    pub fn from_bytes(input: &[u8]) -> (decoded: Option<UVCInterface>)
        ensures
            decoded == if input@.len() >= UVC_INTERFACE_HEADER_SIZE {
                Some(UVCInterface::spec_from_bytes(input@))
            } else {
                None
            },
    {
        if input.len() < UVC_INTERFACE_HEADER_SIZE {
            return None;
        }
        Some(
            UVCInterface {
                length: input[0],
                descriptor_type: input[1],
                descriptor_sub_type: input[2],
            },
        )
    }
}

} // verus!
