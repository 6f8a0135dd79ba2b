//! The module for the functions of the video class.
use vstd::prelude::*;

use crate::descriptors::desc_device::StandardUSBDeviceClassCode;
use crate::descriptors::desc_interface::{TopologyUSBFunction, TopologyUSBFunctionView};
use crate::descriptors::desc_uvc::uvc_endpoints::{
    UVCVideoControlInterruptEndpoint, UVC_INTERRUPT_ENDPOINT_SIZE,
};
use crate::descriptors::desc_uvc::uvc_interfaces::{UVCInterface, UVC_INTERFACE_HEADER_SIZE};
use crate::descriptors::desc_uvc::UVCDescriptorTypes;
use crate::descriptors::grammar::{spec_fits, spec_parse_association_function};
use crate::descriptors::parser::parse_association_function;
use crate::{
    DescriptorDecoderModule, ExtraParser, Offset, ParserError, ParserErrorView,
    TopologyDescriptor,
};

verus! {

/// The module for the video class. It decodes an interface association with
/// the interfaces below it and the class-specific descriptors among them.
pub struct UVCParserModule {}

/// A class-specific descriptor of the video class.
#[derive(Debug, Clone, Copy, PartialEq, Eq, Structural)]
pub enum UVCTopology {
    UVCEndpoint(UVCVideoControlInterruptEndpoint),
    UVCInterface(UVCInterface),
}

impl UVCTopology {
    /// The class-specific descriptor of the type `code` at the start of
    /// `data`.
    ///
    /// A class-specific interface descriptor is kept by its header; a
    /// class-specific endpoint descriptor is decoded as the interrupt
    /// endpoint of a video control interface, and its subtype must be one
    /// that is known. Either must fit: its declared length covers the
    /// record and `data` holds as many bytes as are declared. Every other
    /// type is declined.
    pub open spec fn spec_try_parse(data: Seq<u8>, code: u8) -> Option<UVCTopology> {
        match UVCDescriptorTypes::spec_from_u8(code) {
            Some(UVCDescriptorTypes::UVCClassSpecInterface) => if data.len() >= 1 && spec_fits(
                UVC_INTERFACE_HEADER_SIZE as nat,
                data[0],
                data.len(),
            ) {
                Some(UVCTopology::UVCInterface(UVCInterface::spec_from_bytes(data)))
            } else {
                None
            },
            Some(UVCDescriptorTypes::UVCClassSpecVideoControlInterruptEndpoint) => if data.len()
                >= 1 && spec_fits(UVC_INTERRUPT_ENDPOINT_SIZE as nat, data[0], data.len()) {
                match UVCVideoControlInterruptEndpoint::spec_from_bytes(data) {
                    Some(endpoint) => Some(UVCTopology::UVCEndpoint(endpoint)),
                    None => None,
                }
            } else {
                None
            },
            _ => None,
        }
    }

    /// Decodes the class-specific descriptor of the type `code` at the
    /// start of `data`, or declines with `None`.
    pub fn try_parse(data: &[u8], code: u8) -> (parsed: Option<UVCTopology>)
        ensures
            parsed == Self::spec_try_parse(data@, code),
    {
        if data.len() < 1 {
            return None;
        }
        let declared = data[0] as usize;
        match UVCDescriptorTypes::from_u8(code) {
            Some(UVCDescriptorTypes::UVCClassSpecInterface) => {
                if UVC_INTERFACE_HEADER_SIZE <= declared && declared <= data.len() {
                    match UVCInterface::from_bytes(data) {
                        Some(interface) => Some(UVCTopology::UVCInterface(interface)),
                        None => None,
                    }
                } else {
                    None
                }
            },
            Some(UVCDescriptorTypes::UVCClassSpecVideoControlInterruptEndpoint) => {
                if UVC_INTERRUPT_ENDPOINT_SIZE <= declared && declared <= data.len() {
                    match UVCVideoControlInterruptEndpoint::from_bytes(data) {
                        Some(endpoint) => Some(UVCTopology::UVCEndpoint(endpoint)),
                        None => None,
                    }
                } else {
                    None
                }
            },
            _ => None,
        }
    }
}

impl TopologyDescriptor for UVCTopology {
    open spec fn spec_actual_len(&self) -> nat {
        match self {
            UVCTopology::UVCEndpoint(endpoint) => endpoint.len as nat,
            UVCTopology::UVCInterface(interface) => interface.length as nat,
        }
    }

    fn desc_type(&self) -> (desc_type: u8)
        ensures
            desc_type == match self {
                UVCTopology::UVCEndpoint(_) =>
                    UVCDescriptorTypes::UVCClassSpecVideoControlInterruptEndpoint.spec_to_u8(),
                UVCTopology::UVCInterface(_) => UVCDescriptorTypes::UVCClassSpecInterface.spec_to_u8(),
            },
    {
        match self {
            UVCTopology::UVCEndpoint(_) =>
                UVCDescriptorTypes::UVCClassSpecVideoControlInterruptEndpoint.to_u8(),
            UVCTopology::UVCInterface(_) => UVCDescriptorTypes::UVCClassSpecInterface.to_u8(),
        }
    }

    fn subtype(&self) -> (subtype: Option<u8>)
        ensures
            subtype == Some(
                match self {
                    UVCTopology::UVCEndpoint(endpoint) => endpoint.descriptor_sub_type.spec_to_u8(),
                    UVCTopology::UVCInterface(interface) => interface.descriptor_sub_type,
                },
            ),
    {
        Some(
            match self {
                UVCTopology::UVCEndpoint(endpoint) => endpoint.descriptor_sub_type.to_u8(),
                UVCTopology::UVCInterface(interface) => interface.descriptor_sub_type,
            },
        )
    }

    fn actual_len(&self) -> (len: Offset) {
        match self {
            UVCTopology::UVCEndpoint(endpoint) => endpoint.len as usize,
            UVCTopology::UVCInterface(interface) => interface.length as usize,
        }
    }
}

impl ExtraParser for UVCParserModule {
    type Extra = UVCTopology;

    /// The class-specific descriptor at the start of `data`, by its own
    /// type byte.
    open spec fn spec_try_parse(&self, data: Seq<u8>) -> Option<UVCTopology> {
        if data.len() >= 2 {
            UVCTopology::spec_try_parse(data, data[1])
        } else {
            None
        }
    }

    fn try_parse(&self, data: &[u8]) -> (parsed: Option<UVCTopology>) {
        if data.len() >= 2 {
            UVCTopology::try_parse(data, data[1])
        } else {
            None
        }
    }
}

impl DescriptorDecoderModule for UVCParserModule {
    type Extra = UVCTopology;

    open spec fn spec_function_name(&self) -> Seq<char> {
        "uvc"@
    }

    /// The module takes every function of the video class.
    open spec fn spec_filter_triple(&self, class: u8, subclass: u8, protocol: u8) -> bool {
        class == StandardUSBDeviceClassCode::Video.spec_to_u8()
    }

    /// The interface association at the start of `data`, with the groups
    /// of alternates and the class-specific descriptors below it, flagged
    /// `uvc`.
    open spec fn spec_parse(&self, data: Seq<u8>) -> Result<
        (TopologyUSBFunctionView<UVCTopology>, nat),
        ParserErrorView,
    > {
        spec_parse_association_function(self, data, "uvc"@)
    }

    fn function_name_string(&self) -> (name: String) {
        "uvc".to_owned()
    }

    fn filter_triple(&self, class: u8, subclass: u8, protocol: u8) -> (accepts: bool) {
        class == StandardUSBDeviceClassCode::Video.to_u8()
    }

    fn parse(&self, data: &[u8]) -> (parsed: Result<
        (TopologyUSBFunction<UVCTopology>, Offset),
        ParserError,
    >) {
        parse_association_function(data, self, "uvc".to_owned())
    }
}

} // verus!
