//! The module for the functions of human-interface devices.
use vstd::prelude::*;

use crate::descriptors::desc_device::StandardUSBDeviceClassCode;
use crate::descriptors::desc_hid::{HIDDescriptorTypes, Hid, HID_DESCRIPTOR_SIZE};
use crate::descriptors::desc_interface::{TopologyUSBFunction, TopologyUSBFunctionView};
use crate::descriptors::grammar::{spec_fits, spec_parse_interface_group};
use crate::descriptors::laws::lemma_group_from_declared_length;
use crate::descriptors::parser::parse_interface_group;
use crate::descriptors::USBStandardDescriptorTypes;
use crate::{DescriptorDecoderModule, ExtraParser, Offset, ParserError, ParserErrorView};

verus! {

/// The module for the HID class. It decodes the alternates of one
/// interface, with the HID descriptors that stand among their endpoints.
pub struct HIDParserModule {}

impl ExtraParser for HIDParserModule {
    type Extra = Hid;

    /// The HID descriptor at the start of `data`: the type byte must name
    /// one, the declared length must cover the 9 bytes of the record and
    /// `data` must hold as many bytes as are declared.
    open spec fn spec_try_parse(&self, data: Seq<u8>) -> Option<Hid> {
        if data.len() >= 2 && data[1] == HIDDescriptorTypes::Hid.spec_to_u8() && spec_fits(
            HID_DESCRIPTOR_SIZE as nat,
            data[0],
            data.len(),
        ) {
            Some(Hid::spec_from_bytes(data))
        } else {
            None
        }
    }

    fn try_parse(&self, data: &[u8]) -> (parsed: Option<Hid>) {
        if data.len() < 2 || data[1] != HIDDescriptorTypes::Hid.to_u8() {
            return None;
        }
        if HID_DESCRIPTOR_SIZE <= data[0] as usize && data[0] as usize <= data.len() {
            Hid::from_bytes(data)
        } else {
            None
        }
    }
}

/// What the HID module makes of `data`, with `parser` as the probe for the
/// descriptors among the endpoints.
///
/// An interface header starts a group of alternates, flagged `hid`. An
/// association header is refused as a combination that is not supported,
/// any other record of the catalog as no function; where no record of the
/// catalog stands at the start, the result of the peek is handed on.
pub open spec fn spec_parse_hid_function<P: ExtraParser>(parser: &P, data: Seq<u8>) -> Result<
    (TopologyUSBFunctionView<P::Extra>, nat),
    ParserErrorView,
> {
    match USBStandardDescriptorTypes::spec_peek_type(data) {
        Ok((USBStandardDescriptorTypes::Interface, _)) => match spec_parse_interface_group(
            parser,
            data,
            "hid"@,
        ) {
            Ok((group, len)) => Ok((TopologyUSBFunctionView::Interface(group), len)),
            Err(e) => Err(e),
        },
        Ok((USBStandardDescriptorTypes::InterfaceAssociation, _)) => Err(
            ParserErrorView::NotSupportedDescriptorCombination("InterfaceAssociation in HID"@),
        ),
        Ok(_) => Err(ParserErrorView::NotFunction),
        Err(e) => Err(e),
    }
}

/// Decodes the function of a human-interface device whose header stands at
/// the start of `data`: the alternates of one interface, with the
/// descriptors that `extra_parser` takes among their endpoints.
///
/// The call fails
/// - with `NotSupportedDescriptorCombination`, where an association header
///   stands at the start;
/// - with `NotFunction`, where another record of the catalog stands there;
/// - with `Ended` or `PeekFailed`, where the peek at the start fails;
/// - with the error of the group of alternates, where that fails.
pub fn parse_hid_function<P: ExtraParser>(data: &[u8], extra_parser: &P) -> (parsed: Result<
    (TopologyUSBFunction<P::Extra>, Offset),
    ParserError,
>)
    ensures
        match parsed {
            Ok((function, len)) => spec_parse_hid_function(extra_parser, data@) == Ok::<
                _,
                ParserErrorView,
            >((function@, len as nat)) && len <= data@.len() && function is Interface,
            Err(e) => spec_parse_hid_function(extra_parser, data@) == Err::<
                (TopologyUSBFunctionView<P::Extra>, nat),
                _,
            >(e@),
        },
{
    match USBStandardDescriptorTypes::peek_type(data) {
        Ok((USBStandardDescriptorTypes::Interface, len)) => {
            let mut offset: Offset = len as usize;
            proof {
                lemma_group_from_declared_length(extra_parser, data@, "hid"@);
            }
            match parse_interface_group(data, extra_parser, &mut offset, "hid".to_owned()) {
                Ok(group) => Ok((TopologyUSBFunction::Interface(group), offset)),
                Err(e) => Err(e),
            }
        },
        Ok((USBStandardDescriptorTypes::InterfaceAssociation, _)) => Err(
            ParserError::NotSupportedDescriptorCombination("InterfaceAssociation in HID".to_owned()),
        ),
        Ok(_) => Err(ParserError::NotFunction),
        Err(e) => Err(e),
    }
}

impl DescriptorDecoderModule for HIDParserModule {
    type Extra = Hid;

    open spec fn spec_function_name(&self) -> Seq<char> {
        "hid"@
    }

    /// The module takes every function of the HID class.
    open spec fn spec_filter_triple(&self, class: u8, subclass: u8, protocol: u8) -> bool {
        class == StandardUSBDeviceClassCode::HID.spec_to_u8()
    }

    /// The alternates of the interface at the start of `data`, with the HID
    /// descriptors among their endpoints.
    open spec fn spec_parse(&self, data: Seq<u8>) -> Result<
        (TopologyUSBFunctionView<Hid>, nat),
        ParserErrorView,
    > {
        spec_parse_hid_function(self, data)
    }

    fn function_name_string(&self) -> (name: String) {
        "hid".to_owned()
    }

    fn filter_triple(&self, class: u8, subclass: u8, protocol: u8) -> (accepts: bool) {
        class == StandardUSBDeviceClassCode::HID.to_u8()
    }

    fn parse(&self, data: &[u8]) -> (parsed: Result<(TopologyUSBFunction<Hid>, Offset), ParserError>) {
        parse_hid_function(data, self)
    }
}

} // verus!
