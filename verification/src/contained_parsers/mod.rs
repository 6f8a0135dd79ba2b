//! The class-specific modules that come with the decoder.
use vstd::prelude::*;

use crate::descriptors::desc_hid::Hid;
use crate::descriptors::desc_interface::{TopologyUSBFunction, TopologyUSBFunctionView};
use crate::descriptors::desc_uvc::UVCDescriptorTypes;
use crate::descriptors::grammar::spec_parse_association_function;
use crate::descriptors::parser::parse_association_function;
use crate::registry::spec_register;
use crate::{
    DescriptorDecoder, DescriptorDecoderModule, ExtraParser, Offset, ParserError,
    ParserErrorView, TopologyDescriptor,
};
use hid::{parse_hid_function, spec_parse_hid_function, HIDParserModule};
use uvc::{UVCParserModule, UVCTopology};

pub mod hid;
pub mod uvc;

verus! {

/// Registers the module of the HID class, whose extension descriptors are
/// those of the decoder that `DescriptorDecoder::new` builds.
pub fn load_embed_parsers(decoder: DescriptorDecoder<HIDParserModule>) -> (loaded: DescriptorDecoder<
    HIDParserModule,
>)
    ensures
        loaded@ == spec_register(decoder@, (HIDParserModule {  })),
{
    let mut decoder = decoder;
    decoder.add_module(HIDParserModule {  });
    decoder
}

/// Any of the modules that come with the decoder. A registry of this type
/// holds modules of different classes side by side.
pub enum EmbeddedParser {
    Hid(HIDParserModule),
    Uvc(UVCParserModule),
}

/// An extension descriptor of any of the modules that come with the
/// decoder.
#[derive(Debug, Clone, Copy, PartialEq, Eq, Structural)]
pub enum EmbeddedExtra {
    Hid(Hid),
    Uvc(UVCTopology),
}

impl TopologyDescriptor for EmbeddedExtra {
    open spec fn spec_actual_len(&self) -> nat {
        match self {
            EmbeddedExtra::Hid(hid) => hid.spec_actual_len(),
            EmbeddedExtra::Uvc(uvc) => uvc.spec_actual_len(),
        }
    }

    fn desc_type(&self) -> (desc_type: u8)
        ensures
            desc_type == match self {
                EmbeddedExtra::Hid(hid) => hid.descriptor_type,
                EmbeddedExtra::Uvc(UVCTopology::UVCEndpoint(_)) =>
                    UVCDescriptorTypes::UVCClassSpecVideoControlInterruptEndpoint.spec_to_u8(),
                EmbeddedExtra::Uvc(UVCTopology::UVCInterface(_)) =>
                    UVCDescriptorTypes::UVCClassSpecInterface.spec_to_u8(),
            },
    {
        match self {
            EmbeddedExtra::Hid(hid) => hid.desc_type(),
            EmbeddedExtra::Uvc(uvc) => uvc.desc_type(),
        }
    }

    fn subtype(&self) -> (subtype: Option<u8>)
        ensures
            subtype == match self {
                EmbeddedExtra::Hid(_) => None,
                EmbeddedExtra::Uvc(UVCTopology::UVCEndpoint(endpoint)) => Some(
                    endpoint.descriptor_sub_type.spec_to_u8(),
                ),
                EmbeddedExtra::Uvc(UVCTopology::UVCInterface(interface)) => Some(
                    interface.descriptor_sub_type,
                ),
            },
    {
        match self {
            EmbeddedExtra::Hid(hid) => hid.subtype(),
            EmbeddedExtra::Uvc(uvc) => uvc.subtype(),
        }
    }

    fn actual_len(&self) -> (len: Offset) {
        match self {
            EmbeddedExtra::Hid(hid) => hid.actual_len(),
            EmbeddedExtra::Uvc(uvc) => uvc.actual_len(),
        }
    }
}

impl ExtraParser for EmbeddedParser {
    type Extra = EmbeddedExtra;

    /// What the probe of the module answers, as an extension descriptor of
    /// the registry.
    open spec fn spec_try_parse(&self, data: Seq<u8>) -> Option<EmbeddedExtra> {
        match self {
            EmbeddedParser::Hid(module) => match module.spec_try_parse(data) {
                Some(hid) => Some(EmbeddedExtra::Hid(hid)),
                None => None,
            },
            EmbeddedParser::Uvc(module) => match module.spec_try_parse(data) {
                Some(uvc) => Some(EmbeddedExtra::Uvc(uvc)),
                None => None,
            },
        }
    }

    fn try_parse(&self, data: &[u8]) -> (parsed: Option<EmbeddedExtra>) {
        match self {
            EmbeddedParser::Hid(module) => match module.try_parse(data) {
                Some(hid) => Some(EmbeddedExtra::Hid(hid)),
                None => None,
            },
            EmbeddedParser::Uvc(module) => match module.try_parse(data) {
                Some(uvc) => Some(EmbeddedExtra::Uvc(uvc)),
                None => None,
            },
        }
    }
}

impl DescriptorDecoderModule for EmbeddedParser {
    type Extra = EmbeddedExtra;

    open spec fn spec_function_name(&self) -> Seq<char> {
        match self {
            EmbeddedParser::Hid(module) => module.spec_function_name(),
            EmbeddedParser::Uvc(module) => module.spec_function_name(),
        }
    }

    open spec fn spec_filter_triple(&self, class: u8, subclass: u8, protocol: u8) -> bool {
        match self {
            EmbeddedParser::Hid(module) => module.spec_filter_triple(class, subclass, protocol),
            EmbeddedParser::Uvc(module) => module.spec_filter_triple(class, subclass, protocol),
        }
    }

    /// What the module decodes, with its extension descriptors as those of
    /// the registry: the HID module a group of alternates, the video module
    /// an interface association flagged `uvc`.
    open spec fn spec_parse(&self, data: Seq<u8>) -> Result<
        (TopologyUSBFunctionView<EmbeddedExtra>, nat),
        ParserErrorView,
    > {
        match self {
            EmbeddedParser::Hid(_) => spec_parse_hid_function(self, data),
            EmbeddedParser::Uvc(_) => spec_parse_association_function(self, data, "uvc"@),
        }
    }

    fn function_name_string(&self) -> (name: String) {
        match self {
            EmbeddedParser::Hid(module) => module.function_name_string(),
            EmbeddedParser::Uvc(module) => module.function_name_string(),
        }
    }

    fn filter_triple(&self, class: u8, subclass: u8, protocol: u8) -> (accepts: bool) {
        match self {
            EmbeddedParser::Hid(module) => module.filter_triple(class, subclass, protocol),
            EmbeddedParser::Uvc(module) => module.filter_triple(class, subclass, protocol),
        }
    }

    fn parse(&self, data: &[u8]) -> (parsed: Result<
        (TopologyUSBFunction<EmbeddedExtra>, Offset),
        ParserError,
    >) {
        match self {
            EmbeddedParser::Hid(_) => parse_hid_function(data, self),
            EmbeddedParser::Uvc(_) => parse_association_function(data, self, "uvc".to_owned()),
        }
    }
}

/// Registers every module that comes with the decoder: the module of the
/// HID class and the module of the video class.
pub fn load_all_embed_parsers(decoder: DescriptorDecoder<EmbeddedParser>) -> (loaded:
    DescriptorDecoder<EmbeddedParser>)
    ensures
        loaded@ == spec_register(
            spec_register(decoder@, EmbeddedParser::Hid((HIDParserModule {  }))),
            EmbeddedParser::Uvc((UVCParserModule {  })),
        ),
{
    let mut decoder = decoder;
    decoder.add_module(EmbeddedParser::Hid(HIDParserModule {  }));
    decoder.add_module(EmbeddedParser::Uvc(UVCParserModule {  }));
    decoder
}

} // verus!
