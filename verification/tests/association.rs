use usb_descriptor_decoder::contained_parsers::uvc::{UVCParserModule, UVCTopology};
use usb_descriptor_decoder::descriptors::desc_interface::TopologyUSBFunction;
use usb_descriptor_decoder::descriptors::desc_uvc::uvc_endpoints::{
    UVCVideoClassEndpointSubtypes, UVCVideoControlInterruptEndpoint,
};
use usb_descriptor_decoder::descriptors::desc_uvc::uvc_interfaces::UVCInterface;
use usb_descriptor_decoder::descriptors::parser::parse_association_function;
use usb_descriptor_decoder::descriptors::USBStandardDescriptorTypes;
use usb_descriptor_decoder::{
    DescriptorDecoder, DescriptorDecoderModule, ExtraParser, ParserError, TopologyDescriptor,
};

const ASSOCIATION: [u8; 8] = [8, 11, 0, 2, 14, 3, 0, 0];
const CONTROL_INTERFACE: [u8; 9] = [9, 4, 0, 0, 1, 14, 1, 0, 0];
const STREAMING_ALT_0: [u8; 9] = [9, 4, 1, 0, 0, 14, 2, 0, 0];
const STREAMING_ALT_1: [u8; 9] = [9, 4, 1, 1, 1, 14, 2, 0, 0];
const CONTROL_HEADER: [u8; 13] = [13, 0x24, 1, 0, 1, 0x4d, 0, 0x80, 0xc3, 0xc9, 1, 1, 1];
const INTERRUPT_IN: [u8; 7] = [7, 5, 0x83, 3, 16, 0, 6];
const CLASS_ENDPOINT: [u8; 5] = [5, 0x25, 3, 16, 0];
const ISOCH_IN: [u8; 7] = [7, 5, 0x81, 5, 0, 4, 1];
const STREAM_HEADER: [u8; 6] = [6, 0x24, 1, 1, 2, 3];

fn buffer(parts: &[&[u8]]) -> Vec<u8> {
    let mut bytes = Vec::new();
    for part in parts {
        bytes.extend_from_slice(part);
    }
    bytes
}

fn camera() -> Vec<u8> {
    buffer(&[
        &ASSOCIATION,
        &CONTROL_INTERFACE,
        &CONTROL_HEADER,
        &INTERRUPT_IN,
        &CLASS_ENDPOINT,
        &STREAMING_ALT_0,
        &STREAM_HEADER,
        &STREAMING_ALT_1,
        &ISOCH_IN,
    ])
}

fn detail_of<T>(parsed: Result<T, ParserError>) -> String {
    match parsed {
        Err(ParserError::NotSupportedDescriptorCombination(detail)) => detail,
        _ => panic!("the combination is not supported"),
    }
}

#[test]
fn association_with_its_groups() {
    let input = camera();
    let (function, len) =
        parse_association_function(&input, &UVCParserModule {}, "uvc".to_string()).unwrap();
    assert_eq!(len, 73);
    assert_eq!(len, input.len());
    let (header, groups, extra) = match function {
        TopologyUSBFunction::InterfaceAssociation(header, groups, extra) => (header, groups, extra),
        TopologyUSBFunction::Interface(_) => panic!("an association was decoded"),
    };
    assert_eq!(header.first_interface, 0);
    assert_eq!(header.interface_count, 2);
    assert_eq!(header.function_class, 14);
    assert_eq!(extra.len(), 0);
    assert_eq!(groups.len(), 2);

    assert_eq!(groups[0].len(), 1);
    let control = &groups[0][0];
    assert_eq!(control.interface.interface_number, 0);
    assert_eq!(control.flag, "uvc");
    assert_eq!(control.endpoints.len(), 1);
    assert_eq!(control.endpoints[0].endpoint_address, 0x83);
    assert_eq!(
        control.extra,
        vec![
            UVCTopology::UVCInterface(UVCInterface {
                length: 13,
                descriptor_type: 0x24,
                descriptor_sub_type: 1
            }),
            UVCTopology::UVCEndpoint(UVCVideoControlInterruptEndpoint {
                len: 5,
                descriptor_type: 0x25,
                descriptor_sub_type: UVCVideoClassEndpointSubtypes::INTERRUPT,
                max_transfer_size: 16,
            }),
        ]
    );

    assert_eq!(groups[1].len(), 2);
    assert_eq!(groups[1][0].interface.alternate_setting, 0);
    assert_eq!(groups[1][0].endpoints.len(), 0);
    assert_eq!(groups[1][0].extra.len(), 1);
    assert_eq!(groups[1][0].extra[0].actual_len(), 6);
    assert_eq!(groups[1][1].interface.alternate_setting, 1);
    assert_eq!(groups[1][1].endpoints.len(), 1);
    assert_eq!(groups[1][1].endpoints[0].max_packet_size, 1024);
    assert_eq!(groups[1][1].extra.len(), 0);
    assert_eq!(groups[1][1].flag, "uvc");
}

#[test]
fn association_ends_at_the_sentinel() {
    let mut input = camera();
    input.extend_from_slice(&[0, 0, 9, 4, 2, 0, 0, 14, 2, 0, 0]);
    let (function, len) =
        parse_association_function(&input, &UVCParserModule {}, "uvc".to_string()).unwrap();
    assert_eq!(len, 73);
    match function {
        TopologyUSBFunction::InterfaceAssociation(_, groups, _) => assert_eq!(groups.len(), 2),
        TopologyUSBFunction::Interface(_) => panic!("an association was decoded"),
    }
}

#[test]
fn association_without_content() {
    let (function, len) =
        parse_association_function(&ASSOCIATION, &UVCParserModule {}, "uvc".to_string()).unwrap();
    assert_eq!(len, 8);
    match function {
        TopologyUSBFunction::InterfaceAssociation(header, groups, extra) => {
            assert_eq!(header.len, 8);
            assert_eq!(groups.len(), 0);
            assert_eq!(extra.len(), 0);
        }
        TopologyUSBFunction::Interface(_) => panic!("an association was decoded"),
    }
}

#[test]
fn extension_descriptors_of_the_association() {
    let input =
        buffer(&[&ASSOCIATION, &STREAM_HEADER, &CONTROL_INTERFACE, &INTERRUPT_IN, &CLASS_ENDPOINT]);
    let (function, len) =
        parse_association_function(&input, &UVCParserModule {}, "uvc".to_string()).unwrap();
    assert_eq!(len, 35);
    match function {
        TopologyUSBFunction::InterfaceAssociation(_, groups, extra) => {
            assert_eq!(extra.len(), 1);
            assert_eq!(extra[0].desc_type(), 0x24);
            assert_eq!(extra[0].subtype(), Some(1));
            assert_eq!(extra[0].actual_len(), 6);
            assert_eq!(groups.len(), 1);
            assert_eq!(groups[0][0].extra.len(), 1);
            assert_eq!(groups[0][0].extra[0].desc_type(), 0x25);
            assert_eq!(groups[0][0].extra[0].subtype(), Some(3));
            assert_eq!(groups[0][0].extra[0].actual_len(), 5);
        }
        TopologyUSBFunction::Interface(_) => panic!("an association was decoded"),
    }
}

#[test]
fn association_in_association_is_refused() {
    let input = buffer(&[&ASSOCIATION, &ASSOCIATION, &CONTROL_INTERFACE, &INTERRUPT_IN]);
    let parsed = parse_association_function(&input, &UVCParserModule {}, "uvc".to_string());
    assert_eq!(detail_of(parsed), "InterfaceAssociation in interface association");
}

#[test]
fn association_behind_a_group_is_refused() {
    let input = buffer(&[&ASSOCIATION, &CONTROL_INTERFACE, &INTERRUPT_IN, &ASSOCIATION]);
    let parsed = parse_association_function(&input, &UVCParserModule {}, "uvc".to_string());
    assert_eq!(detail_of(parsed), "InterfaceAssociation in interface association");
}

#[test]
fn other_records_of_the_catalog_are_refused_by_name() {
    let input = buffer(&[&ASSOCIATION, &[9, 2, 9, 0, 0, 0, 0, 0, 0]]);
    let parsed = parse_association_function(&input, &UVCParserModule {}, "uvc".to_string());
    assert_eq!(detail_of(parsed), "Configuration in interface association");
    let input = buffer(&[&ASSOCIATION, &INTERRUPT_IN]);
    let parsed = parse_association_function(&input, &UVCParserModule {}, "uvc".to_string());
    assert_eq!(detail_of(parsed), "Endpoint in interface association");
    let input = buffer(&[&ASSOCIATION, &[6, 0x30, 0, 0, 0, 0]]);
    let parsed = parse_association_function(&input, &UVCParserModule {}, "uvc".to_string());
    assert_eq!(detail_of(parsed), "SuperSpeedEndpointCompanion in interface association");
    for code in [1u8, 2, 3, 5, 6, 7, 8, 9, 10, 11, 15, 16, 0x30, 0x31] {
        let input = buffer(&[&ASSOCIATION, &[2, code]]);
        let parsed = parse_association_function(&input, &UVCParserModule {}, "uvc".to_string());
        let name = USBStandardDescriptorTypes::from_u8(code).unwrap().name();
        assert_eq!(detail_of(parsed), format!("{} in interface association", name));
    }
}

#[test]
fn record_that_the_probe_declines_fails_the_scan() {
    let input = buffer(&[&ASSOCIATION, &[9, 33, 0x11, 1, 0, 1, 34, 52, 0]]);
    let parsed = parse_association_function(&input, &UVCParserModule {}, "uvc".to_string());
    assert!(matches!(parsed, Err(ParserError::PeekFailed(33))));
    let input = buffer(&[&ASSOCIATION, &CONTROL_INTERFACE, &INTERRUPT_IN, &[3, 0x23, 0]]);
    let parsed = parse_association_function(&input, &UVCParserModule {}, "uvc".to_string());
    assert!(matches!(parsed, Err(ParserError::PeekFailed(0x23))));
    let input = buffer(&[&ASSOCIATION, &[5, 0x25, 4, 16, 0]]);
    let parsed = parse_association_function(&input, &UVCParserModule {}, "uvc".to_string());
    assert!(matches!(parsed, Err(ParserError::PeekFailed(0x25))));
}

#[test]
fn class_descriptor_that_passes_the_end_fails_the_scan() {
    let input = buffer(&[&ASSOCIATION, &CONTROL_HEADER[..12]]);
    let parsed = parse_association_function(&input, &UVCParserModule {}, "uvc".to_string());
    assert!(matches!(parsed, Err(ParserError::PeekFailed(0x24))));
}

#[test]
fn group_that_fails_fails_the_association() {
    let input = buffer(&[&ASSOCIATION, &CONTROL_INTERFACE]);
    let parsed = parse_association_function(&input, &UVCParserModule {}, "uvc".to_string());
    assert!(matches!(parsed, Err(ParserError::NotEnoughEndpoints)));
    let input = buffer(&[&ASSOCIATION, &CONTROL_INTERFACE, &INTERRUPT_IN[..6]]);
    let parsed = parse_association_function(&input, &UVCParserModule {}, "uvc".to_string());
    assert!(matches!(parsed, Err(ParserError::NotEndpoint)));
    let input = buffer(&[&ASSOCIATION, &CONTROL_INTERFACE[..8]]);
    let parsed = parse_association_function(&input, &UVCParserModule {}, "uvc".to_string());
    assert!(matches!(parsed, Err(ParserError::NotFunction)));
}

#[test]
fn no_association_at_the_start() {
    let parsed =
        parse_association_function(&CONTROL_INTERFACE, &UVCParserModule {}, "uvc".to_string());
    assert!(matches!(parsed, Err(ParserError::NotFunction)));
    let parsed =
        parse_association_function(&ASSOCIATION[..7], &UVCParserModule {}, "uvc".to_string());
    assert!(matches!(parsed, Err(ParserError::NotFunction)));
    let parsed =
        parse_association_function(&[9, 2, 9, 0, 0, 0, 0, 0, 0], &UVCParserModule {}, "uvc".to_string());
    assert!(matches!(parsed, Err(ParserError::NotFunction)));
    let parsed =
        parse_association_function(&[9, 11, 0, 2, 14, 3, 0, 0], &UVCParserModule {}, "uvc".to_string());
    assert!(matches!(parsed, Err(ParserError::NotFunction)));
}

#[test]
fn peek_error_at_the_start_is_handed_on() {
    let parsed = parse_association_function(&[0, 0], &UVCParserModule {}, "uvc".to_string());
    assert!(matches!(parsed, Err(ParserError::Ended)));
    let parsed = parse_association_function(&[4, 255, 0, 0], &UVCParserModule {}, "uvc".to_string());
    assert!(matches!(parsed, Err(ParserError::PeekFailed(255))));
    let parsed = parse_association_function(&CLASS_ENDPOINT, &UVCParserModule {}, "uvc".to_string());
    assert!(matches!(parsed, Err(ParserError::PeekFailed(0x25))));
    let parsed = parse_association_function(&[], &UVCParserModule {}, "uvc".to_string());
    assert!(matches!(parsed, Err(ParserError::Ended)));
    let parsed = parse_association_function(&[8], &UVCParserModule {}, "uvc".to_string());
    assert!(matches!(parsed, Err(ParserError::Ended)));
    let module = UVCParserModule {};
    assert!(matches!(module.parse(&[0, 0]), Err(ParserError::Ended)));
    assert!(matches!(module.parse(&[4, 255, 0, 0]), Err(ParserError::PeekFailed(255))));
}

#[test]
fn uvc_module_decodes_an_association() {
    let module = UVCParserModule {};
    let (function, len) = module.parse(&camera()).unwrap();
    assert_eq!(len, 73);
    assert!(matches!(function, TopologyUSBFunction::InterfaceAssociation(..)));
    assert_eq!(
        detail_of(module.parse(&buffer(&[&ASSOCIATION, &ASSOCIATION]))),
        "InterfaceAssociation in interface association"
    );
}

#[test]
fn uvc_probe_cases() {
    let probe = UVCParserModule {};
    assert_eq!(
        probe.try_parse(&STREAM_HEADER),
        Some(UVCTopology::UVCInterface(UVCInterface {
            length: 6,
            descriptor_type: 0x24,
            descriptor_sub_type: 1
        }))
    );
    assert_eq!(probe.try_parse(&STREAM_HEADER[..5]), None);
    assert_eq!(probe.try_parse(&[2, 0x24, 1]), None);
    assert_eq!(probe.try_parse(&[3, 0x24, 9]).unwrap().subtype(), Some(9));
    assert_eq!(probe.try_parse(&CLASS_ENDPOINT).unwrap().desc_type(), 0x25);
    assert_eq!(probe.try_parse(&CLASS_ENDPOINT[..4]), None);
    assert_eq!(probe.try_parse(&[4, 0x25, 3, 16, 0]), None);
    assert_eq!(probe.try_parse(&[5, 0x25, 7, 16, 0]), None);
    assert_eq!(probe.try_parse(&[5, 0x20, 3, 16, 0]), None);
    assert_eq!(probe.try_parse(&[5, 0x21, 3, 16, 0]), None);
    assert_eq!(probe.try_parse(&[5, 0x22, 3, 16, 0]), None);
    assert_eq!(probe.try_parse(&[5, 0x23, 3, 16, 0]), None);
    assert_eq!(probe.try_parse(&[5, 0x26, 3, 16, 0]), None);
    assert_eq!(probe.try_parse(&[5]), None);
    assert_eq!(probe.try_parse(&[]), None);
    assert_eq!(UVCTopology::try_parse(&CLASS_ENDPOINT, 0x24).unwrap().desc_type(), 0x24);
    assert_eq!(UVCTopology::try_parse(&CLASS_ENDPOINT, 4), None);
    assert_eq!(UVCTopology::try_parse(&[], 0x24), None);
}

#[test]
fn decoder_with_the_video_module() {
    let mut decoder = DescriptorDecoder::empty();
    decoder.add_module(UVCParserModule {});
    let mut input = vec![9u8, 2, 82, 0, 2, 1, 0, 0x80, 250];
    input.extend_from_slice(&camera());
    let (config, len) = decoder.parse_config(&input).unwrap();
    assert_eq!(len, 82);
    assert_eq!(config.desc.total_length(), 82);
    assert_eq!(config.functions.len(), 1);
    assert!(matches!(config.functions[0], TopologyUSBFunction::InterfaceAssociation(..)));
}
