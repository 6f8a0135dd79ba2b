use usb_descriptor_decoder::contained_parsers::hid::HIDParserModule;
use usb_descriptor_decoder::contained_parsers::uvc::UVCParserModule;
use usb_descriptor_decoder::contained_parsers::{
    load_all_embed_parsers, load_embed_parsers, EmbeddedExtra, EmbeddedParser,
};
use usb_descriptor_decoder::descriptors::desc_hid::Hid;
use usb_descriptor_decoder::descriptors::desc_interface::TopologyUSBFunction;
use usb_descriptor_decoder::registry::{bytes_less, rank, select};
use usb_descriptor_decoder::{
    DescriptorDecoder, DescriptorDecoderModule, ExtraParser, ParserError, TopologyDescriptor,
};

fn names<M: DescriptorDecoderModule>(decoder: &DescriptorDecoder<M>) -> Vec<String> {
    decoder.modules().iter().map(|module| module.function_name_string()).collect()
}

const INTERFACE_CLASS_3: [u8; 9] = [9, 4, 0, 0, 0, 3, 0, 0, 0];
const INTERFACE_CLASS_8: [u8; 9] = [9, 4, 0, 0, 0, 8, 6, 80, 0];
const INTERFACE_CLASS_14: [u8; 9] = [9, 4, 0, 0, 0, 14, 1, 0, 0];
const ASSOCIATION_CLASS_14: [u8; 8] = [8, 11, 0, 2, 14, 3, 0, 0];
const ASSOCIATION_CLASS_3: [u8; 8] = [8, 11, 0, 2, 3, 0, 0, 0];
const HID: [u8; 9] = [9, 33, 0x11, 1, 0, 1, 34, 52, 0];

#[test]
fn byte_order_of_names() {
    assert!(bytes_less(b"hid", b"uvc"));
    assert!(!bytes_less(b"uvc", b"hid"));
    assert!(!bytes_less(b"hid", b"hid"));
    assert!(bytes_less(b"", b"a"));
    assert!(!bytes_less(b"", b""));
    assert!(!bytes_less(b"a", b""));
    assert!(bytes_less(b"hi", b"hid"));
    assert!(!bytes_less(b"hid", b"hi"));
    assert!(bytes_less(b"Z", b"a"));
    assert!(bytes_less(b"ab", b"b"));
    assert!(bytes_less(&[1, 255], &[2]));
    assert!(bytes_less(&[127], &[128]));
    assert_eq!(bytes_less(b"abc", b"abd"), "abc".to_string() < "abd".to_string());
    assert_eq!(bytes_less("é".as_bytes(), b"z"), "é".to_string() < "z".to_string());
}

#[test]
fn new_decoder_holds_the_hid_module() {
    let decoder = DescriptorDecoder::new();
    assert_eq!(names(&decoder), vec!["hid".to_string()]);
}

#[test]
fn empty_decoder_holds_no_module() {
    let decoder = DescriptorDecoder::<HIDParserModule>::empty();
    assert_eq!(decoder.modules().len(), 0);
    let parsed = decoder.try_parse_function(&INTERFACE_CLASS_3);
    assert!(matches!(parsed, Err(ParserError::NoSuitableModule)));
}

#[test]
fn load_embed_parsers_registers_hid_once() {
    let decoder = load_embed_parsers(DescriptorDecoder::empty());
    assert_eq!(names(&decoder), vec!["hid".to_string()]);
    let decoder = load_embed_parsers(decoder);
    assert_eq!(names(&decoder), vec!["hid".to_string()]);
}

#[test]
fn load_all_embed_parsers_registers_both_modules() {
    let decoder = load_all_embed_parsers(DescriptorDecoder::empty());
    assert_eq!(names(&decoder), vec!["hid".to_string(), "uvc".to_string()]);
    let decoder = load_all_embed_parsers(decoder);
    assert_eq!(names(&decoder), vec!["hid".to_string(), "uvc".to_string()]);
}

#[test]
fn modules_are_kept_in_the_order_of_their_names() {
    let mut decoder = DescriptorDecoder::empty();
    decoder.add_module(EmbeddedParser::Uvc(UVCParserModule {}));
    assert_eq!(names(&decoder), vec!["uvc".to_string()]);
    decoder.add_module(EmbeddedParser::Hid(HIDParserModule {}));
    assert_eq!(names(&decoder), vec!["hid".to_string(), "uvc".to_string()]);
    assert!(matches!(decoder.modules()[0], EmbeddedParser::Hid(_)));
    assert!(matches!(decoder.modules()[1], EmbeddedParser::Uvc(_)));
    assert_eq!(rank(decoder.modules(), b"a"), 0);
    assert_eq!(rank(decoder.modules(), b"hid"), 0);
    assert_eq!(rank(decoder.modules(), b"hie"), 1);
    assert_eq!(rank(decoder.modules(), b"uvc"), 1);
    assert_eq!(rank(decoder.modules(), b"uvca"), 2);
    assert_eq!(rank(decoder.modules(), b""), 0);
}

#[test]
fn same_name_replaces_the_module() {
    let mut decoder = DescriptorDecoder::empty();
    decoder.add_module(EmbeddedParser::Hid(HIDParserModule {}));
    decoder.add_module(EmbeddedParser::Uvc(UVCParserModule {}));
    decoder.add_module(EmbeddedParser::Hid(HIDParserModule {}));
    decoder.add_module(EmbeddedParser::Uvc(UVCParserModule {}));
    assert_eq!(names(&decoder), vec!["hid".to_string(), "uvc".to_string()]);
    assert_eq!(decoder.modules().len(), 2);
}

#[test]
fn module_is_selected_by_the_triple() {
    let decoder = load_all_embed_parsers(DescriptorDecoder::empty());
    let hid = select(decoder.modules(), 3, 1, 2).unwrap();
    assert_eq!(hid.function_name_string(), "hid");
    let uvc = select(decoder.modules(), 14, 3, 0).unwrap();
    assert_eq!(uvc.function_name_string(), "uvc");
    assert!(select(decoder.modules(), 8, 6, 80).is_none());
    assert!(select(decoder.modules(), 0, 3, 14).is_none());
}

#[test]
fn interface_is_dispatched_by_its_triple() {
    let decoder = load_all_embed_parsers(DescriptorDecoder::empty());
    let mut input = INTERFACE_CLASS_3.to_vec();
    input.extend_from_slice(&HID);
    let (function, len) = decoder.try_parse_function(&input).unwrap();
    assert_eq!(len, 18);
    match function {
        TopologyUSBFunction::Interface(group) => {
            assert_eq!(group.len(), 1);
            assert_eq!(group[0].flag, "hid");
            assert_eq!(group[0].extra, vec![EmbeddedExtra::Hid(Hid::from_bytes(&HID).unwrap())]);
            assert_eq!(group[0].extra[0].actual_len(), 9);
            assert_eq!(group[0].extra[0].desc_type(), 33);
            assert_eq!(group[0].extra[0].subtype(), None);
        }
        TopologyUSBFunction::InterfaceAssociation(..) => panic!("an interface was decoded"),
    }
}

#[test]
fn association_is_dispatched_by_its_function_triple() {
    let decoder = load_all_embed_parsers(DescriptorDecoder::empty());
    let mut input = ASSOCIATION_CLASS_14.to_vec();
    input.extend_from_slice(&INTERFACE_CLASS_14);
    let (function, len) = decoder.try_parse_function_interface_association(&input).unwrap();
    assert_eq!(len, 17);
    match function {
        TopologyUSBFunction::InterfaceAssociation(header, groups, extra) => {
            assert_eq!(header.function_class, 14);
            assert_eq!(groups.len(), 1);
            assert_eq!(groups[0][0].flag, "uvc");
            assert_eq!(extra.len(), 0);
        }
        TopologyUSBFunction::Interface(_) => panic!("an association was decoded"),
    }
    match decoder.try_parse_function_interface_association(&ASSOCIATION_CLASS_3) {
        Err(ParserError::NotSupportedDescriptorCombination(detail)) => {
            assert_eq!(detail, "InterfaceAssociation in HID")
        }
        _ => panic!("the HID module refuses an association"),
    }
}

#[test]
fn interface_of_the_video_class_outside_an_association() {
    let decoder = load_all_embed_parsers(DescriptorDecoder::empty());
    let parsed = decoder.try_parse_function(&INTERFACE_CLASS_14);
    assert!(matches!(parsed, Err(ParserError::NotFunction)));
}

#[test]
fn no_module_for_the_triple() {
    let decoder = DescriptorDecoder::new();
    let parsed = decoder.try_parse_function(&INTERFACE_CLASS_8);
    assert!(matches!(parsed, Err(ParserError::NoSuitableModule)));
    let parsed = decoder.try_parse_function_interface_association(&ASSOCIATION_CLASS_14);
    assert!(matches!(parsed, Err(ParserError::NoSuitableModule)));
    let decoder = load_all_embed_parsers(DescriptorDecoder::empty());
    let parsed = decoder.try_parse_function(&INTERFACE_CLASS_8);
    assert!(matches!(parsed, Err(ParserError::NoSuitableModule)));
}

#[test]
fn dispatch_needs_a_header_that_fits() {
    let decoder = DescriptorDecoder::new();
    let parsed = decoder.try_parse_function(&INTERFACE_CLASS_3[..8]);
    assert!(matches!(parsed, Err(ParserError::NotFunction)));
    let parsed = decoder.try_parse_function(&ASSOCIATION_CLASS_3);
    assert!(matches!(parsed, Err(ParserError::NotFunction)));
    let parsed = decoder.try_parse_function_interface_association(&INTERFACE_CLASS_3);
    assert!(matches!(parsed, Err(ParserError::NotFunction)));
    let parsed = decoder.try_parse_function_interface_association(&ASSOCIATION_CLASS_3[..7]);
    assert!(matches!(parsed, Err(ParserError::NotFunction)));
}

#[test]
fn hid_module_names_and_filter() {
    let module = HIDParserModule {};
    assert_eq!(module.function_name_string(), "hid");
    assert!(module.filter_triple(3, 0, 0));
    assert!(module.filter_triple(3, 1, 2));
    assert!(!module.filter_triple(14, 1, 2));
    assert!(!module.filter_triple(0, 3, 3));
}

#[test]
fn uvc_module_names_and_filter() {
    let module = UVCParserModule {};
    assert_eq!(module.function_name_string(), "uvc");
    assert!(module.filter_triple(14, 3, 0));
    assert!(module.filter_triple(14, 0, 9));
    assert!(!module.filter_triple(3, 14, 14));
    assert!(!module.filter_triple(16, 0, 0));
}

#[test]
fn embedded_probe_wraps_the_probe_of_its_module() {
    let hid = EmbeddedParser::Hid(HIDParserModule {});
    let uvc = EmbeddedParser::Uvc(UVCParserModule {});
    assert_eq!(hid.try_parse(&HID), Some(EmbeddedExtra::Hid(Hid::from_bytes(&HID).unwrap())));
    assert_eq!(uvc.try_parse(&HID), None);
    assert_eq!(hid.try_parse(&[5, 0x25, 3, 16, 0]), None);
    assert!(matches!(uvc.try_parse(&[5, 0x25, 3, 16, 0]), Some(EmbeddedExtra::Uvc(_))));
}

#[test]
fn hid_module_parse_cases() {
    let module = HIDParserModule {};
    let (function, len) = module.parse(&INTERFACE_CLASS_3).unwrap();
    assert_eq!(len, 9);
    assert!(matches!(function, TopologyUSBFunction::Interface(_)));
    assert!(matches!(module.parse(&[7, 5, 129, 3, 4, 0, 7]), Err(ParserError::NotFunction)));
    assert!(matches!(module.parse(&[9, 2, 9, 0, 0, 0, 0, 0, 0]), Err(ParserError::NotFunction)));
    assert!(matches!(module.parse(&[0, 0]), Err(ParserError::Ended)));
    assert!(matches!(module.parse(&[]), Err(ParserError::Ended)));
    assert!(matches!(module.parse(&[9, 33, 1, 0]), Err(ParserError::PeekFailed(33))));
    match module.parse(&ASSOCIATION_CLASS_3) {
        Err(ParserError::NotSupportedDescriptorCombination(detail)) => {
            assert_eq!(detail, "InterfaceAssociation in HID")
        }
        _ => panic!("the HID module refuses an association"),
    }
}
