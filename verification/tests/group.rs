use usb_descriptor_decoder::contained_parsers::hid::HIDParserModule;
use usb_descriptor_decoder::descriptors::desc_hid::Hid;
use usb_descriptor_decoder::descriptors::parser::parse_interface_group;
use usb_descriptor_decoder::contained_parsers::uvc::{UVCParserModule, UVCTopology};
use usb_descriptor_decoder::descriptors::desc_interface::Interface;
use usb_descriptor_decoder::{ExtraParser, ParserError, TopologyDescriptor};

const INTERFACE_0_ALT_0: [u8; 9] = [9, 4, 0, 0, 0, 3, 0, 0, 0];
const INTERFACE_0_ALT_1: [u8; 9] = [9, 4, 0, 1, 1, 3, 0, 0, 0];
const INTERFACE_0_ALT_2: [u8; 9] = [9, 4, 0, 2, 2, 3, 0, 0, 0];
const INTERFACE_1_ALT_0: [u8; 9] = [9, 4, 1, 0, 0, 3, 0, 0, 0];
const ENDPOINT_IN: [u8; 7] = [7, 5, 0x81, 3, 8, 0, 10];
const ENDPOINT_OUT: [u8; 7] = [7, 5, 0x01, 3, 8, 0, 10];
const HID: [u8; 9] = [9, 33, 0x11, 1, 0, 1, 34, 52, 0];

fn buffer(parts: &[&[u8]]) -> Vec<u8> {
    let mut bytes = Vec::new();
    for part in parts {
        bytes.extend_from_slice(part);
    }
    bytes
}

#[test]
fn single_alternate_with_endpoint_and_extension() {
    let input = buffer(&[&[9, 4, 0, 0, 1, 3, 1, 2, 0], &HID, &ENDPOINT_IN, &[0, 0]]);
    let mut offset = 9;
    let group =
        parse_interface_group(&input, &HIDParserModule {}, &mut offset, "hid".to_string()).unwrap();
    assert_eq!(offset, 25);
    assert_eq!(group.len(), 1);
    assert_eq!(group[0].interface.interface_number, 0);
    assert_eq!(group[0].interface.num_endpoints, 1);
    assert_eq!(group[0].endpoints.len(), 1);
    assert_eq!(group[0].endpoints[0].endpoint_address, 0x81);
    assert_eq!(group[0].flag, "hid");
    assert_eq!(group[0].extra.len(), 1);
    assert_eq!(group[0].extra[0], Hid::from_bytes(&HID).unwrap());
    assert_eq!(group[0].extra[0].desc_type(), 33);
    assert_eq!(group[0].extra[0].subtype(), None);
    assert_eq!(group[0].extra[0].actual_len(), 9);
}

#[test]
fn extension_after_the_endpoints() {
    let input = buffer(&[&INTERFACE_0_ALT_2, &ENDPOINT_IN, &ENDPOINT_OUT, &HID]);
    let mut offset = 9;
    let group =
        parse_interface_group(&input, &HIDParserModule {}, &mut offset, "hid".to_string()).unwrap();
    assert_eq!(offset, 32);
    assert_eq!(group.len(), 1);
    assert_eq!(group[0].endpoints.len(), 2);
    assert_eq!(group[0].endpoints[0].endpoint_address, 0x81);
    assert_eq!(group[0].endpoints[1].endpoint_address, 0x01);
    assert_eq!(group[0].extra.len(), 1);
}

#[test]
fn alternates_of_one_interface_form_one_group() {
    let input = buffer(&[
        &INTERFACE_0_ALT_0,
        &INTERFACE_0_ALT_1,
        &ENDPOINT_IN,
        &INTERFACE_0_ALT_2,
        &ENDPOINT_IN,
        &ENDPOINT_OUT,
        &INTERFACE_1_ALT_0,
    ]);
    let mut offset = 9;
    let group =
        parse_interface_group(&input, &HIDParserModule {}, &mut offset, "hid".to_string()).unwrap();
    assert_eq!(group.len(), 3);
    assert_eq!(offset, 9 + 16 + 23);
    for alternate in &group {
        assert_eq!(alternate.interface.interface_number, 0);
        assert_eq!(alternate.endpoints.len(), alternate.interface.num_endpoints as usize);
        assert_eq!(alternate.flag, "hid");
    }
    assert_eq!(group[0].interface.alternate_setting, 0);
    assert_eq!(group[1].interface.alternate_setting, 1);
    assert_eq!(group[2].interface.alternate_setting, 2);
    assert!(!group[0].is_alternative(&Interface::from_bytes(&INTERFACE_1_ALT_0).unwrap()));
    assert!(group[0].is_alternative(&group[2].interface));
    assert_eq!(input[offset..offset + 3], [9, 4, 1]);
}

#[test]
fn group_is_keyed_by_interface_number_not_by_alternate_setting() {
    let input = buffer(&[&INTERFACE_0_ALT_2, &ENDPOINT_IN, &ENDPOINT_OUT, &INTERFACE_0_ALT_0]);
    let mut offset = 9;
    let group =
        parse_interface_group(&input, &HIDParserModule {}, &mut offset, "x".to_string()).unwrap();
    assert_eq!(group.len(), 2);
    assert_eq!(group[0].interface.alternate_setting, 2);
    assert_eq!(group[1].interface.alternate_setting, 0);
    assert_eq!(offset, input.len());
}

#[test]
fn group_ends_at_another_interface_number() {
    let input = buffer(&[&INTERFACE_1_ALT_0, &INTERFACE_0_ALT_0, &INTERFACE_1_ALT_0]);
    let mut offset = 9;
    let group =
        parse_interface_group(&input, &HIDParserModule {}, &mut offset, "hid".to_string()).unwrap();
    assert_eq!(group.len(), 1);
    assert_eq!(group[0].interface.interface_number, 1);
    assert_eq!(offset, 9);
}

#[test]
fn cursor_is_counted_from_the_start_of_the_slice() {
    let input = buffer(&[&[1, 2, 3], &INTERFACE_0_ALT_1, &ENDPOINT_IN, &[0, 0]]);
    let mut offset = 9;
    let group = parse_interface_group(
        &input[3..],
        &HIDParserModule {},
        &mut offset,
        "hid".to_string(),
    )
    .unwrap();
    assert_eq!(group.len(), 1);
    assert_eq!(offset, 16);
}

#[test]
fn cursor_must_stand_behind_the_first_header() {
    let input = buffer(&[&INTERFACE_0_ALT_1, &ENDPOINT_IN, &[0, 0]]);
    for entry in [0usize, 1, 8, 10, 16, 18, 100, usize::MAX] {
        let mut offset = entry;
        let parsed =
            parse_interface_group(&input, &HIDParserModule {}, &mut offset, "hid".to_string());
        assert!(matches!(parsed, Err(ParserError::NotFunction)), "entry cursor {}", entry);
        assert_eq!(offset, entry);
    }
    let mut offset = 9;
    let group =
        parse_interface_group(&input, &HIDParserModule {}, &mut offset, "hid".to_string()).unwrap();
    assert_eq!(group.len(), 1);
    assert_eq!(offset, 16);
}

#[test]
fn cursor_behind_a_header_longer_than_its_fields() {
    let long_header = [11u8, 4, 5, 0, 1, 3, 0, 0, 0, 0xaa, 0xbb];
    let input = buffer(&[&long_header, &ENDPOINT_IN]);
    let mut offset = 11;
    let group =
        parse_interface_group(&input, &HIDParserModule {}, &mut offset, "hid".to_string()).unwrap();
    assert_eq!(offset, 18);
    assert_eq!(group[0].interface.len, 11);
    assert_eq!(group[0].interface.interface_number, 5);
    assert_eq!(group[0].endpoints.len(), 1);
    let mut offset = 9;
    let parsed = parse_interface_group(&input, &HIDParserModule {}, &mut offset, "hid".to_string());
    assert!(matches!(parsed, Err(ParserError::NotFunction)));
    assert_eq!(offset, 9);
}

#[test]
fn two_endpoints_declared_one_before_the_sentinel() {
    let input = [9u8, 4, 0, 0, 2, 3, 1, 2, 0, 7, 5, 129, 3, 4, 0, 7, 0, 0];
    let mut offset = 9;
    let parsed = parse_interface_group(&input, &UVCParserModule {}, &mut offset, "hid".to_string());
    assert!(matches!(parsed, Err(ParserError::NotEnoughEndpoints)));
    assert_eq!(offset, 9);
}

#[test]
fn no_endpoint_declared_one_follows() {
    let input = [9u8, 4, 0, 0, 0, 3, 1, 2, 0, 7, 5, 129, 3, 4, 0, 7, 0, 0];
    let mut offset = 9;
    let parsed = parse_interface_group(&input, &UVCParserModule {}, &mut offset, "hid".to_string());
    assert!(matches!(parsed, Err(ParserError::NotEnoughEndpoints)));
    assert_eq!(offset, 9);
}

#[test]
fn header_of_another_number_is_left_unconsumed() {
    let input = [9u8, 4, 0, 0, 0, 3, 1, 2, 0, 9, 4, 1, 0, 0, 3, 1, 2, 0, 0, 0];
    let mut offset = 9;
    let group =
        parse_interface_group(&input, &UVCParserModule {}, &mut offset, "hid".to_string()).unwrap();
    assert_eq!(group.len(), 1);
    assert_eq!(group[0].interface.interface_number, 0);
    assert_eq!(group[0].endpoints.len(), 0);
    assert_eq!(group[0].extra.len(), 0);
    assert_eq!(offset, 9);
}

#[test]
fn second_alternate_with_its_endpoint() {
    let input = [
        9u8, 4, 0, 0, 0, 3, 1, 2, 0, 9, 4, 0, 1, 1, 3, 1, 2, 0, 7, 5, 129, 3, 4, 0, 7, 0, 0,
    ];
    let mut offset = 9;
    let group =
        parse_interface_group(&input, &UVCParserModule {}, &mut offset, "hid".to_string()).unwrap();
    assert_eq!(group.len(), 2);
    assert_eq!(group[0].interface.alternate_setting, 0);
    assert_eq!(group[0].endpoints.len(), 0);
    assert_eq!(group[1].interface.alternate_setting, 1);
    assert_eq!(group[1].interface.num_endpoints, 1);
    assert_eq!(group[1].endpoints.len(), 1);
    assert_eq!(group[1].endpoints[0].endpoint_address, 129);
    assert_eq!(offset, 25);
}

#[test]
fn keyboard_function_with_the_hid_probe() {
    let input = [
        9u8, 4, 0, 0, 1, 3, 1, 2, 0, 9, 33, 1, 0, 0, 1, 34, 52, 0, 7, 5, 129, 3, 4, 0, 7, 0, 0,
    ];
    let mut offset = 9;
    let group =
        parse_interface_group(&input, &HIDParserModule {}, &mut offset, "hid".to_string()).unwrap();
    assert_eq!(group.len(), 1);
    assert_eq!(group[0].flag, "hid");
    assert_eq!(group[0].extra.len(), 1);
    assert_eq!(group[0].extra[0].desc_type(), 33);
    assert_eq!(group[0].extra[0].actual_len(), 9);
    assert_eq!(group[0].endpoints.len(), 1);
    assert_eq!(group[0].endpoints[0].endpoint_address, 129);
    assert_eq!(offset, 25);
}

#[test]
fn cursor_behind_the_group_is_the_sum_of_its_records() {
    let input = buffer(&[
        &INTERFACE_0_ALT_1,
        &HID,
        &ENDPOINT_IN,
        &INTERFACE_0_ALT_2,
        &ENDPOINT_IN,
        &HID,
        &ENDPOINT_OUT,
        &INTERFACE_1_ALT_0,
    ]);
    let mut offset = 9;
    let group =
        parse_interface_group(&input, &HIDParserModule {}, &mut offset, "hid".to_string()).unwrap();
    let mut sum = 0;
    for alternate in &group {
        assert_eq!(alternate.interface.interface_number, input[2]);
        sum += alternate.interface.len as usize;
        for endpoint in &alternate.endpoints {
            sum += endpoint.len as usize;
        }
        for extra in &alternate.extra {
            sum += extra.actual_len();
        }
    }
    assert_eq!(sum, 57);
    assert_eq!(offset, sum);
    assert!(offset <= input.len());
    assert!(!(input[offset + 1] == 4 && input[offset + 2] == input[2]));
}

#[test]
fn group_ends_at_the_end_of_the_buffer() {
    let input = buffer(&[&INTERFACE_0_ALT_0]);
    let mut offset = 9;
    let group =
        parse_interface_group(&input, &HIDParserModule {}, &mut offset, "hid".to_string()).unwrap();
    assert_eq!(group.len(), 1);
    assert_eq!(offset, 9);
    let input = buffer(&[&INTERFACE_0_ALT_0, &[9]]);
    let mut offset = 9;
    let group =
        parse_interface_group(&input, &HIDParserModule {}, &mut offset, "hid".to_string()).unwrap();
    assert_eq!(group.len(), 1);
    assert_eq!(offset, 9);
}

#[test]
fn fewer_endpoints_than_declared() {
    let input = buffer(&[&INTERFACE_0_ALT_2, &ENDPOINT_IN, &[0, 0]]);
    let mut offset = 9;
    let parsed = parse_interface_group(&input, &HIDParserModule {}, &mut offset, "hid".to_string());
    assert!(matches!(parsed, Err(ParserError::NotEnoughEndpoints)));
    assert_eq!(offset, 9);
}

#[test]
fn more_endpoints_than_declared() {
    let input = buffer(&[&INTERFACE_0_ALT_0, &ENDPOINT_IN]);
    let mut offset = 9;
    let parsed = parse_interface_group(&input, &HIDParserModule {}, &mut offset, "hid".to_string());
    assert!(matches!(parsed, Err(ParserError::NotEnoughEndpoints)));
    let input = buffer(&[&INTERFACE_0_ALT_1, &ENDPOINT_IN, &ENDPOINT_OUT]);
    let mut offset = 9;
    let parsed = parse_interface_group(&input, &HIDParserModule {}, &mut offset, "hid".to_string());
    assert!(matches!(parsed, Err(ParserError::NotEnoughEndpoints)));
}

#[test]
fn later_alternate_with_missing_endpoint_fails_the_group() {
    let input = buffer(&[&INTERFACE_0_ALT_0, &INTERFACE_0_ALT_1, &INTERFACE_1_ALT_0]);
    let mut offset = 9;
    let parsed = parse_interface_group(&input, &HIDParserModule {}, &mut offset, "hid".to_string());
    assert!(matches!(parsed, Err(ParserError::NotEnoughEndpoints)));
    assert_eq!(offset, 9);
}

#[test]
fn no_interface_at_the_cursor() {
    let mut offset = 9;
    let parsed =
        parse_interface_group(&ENDPOINT_IN, &HIDParserModule {}, &mut offset, "hid".to_string());
    assert!(matches!(parsed, Err(ParserError::NotFunction)));
    let mut offset = 9;
    let parsed = parse_interface_group(&[], &HIDParserModule {}, &mut offset, "hid".to_string());
    assert!(matches!(parsed, Err(ParserError::NotFunction)));
    let mut offset = 100;
    let parsed =
        parse_interface_group(&INTERFACE_0_ALT_0, &HIDParserModule {}, &mut offset, "hid".to_string());
    assert!(matches!(parsed, Err(ParserError::NotFunction)));
    assert_eq!(offset, 100);
}

#[test]
fn truncated_interface_header() {
    let mut offset = 9;
    let parsed = parse_interface_group(
        &INTERFACE_0_ALT_0[..8],
        &HIDParserModule {},
        &mut offset,
        "hid".to_string(),
    );
    assert!(matches!(parsed, Err(ParserError::NotFunction)));
}

#[test]
fn truncated_later_interface_header() {
    let input = buffer(&[&INTERFACE_0_ALT_0, &INTERFACE_0_ALT_0[..5]]);
    let mut offset = 9;
    let parsed = parse_interface_group(&input, &HIDParserModule {}, &mut offset, "hid".to_string());
    assert!(matches!(parsed, Err(ParserError::NotFunction)));
    assert_eq!(offset, 9);
}

#[test]
fn truncated_endpoint() {
    let input = buffer(&[&INTERFACE_0_ALT_1, &ENDPOINT_IN[..6]]);
    let mut offset = 9;
    let parsed = parse_interface_group(&input, &HIDParserModule {}, &mut offset, "hid".to_string());
    assert!(matches!(parsed, Err(ParserError::NotEndpoint)));
    assert_eq!(offset, 9);
}

#[test]
fn truncated_extension_is_declined_and_ends_the_members() {
    let input = buffer(&[&INTERFACE_0_ALT_0, &HID[..8]]);
    let mut offset = 9;
    let group =
        parse_interface_group(&input, &HIDParserModule {}, &mut offset, "hid".to_string()).unwrap();
    assert_eq!(group.len(), 1);
    assert_eq!(group[0].extra.len(), 0);
    assert_eq!(offset, 9);
}

#[test]
fn unknown_record_ends_the_members() {
    let report = [9u8, 0x22, 0, 0, 0, 0, 0, 0, 0];
    let input = buffer(&[&INTERFACE_0_ALT_1, &report, &ENDPOINT_IN]);
    let mut offset = 9;
    let parsed = parse_interface_group(&input, &HIDParserModule {}, &mut offset, "hid".to_string());
    assert!(matches!(parsed, Err(ParserError::NotEnoughEndpoints)));
    let input = buffer(&[&INTERFACE_0_ALT_0, &report, &ENDPOINT_IN]);
    let mut offset = 9;
    let group =
        parse_interface_group(&input, &HIDParserModule {}, &mut offset, "hid".to_string()).unwrap();
    assert_eq!(group.len(), 1);
    assert_eq!(offset, 9);
}

#[test]
fn hid_probe_cases() {
    let probe = HIDParserModule {};
    assert_eq!(probe.try_parse(&HID), Hid::from_bytes(&HID));
    assert_eq!(probe.try_parse(&HID[..8]), None);
    assert_eq!(probe.try_parse(&[9, 0x22, 0, 0, 0, 0, 0, 0, 0]), None);
    assert_eq!(probe.try_parse(&[8, 33, 0, 0, 0, 0, 0, 0, 0]), None);
    assert_eq!(probe.try_parse(&[10, 33, 0, 0, 0, 0, 0, 0, 0]), None);
    assert_eq!(probe.try_parse(&[33]), None);
    assert_eq!(probe.try_parse(&[]), None);
    let long = [12u8, 33, 0x11, 1, 0, 2, 34, 52, 0, 35, 7, 0];
    assert_eq!(probe.try_parse(&long).unwrap().len, 12);
}

#[test]
fn extension_moves_the_cursor_by_the_length_it_reports() {
    let long_hid = [12u8, 33, 0x11, 1, 0, 2, 34, 52, 0, 35, 7, 0];
    let input = buffer(&[&INTERFACE_0_ALT_1, &long_hid, &ENDPOINT_IN]);
    let mut offset = 9;
    let group =
        parse_interface_group(&input, &HIDParserModule {}, &mut offset, "hid".to_string()).unwrap();
    assert_eq!(offset, 28);
    assert_eq!(group[0].extra[0].actual_len(), 12);
    assert_eq!(group[0].endpoints.len(), 1);
}

#[test]
fn extension_shorter_than_declared_by_its_header_is_taken_by_its_own_length() {
    let class_interface = [6u8, 0x24, 2, 1, 2, 3];
    let input = buffer(&[&INTERFACE_0_ALT_1, &class_interface, &ENDPOINT_IN]);
    let mut offset = 9;
    let group =
        parse_interface_group(&input, &UVCParserModule {}, &mut offset, "uvc".to_string()).unwrap();
    assert_eq!(offset, 22);
    assert_eq!(group[0].extra.len(), 1);
    assert_eq!(group[0].extra[0].actual_len(), 6);
    assert_eq!(group[0].extra[0].desc_type(), 0x24);
    assert_eq!(group[0].extra[0].subtype(), Some(2));
    assert!(matches!(group[0].extra[0], UVCTopology::UVCInterface(_)));
    assert_eq!(group[0].endpoints.len(), 1);
}

#[test]
fn extension_that_declares_more_than_is_left_is_not_taken() {
    let class_interface = [7u8, 0x24, 2, 1, 2, 3];
    let input = buffer(&[&INTERFACE_0_ALT_0, &class_interface]);
    let mut offset = 9;
    let group =
        parse_interface_group(&input, &UVCParserModule {}, &mut offset, "uvc".to_string()).unwrap();
    assert_eq!(group[0].extra.len(), 0);
    assert_eq!(offset, 9);
}

#[test]
fn probe_is_asked_only_outside_the_catalog() {
    let input = buffer(&[&INTERFACE_0_ALT_0, &[4, 3, 9, 4]]);
    let mut offset = 9;
    let group =
        parse_interface_group(&input, &HIDParserModule {}, &mut offset, "hid".to_string()).unwrap();
    assert_eq!(group[0].extra.len(), 0);
    assert_eq!(offset, 9);
    let input = buffer(&[&INTERFACE_0_ALT_0, &[0, 0, 0, 0]]);
    let mut offset = 9;
    let group =
        parse_interface_group(&input, &HIDParserModule {}, &mut offset, "hid".to_string()).unwrap();
    assert_eq!(group[0].extra.len(), 0);
    assert_eq!(offset, 9);
}
