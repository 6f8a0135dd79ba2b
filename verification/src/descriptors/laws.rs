//! What holds of everything that the walker decodes, proved from the
//! meaning of the bytes alone.
use vstd::prelude::*;

use super::desc_interface::{
    spec_endpoints_len, spec_extra_len, spec_group_len, TopologyUSBFunctionView,
    USBInterfaceView, INTERFACE_DESCRIPTOR_SIZE,
};
use super::grammar::{
    spec_accepted_extra, spec_association_part, spec_function_lengths, spec_next_function,
    spec_next_interface_number, spec_parse, spec_parse_alternate,
    spec_parse_association_function, spec_parse_config, spec_parse_configuration_header,
    spec_parse_endpoint, spec_parse_functions, spec_parse_interface_association,
    spec_parse_interface_group, spec_parse_interface_group_from, spec_parse_members,
    spec_parse_more_alternates, spec_parse_single_interface, spec_peek_device_desc,
    spec_remaining, spec_scan_association, spec_scan_reaches, spec_starts_interface, spec_sum,
    spec_try_parse_function, spec_try_parse_function_interface_association,
    spec_unsupported_in_association, AssociationPartView,
};
use super::USBStandardDescriptorTypes;
use crate::{DescriptorDecoderModule, ExtraParser, ParserErrorView, TopologyDescriptor};

verus! {

/// Skipping `first` bytes and then `second` bytes is skipping their sum.
pub proof fn lemma_remaining_twice(data: Seq<u8>, first: nat, second: nat)
    ensures
        spec_remaining(spec_remaining(data, first), second) == spec_remaining(
            data,
            first + second,
        ),
{
    assert(spec_remaining(spec_remaining(data, first), second) =~= spec_remaining(
        data,
        first + second,
    ));
}

/// The members that follow an interface header stay inside the buffer, and
/// the bytes they occupy are those of the endpoints and extension
/// descriptors that were decoded.
pub proof fn lemma_members_consumed<P: ExtraParser>(parser: &P, data: Seq<u8>)
    ensures
        spec_parse_members(parser, data) matches Ok((endpoints, extra, len)) ==> len
            <= data.len() && len == spec_endpoints_len(endpoints) + spec_extra_len(extra),
    decreases data.len(),
{
    match USBStandardDescriptorTypes::spec_peek_type(data) {
        Ok((USBStandardDescriptorTypes::Endpoint, _)) => {
            if let Ok((endpoint, len)) = spec_parse_endpoint(data) {
                lemma_members_consumed(parser, spec_remaining(data, len));
                if let Ok((endpoints, extra, more)) = spec_parse_members(
                    parser,
                    spec_remaining(data, len),
                ) {
                    assert((seq![endpoint] + endpoints).drop_first() =~= endpoints);
                }
            }
        },
        Err(ParserErrorView::PeekFailed(_)) => {
            if let Some(found) = spec_accepted_extra(parser, data) {
                let len = found.spec_actual_len();
                lemma_members_consumed(parser, spec_remaining(data, len));
                if let Ok((endpoints, extra, more)) = spec_parse_members(
                    parser,
                    spec_remaining(data, len),
                ) {
                    assert((seq![found] + extra).drop_first() =~= extra);
                }
            }
        },
        _ => {},
    }
}

/// An alternate that was decoded starts with the interface header at the
/// cursor, has as many endpoints as that header declares, carries the flag
/// it was decoded under, and occupies its own bytes inside the buffer.
pub proof fn lemma_alternate_complete<P: ExtraParser>(parser: &P, data: Seq<u8>, flag: Seq<char>)
    ensures
        spec_parse_alternate(parser, data, flag) matches Ok((alternate, len)) ==> {
            &&& spec_parse_single_interface(data) == Ok::<_, ParserErrorView>(alternate.interface)
            &&& alternate.spec_endpoints_complete()
            &&& alternate.flag == flag
            &&& INTERFACE_DESCRIPTOR_SIZE <= len <= data.len()
            &&& len == alternate.spec_consumed_len()
        },
        spec_parse_alternate(parser, data, flag) matches Err(e) ==> {
            ||| e == ParserErrorView::NotFunction
            ||| e == ParserErrorView::NotEndpoint
            ||| e == ParserErrorView::NotEnoughEndpoints
        },
        spec_parse_alternate(parser, data, flag) == Err::<
            (USBInterfaceView<P::Extra>, nat),
            _,
        >(ParserErrorView::NotEnoughEndpoints) <==> (spec_parse_single_interface(data) matches Ok(
            interface,
        ) && spec_parse_members(parser, spec_remaining(data, interface.len as nat)) matches Ok(
            (endpoints, _, _),
        ) && endpoints.len() != interface.num_endpoints),
{
    if let Ok(interface) = spec_parse_single_interface(data) {
        lemma_members_consumed(parser, spec_remaining(data, interface.len as nat));
        lemma_members_errors(parser, spec_remaining(data, interface.len as nat));
    }
}

/// The members of an alternate fail only where an endpoint header does not
/// fit the buffer.
pub proof fn lemma_members_errors<P: ExtraParser>(parser: &P, data: Seq<u8>)
    ensures
        spec_parse_members(parser, data) matches Err(e) ==> e == ParserErrorView::NotEndpoint,
    decreases data.len(),
{
    match USBStandardDescriptorTypes::spec_peek_type(data) {
        Ok((USBStandardDescriptorTypes::Endpoint, _)) => {
            if let Ok((endpoint, len)) = spec_parse_endpoint(data) {
                lemma_members_errors(parser, spec_remaining(data, len));
            }
        },
        Err(ParserErrorView::PeekFailed(_)) => {
            if let Some(found) = spec_accepted_extra(parser, data) {
                lemma_members_errors(parser, spec_remaining(data, found.spec_actual_len()));
            }
        },
        _ => {},
    }
}

/// Every further alternate of a group has the interface number of the
/// group and as many endpoints as its header declares; the alternates
/// occupy their own bytes inside the buffer; and behind the last of them no
/// interface header of the same number follows.
pub proof fn lemma_more_alternates_grouped<P: ExtraParser>(
    parser: &P,
    data: Seq<u8>,
    flag: Seq<char>,
    number: u8,
)
    ensures
        spec_parse_more_alternates(parser, data, flag, number) matches Ok((alternates, len)) ==> {
            &&& forall|i: int|
                0 <= i < alternates.len() ==> (#[trigger] alternates[i]).interface.interface_number
                    == number && alternates[i].spec_endpoints_complete() && alternates[i].flag
                    == flag
            &&& len <= data.len()
            &&& len == spec_group_len(alternates)
            &&& spec_next_interface_number(spec_remaining(data, len)) != Some(number)
            &&& !spec_starts_interface(spec_remaining(data, len), number)
        },
    decreases data.len(),
{
    match USBStandardDescriptorTypes::spec_peek_type(data) {
        Ok((USBStandardDescriptorTypes::Interface, _)) => {
            if let Ok(interface) = spec_parse_single_interface(data) {
                if interface.interface_number == number {
                    lemma_alternate_complete(parser, data, flag);
                    if let Ok((alternate, len)) = spec_parse_alternate(parser, data, flag) {
                        lemma_more_alternates_grouped(
                            parser,
                            spec_remaining(data, len),
                            flag,
                            number,
                        );
                        if let Ok((alternates, more)) = spec_parse_more_alternates(
                            parser,
                            spec_remaining(data, len),
                            flag,
                            number,
                        ) {
                            lemma_remaining_twice(data, len, more);
                            assert((seq![alternate] + alternates).drop_first() =~= alternates);
                        }
                    }
                } else {
                    assert(spec_remaining(data, 0) =~= data);
                }
            }
        },
        _ => {
            assert(spec_remaining(data, 0) =~= data);
        },
    }
}

/// What holds of every group of alternates that is decoded.
///
/// The group is not empty. All its alternates share the interface number of
/// the first, which is the third byte of the buffer, and carry the flag;
/// each has as many endpoints as its header declares. The group occupies
/// exactly the bytes of its alternates, inside the buffer, and it ends
/// where the next record is not an interface header of the same number:
/// either another record stands there or the stream ends.
pub proof fn lemma_interface_group_grouped<P: ExtraParser>(
    parser: &P,
    data: Seq<u8>,
    flag: Seq<char>,
)
    ensures
        spec_parse_interface_group(parser, data, flag) matches Ok((group, len)) ==> {
            &&& group.len() >= 1
            &&& spec_parse_single_interface(data) == Ok::<_, ParserErrorView>(group[0].interface)
            &&& forall|i: int|
                0 <= i < group.len() ==> (#[trigger] group[i]).interface.interface_number
                    == group[0].interface.interface_number && group[i].spec_endpoints_complete()
                    && group[i].flag == flag
            &&& group[0].interface.interface_number == data[2]
            &&& group[0].interface.len == data[0]
            &&& INTERFACE_DESCRIPTOR_SIZE <= len <= data.len()
            &&& len == spec_group_len(group)
            &&& spec_next_interface_number(spec_remaining(data, len)) != Some(data[2])
            &&& !spec_starts_interface(spec_remaining(data, len), data[2])
        },
{
    reveal(spec_parse_interface_group);
    lemma_alternate_complete(parser, data, flag);
    if let Ok((first, len)) = spec_parse_alternate(parser, data, flag) {
        let number = first.interface.interface_number;
        lemma_more_alternates_grouped(parser, spec_remaining(data, len), flag, number);
        if let Ok((alternates, more)) = spec_parse_more_alternates(
            parser,
            spec_remaining(data, len),
            flag,
            number,
        ) {
            lemma_remaining_twice(data, len, more);
            let group = seq![first] + alternates;
            assert(group.drop_first() =~= alternates);
            assert forall|i: int| 0 <= i < group.len() implies (#[trigger] group[i]).interface.interface_number
                == number && group[i].spec_endpoints_complete() && group[i].flag == flag by {
                if i > 0 {
                    assert(group[i] == alternates[i - 1]);
                }
            }
        }
    }
}

/// For a cursor that stands at the declared length of the first header, the
/// group is the one that the buffer holds; the same is true where no
/// interface header that fits stands at the start, as both are then refused
/// with `NotFunction`.
pub proof fn lemma_group_from_declared_length<P: ExtraParser>(
    parser: &P,
    data: Seq<u8>,
    flag: Seq<char>,
)
    requires
        data.len() >= 1,
    ensures
        spec_parse_interface_group_from(parser, data, flag, data[0] as nat)
            == spec_parse_interface_group(parser, data, flag),
{
    reveal(spec_parse_interface_group);
}

/// The functions of a configuration stay inside the buffer, there is one
/// length for each of them, and the lengths add up to the bytes that the
/// run of functions occupies.
pub proof fn lemma_functions_consumed<M: DescriptorDecoderModule>(modules: Seq<M>, data: Seq<u8>)
    ensures
        spec_parse_functions(modules, data) matches Ok((functions, len)) ==> {
            &&& len <= data.len()
            &&& spec_function_lengths(modules, data).len() == functions.len()
            &&& spec_sum(spec_function_lengths(modules, data)) == len
        },
    decreases data.len(),
{
    if let Some(Ok((function, len))) = spec_next_function(modules, data) {
        lemma_functions_consumed(modules, spec_remaining(data, len));
        if let Ok((functions, more)) = spec_parse_functions(modules, spec_remaining(data, len)) {
            let lengths = spec_function_lengths(modules, spec_remaining(data, len));
            assert((seq![len] + lengths).drop_first() =~= lengths);
        }
    }
}

/// In every configuration that is decoded, the lengths of its functions add
/// up to the total length that the configuration header declares, less the
/// length of the header itself; and the configuration occupies exactly its
/// declared total length, inside the buffer.
pub proof fn lemma_config_total_length<M: DescriptorDecoderModule>(modules: Seq<M>, data: Seq<u8>)
    ensures
        spec_parse_config(modules, data) matches Ok((config, len)) ==> {
            &&& len == config.desc.total_length
            &&& len <= data.len()
            &&& spec_parse_configuration_header(data) == Ok::<_, ParserErrorView>(config.desc)
            &&& spec_function_lengths(
                modules,
                spec_remaining(data, config.desc.length as nat),
            ).len() == config.functions.len()
            &&& spec_sum(
                spec_function_lengths(modules, spec_remaining(data, config.desc.length as nat)),
            ) == config.desc.total_length - config.desc.length
        },
{
    if let Ok(desc) = spec_parse_configuration_header(data) {
        lemma_functions_consumed(modules, spec_remaining(data, desc.length as nat));
    }
}

/// Below an association header only interfaces and extension descriptors
/// stand: where the scan comes to any other record of the catalog, the
/// whole scan is refused as a combination that is not supported, and the
/// error names that record. Nothing that was decoded before it is
/// returned.
pub proof fn lemma_association_refuses_other_records<P: ExtraParser>(
    parser: &P,
    data: Seq<u8>,
    flag: Seq<char>,
    consumed: nat,
    met: USBStandardDescriptorTypes,
)
    requires
        spec_scan_reaches(parser, data, flag, consumed),
        USBStandardDescriptorTypes::spec_peek_type(spec_remaining(data, consumed)) matches Ok(
            (found, _),
        ) && found == met,
        met != USBStandardDescriptorTypes::Interface,
    ensures
        spec_scan_association(parser, data, flag) == Err::<
            (Seq<Seq<USBInterfaceView<P::Extra>>>, Seq<P::Extra>, nat),
            _,
        >(ParserErrorView::NotSupportedDescriptorCombination(spec_unsupported_in_association(met))),
    decreases consumed,
{
    if consumed == 0 {
        assert(spec_remaining(data, 0) =~= data);
    } else {
        match spec_association_part(parser, data, flag) {
            Ok(AssociationPartView::Group(_, len)) => {
                lemma_remaining_twice(data, len, (consumed - len) as nat);
                lemma_association_refuses_other_records(
                    parser,
                    spec_remaining(data, len),
                    flag,
                    (consumed - len) as nat,
                    met,
                );
            },
            Ok(AssociationPartView::Extra(_, len)) => {
                lemma_remaining_twice(data, len, (consumed - len) as nat);
                lemma_association_refuses_other_records(
                    parser,
                    spec_remaining(data, len),
                    flag,
                    (consumed - len) as nat,
                    met,
                );
            },
            _ => {},
        }
    }
}

/// An association is never nested in another, wherever the inner one
/// stands: where an association header is met below an association header,
/// directly or behind groups and extension descriptors, the outer
/// association is refused as a combination that is not supported.
pub proof fn lemma_nested_association_refused<P: ExtraParser>(
    parser: &P,
    data: Seq<u8>,
    flag: Seq<char>,
    consumed: nat,
)
    requires
        spec_parse_interface_association(data) matches Ok(header) && spec_scan_reaches(
            parser,
            spec_remaining(data, header.len as nat),
            flag,
            consumed,
        ) && USBStandardDescriptorTypes::spec_peek_type(
            spec_remaining(data, header.len as nat + consumed),
        ) matches Ok((USBStandardDescriptorTypes::InterfaceAssociation, _)),
    ensures
        spec_parse_association_function(parser, data, flag) == Err::<
            (TopologyUSBFunctionView<P::Extra>, nat),
            _,
        >(
            ParserErrorView::NotSupportedDescriptorCombination(
                spec_unsupported_in_association(USBStandardDescriptorTypes::InterfaceAssociation),
            ),
        ),
{
    if let Ok(header) = spec_parse_interface_association(data) {
        lemma_remaining_twice(data, header.len as nat, consumed);
        lemma_association_refuses_other_records(
            parser,
            spec_remaining(data, header.len as nat),
            flag,
            consumed,
            USBStandardDescriptorTypes::InterfaceAssociation,
        );
    }
}

/// A record that declares more bytes than the buffer holds is never
/// decoded: whatever is expected at the start of `data`, the step fails.
pub proof fn lemma_declared_length_past_the_end<M: DescriptorDecoderModule, P: ExtraParser>(
    modules: Seq<M>,
    parser: &P,
    data: Seq<u8>,
    flag: Seq<char>,
)
    requires
        data.len() >= 2,
        data[0] > data.len(),
    ensures
        spec_peek_device_desc(data) is Err,
        spec_parse_configuration_header(data) is Err,
        spec_parse_endpoint(data) is Err,
        spec_parse_single_interface(data) is Err,
        spec_parse_interface_association(data) is Err,
        spec_parse_alternate(parser, data, flag) is Err,
        spec_parse_interface_group(parser, data, flag) is Err,
        spec_parse_association_function(parser, data, flag) is Err,
        spec_try_parse_function(modules, data) is Err,
        spec_try_parse_function_interface_association(modules, data) is Err,
        spec_parse_config(modules, data) is Err,
        spec_parse(modules, data) is Err,
{
    reveal(spec_parse_interface_group);
}

/// The scan below an association stays inside the buffer.
pub proof fn lemma_scan_association_consumed<P: ExtraParser>(
    parser: &P,
    data: Seq<u8>,
    flag: Seq<char>,
)
    ensures
        spec_scan_association(parser, data, flag) matches Ok((_, _, len)) ==> len <= data.len(),
    decreases data.len(),
{
    match spec_association_part(parser, data, flag) {
        Ok(AssociationPartView::Group(group, len)) => {
            lemma_interface_group_grouped(parser, data, flag);
            lemma_scan_association_consumed(parser, spec_remaining(data, len), flag);
        },
        Ok(AssociationPartView::Extra(found, len)) => {
            lemma_scan_association_consumed(parser, spec_remaining(data, len), flag);
        },
        _ => {},
    }
}

} // verus!
