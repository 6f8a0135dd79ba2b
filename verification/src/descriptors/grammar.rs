//! What the bytes of a descriptor buffer mean: for each step of the walker
//! the mathematical function from the bytes at the cursor to the records
//! they hold and the number of bytes these occupy.
use vstd::prelude::*;

use super::desc_configuration::{
    Configuration, TopologyConfigDescView, CONFIGURATION_DESCRIPTOR_SIZE,
};
use super::desc_device::{Device, TopologyDeviceDescView, DEVICE_DESCRIPTOR_SIZE};
use super::desc_endpoint::{Endpoint, ENDPOINT_DESCRIPTOR_SIZE};
use super::desc_interface::{
    Interface, InterfaceAssociation, TopologyUSBFunctionView, USBInterfaceView,
    INTERFACE_ASSOCIATION_DESCRIPTOR_SIZE, INTERFACE_DESCRIPTOR_SIZE,
};
use super::laws::lemma_interface_group_grouped;
use super::USBStandardDescriptorTypes;
use crate::registry::spec_select;
use crate::{DescriptorDecoderModule, ExtraParser, ParserErrorView, TopologyDescriptor};

verus! {

/// What is left of `data` after its first `consumed` bytes; nothing where
/// `consumed` is more than `data` holds.
pub open spec fn spec_remaining(data: Seq<u8>, consumed: nat) -> Seq<u8> {
    if consumed <= data.len() {
        data.subrange(consumed as int, data.len() as int)
    } else {
        Seq::empty()
    }
}

/// Whether a record of `size` bytes with the declared length `declared` fits
/// into `available` bytes: the declared length covers the record and does
/// not pass the end of the buffer.
pub open spec fn spec_fits(size: nat, declared: u8, available: nat) -> bool {
    size <= declared && declared <= available
}

/// The device descriptor at the start of `data`: the header must name a
/// device and the record must fit.
pub open spec fn spec_peek_device_desc(data: Seq<u8>) -> Result<Device, ParserErrorView> {
    match USBStandardDescriptorTypes::spec_peek_type(data) {
        Ok((USBStandardDescriptorTypes::Device, len)) => if spec_fits(
            DEVICE_DESCRIPTOR_SIZE as nat,
            len,
            data.len(),
        ) {
            Ok(Device::spec_from_bytes(data))
        } else {
            Err(ParserErrorView::NotDeviceDescriptor)
        },
        _ => Err(ParserErrorView::NotDeviceDescriptor),
    }
}

/// The configuration descriptor at the start of `data`: the header must name
/// a configuration and the record must fit.
pub open spec fn spec_parse_configuration_header(data: Seq<u8>) -> Result<
    Configuration,
    ParserErrorView,
> {
    match USBStandardDescriptorTypes::spec_peek_type(data) {
        Ok((USBStandardDescriptorTypes::Configuration, len)) => if spec_fits(
            CONFIGURATION_DESCRIPTOR_SIZE as nat,
            len,
            data.len(),
        ) {
            Ok(Configuration::spec_from_bytes(data))
        } else {
            Err(ParserErrorView::NotConfigDescriptor)
        },
        _ => Err(ParserErrorView::NotConfigDescriptor),
    }
}

/// The endpoint descriptor at the start of `data` with the number of bytes
/// it occupies: the header must name an endpoint and the record must fit.
pub open spec fn spec_parse_endpoint(data: Seq<u8>) -> Result<(Endpoint, nat), ParserErrorView> {
    match USBStandardDescriptorTypes::spec_peek_type(data) {
        Ok((USBStandardDescriptorTypes::Endpoint, len)) => if spec_fits(
            ENDPOINT_DESCRIPTOR_SIZE as nat,
            len,
            data.len(),
        ) {
            Ok((Endpoint::spec_from_bytes(data), len as nat))
        } else {
            Err(ParserErrorView::NotEndpoint)
        },
        _ => Err(ParserErrorView::NotEndpoint),
    }
}

/// The interface descriptor at the start of `data`: the header must name an
/// interface and the record must fit.
pub open spec fn spec_parse_single_interface(data: Seq<u8>) -> Result<Interface, ParserErrorView> {
    match USBStandardDescriptorTypes::spec_peek_type(data) {
        Ok((USBStandardDescriptorTypes::Interface, len)) => if spec_fits(
            INTERFACE_DESCRIPTOR_SIZE as nat,
            len,
            data.len(),
        ) {
            Ok(Interface::spec_from_bytes(data))
        } else {
            Err(ParserErrorView::NotFunction)
        },
        _ => Err(ParserErrorView::NotFunction),
    }
}

/// The interface-association descriptor at the start of `data`: the header
/// must name an association and the record must fit.
pub open spec fn spec_parse_interface_association(data: Seq<u8>) -> Result<
    InterfaceAssociation,
    ParserErrorView,
> {
    match USBStandardDescriptorTypes::spec_peek_type(data) {
        Ok((USBStandardDescriptorTypes::InterfaceAssociation, len)) => if spec_fits(
            INTERFACE_ASSOCIATION_DESCRIPTOR_SIZE as nat,
            len,
            data.len(),
        ) {
            Ok(InterfaceAssociation::spec_from_bytes(data))
        } else {
            Err(ParserErrorView::NotFunction)
        },
        _ => Err(ParserErrorView::NotFunction),
    }
}

/// The extension descriptor that `parser` decodes at the start of `data`,
/// where the walker can take it: the length that the record reports must be
/// more than zero and must not pass the end of `data`.
pub open spec fn spec_accepted_extra<P: ExtraParser>(parser: &P, data: Seq<u8>) -> Option<
    P::Extra,
> {
    match parser.spec_try_parse(data) {
        Some(extra) => if 0 < extra.spec_actual_len() <= data.len() {
            Some(extra)
        } else {
            None
        },
        None => None,
    }
}

/// The endpoints and extension descriptors that follow an interface header,
/// with the number of bytes they occupy.
///
/// As long as an endpoint header stands at the cursor, the endpoint is
/// decoded; as long as the type byte is outside the catalog and `parser`
/// takes the record, the extension descriptor is appended. Anything else
/// ends the run.
pub open spec fn spec_parse_members<P: ExtraParser>(parser: &P, data: Seq<u8>) -> Result<
    (Seq<Endpoint>, Seq<P::Extra>, nat),
    ParserErrorView,
>
    decreases data.len(),
{
    match USBStandardDescriptorTypes::spec_peek_type(data) {
        Ok((USBStandardDescriptorTypes::Endpoint, _)) => match spec_parse_endpoint(data) {
            Ok((endpoint, len)) => match spec_parse_members(parser, spec_remaining(data, len)) {
                Ok((endpoints, extra, more)) => Ok((seq![endpoint] + endpoints, extra, len + more)),
                Err(e) => Err(e),
            },
            Err(e) => Err(e),
        },
        Err(ParserErrorView::PeekFailed(_)) => match spec_accepted_extra(parser, data) {
            Some(found) => match spec_parse_members(
                parser,
                spec_remaining(data, found.spec_actual_len()),
            ) {
                Ok((endpoints, extra, more)) => Ok(
                    (endpoints, seq![found] + extra, found.spec_actual_len() + more),
                ),
                Err(e) => Err(e),
            },
            None => Ok((Seq::empty(), Seq::empty(), 0)),
        },
        _ => Ok((Seq::empty(), Seq::empty(), 0)),
    }
}

/// One alternate: the interface header at the start of `data`, the members
/// that follow it, and the number of bytes of both. The alternate must be
/// followed by as many endpoints as its header declares.
pub open spec fn spec_parse_alternate<P: ExtraParser>(
    parser: &P,
    data: Seq<u8>,
    flag: Seq<char>,
) -> Result<(USBInterfaceView<P::Extra>, nat), ParserErrorView> {
    match spec_parse_single_interface(data) {
        Ok(interface) => match spec_parse_members(
            parser,
            spec_remaining(data, interface.len as nat),
        ) {
            Ok((endpoints, extra, more)) => if endpoints.len() == interface.num_endpoints {
                Ok(
                    (
                        USBInterfaceView { interface, endpoints, flag, extra },
                        interface.len as nat + more,
                    ),
                )
            } else {
                Err(ParserErrorView::NotEnoughEndpoints)
            },
            Err(e) => Err(e),
        },
        Err(e) => Err(e),
    }
}

/// The further alternates of the interface `number` that start at `data`,
/// with the number of bytes they occupy. The run ends where no interface
/// header stands at the cursor, or one of another interface number.
pub open spec fn spec_parse_more_alternates<P: ExtraParser>(
    parser: &P,
    data: Seq<u8>,
    flag: Seq<char>,
    number: u8,
) -> Result<(Seq<USBInterfaceView<P::Extra>>, nat), ParserErrorView>
    decreases data.len(),
{
    match USBStandardDescriptorTypes::spec_peek_type(data) {
        Ok((USBStandardDescriptorTypes::Interface, _)) => match spec_parse_single_interface(data) {
            Ok(interface) => if interface.interface_number == number {
                match spec_parse_alternate(parser, data, flag) {
                    Ok((alternate, len)) => match spec_parse_more_alternates(
                        parser,
                        spec_remaining(data, len),
                        flag,
                        number,
                    ) {
                        Ok((alternates, more)) => Ok((seq![alternate] + alternates, len + more)),
                        Err(e) => Err(e),
                    },
                    Err(e) => Err(e),
                }
            } else {
                Ok((Seq::empty(), 0))
            },
            Err(e) => Err(e),
        },
        _ => Ok((Seq::empty(), 0)),
    }
}

/// The group of alternates that starts at `data`: the alternate at the
/// cursor and every alternate of the same interface number that follows it
/// directly, with the number of bytes of the group.
#[verifier::opaque]
pub open spec fn spec_parse_interface_group<P: ExtraParser>(
    parser: &P,
    data: Seq<u8>,
    flag: Seq<char>,
) -> Result<(Seq<USBInterfaceView<P::Extra>>, nat), ParserErrorView> {
    match spec_parse_alternate(parser, data, flag) {
        Ok((first, len)) => match spec_parse_more_alternates(
            parser,
            spec_remaining(data, len),
            flag,
            first.interface.interface_number,
        ) {
            Ok((alternates, more)) => Ok((seq![first] + alternates, len + more)),
            Err(e) => Err(e),
        },
        Err(e) => Err(e),
    }
}

/// The group of alternates whose first interface header stands at the start
/// of `data`, for a caller whose cursor stands at `cursor`: the cursor must
/// stand directly behind that first header, at its declared length. A
/// cursor before that place would cut the header short, one behind it would
/// skip bytes unread; either is refused with `NotFunction`.
pub open spec fn spec_parse_interface_group_from<P: ExtraParser>(
    parser: &P,
    data: Seq<u8>,
    flag: Seq<char>,
    cursor: nat,
) -> Result<(Seq<USBInterfaceView<P::Extra>>, nat), ParserErrorView> {
    match spec_parse_single_interface(data) {
        Ok(interface) => if cursor == interface.len {
            spec_parse_interface_group(parser, data, flag)
        } else {
            Err(ParserErrorView::NotFunction)
        },
        Err(e) => Err(e),
    }
}

/// Whether the bytes at the start of `data` begin an interface header of
/// the interface `number`: the type byte names an interface and the byte
/// behind it is `number`.
pub open spec fn spec_starts_interface(data: Seq<u8>, number: u8) -> bool {
    data.len() >= 3 && data[1] == USBStandardDescriptorTypes::Interface.spec_to_u8() && data[2]
        == number
}

/// The interface number of the alternate that would start at `data`: that of
/// the interface header at the cursor, where one stands there and fits.
pub open spec fn spec_next_interface_number(data: Seq<u8>) -> Option<u8> {
    match spec_parse_single_interface(data) {
        Ok(interface) => Some(interface.interface_number),
        Err(_) => None,
    }
}

/// What the walker takes from `module` on `data`: the function that the
/// module decodes, where the length it reports moves the cursor forward
/// without passing the end of `data`. A length of zero or past the end is
/// answered with `NotFunction`.
pub open spec fn spec_checked_parse<M: DescriptorDecoderModule>(module: M, data: Seq<u8>) -> Result<
    (TopologyUSBFunctionView<M::Extra>, nat),
    ParserErrorView,
> {
    match module.spec_parse(data) {
        Ok((function, len)) => if 0 < len <= data.len() {
            Ok((function, len))
        } else {
            Err(ParserErrorView::NotFunction)
        },
        Err(e) => Err(e),
    }
}

/// The function that starts with the interface header at `data`: decoded by
/// the first module of `modules` that accepts the triple of the interface.
pub open spec fn spec_try_parse_function<M: DescriptorDecoderModule>(
    modules: Seq<M>,
    data: Seq<u8>,
) -> Result<(TopologyUSBFunctionView<M::Extra>, nat), ParserErrorView> {
    match spec_parse_single_interface(data) {
        Ok(interface) => match spec_select(
            modules,
            interface.interface_class,
            interface.interface_subclass,
            interface.interface_protocol,
        ) {
            Some(module) => spec_checked_parse(module, data),
            None => Err(ParserErrorView::NoSuitableModule),
        },
        Err(e) => Err(e),
    }
}

/// The function that starts with the association header at `data`: decoded
/// by the first module of `modules` that accepts the triple of the
/// association.
pub open spec fn spec_try_parse_function_interface_association<M: DescriptorDecoderModule>(
    modules: Seq<M>,
    data: Seq<u8>,
) -> Result<(TopologyUSBFunctionView<M::Extra>, nat), ParserErrorView> {
    match spec_parse_interface_association(data) {
        Ok(association) => match spec_select(
            modules,
            association.function_class,
            association.function_subclass,
            association.function_protocol,
        ) {
            Some(module) => spec_checked_parse(module, data),
            None => Err(ParserErrorView::NoSuitableModule),
        },
        Err(e) => Err(e),
    }
}

/// The function at the start of `data`, where an interface or association
/// header stands there; `None` where the run of functions ends.
pub open spec fn spec_next_function<M: DescriptorDecoderModule>(
    modules: Seq<M>,
    data: Seq<u8>,
) -> Option<Result<(TopologyUSBFunctionView<M::Extra>, nat), ParserErrorView>> {
    match USBStandardDescriptorTypes::spec_peek_type(data) {
        Ok((USBStandardDescriptorTypes::Interface, _)) => Some(
            spec_try_parse_function(modules, data),
        ),
        Ok((USBStandardDescriptorTypes::InterfaceAssociation, _)) => Some(
            spec_try_parse_function_interface_association(modules, data),
        ),
        _ => None,
    }
}

/// The functions that start at `data`, one after the other, with the number
/// of bytes they occupy. The run ends at the first record that is neither
/// an interface nor an association.
pub open spec fn spec_parse_functions<M: DescriptorDecoderModule>(
    modules: Seq<M>,
    data: Seq<u8>,
) -> Result<(Seq<TopologyUSBFunctionView<M::Extra>>, nat), ParserErrorView>
    decreases data.len(),
{
    match spec_next_function(modules, data) {
        Some(Ok((function, len))) => match spec_parse_functions(
            modules,
            spec_remaining(data, len),
        ) {
            Ok((functions, more)) => Ok((seq![function] + functions, len + more)),
            Err(e) => Err(e),
        },
        Some(Err(e)) => Err(e),
        None => Ok((Seq::empty(), 0)),
    }
}

/// The numbers of bytes that the functions starting at `data` occupy, one
/// number for each function, in order.
pub open spec fn spec_function_lengths<M: DescriptorDecoderModule>(
    modules: Seq<M>,
    data: Seq<u8>,
) -> Seq<nat>
    decreases data.len(),
{
    match spec_next_function(modules, data) {
        Some(Ok((function, len))) => seq![len] + spec_function_lengths(
            modules,
            spec_remaining(data, len),
        ),
        _ => Seq::empty(),
    }
}

/// The sum of `lengths`.
pub open spec fn spec_sum(lengths: Seq<nat>) -> nat
    decreases lengths.len(),
{
    if lengths.len() == 0 {
        0
    } else {
        lengths.first() + spec_sum(lengths.drop_first())
    }
}

/// The configuration at the start of `data` with the number of bytes it
/// occupies: the configuration header, then functions up to the total
/// length that the header declares. Where the run of functions ends before
/// or behind that boundary, the configuration is refused with
/// `NotFunction`.
pub open spec fn spec_parse_config<M: DescriptorDecoderModule>(
    modules: Seq<M>,
    data: Seq<u8>,
) -> Result<(TopologyConfigDescView<M::Extra>, nat), ParserErrorView> {
    match spec_parse_configuration_header(data) {
        Ok(desc) => match spec_parse_functions(modules, spec_remaining(data, desc.length as nat)) {
            Ok((functions, len)) => if desc.length + len == desc.total_length {
                Ok((TopologyConfigDescView { desc, functions }, desc.length as nat + len))
            } else {
                Err(ParserErrorView::NotFunction)
            },
            Err(e) => Err(e),
        },
        Err(e) => Err(e),
    }
}

/// The `count` configurations that start at `data`, each directly behind
/// the one before it.
pub open spec fn spec_parse_configs<M: DescriptorDecoderModule>(
    modules: Seq<M>,
    data: Seq<u8>,
    count: nat,
) -> Result<Seq<TopologyConfigDescView<M::Extra>>, ParserErrorView>
    decreases count,
{
    if count == 0 {
        Ok(Seq::empty())
    } else {
        match spec_parse_config(modules, data) {
            Ok((config, len)) => match spec_parse_configs(
                modules,
                spec_remaining(data, len),
                (count - 1) as nat,
            ) {
                Ok(configs) => Ok(seq![config] + configs),
                Err(e) => Err(e),
            },
            Err(e) => Err(e),
        }
    }
}

/// The device that `data` describes: the device descriptor at its start,
/// then as many configurations as the descriptor declares.
pub open spec fn spec_parse<M: DescriptorDecoderModule>(modules: Seq<M>, data: Seq<u8>) -> Result<
    TopologyDeviceDescView<M::Extra>,
    ParserErrorView,
> {
    match spec_peek_device_desc(data) {
        Ok(desc) => match spec_parse_configs(
            modules,
            spec_remaining(data, desc.len as nat),
            desc.num_configurations as nat,
        ) {
            Ok(configs) => Ok(TopologyDeviceDescView { desc, configs }),
            Err(e) => Err(e),
        },
        Err(e) => Err(e),
    }
}

/// The text that says which record of the catalog was met below an
/// association where only interfaces may stand.
pub open spec fn spec_unsupported_in_association(met: USBStandardDescriptorTypes) -> Seq<char> {
    met.spec_name() + " in interface association"@
}

/// One part of what stands below an association header, with the number of
/// bytes it occupies: a group of alternates, an extension descriptor of the
/// association, or the end of the scan.
pub enum AssociationPartView<E> {
    Group(Seq<USBInterfaceView<E>>, nat),
    Extra(E, nat),
    End,
}

/// The part that stands at the start of `data` below an association header.
///
/// An interface header starts a group. A record whose type byte is outside
/// the catalog must be taken by `parser` and is then an extension
/// descriptor of the association; where `parser` declines, the scan fails
/// with `PeekFailed`. The end of the stream ends the scan. Any other record
/// of the catalog, such as another association, is refused.
pub open spec fn spec_association_part<P: ExtraParser>(
    parser: &P,
    data: Seq<u8>,
    flag: Seq<char>,
) -> Result<AssociationPartView<P::Extra>, ParserErrorView> {
    match USBStandardDescriptorTypes::spec_peek_type(data) {
        Ok((met, _)) => if met == USBStandardDescriptorTypes::Interface {
            match spec_parse_interface_group(parser, data, flag) {
                Ok((group, len)) => Ok(AssociationPartView::Group(group, len)),
                Err(e) => Err(e),
            }
        } else {
            Err(
                ParserErrorView::NotSupportedDescriptorCombination(
                    spec_unsupported_in_association(met),
                ),
            )
        },
        Err(ParserErrorView::PeekFailed(code)) => match spec_accepted_extra(parser, data) {
            Some(found) => Ok(AssociationPartView::Extra(found, found.spec_actual_len())),
            None => Err(ParserErrorView::PeekFailed(code)),
        },
        Err(_) => Ok(AssociationPartView::End),
    }
}

/// What stands below an association header, from `data` on: the groups of
/// alternates and the extension descriptors of the association, each in
/// the order of the buffer, with the number of bytes of both. The scan goes
/// from part to part until the stream ends, and fails where a part fails.
pub open spec fn spec_scan_association<P: ExtraParser>(
    parser: &P,
    data: Seq<u8>,
    flag: Seq<char>,
) -> Result<(Seq<Seq<USBInterfaceView<P::Extra>>>, Seq<P::Extra>, nat), ParserErrorView>
    decreases data.len(),
    via scan_association_decreases::<P>
{
    match spec_association_part(parser, data, flag) {
        Ok(AssociationPartView::Group(group, len)) => match spec_scan_association(
            parser,
            spec_remaining(data, len),
            flag,
        ) {
            Ok((groups, extra, more)) => Ok((seq![group] + groups, extra, len + more)),
            Err(e) => Err(e),
        },
        Ok(AssociationPartView::Extra(found, len)) => match spec_scan_association(
            parser,
            spec_remaining(data, len),
            flag,
        ) {
            Ok((groups, extra, more)) => Ok((groups, seq![found] + extra, len + more)),
            Err(e) => Err(e),
        },
        Ok(AssociationPartView::End) => Ok((Seq::empty(), Seq::empty(), 0)),
        Err(e) => Err(e),
    }
}

/// Whether the scan below an association, started at `data`, comes to stand
/// behind the first `consumed` bytes: part after part is decoded, and the
/// parts taken so far occupy exactly `consumed` bytes.
pub open spec fn spec_scan_reaches<P: ExtraParser>(
    parser: &P,
    data: Seq<u8>,
    flag: Seq<char>,
    consumed: nat,
) -> bool
    decreases consumed,
{
    consumed == 0 || match spec_association_part(parser, data, flag) {
        Ok(AssociationPartView::Group(_, len)) => 0 < len <= consumed && spec_scan_reaches(
            parser,
            spec_remaining(data, len),
            flag,
            (consumed - len) as nat,
        ),
        Ok(AssociationPartView::Extra(_, len)) => 0 < len <= consumed && spec_scan_reaches(
            parser,
            spec_remaining(data, len),
            flag,
            (consumed - len) as nat,
        ),
        _ => false,
    }
}

/// Every part of an association occupies at least one byte, so the scan
/// comes to an end.
#[via_fn]
proof fn scan_association_decreases<P: ExtraParser>(parser: &P, data: Seq<u8>, flag: Seq<char>) {
    lemma_interface_group_grouped(parser, data, flag);
}

/// The interface association that starts at `data`, with the number of
/// bytes it occupies: the association header, then all that stands below it
/// up to the end of the stream. Where the peek at the start fails, its
/// error is handed on; a record of the catalog that is no association, or
/// an association header that does not fit, is refused with `NotFunction`.
pub open spec fn spec_parse_association_function<P: ExtraParser>(
    parser: &P,
    data: Seq<u8>,
    flag: Seq<char>,
) -> Result<(TopologyUSBFunctionView<P::Extra>, nat), ParserErrorView> {
    match USBStandardDescriptorTypes::spec_peek_type(data) {
        Ok(_) => match spec_parse_interface_association(data) {
            Ok(header) => match spec_scan_association(
                parser,
                spec_remaining(data, header.len as nat),
                flag,
            ) {
                Ok((groups, extra, len)) => Ok(
                    (
                        TopologyUSBFunctionView::InterfaceAssociation(header, groups, extra),
                        header.len as nat + len,
                    ),
                ),
                Err(e) => Err(e),
            },
            Err(e) => Err(e),
        },
        Err(e) => Err(e),
    }
}

} // verus!
