//! The descriptor walker: cursor bookkeeping, the bounds-checked decoding of
//! single records, the grouping of interface alternates, the scan below an
//! interface association and the traversal of configurations and devices.
use vstd::prelude::*;
use vstd::slice::slice_subrange;
use vstd::string::StringExecFns;

use super::desc_configuration::{
    functions_view, Configuration, TopologyConfigDesc, TopologyConfigDescView,
    CONFIGURATION_DESCRIPTOR_SIZE,
};
use super::desc_device::{
    configs_view, Device, TopologyDeviceDesc, TopologyDeviceDescView, DEVICE_DESCRIPTOR_SIZE,
};
use super::desc_endpoint::{Endpoint, ENDPOINT_DESCRIPTOR_SIZE};
use super::desc_interface::{
    group_view, groups_view, spec_group_len, Interface, InterfaceAssociation,
    TopologyUSBFunction, TopologyUSBFunctionView, USBInterface, USBInterfaceView,
    INTERFACE_ASSOCIATION_DESCRIPTOR_SIZE, INTERFACE_DESCRIPTOR_SIZE,
};
use super::grammar::{
    spec_accepted_extra, spec_association_part, spec_checked_parse, spec_fits,
    spec_function_lengths, spec_next_interface_number, spec_parse, spec_parse_alternate,
    spec_parse_association_function, spec_parse_config, spec_parse_configs,
    spec_parse_configuration_header, spec_parse_endpoint, spec_parse_functions,
    spec_parse_interface_association, spec_parse_interface_group,
    spec_parse_interface_group_from, spec_parse_members,
    spec_parse_more_alternates, spec_parse_single_interface, spec_peek_device_desc,
    spec_remaining, spec_scan_association, spec_starts_interface, spec_sum,
    spec_try_parse_function,
    spec_try_parse_function_interface_association, spec_unsupported_in_association,
    AssociationPartView,
};
use super::laws::{
    lemma_config_total_length, lemma_group_from_declared_length, lemma_interface_group_grouped,
    lemma_remaining_twice,
};
use super::USBStandardDescriptorTypes;
use crate::registry::select;
use crate::{
    DescriptorDecoder, DescriptorDecoderModule, ExtraParser, Offset, ParserError,
    ParserErrorView, TopologyDescriptor,
};

verus! {

/// The part of `input` from `offset` on; empty where `offset` lies behind
/// the end.
pub fn remaining<'a>(input: &'a [u8], offset: Offset) -> (rest: &'a [u8])
    ensures
        rest@ == spec_remaining(input@, offset as nat),
        offset <= input@.len() ==> rest@.len() == input@.len() - offset,
        offset > input@.len() ==> rest@.len() == 0,
{
    if offset <= input.len() {
        slice_subrange(input, offset, input.len())
    } else {
        slice_subrange(input, 0, 0)
    }
}

/// Whether a record of `size` bytes with the declared length `declared`
/// fits into `available` bytes.
fn fits(size: usize, declared: u8, available: usize) -> (fit: bool)
    ensures
        fit == spec_fits(size as nat, declared, available as nat),
{
    size <= declared as usize && declared as usize <= available
}

/// Decodes the device descriptor at the start of `input`.
///
/// Fails with `NotDeviceDescriptor` unless the header names a device, the
/// declared length covers the 18 bytes of the record and the buffer holds as
/// many bytes as are declared.
pub fn peek_device_desc(input: &[u8]) -> (peeked: Result<Device, ParserError>)
    ensures
        match peeked {
            Ok(device) => spec_peek_device_desc(input@) == Ok::<_, ParserErrorView>(device),
            Err(e) => spec_peek_device_desc(input@) == Err::<Device, _>(e@),
        },
        input@.len() >= 2 && input@[0] > input@.len() ==> peeked is Err,
{
    match USBStandardDescriptorTypes::peek_type(input) {
        Ok((USBStandardDescriptorTypes::Device, len)) => {
            if fits(DEVICE_DESCRIPTOR_SIZE, len, input.len()) {
                match Device::from_bytes(input) {
                    Some(device) => Ok(device),
                    None => Err(ParserError::NotDeviceDescriptor),
                }
            } else {
                Err(ParserError::NotDeviceDescriptor)
            }
        },
        _ => Err(ParserError::NotDeviceDescriptor),
    }
}

/// Decodes the configuration descriptor at the start of `input`.
///
/// Fails with `NotConfigDescriptor` unless the header names a configuration,
/// the declared length covers the 9 bytes of the record and the buffer holds
/// as many bytes as are declared.
pub fn parse_configuration_header(input: &[u8]) -> (parsed: Result<Configuration, ParserError>)
    ensures
        match parsed {
            Ok(config) => spec_parse_configuration_header(input@) == Ok::<_, ParserErrorView>(
                config,
            ),
            Err(e) => spec_parse_configuration_header(input@) == Err::<Configuration, _>(e@),
        },
        input@.len() >= 2 && input@[0] > input@.len() ==> parsed is Err,
{
    match USBStandardDescriptorTypes::peek_type(input) {
        Ok((USBStandardDescriptorTypes::Configuration, len)) => {
            if fits(CONFIGURATION_DESCRIPTOR_SIZE, len, input.len()) {
                match Configuration::from_bytes(input) {
                    Some(config) => Ok(config),
                    None => Err(ParserError::NotConfigDescriptor),
                }
            } else {
                Err(ParserError::NotConfigDescriptor)
            }
        },
        _ => Err(ParserError::NotConfigDescriptor),
    }
}

/// Decodes the endpoint descriptor at the start of `input` and says how many
/// bytes it occupies: its declared length.
///
/// Fails with `NotEndpoint` unless the header names an endpoint, the declared
/// length covers the 7 bytes of the record and the buffer holds as many bytes
/// as are declared.
pub fn parse_endpoint(input: &[u8]) -> (parsed: Result<(Endpoint, Offset), ParserError>)
    ensures
        match parsed {
            Ok((endpoint, len)) => spec_parse_endpoint(input@) == Ok::<_, ParserErrorView>(
                (endpoint, len as nat),
            ),
            Err(e) => spec_parse_endpoint(input@) == Err::<(Endpoint, nat), _>(e@),
        },
        input@.len() >= 2 && input@[0] > input@.len() ==> parsed is Err,
{
    match USBStandardDescriptorTypes::peek_type(input) {
        Ok((USBStandardDescriptorTypes::Endpoint, len)) => {
            if fits(ENDPOINT_DESCRIPTOR_SIZE, len, input.len()) {
                match Endpoint::from_bytes(input) {
                    Some(endpoint) => Ok((endpoint, len as usize)),
                    None => Err(ParserError::NotEndpoint),
                }
            } else {
                Err(ParserError::NotEndpoint)
            }
        },
        _ => Err(ParserError::NotEndpoint),
    }
}

/// Decodes the interface descriptor at the start of `input`.
///
/// Fails with `NotFunction` unless the header names an interface, the
/// declared length covers the 9 bytes of the record and the buffer holds as
/// many bytes as are declared.
pub fn parse_single_interface(input: &[u8]) -> (parsed: Result<Interface, ParserError>)
    ensures
        match parsed {
            Ok(interface) => spec_parse_single_interface(input@) == Ok::<_, ParserErrorView>(
                interface,
            ),
            Err(e) => spec_parse_single_interface(input@) == Err::<Interface, _>(e@),
        },
        input@.len() >= 2 && input@[0] > input@.len() ==> parsed is Err,
{
    match USBStandardDescriptorTypes::peek_type(input) {
        Ok((USBStandardDescriptorTypes::Interface, len)) => {
            if fits(INTERFACE_DESCRIPTOR_SIZE, len, input.len()) {
                match Interface::from_bytes(input) {
                    Some(interface) => Ok(interface),
                    None => Err(ParserError::NotFunction),
                }
            } else {
                Err(ParserError::NotFunction)
            }
        },
        _ => Err(ParserError::NotFunction),
    }
}

/// Decodes the interface-association descriptor at the start of `input`.
///
/// Fails with `NotFunction` unless the header names an association, the
/// declared length covers the 8 bytes of the record and the buffer holds as
/// many bytes as are declared.
pub fn parse_interface_association(input: &[u8]) -> (parsed: Result<
    InterfaceAssociation,
    ParserError,
>)
    ensures
        match parsed {
            Ok(association) => spec_parse_interface_association(input@) == Ok::<
                _,
                ParserErrorView,
            >(association),
            Err(e) => spec_parse_interface_association(input@) == Err::<InterfaceAssociation, _>(
                e@,
            ),
        },
        input@.len() >= 2 && input@[0] > input@.len() ==> parsed is Err,
{
    match USBStandardDescriptorTypes::peek_type(input) {
        Ok((USBStandardDescriptorTypes::InterfaceAssociation, len)) => {
            if fits(INTERFACE_ASSOCIATION_DESCRIPTOR_SIZE, len, input.len()) {
                match InterfaceAssociation::from_bytes(input) {
                    Some(association) => Ok(association),
                    None => Err(ParserError::NotFunction),
                }
            } else {
                Err(ParserError::NotFunction)
            }
        },
        _ => Err(ParserError::NotFunction),
    }
}

/// Asks `parser` for the extension descriptor at the start of `data` and
/// takes it only where the length it reports moves the cursor forward
/// without passing the end of `data`.
fn accepted_extra<P: ExtraParser>(parser: &P, data: &[u8]) -> (taken: Option<(P::Extra, Offset)>)
    ensures
        match taken {
            Some((extra, len)) => spec_accepted_extra(parser, data@) == Some(extra)
                && len == extra.spec_actual_len(),
            None => spec_accepted_extra(parser, data@) is None,
        },
{
    match parser.try_parse(data) {
        Some(extra) => {
            let len = extra.actual_len();
            if 0 < len && len <= data.len() {
                Some((extra, len))
            } else {
                None
            }
        },
        None => None,
    }
}

/// Decodes the endpoints and extension descriptors that follow an interface
/// header, from `start` on, and returns them with the cursor behind them.
fn parse_members<P: ExtraParser>(input: &[u8], parser: &P, start: Offset) -> (parsed: Result<
    (Vec<Endpoint>, Vec<P::Extra>, Offset),
    ParserError,
>)
    requires
        start <= input@.len(),
    ensures
        match parsed {
            Ok((endpoints, extra, end)) => start <= end <= input@.len() && spec_parse_members(
                parser,
                spec_remaining(input@, start as nat),
            ) == Ok::<_, ParserErrorView>((endpoints@, extra@, (end - start) as nat)),
            Err(e) => spec_parse_members(parser, spec_remaining(input@, start as nat)) == Err::<
                (Seq<Endpoint>, Seq<P::Extra>, nat),
                _,
            >(e@),
        },
{
    let mut endpoints: Vec<Endpoint> = Vec::new();
    let mut extra: Vec<P::Extra> = Vec::new();
    let mut cursor: Offset = start;
    let total = input.len();
    loop
        invariant
            total == input@.len(),
            start <= cursor <= input@.len(),
            match spec_parse_members(parser, spec_remaining(input@, cursor as nat)) {
                Ok((more_endpoints, more_extra, more)) => spec_parse_members(
                    parser,
                    spec_remaining(input@, start as nat),
                ) == Ok::<_, ParserErrorView>(
                    (endpoints@ + more_endpoints, extra@ + more_extra, (cursor - start + more) as nat),
                ),
                Err(e) => spec_parse_members(parser, spec_remaining(input@, start as nat)) == Err::<
                    (Seq<Endpoint>, Seq<P::Extra>, nat),
                    _,
                >(e),
            },
        decreases input@.len() - cursor,
    {
        let data = remaining(input, cursor);
        let ghost before_endpoints = endpoints@;
        let ghost before_extra = extra@;
        match USBStandardDescriptorTypes::peek_type(data) {
            Ok((USBStandardDescriptorTypes::Endpoint, _)) => {
                match parse_endpoint(data) {
                    Ok((endpoint, len)) => {
                        proof {
                            lemma_remaining_twice(input@, cursor as nat, len as nat);
                            let rest = spec_parse_members(
                                parser,
                                spec_remaining(input@, (cursor + len) as nat),
                            );
                            if let Ok((more_endpoints, more_extra, more)) = rest {
                                assert(before_endpoints + (seq![endpoint] + more_endpoints)
                                    =~= before_endpoints.push(endpoint) + more_endpoints);
                            }
                        }
                        endpoints.push(endpoint);
                        cursor = cursor + len;
                    },
                    Err(e) => {
                        return Err(e);
                    },
                }
            },
            Err(ParserError::PeekFailed(_)) => {
                match accepted_extra(parser, data) {
                    Some((found, len)) => {
                        proof {
                            lemma_remaining_twice(input@, cursor as nat, len as nat);
                            let rest = spec_parse_members(
                                parser,
                                spec_remaining(input@, (cursor + len) as nat),
                            );
                            if let Ok((more_endpoints, more_extra, more)) = rest {
                                assert(before_extra + (seq![found] + more_extra)
                                    =~= before_extra.push(found) + more_extra);
                            }
                        }
                        extra.push(found);
                        cursor = cursor + len;
                    },
                    None => {
                        assert(endpoints@ + Seq::<Endpoint>::empty() =~= endpoints@);
                        assert(extra@ + Seq::<P::Extra>::empty() =~= extra@);
                        return Ok((endpoints, extra, cursor));
                    },
                }
            },
            _ => {
                assert(endpoints@ + Seq::<Endpoint>::empty() =~= endpoints@);
                assert(extra@ + Seq::<P::Extra>::empty() =~= extra@);
                return Ok((endpoints, extra, cursor));
            },
        }
    }
}

/// Decodes one alternate from `start` on: the interface header, then its
/// members. Returns it with the cursor behind it.
fn parse_alternate<P: ExtraParser>(input: &[u8], parser: &P, start: Offset, flag: &String) -> (parsed:
    Result<(USBInterface<P::Extra>, Offset), ParserError>)
    ensures
        match parsed {
            Ok((alternate, end)) => start <= end <= input@.len() && spec_parse_alternate(
                parser,
                spec_remaining(input@, start as nat),
                flag@,
            ) == Ok::<_, ParserErrorView>((alternate@, (end - start) as nat)),
            Err(e) => spec_parse_alternate(parser, spec_remaining(input@, start as nat), flag@)
                == Err::<(USBInterfaceView<P::Extra>, nat), _>(e@),
        },
{
    let data = remaining(input, start);
    let interface = match parse_single_interface(data) {
        Ok(interface) => interface,
        Err(e) => {
            return Err(e);
        },
    };
    let total = input.len();
    let members_start = start + interface.len as usize;
    proof {
        lemma_remaining_twice(input@, start as nat, interface.len as nat);
    }
    match parse_members(input, parser, members_start) {
        Ok((endpoints, extra, end)) => {
            if endpoints.len() == interface.num_endpoints as usize {
                Ok((USBInterface { interface, endpoints, flag: flag.clone(), extra }, end))
            } else {
                Err(ParserError::NotEnoughEndpoints)
            }
        },
        Err(e) => Err(e),
    }
}

/// Decodes the group of alternates whose first interface header stands at
/// the start of `input`, and returns it with the number of bytes it
/// occupies.
fn parse_group<P: ExtraParser>(input: &[u8], parser: &P, flag: &String) -> (parsed: Result<
    (Vec<USBInterface<P::Extra>>, Offset),
    ParserError,
>)
    ensures
        match parsed {
            Ok((group, end)) => end <= input@.len() && spec_parse_interface_group(
                parser,
                input@,
                flag@,
            ) == Ok::<_, ParserErrorView>((group_view(group@), end as nat)),
            Err(e) => spec_parse_interface_group(parser, input@, flag@) == Err::<
                (Seq<USBInterfaceView<P::Extra>>, nat),
                _,
            >(e@),
        },
{
    reveal(spec_parse_interface_group);
    let total = input.len();
    proof {
        assert(spec_remaining(input@, 0) =~= input@);
    }
    let (first, first_end) = match parse_alternate(input, parser, 0, flag) {
        Ok(parsed_first) => parsed_first,
        Err(e) => {
            return Err(e);
        },
    };
    let number = first.interface.interface_number;
    let mut cursor: Offset = first_end;
    let mut group: Vec<USBInterface<P::Extra>> = Vec::new();
    proof {
        assert(group_view(group@.push(first)) =~= seq![first@]);
    }
    group.push(first);
    loop
        invariant
            total == input@.len(),
            cursor <= input@.len(),
            match spec_parse_more_alternates(
                parser,
                spec_remaining(input@, cursor as nat),
                flag@,
                number,
            ) {
                Ok((alternates, more)) => spec_parse_interface_group(parser, input@, flag@) == Ok::<
                    _,
                    ParserErrorView,
                >((group_view(group@) + alternates, (cursor + more) as nat)),
                Err(e) => spec_parse_interface_group(parser, input@, flag@) == Err::<
                    (Seq<USBInterfaceView<P::Extra>>, nat),
                    _,
                >(e),
            },
        decreases input@.len() - cursor,
    {
        let data = remaining(input, cursor);
        let ghost before = group@;
        let same_interface = match USBStandardDescriptorTypes::peek_type(data) {
            Ok((USBStandardDescriptorTypes::Interface, _)) => {
                match parse_single_interface(data) {
                    Ok(interface) => interface.interface_number == number,
                    Err(e) => {
                        return Err(e);
                    },
                }
            },
            _ => false,
        };
        if !same_interface {
            proof {
                assert(group_view(group@) + Seq::<USBInterfaceView<P::Extra>>::empty()
                    =~= group_view(group@));
            }
            return Ok((group, cursor));
        }
        match parse_alternate(input, parser, cursor, flag) {
            Ok((alternate, end)) => {
                proof {
                    lemma_remaining_twice(input@, cursor as nat, (end - cursor) as nat);
                    let rest = spec_parse_more_alternates(
                        parser,
                        spec_remaining(input@, end as nat),
                        flag@,
                        number,
                    );
                    if let Ok((alternates, more)) = rest {
                        assert(group_view(before) + (seq![alternate@] + alternates) =~= group_view(
                            before.push(alternate),
                        ) + alternates);
                    }
                }
                group.push(alternate);
                cursor = end;
            },
            Err(e) => {
                return Err(e);
            },
        }
    }
}

/// Decodes the group of alternates that starts with the interface header
/// at the start of `input`: that alternate, and every alternate of the same
/// interface number that follows directly.
///
/// `input` stands at the interface header, and on entry `*offset` is the
/// cursor directly behind that header: its declared length. On success
/// `*offset` is the cursor behind the group, counted from the start of
/// `input`. On failure it is left as it was.
///
/// Each alternate is an interface header, then its endpoints and the
/// extension descriptors that `extra_parser` takes, in any order. An
/// extension descriptor is taken only where its type byte is outside the
/// standard catalog and the length it reports is more than zero and stays
/// inside the buffer; where `extra_parser` declines, the run of members ends
/// there. `flag` names the module on whose behalf the group is decoded and
/// is stored in every alternate.
///
/// The call fails
/// - with `NotFunction`, where no interface header that fits the buffer
///   stands at the start of `input`, where `*offset` on entry is not the
///   declared length of that header, or where a later interface header
///   does not fit;
/// - with `NotEndpoint`, where an endpoint header does not fit the buffer;
/// - with `NotEnoughEndpoints`, where an alternate is followed by a number
///   of endpoints other than the one its header declares.
pub fn parse_interface_group<P: ExtraParser>(
    input: &[u8],
    extra_parser: &P,
    offset: &mut Offset,
    flag: String,
) -> (parsed: Result<Vec<USBInterface<P::Extra>>, ParserError>)
    ensures
        match parsed {
            Ok(group) => spec_parse_interface_group_from(
                extra_parser,
                input@,
                flag@,
                *old(offset) as nat,
            ) == Ok::<_, ParserErrorView>((group_view(group@), *final(offset) as nat)),
            Err(e) => *final(offset) == *old(offset) && spec_parse_interface_group_from(
                extra_parser,
                input@,
                flag@,
                *old(offset) as nat,
            ) == Err::<(Seq<USBInterfaceView<P::Extra>>, nat), _>(e@),
        },
        parsed matches Ok(group) ==> {
            &&& spec_parse_interface_group(extra_parser, input@, flag@) == Ok::<
                _,
                ParserErrorView,
            >((group_view(group@), *final(offset) as nat))
            &&& *old(offset) == input@[0]
            &&& *old(offset) <= *final(offset) <= input@.len()
            &&& group@.len() >= 1
            &&& forall|i: int|
                0 <= i < group@.len() ==> (#[trigger] group@[i]).interface.interface_number
                    == input@[2] && group@[i].endpoints@.len()
                    == group@[i].interface.num_endpoints && group@[i].flag@ == flag@
            &&& *final(offset) == spec_group_len(group_view(group@))
            &&& spec_next_interface_number(spec_remaining(input@, *final(offset) as nat)) != Some(
                input@[2],
            )
            &&& !spec_starts_interface(spec_remaining(input@, *final(offset) as nat), input@[2])
        },
        spec_parse_single_interface(input@) is Err ==> parsed is Err,
        spec_parse_single_interface(input@) matches Ok(interface) && *old(offset) != interface.len
            ==> parsed matches Err(ParserError::NotFunction),
        input@.len() >= 2 && input@[0] > input@.len() ==> parsed is Err,
{
    let header = match parse_single_interface(input) {
        Ok(header) => header,
        Err(e) => {
            return Err(e);
        },
    };
    if *offset != header.len as usize {
        return Err(ParserError::NotFunction);
    }
    match parse_group(input, extra_parser, &flag) {
        Ok((group, end)) => {
            proof {
                lemma_interface_group_grouped(extra_parser, input@, flag@);
                assert forall|i: int| 0 <= i < group@.len() implies (#[trigger] group@[i])@
                    == group_view(group@)[i] by {}
            }
            *offset = end;
            Ok(group)
        },
        Err(e) => Err(e),
    }
}

impl<M: DescriptorDecoderModule> DescriptorDecoder<M> {
    /// Hands the bytes from a function's header on to `module` and takes its
    /// answer only where the length it reports moves the cursor forward
    /// without passing the end of `input`.
    fn checked_parse(module: &M, input: &[u8]) -> (parsed: Result<
        (TopologyUSBFunction<M::Extra>, Offset),
        ParserError,
    >)
        ensures
            match parsed {
                Ok((function, len)) => spec_checked_parse(*module, input@) == Ok::<
                    _,
                    ParserErrorView,
                >((function@, len as nat)),
                Err(e) => spec_checked_parse(*module, input@) == Err::<
                    (TopologyUSBFunctionView<M::Extra>, nat),
                    _,
                >(e@),
            },
    {
        match module.parse(input) {
            Ok((function, len)) => {
                if 0 < len && len <= input.len() {
                    Ok((function, len))
                } else {
                    Err(ParserError::NotFunction)
                }
            },
            Err(e) => Err(e),
        }
    }

    /// Decodes the function that starts with the interface header at the
    /// start of `input`, through the first registered module, in the order
    /// of the names, that accepts the triple of the interface.
    ///
    /// Fails with `NotFunction` where no interface header that fits the
    /// buffer stands there, with `NoSuitableModule` where no module accepts
    /// the triple, with the module's own error where the module fails, and
    /// with `NotFunction` where the module reports a length of zero or past
    /// the end of `input`.
    pub fn try_parse_function(&self, input: &[u8]) -> (parsed: Result<
        (TopologyUSBFunction<M::Extra>, Offset),
        ParserError,
    >)
        ensures
            match parsed {
                Ok((function, len)) => spec_try_parse_function(self@, input@) == Ok::<
                    _,
                    ParserErrorView,
                >((function@, len as nat)) && 0 < len <= input@.len(),
                Err(e) => spec_try_parse_function(self@, input@) == Err::<
                    (TopologyUSBFunctionView<M::Extra>, nat),
                    _,
                >(e@),
            },
    {
        let interface = match parse_single_interface(input) {
            Ok(interface) => interface,
            Err(e) => {
                return Err(e);
            },
        };
        match select(
            self.modules(),
            interface.interface_class,
            interface.interface_subclass,
            interface.interface_protocol,
        ) {
            Some(module) => Self::checked_parse(module, input),
            None => Err(ParserError::NoSuitableModule),
        }
    }

    /// Decodes the function that starts with the association header at the
    /// start of `input`, through the first registered module, in the order
    /// of the names, that accepts the triple of the association.
    ///
    /// Fails with `NotFunction` where no association header that fits the
    /// buffer stands there, with `NoSuitableModule` where no module accepts
    /// the triple, with the module's own error where the module fails, and
    /// with `NotFunction` where the module reports a length of zero or past
    /// the end of `input`.
    pub fn try_parse_function_interface_association(&self, input: &[u8]) -> (parsed: Result<
        (TopologyUSBFunction<M::Extra>, Offset),
        ParserError,
    >)
        ensures
            match parsed {
                Ok((function, len)) => spec_try_parse_function_interface_association(
                    self@,
                    input@,
                ) == Ok::<_, ParserErrorView>((function@, len as nat)) && 0 < len <= input@.len(),
                Err(e) => spec_try_parse_function_interface_association(self@, input@) == Err::<
                    (TopologyUSBFunctionView<M::Extra>, nat),
                    _,
                >(e@),
            },
    {
        let association = match parse_interface_association(input) {
            Ok(association) => association,
            Err(e) => {
                return Err(e);
            },
        };
        match select(
            self.modules(),
            association.function_class,
            association.function_subclass,
            association.function_protocol,
        ) {
            Some(module) => Self::checked_parse(module, input),
            None => Err(ParserError::NoSuitableModule),
        }
    }

    /// Decodes the configuration at the start of `input` and says how many
    /// bytes it occupies.
    ///
    /// After the configuration header, every interface header starts a
    /// function and every association header starts a function; each is
    /// decoded by the module that accepts its triple. The first record that
    /// is neither ends the run. The configuration is complete where the
    /// cursor then stands at the total length that the header declares.
    ///
    /// Fails with `NotConfigDescriptor` where no configuration header that
    /// fits the buffer stands at the start; with the error of the function
    /// that fails; and with `NotFunction` where the run of functions ends
    /// before or behind the declared total length.
    pub fn parse_config(&self, input: &[u8]) -> (parsed: Result<
        (TopologyConfigDesc<M::Extra>, Offset),
        ParserError,
    >)
        ensures
            match parsed {
                Ok((config, end)) => spec_parse_config(self@, input@) == Ok::<_, ParserErrorView>(
                    (config@, end as nat),
                ),
                Err(e) => spec_parse_config(self@, input@) == Err::<
                    (TopologyConfigDescView<M::Extra>, nat),
                    _,
                >(e@),
            },
            parsed matches Ok((config, end)) ==> {
                &&& end == config.desc.total_length
                &&& end <= input@.len()
                &&& spec_sum(
                    spec_function_lengths(
                        self@,
                        spec_remaining(input@, config.desc.length as nat),
                    ),
                ) == config.desc.total_length - config.desc.length
            },
            input@.len() >= 2 && input@[0] > input@.len() ==> parsed is Err,
    {
        let desc = match parse_configuration_header(input) {
            Ok(desc) => desc,
            Err(e) => {
                return Err(e);
            },
        };
        let total = input.len();
        let start: Offset = desc.length as usize;
        let mut functions: Vec<TopologyUSBFunction<M::Extra>> = Vec::new();
        let mut offset: Offset = start;
        proof {
            assert(functions_view(functions@) =~= Seq::empty());
        }
        loop
            invariant
                total == input@.len(),
                start == desc.length,
                spec_parse_configuration_header(input@) == Ok::<_, ParserErrorView>(desc),
                start <= offset <= input@.len(),
                match spec_parse_functions(self@, spec_remaining(input@, offset as nat)) {
                    Ok((more_functions, more)) => spec_parse_functions(
                        self@,
                        spec_remaining(input@, start as nat),
                    ) == Ok::<_, ParserErrorView>(
                        (functions_view(functions@) + more_functions, (offset - start + more) as nat),
                    ),
                    Err(e) => spec_parse_functions(self@, spec_remaining(input@, start as nat))
                        == Err::<(Seq<TopologyUSBFunctionView<M::Extra>>, nat), _>(e),
                },
            decreases input@.len() - offset,
        {
            let data = remaining(input, offset);
            let ghost before = functions@;
            let next = match USBStandardDescriptorTypes::peek_type(data) {
                Ok((USBStandardDescriptorTypes::Interface, _)) => Some(
                    self.try_parse_function(data),
                ),
                Ok((USBStandardDescriptorTypes::InterfaceAssociation, _)) => Some(
                    self.try_parse_function_interface_association(data),
                ),
                _ => None,
            };
            match next {
                Some(Ok((function, len))) => {
                    proof {
                        lemma_remaining_twice(input@, offset as nat, len as nat);
                        let rest = spec_parse_functions(
                            self@,
                            spec_remaining(input@, (offset + len) as nat),
                        );
                        if let Ok((more_functions, more)) = rest {
                            assert(functions_view(before) + (seq![function@] + more_functions)
                                =~= functions_view(before.push(function)) + more_functions);
                        }
                    }
                    functions.push(function);
                    offset = offset + len;
                },
                Some(Err(e)) => {
                    return Err(e);
                },
                None => {
                    proof {
                        assert(functions_view(functions@) + Seq::<
                            TopologyUSBFunctionView<M::Extra>,
                        >::empty() =~= functions_view(functions@));
                        lemma_config_total_length(self@, input@);
                    }
                    if offset == desc.total_length as usize {
                        return Ok((TopologyConfigDesc { desc, functions }, offset));
                    } else {
                        return Err(ParserError::NotFunction);
                    }
                },
            }
        }
    }

    /// Decodes the device descriptor at the start of `input`.
    ///
    /// Fails with `NotDeviceDescriptor` unless the header names a device,
    /// the declared length covers the 18 bytes of the record and the buffer
    /// holds as many bytes as are declared.
    pub fn peek_device_desc(input: Vec<u8>) -> (peeked: Result<Device, ParserError>)
        ensures
            match peeked {
                Ok(device) => spec_peek_device_desc(input@) == Ok::<_, ParserErrorView>(device),
                Err(e) => spec_peek_device_desc(input@) == Err::<Device, _>(e@),
            },
            input@.len() >= 2 && input@[0] > input@.len() ==> peeked is Err,
    {
        peek_device_desc(input.as_slice())
    }

    /// Decodes the whole buffer into the tree of the device: the device
    /// descriptor at its start, then as many configurations as the
    /// descriptor declares, each directly behind the one before it.
    ///
    /// Fails with `NotDeviceDescriptor` where no device descriptor that fits
    /// the buffer stands at the start, and with the error of the first
    /// configuration that fails.
    pub fn parse(&self, input: Vec<u8>) -> (parsed: Result<
        TopologyDeviceDesc<M::Extra>,
        ParserError,
    >)
        ensures
            match parsed {
                Ok(device) => spec_parse(self@, input@) == Ok::<_, ParserErrorView>(device@),
                Err(e) => spec_parse(self@, input@) == Err::<TopologyDeviceDescView<M::Extra>, _>(
                    e@,
                ),
            },
            parsed matches Ok(device) ==> device.configs@.len() == device.desc.num_configurations,
            input@.len() >= 2 && input@[0] > input@.len() ==> parsed is Err,
    {
        let bytes = input.as_slice();
        let desc = match peek_device_desc(bytes) {
            Ok(desc) => desc,
            Err(e) => {
                return Err(e);
            },
        };
        let total = bytes.len();
        let start: Offset = desc.len as usize;
        let mut configs: Vec<TopologyConfigDesc<M::Extra>> = Vec::new();
        let mut offset: Offset = start;
        let mut done: u8 = 0;
        proof {
            assert(configs_view(configs@) =~= Seq::empty());
        }
        while done < desc.num_configurations
            invariant
                total == bytes@.len(),
                bytes@ == input@,
                start == desc.len,
                spec_peek_device_desc(input@) == Ok::<_, ParserErrorView>(desc),
                start <= offset <= bytes@.len(),
                done <= desc.num_configurations,
                configs@.len() == done,
                match spec_parse_configs(
                    self@,
                    spec_remaining(bytes@, offset as nat),
                    (desc.num_configurations - done) as nat,
                ) {
                    Ok(more_configs) => spec_parse_configs(
                        self@,
                        spec_remaining(bytes@, start as nat),
                        desc.num_configurations as nat,
                    ) == Ok::<_, ParserErrorView>(configs_view(configs@) + more_configs),
                    Err(e) => spec_parse_configs(
                        self@,
                        spec_remaining(bytes@, start as nat),
                        desc.num_configurations as nat,
                    ) == Err::<Seq<TopologyConfigDescView<M::Extra>>, _>(e),
                },
            decreases desc.num_configurations - done,
        {
            let data = remaining(bytes, offset);
            let ghost before = configs@;
            match self.parse_config(data) {
                Ok((config, len)) => {
                    proof {
                        lemma_remaining_twice(bytes@, offset as nat, len as nat);
                        let rest = spec_parse_configs(
                            self@,
                            spec_remaining(bytes@, (offset + len) as nat),
                            (desc.num_configurations - done - 1) as nat,
                        );
                        if let Ok(more_configs) = rest {
                            assert(configs_view(before) + (seq![config@] + more_configs)
                                =~= configs_view(before.push(config)) + more_configs);
                        }
                    }
                    configs.push(config);
                    offset = offset + len;
                    done = done + 1;
                },
                Err(e) => {
                    return Err(e);
                },
            }
        }
        proof {
            assert(configs_view(configs@) + Seq::<TopologyConfigDescView<M::Extra>>::empty()
                =~= configs_view(configs@));
        }
        Ok(TopologyDeviceDesc { desc, configs })
    }
}

/// One part of what stands below an association header, as it was decoded,
/// with the number of bytes it occupies.
enum AssociationPart<E: TopologyDescriptor> {
    Group(Vec<USBInterface<E>>, Offset),
    Extra(E, Offset),
    End,
}

impl<E: TopologyDescriptor> AssociationPart<E> {
    /// The mathematical value of the part.
    spec fn view(&self) -> AssociationPartView<E> {
        match self {
            AssociationPart::Group(group, len) => AssociationPartView::Group(
                group_view(group@),
                *len as nat,
            ),
            AssociationPart::Extra(found, len) => AssociationPartView::Extra(*found, *len as nat),
            AssociationPart::End => AssociationPartView::End,
        }
    }
}

/// Decodes the part that stands at the start of `data` below an association
/// header.
fn association_part<P: ExtraParser>(data: &[u8], parser: &P, flag: &String) -> (parsed: Result<
    AssociationPart<P::Extra>,
    ParserError,
>)
    ensures
        match parsed {
            Ok(part) => spec_association_part(parser, data@, flag@) == Ok::<_, ParserErrorView>(
                part@,
            ),
            Err(e) => spec_association_part(parser, data@, flag@) == Err::<
                AssociationPartView<P::Extra>,
                _,
            >(e@),
        },
        parsed matches Ok(AssociationPart::Group(_, len)) ==> 0 < len <= data@.len(),
        parsed matches Ok(AssociationPart::Extra(_, len)) ==> 0 < len <= data@.len(),
{
    match USBStandardDescriptorTypes::peek_type(data) {
        Ok((met, len)) => {
            match met {
                USBStandardDescriptorTypes::Interface => {
                    let mut cursor: Offset = len as usize;
                    proof {
                        lemma_group_from_declared_length(parser, data@, flag@);
                    }
                    match parse_interface_group(data, parser, &mut cursor, flag.clone()) {
                        Ok(group) => Ok(AssociationPart::Group(group, cursor)),
                        Err(e) => Err(e),
                    }
                },
                _ => Err(
                    ParserError::NotSupportedDescriptorCombination(unsupported_in_association(met)),
                ),
            }
        },
        Err(ParserError::PeekFailed(code)) => {
            match accepted_extra(parser, data) {
                Some((found, len)) => Ok(AssociationPart::Extra(found, len)),
                None => Err(ParserError::PeekFailed(code)),
            }
        },
        Err(_) => Ok(AssociationPart::End),
    }
}

/// Builds the text that says which record of the catalog was met below an
/// association.
fn unsupported_in_association(met: USBStandardDescriptorTypes) -> (detail: String)
    ensures
        detail@ == spec_unsupported_in_association(met),
{
    met.name().concat(" in interface association")
}

/// Decodes the interface association whose header stands at the start of
/// `input`, and says how many bytes it occupies.
///
/// After the association header, each interface header starts a group of
/// alternates, decoded as by [`parse_interface_group`] and flagged `flag`;
/// each record whose type byte is outside the standard catalog must be
/// taken by `extra_parser` and becomes an extension descriptor of the
/// association. The scan ends at the end of the stream: at the all-zero
/// sentinel or where fewer than two bytes are left.
///
/// The call fails
/// - with `Ended` or `PeekFailed`, where the peek at the start fails: the
///   error of the peek is handed on;
/// - with `NotFunction`, where a record of the catalog stands at the start
///   that is no association, or an association header that does not fit
///   the buffer;
/// - with the error of the group that fails;
/// - with `PeekFailed` and the type byte, where a record outside the
///   catalog is not taken by `extra_parser`;
/// - with `NotSupportedDescriptorCombination`, where any record of the
///   catalog other than an interface is met, such as another association;
///   the text names the record.
pub fn parse_association_function<P: ExtraParser>(
    input: &[u8],
    extra_parser: &P,
    flag: String,
) -> (parsed: Result<(TopologyUSBFunction<P::Extra>, Offset), ParserError>)
    ensures
        match parsed {
            Ok((function, len)) => spec_parse_association_function(extra_parser, input@, flag@)
                == Ok::<_, ParserErrorView>((function@, len as nat)) && len <= input@.len()
                && function is InterfaceAssociation,
            Err(e) => spec_parse_association_function(extra_parser, input@, flag@) == Err::<
                (TopologyUSBFunctionView<P::Extra>, nat),
                _,
            >(e@),
        },
        USBStandardDescriptorTypes::spec_peek_type(input@) matches Err(e) ==> parsed matches Err(
            handed,
        ) && handed@ == e,
        input@.len() >= 2 && input@[0] > input@.len() ==> parsed is Err,
{
    match USBStandardDescriptorTypes::peek_type(input) {
        Ok(_) => {},
        Err(e) => {
            return Err(e);
        },
    }
    let header = match parse_interface_association(input) {
        Ok(header) => header,
        Err(e) => {
            return Err(e);
        },
    };
    let total = input.len();
    let start: Offset = header.len as usize;
    let mut groups: Vec<Vec<USBInterface<P::Extra>>> = Vec::new();
    let mut extra: Vec<P::Extra> = Vec::new();
    let mut offset: Offset = start;
    proof {
        assert(groups_view(groups@) =~= Seq::empty());
    }
    loop
        invariant
            total == input@.len(),
            start == header.len,
            spec_parse_interface_association(input@) == Ok::<_, ParserErrorView>(header),
            start <= offset <= input@.len(),
            match spec_scan_association(
                extra_parser,
                spec_remaining(input@, offset as nat),
                flag@,
            ) {
                Ok((more_groups, more_extra, more)) => spec_scan_association(
                    extra_parser,
                    spec_remaining(input@, start as nat),
                    flag@,
                ) == Ok::<_, ParserErrorView>(
                    (
                        groups_view(groups@) + more_groups,
                        extra@ + more_extra,
                        (offset - start + more) as nat,
                    ),
                ),
                Err(e) => spec_scan_association(
                    extra_parser,
                    spec_remaining(input@, start as nat),
                    flag@,
                ) == Err::<(Seq<Seq<USBInterfaceView<P::Extra>>>, Seq<P::Extra>, nat), _>(e),
            },
        decreases input@.len() - offset,
    {
        let data = remaining(input, offset);
        let ghost before_groups = groups@;
        let ghost before_extra = extra@;
        match association_part(data, extra_parser, &flag) {
            Ok(AssociationPart::Group(group, len)) => {
                proof {
                    lemma_remaining_twice(input@, offset as nat, len as nat);
                    let rest = spec_scan_association(
                        extra_parser,
                        spec_remaining(input@, (offset + len) as nat),
                        flag@,
                    );
                    if let Ok((more_groups, more_extra, more)) = rest {
                        assert(groups_view(before_groups) + (seq![group_view(group@)] + more_groups)
                            =~= groups_view(before_groups.push(group)) + more_groups);
                    }
                }
                groups.push(group);
                offset = offset + len;
            },
            Ok(AssociationPart::Extra(found, len)) => {
                proof {
                    lemma_remaining_twice(input@, offset as nat, len as nat);
                    let rest = spec_scan_association(
                        extra_parser,
                        spec_remaining(input@, (offset + len) as nat),
                        flag@,
                    );
                    if let Ok((more_groups, more_extra, more)) = rest {
                        assert(before_extra + (seq![found] + more_extra) =~= before_extra.push(
                            found,
                        ) + more_extra);
                    }
                }
                extra.push(found);
                offset = offset + len;
            },
            Ok(AssociationPart::End) => {
                proof {
                    assert(groups_view(groups@) + Seq::<Seq<USBInterfaceView<P::Extra>>>::empty()
                        =~= groups_view(groups@));
                    assert(extra@ + Seq::<P::Extra>::empty() =~= extra@);
                }
                return Ok((TopologyUSBFunction::InterfaceAssociation(header, groups, extra), offset));
            },
            Err(e) => {
                return Err(e);
            },
        }
    }
}

} // verus!
