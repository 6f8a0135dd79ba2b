//! Interface and interface-association descriptors, interface alternates and
//! the functions of a configuration.
use vstd::prelude::*;

use super::desc_endpoint::Endpoint;
use crate::TopologyDescriptor;

verus! {

/// The number of bytes of an interface descriptor.
pub const INTERFACE_DESCRIPTOR_SIZE: usize = 9;

/// The number of bytes of an interface-association descriptor.
pub const INTERFACE_ASSOCIATION_DESCRIPTOR_SIZE: usize = 8;

/// A (class, subclass, protocol) triple.
pub type InterfaceIdentifier = (u8, u8, u8);

/// The fixed fields of an interface descriptor, in the order of the wire.
#[derive(Copy, Clone, Default, Debug, PartialEq, Eq, Structural)]
pub struct Interface {
    pub len: u8,
    pub descriptor_type: u8,
    pub interface_number: u8,
    pub alternate_setting: u8,
    pub num_endpoints: u8,
    pub interface_class: u8,
    pub interface_subclass: u8,
    pub interface_protocol: u8,
    pub interface: u8,
}

impl Interface {
    /// The record that the first 9 bytes of `bytes` hold.
    pub open spec fn spec_from_bytes(bytes: Seq<u8>) -> Interface
        recommends
            bytes.len() >= INTERFACE_DESCRIPTOR_SIZE,
    {
        Interface {
            len: bytes[0],
            descriptor_type: bytes[1],
            interface_number: bytes[2],
            alternate_setting: bytes[3],
            num_endpoints: bytes[4],
            interface_class: bytes[5],
            interface_subclass: bytes[6],
            interface_protocol: bytes[7],
            interface: bytes[8],
        }
    }

    /// The 9 bytes that hold the record.
    pub open spec fn spec_to_bytes(self) -> Seq<u8> {
        seq![
            self.len,
            self.descriptor_type,
            self.interface_number,
            self.alternate_setting,
            self.num_endpoints,
            self.interface_class,
            self.interface_subclass,
            self.interface_protocol,
            self.interface,
        ]
    }

    /// Decodes the record at the start of `input`, field by field. `None`
    /// where `input` is shorter than the record.
    pub fn from_bytes(input: &[u8]) -> (decoded: Option<Interface>)
        ensures
            decoded == if input@.len() >= INTERFACE_DESCRIPTOR_SIZE {
                Some(Interface::spec_from_bytes(input@))
            } else {
                None
            },
    {
        if input.len() < INTERFACE_DESCRIPTOR_SIZE {
            return None;
        }
        Some(
            Interface {
                len: input[0],
                descriptor_type: input[1],
                interface_number: input[2],
                alternate_setting: input[3],
                num_endpoints: input[4],
                interface_class: input[5],
                interface_subclass: input[6],
                interface_protocol: input[7],
                interface: input[8],
            },
        )
    }

    /// Encodes the fixed fields as they stand on the wire.
    pub fn to_bytes(&self) -> (bytes: Vec<u8>)
        ensures
            bytes@ == self.spec_to_bytes(),
    {
        let mut bytes: Vec<u8> = Vec::new();
        bytes.push(self.len);
        bytes.push(self.descriptor_type);
        bytes.push(self.interface_number);
        bytes.push(self.alternate_setting);
        bytes.push(self.num_endpoints);
        bytes.push(self.interface_class);
        bytes.push(self.interface_subclass);
        bytes.push(self.interface_protocol);
        bytes.push(self.interface);
        assert(bytes@ =~= self.spec_to_bytes());
        bytes
    }

    /// Decoding an interface descriptor and encoding the record again gives
    /// back the 9 bytes that were decoded.
    pub proof fn lemma_decode_then_encode(bytes: Seq<u8>)
        requires
            bytes.len() >= INTERFACE_DESCRIPTOR_SIZE,
        ensures
            Interface::spec_from_bytes(bytes).spec_to_bytes() == bytes.subrange(
                0,
                INTERFACE_DESCRIPTOR_SIZE as int,
            ),
    {
        assert(Interface::spec_from_bytes(bytes).spec_to_bytes() =~= bytes.subrange(
            0,
            INTERFACE_DESCRIPTOR_SIZE as int,
        ));
    }

    /// The (class, subclass, protocol) triple of the interface.
    pub fn ty(&self) -> (triple: InterfaceIdentifier)
        ensures
            triple == (self.interface_class, self.interface_subclass, self.interface_protocol),
    {
        (self.interface_class, self.interface_subclass, self.interface_protocol)
    }
}

/// The fixed fields of an interface-association descriptor, in the order of
/// the wire.
#[derive(Copy, Clone, Default, Debug, PartialEq, Eq, Structural)]
pub struct InterfaceAssociation {
    pub len: u8,
    pub descriptor_type: u8,
    pub first_interface: u8,
    pub interface_count: u8,
    pub function_class: u8,
    pub function_subclass: u8,
    pub function_protocol: u8,
    pub function: u8,
}

impl InterfaceAssociation {
    /// The record that the first 8 bytes of `bytes` hold.
    pub open spec fn spec_from_bytes(bytes: Seq<u8>) -> InterfaceAssociation
        recommends
            bytes.len() >= INTERFACE_ASSOCIATION_DESCRIPTOR_SIZE,
    {
        InterfaceAssociation {
            len: bytes[0],
            descriptor_type: bytes[1],
            first_interface: bytes[2],
            interface_count: bytes[3],
            function_class: bytes[4],
            function_subclass: bytes[5],
            function_protocol: bytes[6],
            function: bytes[7],
        }
    }

    /// The 8 bytes that hold the record.
    pub open spec fn spec_to_bytes(self) -> Seq<u8> {
        seq![
            self.len,
            self.descriptor_type,
            self.first_interface,
            self.interface_count,
            self.function_class,
            self.function_subclass,
            self.function_protocol,
            self.function,
        ]
    }

    /// Decodes the record at the start of `input`, field by field. `None`
    /// where `input` is shorter than the record.
    pub fn from_bytes(input: &[u8]) -> (decoded: Option<InterfaceAssociation>)
        ensures
            decoded == if input@.len() >= INTERFACE_ASSOCIATION_DESCRIPTOR_SIZE {
                Some(InterfaceAssociation::spec_from_bytes(input@))
            } else {
                None
            },
    {
        if input.len() < INTERFACE_ASSOCIATION_DESCRIPTOR_SIZE {
            return None;
        }
        Some(
            InterfaceAssociation {
                len: input[0],
                descriptor_type: input[1],
                first_interface: input[2],
                interface_count: input[3],
                function_class: input[4],
                function_subclass: input[5],
                function_protocol: input[6],
                function: input[7],
            },
        )
    }

    /// Encodes the fixed fields as they stand on the wire.
    pub fn to_bytes(&self) -> (bytes: Vec<u8>)
        ensures
            bytes@ == self.spec_to_bytes(),
    {
        let mut bytes: Vec<u8> = Vec::new();
        bytes.push(self.len);
        bytes.push(self.descriptor_type);
        bytes.push(self.first_interface);
        bytes.push(self.interface_count);
        bytes.push(self.function_class);
        bytes.push(self.function_subclass);
        bytes.push(self.function_protocol);
        bytes.push(self.function);
        assert(bytes@ =~= self.spec_to_bytes());
        bytes
    }

    /// Decoding an interface-association descriptor and encoding the record
    /// again gives back the 8 bytes that were decoded.
    pub proof fn lemma_decode_then_encode(bytes: Seq<u8>)
        requires
            bytes.len() >= INTERFACE_ASSOCIATION_DESCRIPTOR_SIZE,
        ensures
            InterfaceAssociation::spec_from_bytes(bytes).spec_to_bytes() == bytes.subrange(
                0,
                INTERFACE_ASSOCIATION_DESCRIPTOR_SIZE as int,
            ),
    {
        assert(InterfaceAssociation::spec_from_bytes(bytes).spec_to_bytes() =~= bytes.subrange(
            0,
            INTERFACE_ASSOCIATION_DESCRIPTOR_SIZE as int,
        ));
    }

    /// The (class, subclass, protocol) triple of the function.
    pub fn ty(&self) -> (triple: InterfaceIdentifier)
        ensures
            triple == (self.function_class, self.function_subclass, self.function_protocol),
    {
        (self.function_class, self.function_subclass, self.function_protocol)
    }
}

/// The extension descriptors of an alternate or of an association, in the
/// order of the buffer.
pub type ExtraDesc<E> = Vec<E>;

/// One alternate setting of an interface: its header, its endpoints, its
/// extension descriptors and the name of the module that decoded it.
#[derive(Debug)]
pub struct USBInterface<E: TopologyDescriptor> {
    pub interface: Interface,
    pub endpoints: Vec<Endpoint>,
    pub flag: String,
    pub extra: ExtraDesc<E>,
}

/// The mathematical value of a [`USBInterface`].
pub struct USBInterfaceView<E> {
    pub interface: Interface,
    pub endpoints: Seq<Endpoint>,
    pub flag: Seq<char>,
    pub extra: Seq<E>,
}

impl<E: TopologyDescriptor> View for USBInterface<E> {
    type V = USBInterfaceView<E>;

    open spec fn view(&self) -> USBInterfaceView<E> {
        USBInterfaceView {
            interface: self.interface,
            endpoints: self.endpoints@,
            flag: self.flag@,
            extra: self.extra@,
        }
    }
}

/// The number of bytes that `endpoints` occupy: the sum of their declared
/// lengths.
pub open spec fn spec_endpoints_len(endpoints: Seq<Endpoint>) -> nat
    decreases endpoints.len(),
{
    if endpoints.len() == 0 {
        0
    } else {
        endpoints.first().len as nat + spec_endpoints_len(endpoints.drop_first())
    }
}

/// The number of bytes that the extension descriptors `extra` occupy: the
/// sum of the lengths they report.
pub open spec fn spec_extra_len<E: TopologyDescriptor>(extra: Seq<E>) -> nat
    decreases extra.len(),
{
    if extra.len() == 0 {
        0
    } else {
        extra.first().spec_actual_len() + spec_extra_len(extra.drop_first())
    }
}

/// The number of bytes that the alternates `group` occupy.
pub open spec fn spec_group_len<E: TopologyDescriptor>(group: Seq<USBInterfaceView<E>>) -> nat
    decreases group.len(),
{
    if group.len() == 0 {
        0
    } else {
        group.first().spec_consumed_len() + spec_group_len(group.drop_first())
    }
}

impl<E: TopologyDescriptor> USBInterfaceView<E> {
    /// The number of bytes that the alternate occupies in the buffer: its
    /// header, its endpoints and its extension descriptors.
    pub open spec fn spec_consumed_len(self) -> nat {
        self.interface.len as nat + spec_endpoints_len(self.endpoints) + spec_extra_len(
            self.extra,
        )
    }

    /// Whether the alternate has as many endpoints as its header declares.
    pub open spec fn spec_endpoints_complete(self) -> bool {
        self.endpoints.len() == self.interface.num_endpoints
    }
}

impl<E: TopologyDescriptor> USBInterface<E> {
    /// Whether `ident` is a header of the interface that this alternate
    /// belongs to: alternates of one interface share the interface number.
    pub fn is_alternative(&self, ident: &Interface) -> (same: bool)
        ensures
            same == (self.interface.interface_number == ident.interface_number),
    {
        self.interface.interface_number == ident.interface_number
    }
}

/// The values of the alternates of a group, in order.
pub open spec fn group_view<E: TopologyDescriptor>(group: Seq<USBInterface<E>>) -> Seq<
    USBInterfaceView<E>,
> {
    group.map_values(|alternate: USBInterface<E>| alternate@)
}

/// The values of the groups of an association, in order.
pub open spec fn groups_view<E: TopologyDescriptor>(groups: Seq<Vec<USBInterface<E>>>) -> Seq<
    Seq<USBInterfaceView<E>>,
> {
    groups.map_values(|group: Vec<USBInterface<E>>| group_view(group@))
}

/// A function of a configuration: the alternates of one interface, or an
/// interface association with the groups and the extension descriptors that
/// stand below it.
#[derive(Debug)]
pub enum TopologyUSBFunction<E: TopologyDescriptor> {
    Interface(Vec<USBInterface<E>>),
    InterfaceAssociation(InterfaceAssociation, Vec<Vec<USBInterface<E>>>, ExtraDesc<E>),
}

/// The mathematical value of a [`TopologyUSBFunction`].
pub enum TopologyUSBFunctionView<E> {
    Interface(Seq<USBInterfaceView<E>>),
    InterfaceAssociation(InterfaceAssociation, Seq<Seq<USBInterfaceView<E>>>, Seq<E>),
}

impl<E: TopologyDescriptor> View for TopologyUSBFunction<E> {
    type V = TopologyUSBFunctionView<E>;

    open spec fn view(&self) -> TopologyUSBFunctionView<E> {
        match self {
            TopologyUSBFunction::Interface(group) => TopologyUSBFunctionView::Interface(
                group_view(group@),
            ),
            TopologyUSBFunction::InterfaceAssociation(header, groups, extra) =>
                TopologyUSBFunctionView::InterfaceAssociation(*header, groups_view(groups@), extra@),
        }
    }
}

} // verus!
