//! The configuration descriptor and the functions below it.
use vstd::prelude::*;

use super::desc_interface::{TopologyUSBFunction, TopologyUSBFunctionView};
use super::{hi_byte, lo_byte, spec_hi_byte, spec_lo_byte, spec_u16_le, u16_le};
use crate::TopologyDescriptor;

verus! {

/// The number of bytes of a configuration descriptor.
pub const CONFIGURATION_DESCRIPTOR_SIZE: usize = 9;

/// The fixed fields of a configuration descriptor, in the order of the wire.
#[derive(Copy, Clone, Debug, Default, PartialEq, Eq, Structural)]
pub struct Configuration {
    pub length: u8,
    pub ty: u8,
    pub total_length: u16,
    pub num_interfaces: u8,
    pub config_val: u8,
    pub config_string: u8,
    pub attributes: u8,
    pub max_power: u8,
}

impl Configuration {
    /// The record that the first 9 bytes of `bytes` hold.
    pub open spec fn spec_from_bytes(bytes: Seq<u8>) -> Configuration
        recommends
            bytes.len() >= CONFIGURATION_DESCRIPTOR_SIZE,
    {
        Configuration {
            length: bytes[0],
            ty: bytes[1],
            total_length: spec_u16_le(bytes[2], bytes[3]),
            num_interfaces: bytes[4],
            config_val: bytes[5],
            config_string: bytes[6],
            attributes: bytes[7],
            max_power: bytes[8],
        }
    }

    /// The 9 bytes that hold the record.
    pub open spec fn spec_to_bytes(self) -> Seq<u8> {
        seq![
            self.length,
            self.ty,
            spec_lo_byte(self.total_length),
            spec_hi_byte(self.total_length),
            self.num_interfaces,
            self.config_val,
            self.config_string,
            self.attributes,
            self.max_power,
        ]
    }

    /// Decodes the record at the start of `input`, field by field. `None`
    /// where `input` is shorter than the record.
    pub fn from_bytes(input: &[u8]) -> (decoded: Option<Configuration>)
        ensures
            decoded == if input@.len() >= CONFIGURATION_DESCRIPTOR_SIZE {
                Some(Configuration::spec_from_bytes(input@))
            } else {
                None
            },
    {
        if input.len() < CONFIGURATION_DESCRIPTOR_SIZE {
            return None;
        }
        Some(
            Configuration {
                length: input[0],
                ty: input[1],
                total_length: u16_le(input[2], input[3]),
                num_interfaces: input[4],
                config_val: input[5],
                config_string: input[6],
                attributes: input[7],
                max_power: input[8],
            },
        )
    }

    /// Encodes the fixed fields as they stand on the wire.
    pub fn to_bytes(&self) -> (bytes: Vec<u8>)
        ensures
            bytes@ == self.spec_to_bytes(),
    {
        let mut bytes: Vec<u8> = Vec::new();
        bytes.push(self.length);
        bytes.push(self.ty);
        bytes.push(lo_byte(self.total_length));
        bytes.push(hi_byte(self.total_length));
        bytes.push(self.num_interfaces);
        bytes.push(self.config_val);
        bytes.push(self.config_string);
        bytes.push(self.attributes);
        bytes.push(self.max_power);
        assert(bytes@ =~= self.spec_to_bytes());
        bytes
    }

    /// Decoding a configuration descriptor and encoding the record again
    /// gives back the 9 bytes that were decoded.
    pub proof fn lemma_decode_then_encode(bytes: Seq<u8>)
        requires
            bytes.len() >= CONFIGURATION_DESCRIPTOR_SIZE,
        ensures
            Configuration::spec_from_bytes(bytes).spec_to_bytes() == bytes.subrange(
                0,
                CONFIGURATION_DESCRIPTOR_SIZE as int,
            ),
    {
        assert(Configuration::spec_from_bytes(bytes).spec_to_bytes() =~= bytes.subrange(
            0,
            CONFIGURATION_DESCRIPTOR_SIZE as int,
        ));
    }

    /// The value that selects this configuration.
    pub fn config_val(&self) -> (value: u8)
        ensures
            value == self.config_val,
    {
        self.config_val
    }

    /// The declared length of the descriptor itself.
    pub fn length(&self) -> (value: u8)
        ensures
            value == self.length,
    {
        self.length
    }

    /// The descriptor type byte.
    pub fn ty(&self) -> (value: u8)
        ensures
            value == self.ty,
    {
        self.ty
    }

    /// The declared number of bytes of the configuration with all that
    /// belongs to it.
    pub fn total_length(&self) -> (value: u16)
        ensures
            value == self.total_length,
    {
        self.total_length
    }

    /// The declared number of interfaces.
    pub fn num_interfaces(&self) -> (value: u8)
        ensures
            value == self.num_interfaces,
    {
        self.num_interfaces
    }

    /// The index of the string that describes the configuration.
    pub fn config_string(&self) -> (value: u8)
        ensures
            value == self.config_string,
    {
        self.config_string
    }

    /// The attribute bits.
    pub fn attributes(&self) -> (value: u8)
        ensures
            value == self.attributes,
    {
        self.attributes
    }

    /// The declared maximum power.
    pub fn max_power(&self) -> (value: u8)
        ensures
            value == self.max_power,
    {
        self.max_power
    }
}

/// A decoded configuration: its descriptor and its functions, in the order
/// of the buffer.
#[derive(Debug)]
pub struct TopologyConfigDesc<E: TopologyDescriptor> {
    pub desc: Configuration,
    pub functions: Vec<TopologyUSBFunction<E>>,
}

/// The mathematical value of a [`TopologyConfigDesc`].
pub struct TopologyConfigDescView<E> {
    pub desc: Configuration,
    pub functions: Seq<TopologyUSBFunctionView<E>>,
}

/// The values of the functions of a configuration, in order.
pub open spec fn functions_view<E: TopologyDescriptor>(functions: Seq<TopologyUSBFunction<E>>) -> Seq<
    TopologyUSBFunctionView<E>,
> {
    functions.map_values(|function: TopologyUSBFunction<E>| function@)
}

impl<E: TopologyDescriptor> View for TopologyConfigDesc<E> {
    type V = TopologyConfigDescView<E>;

    open spec fn view(&self) -> TopologyConfigDescView<E> {
        TopologyConfigDescView { desc: self.desc, functions: functions_view(self.functions@) }
    }
}

} // verus!
