//! A plain tree of descriptors, as a caller may keep it once a device has
//! been decoded, and what a driver asks of it.
use vstd::prelude::*;

use super::desc_configuration::Configuration;
use super::desc_device::Device;
use super::desc_endpoint::Endpoint;
use super::desc_interface::{Interface, InterfaceAssociation};
use super::desc_uvc::uvc_endpoints::UVCVideoControlInterruptEndpoint;

verus! {

/// A device with its configurations.
#[derive(Debug)]
pub struct TopologicalUSBDescriptorDevice<D> {
    pub data: Device,
    pub child: Vec<TopologicalUSBDescriptorConfiguration<D>>,
}

/// A configuration with its functions.
#[derive(Debug)]
pub struct TopologicalUSBDescriptorConfiguration<D> {
    pub data: Configuration,
    pub child: Vec<TopologicalUSBDescriptorFunction<D>>,
}

/// A function: an interface association with the functions below it, or
/// the alternates of one interface, each with its other descriptors and its
/// endpoints. `D` is the type of the descriptors that the tree carries
/// without reading them.
#[derive(Debug)]
pub enum TopologicalUSBDescriptorFunction<D> {
    InterfaceAssociation((InterfaceAssociation, Vec<TopologicalUSBDescriptorFunction<D>>)),
    Interface(Vec<(Interface, Vec<D>, Vec<TopologicalUSBDescriptorEndpoint>)>),
}

/// The root of the tree: the device, the descriptors that belong to no
/// function, and what the caller recorded about the decoding. `T` is the
/// type of that record.
#[derive(Debug)]
pub struct TopologicalUSBDescriptorRoot<D, T> {
    pub device: TopologicalUSBDescriptorDevice<D>,
    pub others: Vec<D>,
    pub metadata: T,
}

/// An endpoint of the tree: a standard endpoint or the interrupt endpoint
/// of a video control interface.
#[derive(Clone, Copy, Debug)]
pub enum TopologicalUSBDescriptorEndpoint {
    Standard(Endpoint),
    UNVVideoControlInterruptEndpoint(UVCVideoControlInterruptEndpoint),
}

/// The descriptor that names the class of a function.
pub enum USBFunctionExpressions<'a> {
    Interface(&'a Interface),
    InterfaceAssociation(&'a InterfaceAssociation),
    Device(&'a Device),
}

/// The descriptor that names the class of `function`: the association
/// header, or the header of the first alternate of the interface.
pub open spec fn spec_function_expression<'a, D>(
    function: &'a TopologicalUSBDescriptorFunction<D>,
) -> USBFunctionExpressions<'a> {
    match function {
        TopologicalUSBDescriptorFunction::InterfaceAssociation(association) =>
            USBFunctionExpressions::InterfaceAssociation(&association.0),
        TopologicalUSBDescriptorFunction::Interface(alternates) => USBFunctionExpressions::Interface(
            &alternates@[0].0,
        ),
    }
}

/// Whether `function` has a descriptor that names its class: an interface
/// must have an alternate.
pub open spec fn spec_has_expression<D>(function: &TopologicalUSBDescriptorFunction<D>) -> bool {
    match function {
        TopologicalUSBDescriptorFunction::InterfaceAssociation(_) => true,
        TopologicalUSBDescriptorFunction::Interface(alternates) => alternates@.len() >= 1,
    }
}

impl<D, T> TopologicalUSBDescriptorRoot<D, T> {
    /// Whether the tree can be asked for its functions: a device that
    /// leaves its class to its interfaces must have a configuration, and
    /// each interface of the first configuration an alternate.
    pub open spec fn spec_has_interfaces(&self) -> bool {
        self.device.data.class == 0 ==> self.device.child@.len() >= 1 && forall|i: int|
            0 <= i < self.device.child@[0].child@.len() ==> spec_has_expression(
                #[trigger] &self.device.child@[0].child@[i],
            )
    }

    /// The descriptors that name the classes of the device's functions.
    ///
    /// Where the device leaves its class to its interfaces, these are the
    /// association header or the first interface header of each function of
    /// the first configuration, in order; else it is the device descriptor
    /// alone.
    pub fn interfaces<'a>(&'a self) -> (expressions: Vec<USBFunctionExpressions<'a>>)
        requires
            self.spec_has_interfaces(),
        ensures
            self.device.data.class != 0 ==> expressions@ == seq![
                USBFunctionExpressions::Device(&self.device.data),
            ],
            self.device.data.class == 0 ==> expressions@.len()
                == self.device.child@[0].child@.len() && forall|i: int|
                0 <= i < expressions@.len() ==> #[trigger] expressions@[i]
                    == spec_function_expression(&self.device.child@[0].child@[i]),
    {
        let mut expressions: Vec<USBFunctionExpressions<'a>> = Vec::new();
        if self.device.data.is_refer_interface() {
            let functions = &self.device.child[0].child;
            let mut i: usize = 0;
            while i < functions.len()
                invariant
                    self.spec_has_interfaces(),
                    self.device.data.class == 0,
                    functions == &self.device.child@[0].child,
                    i <= functions@.len(),
                    expressions@.len() == i,
                    forall|j: int|
                        0 <= j < i ==> #[trigger] expressions@[j] == spec_function_expression(
                            &functions@[j],
                        ),
                decreases functions@.len() - i,
            {
                assert(spec_has_expression(&self.device.child@[0].child@[i as int]));
                let expression = match &functions[i] {
                    TopologicalUSBDescriptorFunction::InterfaceAssociation(association) =>
                        USBFunctionExpressions::InterfaceAssociation(&association.0),
                    TopologicalUSBDescriptorFunction::Interface(alternates) =>
                        USBFunctionExpressions::Interface(&alternates[0].0),
                };
                expressions.push(expression);
                i = i + 1;
            }
        } else {
            expressions.push(USBFunctionExpressions::Device(&self.device.data));
            assert(expressions@ =~= seq![USBFunctionExpressions::Device(&self.device.data)]);
        }
        expressions
    }

    /// The configuration descriptors of the device, in order.
    pub fn configs<'a>(&'a self) -> (configs: Vec<&'a Configuration>)
        ensures
            configs@.len() == self.device.child@.len(),
            forall|i: int|
                0 <= i < configs@.len() ==> *(#[trigger] configs@[i]) == self.device.child@[i].data,
    {
        let mut configs: Vec<&'a Configuration> = Vec::new();
        let mut i: usize = 0;
        while i < self.device.child.len()
            invariant
                i <= self.device.child@.len(),
                configs@.len() == i,
                forall|j: int|
                    0 <= j < i ==> *(#[trigger] configs@[j]) == self.device.child@[j].data,
            decreases self.device.child@.len() - i,
        {
            configs.push(&self.device.child[i].data);
            i = i + 1;
        }
        configs
    }
}

impl<'a> USBFunctionExpressions<'a> {
    /// The (class, subclass, protocol) triple that the descriptor names.
    pub fn class_subclass_protocol(&self) -> (triple: (u8, u8, u8))
        ensures
            triple == match self {
                USBFunctionExpressions::Interface(interface) => (
                    interface.interface_class,
                    interface.interface_subclass,
                    interface.interface_protocol,
                ),
                USBFunctionExpressions::InterfaceAssociation(association) => (
                    association.function_class,
                    association.function_subclass,
                    association.function_protocol,
                ),
                USBFunctionExpressions::Device(device) => (
                    device.class,
                    device.subclass,
                    device.protocol,
                ),
            },
    {
        match self {
            USBFunctionExpressions::Interface(interface) => (
                interface.interface_class,
                interface.interface_subclass,
                interface.interface_protocol,
            ),
            USBFunctionExpressions::InterfaceAssociation(association) => (
                association.function_class,
                association.function_subclass,
                association.function_protocol,
            ),
            USBFunctionExpressions::Device(device) => (
                device.class,
                device.subclass,
                device.protocol,
            ),
        }
    }
}

} // verus!
