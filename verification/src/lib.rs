//! Decoder for the descriptor chain that a USB device reports during
//! enumeration.
//!
//! The raw bytes are a sequence of self-describing records, each starting with
//! a length byte and a type byte. This crate turns such a buffer into a tree:
//! device, configurations, functions (an interface group or an interface
//! association), interface alternates, endpoints and class-specific extension
//! descriptors. Class-specific parsing is delegated to modules that are chosen
//! by the (class, subclass, protocol) triple of an interface or association.
//!
//! Every function is total on its byte input: no read goes past the end of a
//! buffer, and a record that does not fit is reported as an error.
use vstd::prelude::*;

use contained_parsers::hid::HIDParserModule;
use contained_parsers::load_embed_parsers;
use descriptors::desc_interface::{TopologyUSBFunction, TopologyUSBFunctionView};
use registry::{
    bytes_less, lemma_register_keeps_sorted, rank, spec_register, spec_sorted_by_name,
};

pub mod contained_parsers;
pub mod descriptors;
pub mod registry;

verus! {

/// A position in, or a number of bytes of, a descriptor buffer.
pub type Offset = usize;

/// Why a buffer could not be decoded. Every error ends the decode call that
/// meets it; no partial tree is returned.
#[derive(Debug)]
pub enum ParserError {
    /// No device descriptor that fits the buffer stands at its start.
    NotDeviceDescriptor,
    /// No configuration descriptor that fits the buffer stands where a
    /// configuration must begin.
    NotConfigDescriptor,
    /// Something other than a function stands before the declared end of a
    /// configuration, an interface or association header does not fit the
    /// buffer, or a cursor does not stand directly behind the header it
    /// belongs to.
    NotFunction,
    /// No endpoint descriptor that fits the buffer stands at the cursor.
    NotEndpoint,
    /// An alternate was followed by a number of endpoints other than the one
    /// its header declares.
    NotEnoughEndpoints,
    /// No registered module accepts the (class, subclass, protocol) triple.
    NoSuitableModule,
    /// The type byte is outside the standard catalog and no extension probe
    /// took the record.
    PeekFailed(u8),
    /// Descriptors are nested in a way that is legal but not handled; the
    /// text names what was met.
    NotSupportedDescriptorCombination(String),
    /// The end-of-stream sentinel, or the end of the buffer, was met.
    Ended,
}

/// The mathematical value of a [`ParserError`]: the same cases, with the
/// detail text as a sequence of characters.
pub enum ParserErrorView {
    NotDeviceDescriptor,
    NotConfigDescriptor,
    NotFunction,
    NotEndpoint,
    NotEnoughEndpoints,
    NoSuitableModule,
    PeekFailed(u8),
    NotSupportedDescriptorCombination(Seq<char>),
    Ended,
}

impl View for ParserError {
    type V = ParserErrorView;

    open spec fn view(&self) -> ParserErrorView {
        match *self {
            ParserError::NotDeviceDescriptor => ParserErrorView::NotDeviceDescriptor,
            ParserError::NotConfigDescriptor => ParserErrorView::NotConfigDescriptor,
            ParserError::NotFunction => ParserErrorView::NotFunction,
            ParserError::NotEndpoint => ParserErrorView::NotEndpoint,
            ParserError::NotEnoughEndpoints => ParserErrorView::NotEnoughEndpoints,
            ParserError::NoSuitableModule => ParserErrorView::NoSuitableModule,
            ParserError::PeekFailed(code) => ParserErrorView::PeekFailed(code),
            ParserError::NotSupportedDescriptorCombination(detail) =>
                ParserErrorView::NotSupportedDescriptorCombination(detail@),
            ParserError::Ended => ParserErrorView::Ended,
        }
    }
}

/// A class-specific extension descriptor: a record outside the standard
/// catalog, known by its type, an optional subtype and the number of bytes it
/// occupies in the buffer.
pub trait TopologyDescriptor {
    /// The number of bytes that the record occupies, as a mathematical value.
    spec fn spec_actual_len(&self) -> nat;

    /// The descriptor type byte of the record.
    fn desc_type(&self) -> u8;

    /// The subtype byte of the record, where its class defines one; `None`
    /// unless the type of the record says otherwise.
    fn subtype(&self) -> (subtype: Option<u8>)
        default_ensures
            subtype is None,
    {
        None
    }

    /// The number of bytes that the record occupies in the buffer.
    fn actual_len(&self) -> (len: Offset)
        ensures
            len == self.spec_actual_len(),
    ;
}

/// A probe for the extension descriptors of one class: given the bytes at
/// the cursor, it either decodes the record that starts there or declines.
/// What it answers depends on the bytes alone.
pub trait ExtraParser {
    /// The extension descriptors that the probe decodes.
    type Extra: TopologyDescriptor;

    /// What the probe answers on `data`.
    spec fn spec_try_parse(&self, data: Seq<u8>) -> Option<Self::Extra>;

    /// Decodes the extension descriptor at the start of `data`, or declines
    /// with `None`.
    fn try_parse(&self, data: &[u8]) -> (parsed: Option<Self::Extra>)
        ensures
            parsed == self.spec_try_parse(data@),
    ;
}

/// A class-specific module: it has a name, says which (class, subclass,
/// protocol) triples it decodes, and decodes one function from the bytes
/// that start at the function's own header. A module has no state of its
/// own: what it answers depends on its arguments alone, and each
/// implementation says what that is.
pub trait DescriptorDecoderModule {
    /// The extension descriptors that the module decodes.
    type Extra: TopologyDescriptor;

    /// The name under which the module is registered.
    spec fn spec_function_name(&self) -> Seq<char>;

    /// Whether the module decodes functions of this triple.
    spec fn spec_filter_triple(&self, class: u8, subclass: u8, protocol: u8) -> bool;

    /// What the module decodes from `data`: a function and the number of
    /// bytes that it occupies, or an error.
    spec fn spec_parse(&self, data: Seq<u8>) -> Result<
        (TopologyUSBFunctionView<Self::Extra>, nat),
        ParserErrorView,
    >;

    /// The name under which the module is registered.
    fn function_name_string(&self) -> (name: String)
        ensures
            name@ == self.spec_function_name(),
    ;

    /// Whether the module decodes functions of this triple.
    fn filter_triple(&self, class: u8, subclass: u8, protocol: u8) -> (accepts: bool)
        ensures
            accepts == self.spec_filter_triple(class, subclass, protocol),
    ;

    /// Decodes the function whose header stands at the start of `data`, and
    /// says how many bytes it occupies.
    fn parse(&self, data: &[u8]) -> (parsed: Result<
        (TopologyUSBFunction<Self::Extra>, Offset),
        ParserError,
    >)
        ensures
            match parsed {
                Ok((function, len)) => self.spec_parse(data@) == Ok::<_, ParserErrorView>(
                    (function@, len as nat),
                ),
                Err(e) => self.spec_parse(data@) == Err::<
                    (TopologyUSBFunctionView<Self::Extra>, nat),
                    _,
                >(e@),
            },
    ;
}

/// The decoder: a registry of class-specific modules, kept in the order of
/// their names, with at most one module under each name.
pub struct DescriptorDecoder<M: DescriptorDecoderModule> {
    modules: Vec<M>,
}

impl<M: DescriptorDecoderModule> View for DescriptorDecoder<M> {
    type V = Seq<M>;

    /// The registered modules, in the order of their names.
    closed spec fn view(&self) -> Seq<M> {
        self.modules@
    }
}

impl<M: DescriptorDecoderModule> DescriptorDecoder<M> {
    #[verifier::type_invariant]
    spec fn sorted_by_name(self) -> bool {
        spec_sorted_by_name(self.modules@)
    }

    /// A decoder without any module.
    pub fn empty() -> (decoder: DescriptorDecoder<M>)
        ensures
            decoder@ == Seq::<M>::empty(),
    {
        DescriptorDecoder { modules: Vec::new() }
    }

    /// The registered modules. Their names increase strictly from each
    /// module to the next, so no two modules share a name.
    pub fn modules(&self) -> (modules: &Vec<M>)
        ensures
            modules@ == self@,
            spec_sorted_by_name(self@),
    {
        proof {
            use_type_invariant(self);
        }
        &self.modules
    }

    /// Registers `module` under its name, at the place where the name
    /// belongs in the order of the registry. A module that was registered
    /// under the same name is replaced; every other module stays.
    pub fn add_module(&mut self, module: M)
        ensures
            final(self)@ == spec_register(old(self)@, module),
    {
        proof {
            use_type_invariant(&*self);
            lemma_register_keeps_sorted(self.modules@, module);
        }
        let mut taken: DescriptorDecoder<M> = DescriptorDecoder::empty();
        core::mem::swap(self, &mut taken);
        let mut modules = taken.modules;
        let name = module.function_name_string();
        let position = rank(&modules, name.as_str().as_bytes());
        let replace = if position < modules.len() {
            let present = modules[position].function_name_string();
            !bytes_less(name.as_str().as_bytes(), present.as_str().as_bytes())
        } else {
            false
        };
        if replace {
            modules.set(position, module);
        } else {
            modules.insert(position, module);
        }
        *self = DescriptorDecoder { modules };
    }
}

impl DescriptorDecoder<HIDParserModule> {
    /// A decoder with the HID module registered.
    pub fn new() -> (decoder: DescriptorDecoder<HIDParserModule>)
        ensures
            decoder@ == seq![(HIDParserModule {  })],
    {
        let decoder = load_embed_parsers(DescriptorDecoder::empty());
        proof {
            assert(decoder@ =~= seq![(HIDParserModule {  })]);
        }
        decoder
    }
}

} // verus!
