//! The endpoint descriptor and what a host derives from it.
use vstd::prelude::*;

use bit_field::BitField;

use super::PortSpeed;
use super::{hi_byte, lo_byte, spec_hi_byte, spec_lo_byte, spec_u16_le, u16_le};

verus! {

/// The number of bytes of the fixed fields of an endpoint descriptor.
pub const ENDPOINT_DESCRIPTOR_SIZE: usize = 7;

/// The fixed fields of an endpoint descriptor, in the order of the wire, and
/// the SuperSpeed companion record where one is attached.
#[derive(Copy, Clone, Default, Debug, PartialEq, Eq, Structural)]
pub struct Endpoint {
    pub len: u8,
    pub descriptor_type: u8,
    pub endpoint_address: u8,
    pub attributes: u8,
    pub max_packet_size: u16,
    pub interval: u8,
    pub ssc: Option<SuperSpeedCmp>,
}

/// The SuperSpeed endpoint companion record.
#[derive(Clone, Copy, Debug, PartialEq, Eq, Structural)]
pub struct SuperSpeedCmp {
    pub kind: u8,
    pub max_burst: u8,
    pub attributes: u8,
    pub bytes_per_interval: u16,
}

/// The kind of an endpoint: its transfer type and its direction.
#[derive(Copy, Clone, Debug, Ord, PartialOrd, Eq, PartialEq, Hash, Structural)]
pub enum EndpointType {
    /// Not Valid.
    NotValid,
    /// Isoch Out.
    IsochOut,
    /// Bulk Out.
    BulkOut,
    /// Interrupt Out.
    InterruptOut,
    /// Control Bidirectional.
    Control,
    /// Isoch In.
    IsochIn,
    /// Bulk In.
    BulkIn,
    /// Interrupt In.
    InterruptIn,
}

/// Two to the power `exponent`, for the bit positions of a byte.
pub open spec fn spec_bit_weight(exponent: nat) -> nat {
    if exponent == 0 {
        1
    } else if exponent == 1 {
        2
    } else if exponent == 2 {
        4
    } else if exponent == 3 {
        8
    } else if exponent == 4 {
        16
    } else if exponent == 5 {
        32
    } else if exponent == 6 {
        64
    } else if exponent == 7 {
        128
    } else {
        256
    }
}

/// Whether bit `bit` of `value` is set; bit 0 is the least significant.
pub open spec fn spec_get_bit(value: u8, bit: nat) -> bool {
    (value as nat / spec_bit_weight(bit)) % 2 == 1
}

/// The bits `low` to `high` of `value`, both included, moved down to bit 0.
pub open spec fn spec_get_bits(value: u8, low: nat, high: nat) -> u8 {
    ((value as nat % spec_bit_weight(high + 1)) / spec_bit_weight(low)) as u8
}

/// Bit `bit` of `value`, read by `BitField::get_bit` of the crate bit_field.
/// That method panics for a bit index outside the value, here 8 and above,
/// and otherwise tests the value against a mask of the one bit.
#[verifier::external_body]
fn get_bit(value: u8, bit: usize) -> (set: bool)
    requires
        bit < 8,
    ensures
        set == spec_get_bit(value, bit as nat),
{
    value.get_bit(bit)
}

/// The bits `low..=high` of `value`, read by `BitField::get_bits` of the
/// crate bit_field. That method panics unless the range lies in the value
/// and is in order; otherwise it shifts away the bits above the range, then
/// those below it.
#[verifier::external_body]
fn get_bits(value: u8, low: usize, high: usize) -> (bits: u8)
    requires
        low <= high < 8,
    ensures
        bits == spec_get_bits(value, low as nat, high as nat),
{
    value.get_bits(low..=high)
}

impl EndpointType {
    /// The kind with the number `code`, if there is one.
    pub open spec fn spec_from_u8(code: u8) -> Option<EndpointType> {
        if code == 0 {
            Some(EndpointType::NotValid)
        } else if code == 1 {
            Some(EndpointType::IsochOut)
        } else if code == 2 {
            Some(EndpointType::BulkOut)
        } else if code == 3 {
            Some(EndpointType::InterruptOut)
        } else if code == 4 {
            Some(EndpointType::Control)
        } else if code == 5 {
            Some(EndpointType::IsochIn)
        } else if code == 6 {
            Some(EndpointType::BulkIn)
        } else if code == 7 {
            Some(EndpointType::InterruptIn)
        } else {
            None
        }
    }

    /// The number of the kind.
    pub open spec fn spec_to_u8(self) -> u8 {
        match self {
            EndpointType::NotValid => 0,
            EndpointType::IsochOut => 1,
            EndpointType::BulkOut => 2,
            EndpointType::InterruptOut => 3,
            EndpointType::Control => 4,
            EndpointType::IsochIn => 5,
            EndpointType::BulkIn => 6,
            EndpointType::InterruptIn => 7,
        }
    }

    /// The kind with the number `code`, if there is one.
    pub fn from_u8(code: u8) -> (found: Option<EndpointType>)
        ensures
            found == Self::spec_from_u8(code),
    {
        match code {
            0 => Some(EndpointType::NotValid),
            1 => Some(EndpointType::IsochOut),
            2 => Some(EndpointType::BulkOut),
            3 => Some(EndpointType::InterruptOut),
            4 => Some(EndpointType::Control),
            5 => Some(EndpointType::IsochIn),
            6 => Some(EndpointType::BulkIn),
            7 => Some(EndpointType::InterruptIn),
            _ => None,
        }
    }

    /// The number of the kind.
    pub fn to_u8(&self) -> (code: u8)
        ensures
            code == self.spec_to_u8(),
            Self::spec_from_u8(code) == Some(*self),
    {
        match self {
            EndpointType::NotValid => 0,
            EndpointType::IsochOut => 1,
            EndpointType::BulkOut => 2,
            EndpointType::InterruptOut => 3,
            EndpointType::Control => 4,
            EndpointType::IsochIn => 5,
            EndpointType::BulkIn => 6,
            EndpointType::InterruptIn => 7,
        }
    }
}

impl Endpoint {
    /// The record that the first 7 bytes of `bytes` hold. No companion record
    /// is attached.
    pub open spec fn spec_from_bytes(bytes: Seq<u8>) -> Endpoint
        recommends
            bytes.len() >= ENDPOINT_DESCRIPTOR_SIZE,
    {
        Endpoint {
            len: bytes[0],
            descriptor_type: bytes[1],
            endpoint_address: bytes[2],
            attributes: bytes[3],
            max_packet_size: spec_u16_le(bytes[4], bytes[5]),
            interval: bytes[6],
            ssc: None,
        }
    }

    /// The 7 bytes that hold the fixed fields.
    pub open spec fn spec_to_bytes(self) -> Seq<u8> {
        seq![
            self.len,
            self.descriptor_type,
            self.endpoint_address,
            self.attributes,
            spec_lo_byte(self.max_packet_size),
            spec_hi_byte(self.max_packet_size),
            self.interval,
        ]
    }

    /// Decodes the record at the start of `input`, field by field. `None`
    /// where `input` is shorter than the record.
    pub fn from_bytes(input: &[u8]) -> (decoded: Option<Endpoint>)
        ensures
            decoded == if input@.len() >= ENDPOINT_DESCRIPTOR_SIZE {
                Some(Endpoint::spec_from_bytes(input@))
            } else {
                None
            },
    {
        if input.len() < ENDPOINT_DESCRIPTOR_SIZE {
            return None;
        }
        Some(
            Endpoint {
                len: input[0],
                descriptor_type: input[1],
                endpoint_address: input[2],
                attributes: input[3],
                max_packet_size: u16_le(input[4], input[5]),
                interval: input[6],
                ssc: None,
            },
        )
    }

    /// Encodes the fixed fields as they stand on the wire.
    pub fn to_bytes(&self) -> (bytes: Vec<u8>)
        ensures
            bytes@ == self.spec_to_bytes(),
    {
        let mut bytes: Vec<u8> = Vec::new();
        bytes.push(self.len);
        bytes.push(self.descriptor_type);
        bytes.push(self.endpoint_address);
        bytes.push(self.attributes);
        bytes.push(lo_byte(self.max_packet_size));
        bytes.push(hi_byte(self.max_packet_size));
        bytes.push(self.interval);
        assert(bytes@ =~= self.spec_to_bytes());
        bytes
    }

    /// Decoding an endpoint descriptor and encoding the record again gives
    /// back the 7 bytes that were decoded.
    pub proof fn lemma_decode_then_encode(bytes: Seq<u8>)
        requires
            bytes.len() >= ENDPOINT_DESCRIPTOR_SIZE,
        ensures
            Endpoint::spec_from_bytes(bytes).spec_to_bytes() == bytes.subrange(
                0,
                ENDPOINT_DESCRIPTOR_SIZE as int,
            ),
    {
        assert(Endpoint::spec_from_bytes(bytes).spec_to_bytes() =~= bytes.subrange(
            0,
            ENDPOINT_DESCRIPTOR_SIZE as int,
        ));
    }

    /// The number of the kind of the endpoint: 4 where no attribute bit is
    /// set; else the transfer type, bits 0 and 1 of the attributes, plus 4
    /// where bit 7 of the address says that the endpoint is an input.
    pub open spec fn spec_endpoint_type_code(self) -> u8 {
        if self.attributes == 0 {
            4
        } else {
            (spec_get_bits(self.attributes, 0, 1) + if spec_get_bit(self.endpoint_address, 7) {
                4int
            } else {
                0int
            }) as u8
        }
    }

    /// The kind of the endpoint.
    pub open spec fn spec_endpoint_type(self) -> EndpointType {
        EndpointType::spec_from_u8(self.spec_endpoint_type_code()).unwrap()
    }

    /// The kind of the endpoint: its transfer type and direction.
    pub fn endpoint_type(&self) -> (kind: EndpointType)
        ensures
            kind == self.spec_endpoint_type(),
            kind.spec_to_u8() == self.spec_endpoint_type_code(),
            self.attributes != 0 ==> kind.spec_to_u8() == self.attributes % 4 + (
            if self.endpoint_address >= 128 {
                4int
            } else {
                0int
            }),
    {
        let code: u8 = if self.attributes == 0 {
            4
        } else {
            let transfer: u8 = get_bits(self.attributes, 0, 1);
            let direction: u8 = if get_bit(self.endpoint_address, 7) {
                4
            } else {
                0
            };
            transfer + direction
        };
        match EndpointType::from_u8(code) {
            Some(kind) => kind,
            None => EndpointType::NotValid,
        }
    }

    /// The interval that the controller is given for this endpoint. The
    /// stored interval must leave room: at full and low speed 2 is added for
    /// an isochronous endpoint and 3 for any other, at higher speeds 1 is
    /// taken away.
    pub fn calc_actual_interval(&self, port_speed: PortSpeed) -> (interval: u8)
        requires
            match port_speed {
                PortSpeed::FullSpeed | PortSpeed::LowSpeed => if self.spec_endpoint_type()
                    == EndpointType::IsochOut || self.spec_endpoint_type()
                    == EndpointType::IsochIn {
                    self.interval <= 253
                } else {
                    self.interval <= 252
                },
                _ => self.interval >= 1,
            },
        ensures
            interval == match port_speed {
                PortSpeed::FullSpeed | PortSpeed::LowSpeed => if self.spec_endpoint_type()
                    == EndpointType::IsochOut || self.spec_endpoint_type()
                    == EndpointType::IsochIn {
                    self.interval + 2
                } else {
                    self.interval + 3
                },
                _ => self.interval - 1,
            },
    {
        match port_speed {
            PortSpeed::FullSpeed | PortSpeed::LowSpeed => {
                match self.endpoint_type() {
                    EndpointType::IsochOut | EndpointType::IsochIn => self.interval + 2,
                    _ => self.interval + 3,
                }
            },
            _ => self.interval - 1,
        }
    }

    /// The stream count of a bulk-out endpoint, from its companion record;
    /// `None` for any other endpoint. A bulk-out endpoint must have its
    /// companion record attached.
    pub fn max_streams(&self) -> (streams: Option<u8>)
        requires
            self.spec_endpoint_type() == EndpointType::BulkOut ==> self.ssc is Some,
        ensures
            streams == if self.spec_endpoint_type() == EndpointType::BulkOut {
                Some(self.ssc.unwrap().attributes & 0x1f)
            } else {
                None
            },
    {
        if self.is_bulk_out() {
            Some(self.calculate_max_streams())
        } else {
            None
        }
    }

    /// Whether the endpoint is a bulk output.
    pub fn is_bulk_out(&self) -> (bulk_out: bool)
        ensures
            bulk_out == (self.spec_endpoint_type() == EndpointType::BulkOut),
    {
        match self.endpoint_type() {
            EndpointType::BulkOut => true,
            _ => false,
        }
    }

    /// The low five attribute bits of the companion record for a bulk-out
    /// endpoint, 0 for any other. The companion record must be attached.
    pub fn calculate_max_streams(&self) -> (streams: u8)
        requires
            self.ssc is Some,
        ensures
            streams == if self.spec_endpoint_type() == EndpointType::BulkOut {
                self.ssc.unwrap().attributes & 0x1f
            } else {
                0
            },
    {
        let bulk_out = self.is_bulk_out();
        match &self.ssc {
            Some(ssc) => if bulk_out {
                ssc.attributes & 0x1f
            } else {
                0
            },
            None => 0,
        }
    }

    /// Whether the endpoint runs at SuperSpeedPlus: never, as decoded here.
    pub fn is_superspeedplus(&self) -> (plus: bool)
        ensures
            !plus,
    {
        false
    }

    /// The burst multiplier of an isochronous output: the low two attribute
    /// bits of the companion record, where `lec` is off and the record is
    /// attached; 0 in every other case.
    pub fn mult(&self, lec: bool) -> (mult: u8)
        ensures
            mult == if !lec && self.spec_endpoint_type() == EndpointType::IsochOut
                && self.ssc is Some {
                self.ssc.unwrap().attributes & 0x3
            } else {
                0
            },
    {
        let isoch_out = match self.endpoint_type() {
            EndpointType::IsochOut => true,
            _ => false,
        };
        if !lec && isoch_out {
            if self.is_superspeedplus() {
                return 0;
            }
            match &self.ssc {
                Some(ssc) => ssc.attributes & 0x3,
                None => 0,
            }
        } else {
            0
        }
    }

    /// The index of the endpoint in the controller's device context: twice
    /// the endpoint number, bits 0 to 3 of the address, plus 1 for an input.
    pub open spec fn spec_doorbell_value(self) -> u32 {
        (2 * spec_get_bits(self.endpoint_address, 0, 3) + if spec_get_bit(
            self.endpoint_address,
            7,
        ) {
            1int
        } else {
            0int
        }) as u32
    }

    /// The index of the endpoint in the controller's device context.
    pub fn doorbell_value_aka_dci(&self) -> (dci: u32)
        ensures
            dci == self.spec_doorbell_value(),
            dci == 2 * (self.endpoint_address % 16) + if self.endpoint_address >= 128 {
                1int
            } else {
                0int
            },
    {
        let number: u8 = get_bits(self.endpoint_address, 0, 3);
        let input: u32 = if get_bit(self.endpoint_address, 7) {
            1
        } else {
            0
        };
        2 * (number as u32) + input
    }
}

impl PortSpeed {
    /// The speed with the number `code`, if there is one.
    pub open spec fn spec_from_u8(code: u8) -> Option<PortSpeed> {
        if code == 1 {
            Some(PortSpeed::FullSpeed)
        } else if code == 2 {
            Some(PortSpeed::LowSpeed)
        } else if code == 3 {
            Some(PortSpeed::HighSpeed)
        } else if code == 4 {
            Some(PortSpeed::SuperSpeed)
        } else if code == 5 {
            Some(PortSpeed::SuperSpeedPlus)
        } else {
            None
        }
    }

    /// The speed with the number `code`, if there is one.
    pub fn from_u8(code: u8) -> (found: Option<PortSpeed>)
        ensures
            found == Self::spec_from_u8(code),
    {
        match code {
            1 => Some(PortSpeed::FullSpeed),
            2 => Some(PortSpeed::LowSpeed),
            3 => Some(PortSpeed::HighSpeed),
            4 => Some(PortSpeed::SuperSpeed),
            5 => Some(PortSpeed::SuperSpeedPlus),
            _ => None,
        }
    }
}

} // verus!
