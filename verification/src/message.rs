//! The tagged message value and its fixed-size binary form.
//!
//! A message is a discriminant selecting one payload variant. The
//! discriminants carry fixed integer values on the wire: they are part of
//! the contract with the external runtime and are never renumbered.

use vstd::prelude::*;
use vstd::bytes::{spec_u32_to_le_bytes, spec_u64_to_le_bytes, u32_to_le_bytes, u64_to_le_bytes};
use vstd::bytes::{lemma_auto_spec_u32_to_from_le_bytes, lemma_auto_spec_u64_to_from_le_bytes};

verus! {

/// Number of bytes the fixed-size binary form of a message occupies:
/// four tag bytes, four padding bytes, eight payload bytes.
pub const ENCODED_LEN: usize = 16;

/// The two's-complement bit pattern of a signed 64-bit value.
pub open spec fn spec_i64_bits(v: i64) -> u64 {
    if v >= 0 {
        v as u64
    } else {
        ((v as int) + 0x1_0000_0000_0000_0000) as u64
    }
}

/// The two's-complement bit pattern of a signed 64-bit value.
pub fn i64_bits(v: i64) -> (bits: u64)
    ensures
        bits == spec_i64_bits(v),
{
    if v >= 0 {
        v as u64
    } else {
        ((v as i128) + 0x1_0000_0000_0000_0000i128) as u64
    }
}

/// The two's-complement bit pattern of a signed 32-bit value.
pub open spec fn spec_i32_bits(v: i32) -> u32 {
    if v >= 0 {
        v as u32
    } else {
        ((v as int) + 0x1_0000_0000) as u32
    }
}

/// The two's-complement bit pattern of a signed 32-bit value.
pub fn i32_bits(v: i32) -> (bits: u32)
    ensures
        bits == spec_i32_bits(v),
{
    if v >= 0 {
        v as u32
    } else {
        ((v as i64) + 0x1_0000_0000i64) as u32
    }
}

/// Identifier of a destination mailbox in the external runtime; purely a
/// handle, no ownership implied.
pub type DartPort = i64;

/// Discriminant of a tagged message value.
#[derive(Clone, Copy, Debug, PartialEq, Eq, Structural)]
pub enum DartCObjectType {
    Null,
    Bool,
    Int32,
    Int64,
    Double,
    Text,
    Array,
    TypedData,
    ExternalTypedData,
    SendPort,
    Capability,
    Unsupported,
}

impl DartCObjectType {
    /// The fixed integer this discriminant takes on the wire.
    pub open spec fn spec_wire_value(self) -> u32 {
        match self {
            DartCObjectType::Null => 0u32,
            DartCObjectType::Bool => 1u32,
            DartCObjectType::Int32 => 2u32,
            DartCObjectType::Int64 => 3u32,
            DartCObjectType::Double => 4u32,
            DartCObjectType::Text => 5u32,
            DartCObjectType::Array => 6u32,
            DartCObjectType::TypedData => 7u32,
            DartCObjectType::ExternalTypedData => 8u32,
            DartCObjectType::SendPort => 9u32,
            DartCObjectType::Capability => 10u32,
            DartCObjectType::Unsupported => 11u32,
        }
    }

    /// The fixed integer this discriminant takes on the wire.
    pub fn wire_value(&self) -> (v: u32)
        ensures
            v == self.spec_wire_value(),
    {
        match *self {
            DartCObjectType::Null => 0u32,
            DartCObjectType::Bool => 1u32,
            DartCObjectType::Int32 => 2u32,
            DartCObjectType::Int64 => 3u32,
            DartCObjectType::Double => 4u32,
            DartCObjectType::Text => 5u32,
            DartCObjectType::Array => 6u32,
            DartCObjectType::TypedData => 7u32,
            DartCObjectType::ExternalTypedData => 8u32,
            DartCObjectType::SendPort => 9u32,
            DartCObjectType::Capability => 10u32,
            DartCObjectType::Unsupported => 11u32,
        }
    }
}

/// Kind of element a byte buffer carries.
#[derive(Clone, Copy, Debug, PartialEq, Eq, Structural)]
pub enum DartTypedDataType {
    ByteData,
    Int8,
    Uint8,
    Uint8Clamped,
    Int16,
    Uint16,
    Int32,
    Uint32,
    Int64,
    Uint64,
    Float32,
    Float64,
    Float32x4,
    Invalid,
}

impl DartTypedDataType {
    /// The fixed integer this element kind takes on the wire.
    pub open spec fn spec_wire_value(self) -> u32 {
        match self {
            DartTypedDataType::ByteData => 0u32,
            DartTypedDataType::Int8 => 1u32,
            DartTypedDataType::Uint8 => 2u32,
            DartTypedDataType::Uint8Clamped => 3u32,
            DartTypedDataType::Int16 => 4u32,
            DartTypedDataType::Uint16 => 5u32,
            DartTypedDataType::Int32 => 6u32,
            DartTypedDataType::Uint32 => 7u32,
            DartTypedDataType::Int64 => 8u32,
            DartTypedDataType::Uint64 => 9u32,
            DartTypedDataType::Float32 => 10u32,
            DartTypedDataType::Float64 => 11u32,
            DartTypedDataType::Float32x4 => 12u32,
            DartTypedDataType::Invalid => 13u32,
        }
    }

    /// The fixed integer this element kind takes on the wire.
    pub fn wire_value(&self) -> (v: u32)
        ensures
            v == self.spec_wire_value(),
    {
        match *self {
            DartTypedDataType::ByteData => 0u32,
            DartTypedDataType::Int8 => 1u32,
            DartTypedDataType::Uint8 => 2u32,
            DartTypedDataType::Uint8Clamped => 3u32,
            DartTypedDataType::Int16 => 4u32,
            DartTypedDataType::Uint16 => 5u32,
            DartTypedDataType::Int32 => 6u32,
            DartTypedDataType::Uint32 => 7u32,
            DartTypedDataType::Int64 => 8u32,
            DartTypedDataType::Uint64 => 9u32,
            DartTypedDataType::Float32 => 10u32,
            DartTypedDataType::Float64 => 11u32,
            DartTypedDataType::Float32x4 => 12u32,
            DartTypedDataType::Invalid => 13u32,
        }
    }
}

/// Reference to a destination mailbox: its identifier and the identifier
/// of the mailbox it originated from, for provenance.
#[derive(Clone, Copy, Debug, PartialEq, Eq, Structural)]
pub struct DartNativeSendPort {
    pub id: DartPort,
    pub origin_id: DartPort,
}

/// Ordered sequence of messages.
#[derive(Debug, PartialEq, Eq)]
pub struct DartNativeArray {
    pub values: Vec<DartCObject>,
}

/// Byte buffer owned by the message, with the kind of element it carries.
#[derive(Debug, PartialEq, Eq)]
pub struct DartNativeTypedData {
    pub type_: DartTypedDataType,
    pub values: Vec<u8>,
}

/// Byte buffer owned outside the message: the buffer, its peer and its
/// release callback live in the external runtime's world and are carried
/// here as opaque handles (in practice, addresses the embedder maps back).
#[derive(Clone, Copy, Debug, PartialEq, Eq, Structural)]
pub struct DartNativeExternalTypedData {
    pub type_: DartTypedDataType,
    pub length: usize,
    pub data: u64,
    pub peer: u64,
    pub release_callback: u64,
}

/// A tagged message value: one payload variant per discriminant, the
/// pairing enforced by the type itself. The floating-point payload is
/// carried as its raw bit pattern; the embedder converts at the boundary.
#[derive(Debug, PartialEq, Eq)]
pub enum DartCObject {
    Null,
    Bool(bool),
    Int32(i32),
    Int64(i64),
    Double(u64),
    Text(String),
    Array(DartNativeArray),
    TypedData(DartNativeTypedData),
    ExternalTypedData(DartNativeExternalTypedData),
    SendPort(DartNativeSendPort),
    Capability(i64),
    Unsupported,
}

impl DartCObject {
    /// The discriminant selecting this message's payload variant.
    pub open spec fn spec_type(self) -> DartCObjectType {
        match self {
            DartCObject::Null => DartCObjectType::Null,
            DartCObject::Bool(_) => DartCObjectType::Bool,
            DartCObject::Int32(_) => DartCObjectType::Int32,
            DartCObject::Int64(_) => DartCObjectType::Int64,
            DartCObject::Double(_) => DartCObjectType::Double,
            DartCObject::Text(_) => DartCObjectType::Text,
            DartCObject::Array(_) => DartCObjectType::Array,
            DartCObject::TypedData(_) => DartCObjectType::TypedData,
            DartCObject::ExternalTypedData(_) => DartCObjectType::ExternalTypedData,
            DartCObject::SendPort(_) => DartCObjectType::SendPort,
            DartCObject::Capability(_) => DartCObjectType::Capability,
            DartCObject::Unsupported => DartCObjectType::Unsupported,
        }
    }

    /// The discriminant selecting this message's payload variant.
    pub fn message_type(&self) -> (t: DartCObjectType)
        ensures
            t == self.spec_type(),
    {
        match self {
            DartCObject::Null => DartCObjectType::Null,
            DartCObject::Bool(_) => DartCObjectType::Bool,
            DartCObject::Int32(_) => DartCObjectType::Int32,
            DartCObject::Int64(_) => DartCObjectType::Int64,
            DartCObject::Double(_) => DartCObjectType::Double,
            DartCObject::Text(_) => DartCObjectType::Text,
            DartCObject::Array(_) => DartCObjectType::Array,
            DartCObject::TypedData(_) => DartCObjectType::TypedData,
            DartCObject::ExternalTypedData(_) => DartCObjectType::ExternalTypedData,
            DartCObject::SendPort(_) => DartCObjectType::SendPort,
            DartCObject::Capability(_) => DartCObjectType::Capability,
            DartCObject::Unsupported => DartCObjectType::Unsupported,
        }
    }

    /// Whether the payload fits inline in the eight-byte payload slot of
    /// the fixed-size binary form: no text, sequence, buffer or port
    /// record carried out of line.
    pub open spec fn is_inline(self) -> bool {
        match self {
            DartCObject::Null => true,
            DartCObject::Bool(_) => true,
            DartCObject::Int32(_) => true,
            DartCObject::Int64(_) => true,
            DartCObject::Double(_) => true,
            DartCObject::Text(_) => false,
            DartCObject::Array(_) => false,
            DartCObject::TypedData(_) => false,
            DartCObject::ExternalTypedData(_) => false,
            DartCObject::SendPort(_) => false,
            DartCObject::Capability(_) => true,
            DartCObject::Unsupported => true,
        }
    }

    /// Whether the payload fits inline in the eight-byte payload slot of
    /// the fixed-size binary form.
    pub fn has_inline_payload(&self) -> (r: bool)
        ensures
            r == self.is_inline(),
    {
        match self {
            DartCObject::Null => true,
            DartCObject::Bool(_) => true,
            DartCObject::Int32(_) => true,
            DartCObject::Int64(_) => true,
            DartCObject::Double(_) => true,
            DartCObject::Text(_) => false,
            DartCObject::Array(_) => false,
            DartCObject::TypedData(_) => false,
            DartCObject::ExternalTypedData(_) => false,
            DartCObject::SendPort(_) => false,
            DartCObject::Capability(_) => true,
            DartCObject::Unsupported => true,
        }
    }

    /// The 64 bits standing in the payload slot of the fixed-size form:
    /// zero for payload-free variants, zero-extended two's-complement
    /// bits for the numeric ones, the raw bit pattern for the
    /// floating-point one. Out-of-line variants have no inline bits and
    /// are given zero here.
    pub open spec fn spec_inline_bits(self) -> u64
        recommends
            self.is_inline(),
    {
        match self {
            DartCObject::Null => 0u64,
            DartCObject::Bool(b) => if b {
                1u64
            } else {
                0u64
            },
            DartCObject::Int32(v) => spec_i32_bits(v) as u64,
            DartCObject::Int64(v) => spec_i64_bits(v),
            DartCObject::Double(bits) => bits,
            DartCObject::Capability(id) => spec_i64_bits(id),
            _ => 0u64,
        }
    }

    /// The 64 bits standing in the payload slot of the fixed-size form.
    pub fn inline_bits(&self) -> (bits: u64)
        ensures
            bits == self.spec_inline_bits(),
    {
        match self {
            DartCObject::Null => 0u64,
            DartCObject::Bool(b) => if *b {
                1u64
            } else {
                0u64
            },
            DartCObject::Int32(v) => i32_bits(*v) as u64,
            DartCObject::Int64(v) => i64_bits(*v),
            DartCObject::Double(bits) => *bits,
            DartCObject::Capability(id) => i64_bits(*id),
            DartCObject::Text(_) => 0u64,
            DartCObject::Array(_) => 0u64,
            DartCObject::TypedData(_) => 0u64,
            DartCObject::ExternalTypedData(_) => 0u64,
            DartCObject::SendPort(_) => 0u64,
            DartCObject::Unsupported => 0u64,
        }
    }

    /// The fixed-size binary form of an inline message: the discriminant's
    /// wire value as four little-endian bytes, four zero padding bytes,
    /// then the payload bits as eight little-endian bytes.
    pub open spec fn spec_encoding(self) -> Seq<u8>
        recommends
            self.is_inline(),
    {
        spec_u32_to_le_bytes(self.spec_type().spec_wire_value()) + seq![0u8, 0u8, 0u8, 0u8]
            + spec_u64_to_le_bytes(self.spec_inline_bits())
    }

    /// Emit the fixed-size binary form of an inline message. Its size is
    /// the fixed number of bytes the external calling convention requires.
    pub fn encode(&self) -> (bytes: Vec<u8>)
        requires
            self.is_inline(),
        ensures
            bytes@ == self.spec_encoding(),
            bytes@.len() == ENCODED_LEN,
    {
        let tag: u32 = self.message_type().wire_value();
        let mut bytes = u32_to_le_bytes(tag);
        bytes.push(0u8);
        bytes.push(0u8);
        bytes.push(0u8);
        bytes.push(0u8);
        let mut payload = u64_to_le_bytes(self.inline_bits());
        bytes.append(&mut payload);
        proof {
            lemma_auto_spec_u32_to_from_le_bytes();
            lemma_auto_spec_u64_to_from_le_bytes();
            assert(bytes@ =~= self.spec_encoding());
        }
        bytes
    }
}

} // verus!
