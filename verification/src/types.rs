//! Wire vocabulary: type tags, message types, identifier records and the
//! error taxonomy of the binary protocol.
use vstd::prelude::*;
use crate::transport::fs_view;
use faststr::FastStr;

verus! {

/// Version marker carried in the high 16 bits of every message header word.
pub const VERSION_1: u32 = 0x80010000;

/// Mask that selects the version bits of a message header word.
pub const VERSION_MASK: u32 = 0xffff0000;

/// One-byte wire type tags. Every value on the wire is introduced by one of
/// these codes (except inside fixed-width positions where the type is implied).
#[derive(Clone, Copy, PartialEq, Eq, Structural, Debug, Hash)]
pub enum TType {
    Stop,
    Void,
    Bool,
    Byte,
    Double,
    I16,
    I32,
    I64,
    String,
    Struct,
    TMap,
    TSet,
    List,
    Uuid,
}

impl TType {
    /// The fixed one-byte code this tag is written as.
    pub open spec fn spec_code(self) -> u8 {
        match self {
            TType::Stop => 0,
            TType::Void => 1,
            TType::Bool => 2,
            TType::Byte => 3,
            TType::Double => 4,
            TType::I16 => 6,
            TType::I32 => 8,
            TType::I64 => 10,
            TType::String => 11,
            TType::Struct => 12,
            TType::TMap => 13,
            TType::TSet => 14,
            TType::List => 15,
            TType::Uuid => 16,
        }
    }

    #[verifier::when_used_as_spec(spec_code)]
    pub fn code(self) -> (r: u8)
        ensures
            r == self.spec_code(),
    {
        match self {
            TType::Stop => 0,
            TType::Void => 1,
            TType::Bool => 2,
            TType::Byte => 3,
            TType::Double => 4,
            TType::I16 => 6,
            TType::I32 => 8,
            TType::I64 => 10,
            TType::String => 11,
            TType::Struct => 12,
            TType::TMap => 13,
            TType::TSet => 14,
            TType::List => 15,
            TType::Uuid => 16,
        }
    }
}

/// The type tag a wire byte stands for; `None` for every byte without a
/// corresponding tag, which decode must reject.
pub open spec fn spec_type_from_u8(b: u8) -> Option<TType> {
    if b == 0 {
        Some(TType::Stop)
    } else if b == 1 {
        Some(TType::Void)
    } else if b == 2 {
        Some(TType::Bool)
    } else if b == 3 {
        Some(TType::Byte)
    } else if b == 4 {
        Some(TType::Double)
    } else if b == 6 {
        Some(TType::I16)
    } else if b == 8 {
        Some(TType::I32)
    } else if b == 10 {
        Some(TType::I64)
    } else if b == 11 {
        Some(TType::String)
    } else if b == 12 {
        Some(TType::Struct)
    } else if b == 13 {
        Some(TType::TMap)
    } else if b == 14 {
        Some(TType::TSet)
    } else if b == 15 {
        Some(TType::List)
    } else if b == 16 {
        Some(TType::Uuid)
    } else {
        None
    }
}

/// Turns a wire byte into its type tag, or an `InvalidData` protocol error
/// for a byte with no corresponding tag.
pub fn field_type_from_u8(ttype: u8) -> (r: Result<TType, ProtocolError>)
    ensures
        match r {
            Ok(t) => spec_type_from_u8(ttype) == Some(t),
            Err(e) => spec_type_from_u8(ttype) is None && e.kind == ProtocolErrorKind::InvalidData,
        },
{
    match ttype {
        0 => Ok(TType::Stop),
        1 => Ok(TType::Void),
        2 => Ok(TType::Bool),
        3 => Ok(TType::Byte),
        4 => Ok(TType::Double),
        6 => Ok(TType::I16),
        8 => Ok(TType::I32),
        10 => Ok(TType::I64),
        11 => Ok(TType::String),
        12 => Ok(TType::Struct),
        13 => Ok(TType::TMap),
        14 => Ok(TType::TSet),
        15 => Ok(TType::List),
        16 => Ok(TType::Uuid),
        _ => Err(new_protocol_error(ProtocolErrorKind::InvalidData, "invalid ttype".to_owned())),
    }
}

/// The four kinds of RPC message envelope.
#[derive(Clone, Copy, PartialEq, Eq, Structural, Debug)]
pub enum TMessageType {
    Call,
    Reply,
    Exception,
    OneWay,
}

impl TMessageType {
    /// The low-nibble code this message type is written as.
    pub open spec fn spec_code(self) -> u8 {
        match self {
            TMessageType::Call => 1,
            TMessageType::Reply => 2,
            TMessageType::Exception => 3,
            TMessageType::OneWay => 4,
        }
    }

    #[verifier::when_used_as_spec(spec_code)]
    pub fn code(self) -> (r: u8)
        ensures
            r == self.spec_code(),
    {
        match self {
            TMessageType::Call => 1,
            TMessageType::Reply => 2,
            TMessageType::Exception => 3,
            TMessageType::OneWay => 4,
        }
    }

    /// The message type a code stands for; `None` outside 1 through 4.
    pub open spec fn spec_from_u8(b: u8) -> Option<TMessageType> {
        if b == 1 {
            Some(TMessageType::Call)
        } else if b == 2 {
            Some(TMessageType::Reply)
        } else if b == 3 {
            Some(TMessageType::Exception)
        } else if b == 4 {
            Some(TMessageType::OneWay)
        } else {
            None
        }
    }

    #[verifier::when_used_as_spec(spec_from_u8)]
    pub fn from_u8(b: u8) -> (r: Option<TMessageType>)
        ensures
            r == TMessageType::spec_from_u8(b),
    {
        match b {
            1 => Some(TMessageType::Call),
            2 => Some(TMessageType::Reply),
            3 => Some(TMessageType::Exception),
            4 => Some(TMessageType::OneWay),
            _ => None,
        }
    }
}

/// What decoding the leading 32-bit word of a message header yields: the
/// message type carried in its low nibble, or the kind of failure.
/// A positive word is a legacy unversioned header and is rejected outright;
/// an unknown type nibble is invalid data; version bits other than the
/// version marker are a bad version.
pub open spec fn spec_validate_version(size: i32) -> Result<TMessageType, DecodeErrorKind> {
    if size > 0 {
        Err(DecodeErrorKind::BadVersion)
    } else if TMessageType::spec_from_u8(((size as u32) & 0xf) as u8) is None {
        Err(DecodeErrorKind::InvalidData)
    } else if ((size as u32) & VERSION_MASK) != VERSION_1 {
        Err(DecodeErrorKind::BadVersion)
    } else {
        Ok(TMessageType::spec_from_u8(((size as u32) & 0xf) as u8)->Some_0)
    }
}

/// Validates the leading word of a message header, exactly as
/// `spec_validate_version` describes, shared by the buffer reader and the
/// streaming reader.
pub fn validate_message_version(size: i32) -> (r: Result<TMessageType, DecodeError>)
    ensures
        r matches Ok(t) ==> spec_validate_version(size) == Ok::<TMessageType, DecodeErrorKind>(t),
        r matches Err(e) ==> spec_validate_version(size) matches Err(k) && e.kind == k,
        r is Ok <==> spec_validate_version(size) is Ok,
{
    if size > 0 {
        return Err(
            DecodeError::new(
                DecodeErrorKind::BadVersion,
                "Missing version in ReadMessageBegin".to_owned(),
            ),
        );
    }
    let type_u8 = #[verifier::truncate] (((size as u32) & 0xf) as u8);
    match TMessageType::from_u8(type_u8) {
        None => Err(
            DecodeError::new(DecodeErrorKind::InvalidData, "invalid message type".to_owned()),
        ),
        Some(mt) => {
            let version = #[verifier::truncate] (size as u32) & VERSION_MASK;
            if version != VERSION_1 {
                Err(
                    DecodeError::new(
                        DecodeErrorKind::BadVersion,
                        "Bad version in ReadMessageBegin".to_owned(),
                    ),
                )
            } else {
                Ok(mt)
            }
        },
    }
}

/// Identifier of one RPC message envelope.
#[derive(Clone, Debug)]
pub struct TMessageIdentifier {
    pub name: FastStr,
    pub message_type: TMessageType,
    pub sequence_number: i32,
}

impl TMessageIdentifier {
    pub fn new(name: FastStr, message_type: TMessageType, sequence_number: i32) -> (r:
        TMessageIdentifier)
        ensures
            fs_view(r.name) == fs_view(name),
            r.message_type == message_type,
            r.sequence_number == sequence_number,
    {
        TMessageIdentifier { name, message_type, sequence_number }
    }
}

/// Identifier of one struct field. The wire format never carries the name;
/// the `Stop` pseudo-field ends a struct and carries no id.
#[derive(Clone, Debug)]
pub struct TFieldIdentifier {
    pub name: Option<String>,
    pub field_type: TType,
    pub id: Option<i16>,
}

impl TFieldIdentifier {
    pub fn new(name: Option<String>, field_type: TType, id: Option<i16>) -> (r: TFieldIdentifier)
        ensures
            r.name == name,
            r.field_type == field_type,
            r.id == id,
    {
        TFieldIdentifier { name, field_type, id }
    }
}

/// Identifier of a struct; carried only at the API boundary, the wire format
/// emits nothing for struct begin or end.
#[derive(Clone, Copy, Debug)]
pub struct TStructIdentifier {
    pub name: &'static str,
}

impl TStructIdentifier {
    pub fn new(name: &'static str) -> (r: TStructIdentifier)
        ensures
            r.name@ == name@,
    {
        TStructIdentifier { name }
    }
}

/// Identifier of a list value: element tag and element count.
#[derive(Clone, Copy, Debug)]
pub struct TListIdentifier {
    pub element_type: TType,
    pub size: usize,
}

impl TListIdentifier {
    pub fn new(element_type: TType, size: usize) -> (r: TListIdentifier)
        ensures
            r.element_type == element_type,
            r.size == size,
    {
        TListIdentifier { element_type, size }
    }
}

/// Identifier of a set value: element tag and element count.
#[derive(Clone, Copy, Debug)]
pub struct TSetIdentifier {
    pub element_type: TType,
    pub size: usize,
}

impl TSetIdentifier {
    pub fn new(element_type: TType, size: usize) -> (r: TSetIdentifier)
        ensures
            r.element_type == element_type,
            r.size == size,
    {
        TSetIdentifier { element_type, size }
    }
}

/// Identifier of a map value: key tag, value tag and entry count.
#[derive(Clone, Copy, Debug)]
pub struct TMapIdentifier {
    pub key_type: TType,
    pub value_type: TType,
    pub size: usize,
}

impl TMapIdentifier {
    pub fn new(key_type: TType, value_type: TType, size: usize) -> (r: TMapIdentifier)
        ensures
            r.key_type == key_type,
            r.value_type == value_type,
            r.size == size,
    {
        TMapIdentifier { key_type, value_type, size }
    }
}

/// What went wrong while decoding; terminal for the current message.
#[derive(Clone, Copy, PartialEq, Eq, Structural, Debug)]
pub enum DecodeErrorKind {
    /// The message header lacked or mismatched the version marker.
    BadVersion,
    /// A wire byte had no corresponding vocabulary entry, or a payload was
    /// not valid text where text was required.
    InvalidData,
    /// The underlying stream failed; raised only by streaming transports.
    IOError,
}

/// A decode failure: its kind and a human-readable detail string.
#[derive(Clone, Debug)]
pub struct DecodeError {
    pub kind: DecodeErrorKind,
    pub message: String,
}

impl DecodeError {
    pub fn new(kind: DecodeErrorKind, message: String) -> (r: DecodeError)
        ensures
            r.kind == kind,
            r.message@ == message@,
    {
        DecodeError { kind, message }
    }
}

/// An encode failure; the buffer writers themselves never produce one, the
/// variant exists for transports that can reject writes.
#[derive(Clone, Debug)]
pub struct EncodeError {
    pub message: String,
}

/// Kinds of protocol-level faults shared by encode and decode helpers.
#[derive(Clone, Copy, PartialEq, Eq, Structural, Debug)]
pub enum ProtocolErrorKind {
    Unknown,
    InvalidData,
    NegativeSize,
    BadVersion,
}

/// A protocol-level fault: its kind and a human-readable detail string.
#[derive(Clone, Debug)]
pub struct ProtocolError {
    pub kind: ProtocolErrorKind,
    pub message: String,
}

/// Builds a protocol error of the given kind.
pub fn new_protocol_error(kind: ProtocolErrorKind, message: String) -> (r: ProtocolError)
    ensures
        r.kind == kind,
        r.message@ == message@,
{
    ProtocolError { kind, message }
}

} // verus!
