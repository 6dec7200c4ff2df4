//! What the worker may hand to `postRILMessage` as the bytes for a RIL
//! daemon: a string, sent as its UTF-8 bytes, or a typed array of octets.

use vstd::prelude::*;

verus! {

/// The element type of a typed array.
#[derive(Clone, Copy, Debug, PartialEq, Eq, Structural)]
pub enum ElementType {
    Int8,
    Uint8,
    Int16,
    Uint16,
    Int32,
    Uint32,
    Float32,
    Float64,
    Uint8Clamped,
    /// Any element type that the bridge does not tell apart.
    Other,
}

/// Whether each element of an array of this type is one octet.
pub open spec fn is_octet_type(t: ElementType) -> bool {
    t == ElementType::Int8 || t == ElementType::Uint8 || t == ElementType::Uint8Clamped
}

/// The data argument of `postRILMessage`, as far as the bridge looks at it.
pub enum JsArgument {
    /// A string, given by its UTF-8 encoding.
    Text(Vec<u8>),
    /// A typed array: its element type, whether its memory is shared, and
    /// its contents.
    TypedArray { element_type: ElementType, is_shared: bool, bytes: Vec<u8> },
    /// An object that is not a typed array.
    OtherObject,
    /// A primitive value other than a string.
    OtherPrimitive,
}

/// Why an argument cannot be sent to a RIL daemon.
#[derive(Clone, Copy, Debug, PartialEq, Eq, Structural)]
pub enum PayloadError {
    /// An object that is not a typed array.
    NotTypedArray,
    /// A typed array whose elements are not octets.
    NotOctets,
    /// A typed array over shared memory.
    SharedMemory,
    /// Neither a string nor an object.
    WrongArgument,
}

impl PayloadError {
    /// The text that describes the error.
    pub open spec fn message_spec(self) -> Seq<char> {
        match self {
            PayloadError::NotTypedArray => "Object passed in wasn't a typed array"@,
            PayloadError::NotOctets => "Typed array data is not octets"@,
            PayloadError::SharedMemory => "Incorrect argument. Shared memory not supported"@,
            PayloadError::WrongArgument => "Incorrect argument. Expecting a string or a typed array"@,
        }
    }

    /// The text that describes the error.
    pub fn message(&self) -> (s: String)
        ensures
            s@ == self.message_spec(),
    {
        match self {
            PayloadError::NotTypedArray => String::from_str("Object passed in wasn't a typed array"),
            PayloadError::NotOctets => String::from_str("Typed array data is not octets"),
            PayloadError::SharedMemory => String::from_str(
                "Incorrect argument. Shared memory not supported",
            ),
            PayloadError::WrongArgument => String::from_str(
                "Incorrect argument. Expecting a string or a typed array",
            ),
        }
    }
}

/// The outcome of checking an argument of `postRILMessage`.
pub open spec fn ril_payload_spec(argument: JsArgument) -> Result<Seq<u8>, PayloadError> {
    match argument {
        JsArgument::Text(bytes) => Ok(bytes@),
        JsArgument::TypedArray { element_type, is_shared, bytes } => {
            if !is_octet_type(element_type) {
                Err(PayloadError::NotOctets)
            } else if is_shared {
                Err(PayloadError::SharedMemory)
            } else {
                Ok(bytes@)
            }
        },
        JsArgument::OtherObject => Err(PayloadError::NotTypedArray),
        JsArgument::OtherPrimitive => Err(PayloadError::WrongArgument),
    }
}

/// The bytes to write to a RIL daemon for an argument of `postRILMessage`:
/// a string's UTF-8 bytes, or the contents of an unshared typed array of
/// octets; anything else is refused with the reason.
pub fn ril_payload(argument: JsArgument) -> (r: Result<Vec<u8>, PayloadError>)
    ensures
        match r {
            Ok(bytes) => ril_payload_spec(argument) == Ok::<Seq<u8>, PayloadError>(bytes@),
            Err(e) => ril_payload_spec(argument) == Err::<Seq<u8>, PayloadError>(e),
        },
{
    match argument {
        JsArgument::Text(bytes) => Ok(bytes),
        JsArgument::TypedArray { element_type, is_shared, bytes } => {
            let octets = match element_type {
                ElementType::Int8 | ElementType::Uint8 | ElementType::Uint8Clamped => true,
                _ => false,
            };
            if !octets {
                Err(PayloadError::NotOctets)
            } else if is_shared {
                Err(PayloadError::SharedMemory)
            } else {
                Ok(bytes)
            }
        },
        JsArgument::OtherObject => Err(PayloadError::NotTypedArray),
        JsArgument::OtherPrimitive => Err(PayloadError::WrongArgument),
    }
}


/// What is sent is the argument's bytes themselves: a string's UTF-8 bytes
/// are accepted whole, an unshared typed array of octets is accepted whole
/// (same length, same order), and whenever an argument is accepted the
/// bytes are exactly the ones it carries.
pub proof fn lemma_payload_is_argument_bytes(argument: JsArgument)
    ensures
        argument matches JsArgument::Text(b) ==> ril_payload_spec(argument) == Ok::<
            Seq<u8>,
            PayloadError,
        >(b@),
        argument matches JsArgument::TypedArray { element_type, is_shared, bytes } ==> (
        is_octet_type(element_type) && !is_shared ==> ril_payload_spec(argument) == Ok::<
            Seq<u8>,
            PayloadError,
        >(bytes@)),
        argument matches JsArgument::TypedArray { element_type, is_shared, bytes } ==> (
        ril_payload_spec(argument) matches Ok(sent) ==> sent == bytes@ && sent.len()
            == bytes@.len()),
        ril_payload_spec(argument) is Ok ==> (argument is Text || argument is TypedArray),
{
}

} // verus!
