//! The decisions behind the functions that the worker script can call
//! (`postRILMessage`, `postMessage`, `dump`) and behind the report of a
//! script error.

use vstd::prelude::*;

use crate::payload::{ril_payload, ril_payload_spec, JsArgument, PayloadError};
use crate::registry::{live_slot, ClientRegistry};
use crate::text::{decimal, latin1, latin1_to_string, push_decimal};

verus! {

/// A function that the bridge defines in the worker's global scope.
#[derive(Clone, Copy, Debug, PartialEq, Eq, Structural)]
pub enum HostFunction {
    /// `postRILMessage(clientId, data)`: data for a RIL daemon.
    PostRilMessage,
    /// `postMessage(message)`: a message for the WebSocket client.
    PostMessage,
    /// `dump(text)`: text for the log.
    Dump,
}

impl HostFunction {
    /// The number of arguments the function takes.
    pub open spec fn expected_argc_spec(self) -> u32 {
        match self {
            HostFunction::PostRilMessage => 2,
            HostFunction::PostMessage => 1,
            HostFunction::Dump => 1,
        }
    }

    /// The error reported to the script when it passes another number of
    /// arguments.
    pub open spec fn arity_message_spec(self) -> Seq<char> {
        match self {
            HostFunction::PostRilMessage => "Expecting two arguments as message"@,
            HostFunction::PostMessage => "Expecting one argument as message"@,
            HostFunction::Dump => "Expecting one argument as information"@,
        }
    }

    /// The number of arguments the function takes.
    pub fn expected_argc(&self) -> (n: u32)
        ensures
            n == self.expected_argc_spec(),
    {
        match self {
            HostFunction::PostRilMessage => 2,
            HostFunction::PostMessage => 1,
            HostFunction::Dump => 1,
        }
    }

    /// Accepts a call with exactly the expected number of arguments; refuses
    /// any other with the error to report to the script.
    pub fn check_arity(&self, argc: u32) -> (r: Result<(), String>)
        ensures
            r is Ok <==> argc == self.expected_argc_spec(),
            r matches Err(m) ==> m@ == self.arity_message_spec(),
    {
        if argc == self.expected_argc() {
            Ok(())
        } else {
            match self {
                HostFunction::PostRilMessage => Err(
                    String::from_str("Expecting two arguments as message"),
                ),
                HostFunction::PostMessage => Err(String::from_str("Expecting one argument as message")),
                HostFunction::Dump => Err(String::from_str("Expecting one argument as information")),
            }
        }
    }
}

/// What becomes of a call of `postRILMessage`.
pub enum RilDelivery {
    /// No client is registered under the id: the bridge is probably shutting
    /// down, and the call is accepted without sending anything.
    ShuttingDown,
    /// Write `bytes` to the RIL socket of the client in slot `index`.
    Send { index: usize, bytes: Vec<u8> },
    /// The data argument cannot be sent; the call fails.
    Rejected(PayloadError),
}

impl RilDelivery {
    /// What the call returns to the script: it fails only when the data was
    /// refused.
    pub fn reply(&self) -> (ok: bool)
        ensures
            ok == !(self is Rejected),
    {
        match self {
            RilDelivery::Rejected(_) => false,
            _ => true,
        }
    }
}

/// Decides a call `postRILMessage(client_id, argument)`: nothing is sent for
/// an id without a registered client; otherwise the argument's bytes go to
/// that client's RIL socket, or the argument is refused.
pub fn route_ril_payload<T>(registry: &ClientRegistry<T>, client_id: i32, argument: JsArgument) -> (d:
    RilDelivery)
    ensures
        live_slot(registry@, client_id as int) is None ==> d is ShuttingDown,
        live_slot(registry@, client_id as int) matches Some(i) ==> match ril_payload_spec(argument) {
            Ok(b) => d matches RilDelivery::Send { index, bytes } && index == i && bytes@ == b,
            Err(e) => d == RilDelivery::Rejected(e),
        },
{
    match registry.find_live(client_id as i64) {
        None => RilDelivery::ShuttingDown,
        Some(index) => match ril_payload(argument) {
            Ok(bytes) => RilDelivery::Send { index, bytes },
            Err(e) => RilDelivery::Rejected(e),
        },
    }
}

/// The integer in the field `key` of a JSON text, as `serde_json` reads it;
/// `None` when the text is not JSON, is not an object with that field, or
/// the field is not an integer that fits an `i64`.
pub uninterp spec fn json_i64_field_value(text: Seq<char>, key: Seq<char>) -> Option<i64>;

/// Reads an integer field of a JSON text.
///
/// Trusted: `serde_json::from_str::<serde_json::Value>`, indexing the value
/// by `key` (which gives `Null` for a missing key or a non-object) and
/// `Value::as_i64`. Nothing is claimed of JSON parsing itself: the result is
/// named, a function of the text and the key alone.
#[verifier::external_body]
fn json_i64_field(text: &str, key: &str) -> (r: Option<i64>)
    ensures
        r == json_i64_field_value(text@, key@),
{
    match serde_json::from_str::<serde_json::Value>(text) {
        Ok(value) => value[key].as_i64(),
        Err(_) => None,
    }
}

/// The field of a message posted by the worker that names its client.
pub const CLIENT_ID_FIELD: &'static str = "rilMessageClientId";

/// The slot of the client that a message posted by the worker is for: the
/// client named by its `rilMessageClientId` field, when that client is
/// registered.
pub fn route_posted_message<T>(registry: &ClientRegistry<T>, message: &str) -> (r: Option<usize>)
    ensures
        json_i64_field_value(message@, "rilMessageClientId"@) is None ==> r is None,
        json_i64_field_value(message@, "rilMessageClientId"@) matches Some(id) ==> {
            &&& r matches Some(i) ==> live_slot(registry@, id as int) == Some(i as int)
            &&& r is None ==> live_slot(registry@, id as int) is None
        },
{
    match json_i64_field(message, CLIENT_ID_FIELD) {
        None => None,
        Some(id) => registry.find_live(id),
    }
}

/// The text of UTF-16 code units with invalid data replaced: a unit outside
/// the surrogate range is the character of its value, a leading surrogate
/// followed by a trailing one is the character the pair encodes, and every
/// other surrogate becomes U+FFFD on its own.
pub open spec fn utf16_lossy(units: Seq<u16>) -> Seq<char>
    decreases units.len(),
{
    if units.len() == 0 {
        Seq::empty()
    } else {
        let u = units[0];
        if u < 0xD800 || u >= 0xE000 {
            seq![u as char] + utf16_lossy(units.drop_first())
        } else if u < 0xDC00 && units.len() >= 2 && 0xDC00 <= units[1] && units[1] < 0xE000 {
            seq![(0x10000 + (u - 0xD800) * 0x400 + (units[1] - 0xDC00)) as char] + utf16_lossy(
                units.subrange(2, units.len() as int),
            )
        } else {
            seq!['\u{FFFD}'] + utf16_lossy(units.drop_first())
        }
    }
}

/// Decodes UTF-16, replacing invalid data.
///
/// Trusted: `String::from_utf16_lossy`, which the standard library documents
/// as decoding UTF-16 and replacing invalid data with U+FFFD, one for each
/// unpaired surrogate as `char::decode_utf16` reports them.
#[verifier::external_body]
fn decode_utf16_lossy(units: &[u16]) -> (s: String)
    ensures
        s@ == utf16_lossy(units@),
{
    String::from_utf16_lossy(units)
}

/// The line that reports an error of the worker script.
pub open spec fn error_report_text(
    filename: Option<Seq<u8>>,
    lineno: u32,
    column: u32,
    message: Seq<u16>,
) -> Seq<char> {
    "Error at "@ + match filename {
        Some(f) => latin1(f),
        None => "none"@,
    } + ":"@ + decimal(lineno as nat) + ":"@ + decimal(column as nat) + ": "@ + utf16_lossy(message)
        + "\n"@
}

/// Builds the report of a script error: the file name (Latin-1, or `none`
/// when the report has none), the line, the column and the UTF-16 message.
pub fn report_error(filename: Option<&[u8]>, lineno: u32, column: u32, message: &[u16]) -> (s:
    String)
    ensures
        s@ == error_report_text(
            match filename {
                Some(f) => Some(f@),
                None => None,
            },
            lineno,
            column,
            message@,
        ),
{
    let mut s = String::from_str("Error at ");
    match filename {
        Some(f) => {
            let name = latin1_to_string(f);
            s.append(name.as_str());
        },
        None => s.append("none"),
    }
    s.append(":");
    push_decimal(&mut s, lineno as u64);
    s.append(":");
    push_decimal(&mut s, column as u64);
    s.append(": ");
    let text = decode_utf16_lossy(message);
    s.append(text.as_str());
    s.append("\n");
    s
}

} // verus!
