//! The messages that reach the worker and what the worker does with each.

use vstd::prelude::*;

use crate::text::{
    decimal, push_decimal, on_ril_message_script, on_ril_message_script_spec, onmessage_script, onmessage_script_spec,
    ril_socket_address, ril_socket_address_spec,
};

verus! {

/// The `rilMessageType` of a message from the WebSocket client.
#[derive(Clone, Copy, Debug, PartialEq, Eq, Structural)]
pub enum MessageKind {
    /// `setInitialOptions`
    SetInitialOptions,
    /// `registerClient`
    Register,
    /// `setRadioEnabled`
    SetRadioEnabled,
    /// `getCurrentCalls`
    GetCurrentCalls,
    /// `dial`
    Dial,
}

/// The header fields of a JSON message from the WebSocket client.
#[derive(Clone, Copy, Debug, PartialEq, Eq, Structural)]
pub struct WebsocketMessage {
    /// `rilMessageClientId`: the radio interface the message is for.
    pub client_id: Option<u8>,
    /// `clientId`: only present in a register message.
    pub register_client_id: Option<u8>,
    /// `rilMessageToken`
    pub token: u64,
    /// `rilMessageType`
    pub kind: MessageKind,
}

/// A client registers: the worker needs the message, and the bridge keeps
/// the WebSocket sender so that replies reach the right client.
pub struct RegisterMessage<S> {
    pub client_id: u8,
    pub raw_message: String,
    pub websocket_sender: S,
}

impl<S> RegisterMessage<S> {
    /// The text that describes the message for the log; the sender is left
    /// out.
    pub open spec fn describe_spec(&self) -> Seq<char> {
        "RegisterMessage { client_id: "@ + decimal(self.client_id as nat) + ", raw_message: "@
            + self.raw_message@ + " }"@
    }

    /// Describes the message for the log:
    /// `RegisterMessage { client_id: <id>, raw_message: <raw> }`.
    pub fn describe(&self) -> (s: String)
        ensures
            s@ == self.describe_spec(),
    {
        let mut s = String::from_str("RegisterMessage { client_id: ");
        push_decimal(&mut s, self.client_id as u64);
        s.append(", raw_message: ");
        s.append(self.raw_message.as_str());
        s.append(" }");
        s
    }
}

/// Bytes read from the socket of a RIL daemon.
#[derive(Debug)]
pub struct RilMessage {
    pub client_id: u8,
    pub data: Vec<u8>,
}

impl RilMessage {
    /// The message for the first `num_bytes` bytes of a read buffer.
    pub fn from_read(client_id: u8, buf: &[u8], num_bytes: usize) -> (m: RilMessage)
        requires
            num_bytes <= buf@.len(),
        ensures
            m.client_id == client_id,
            m.data@ == buf@.take(num_bytes as int),
    {
        let mut data: Vec<u8> = Vec::new();
        for i in 0..num_bytes
            invariant
                num_bytes <= buf@.len(),
                data@ == buf@.take(i as int),
        {
            data.push(buf[i]);
            assert(buf@.take(i + 1) =~= buf@.take(i as int).push(buf@[i as int]));
        }
        RilMessage { client_id, data }
    }
}

/// What the worker receives.
pub enum Message<S> {
    /// A client registers.
    Register(RegisterMessage<S>),
    /// Any other message of the WebSocket client, as raw JSON text.
    WebsocketMessage(String),
    /// Data from a RIL daemon.
    RilMessage(RilMessage),
}

/// Turns a text message of the WebSocket client into what the worker
/// receives: a register message keeps the sender and the client id of its
/// `clientId` field, every other kind is passed on as raw text.
pub fn route_websocket_text<S>(header: &WebsocketMessage, json: String, websocket_sender: S) -> (m:
    Message<S>)
    requires
        header.kind == MessageKind::Register ==> header.register_client_id is Some,
    ensures
        header.kind == MessageKind::Register ==> m == Message::Register(
            (RegisterMessage {
                client_id: header.register_client_id.unwrap(),
                raw_message: json,
                websocket_sender,
            }),
        ),
        header.kind != MessageKind::Register ==> m == Message::<S>::WebsocketMessage(json),
{
    match header.kind {
        MessageKind::Register => {
            let client_id = match header.register_client_id {
                Some(id) => id,
                None => 0,
            };
            Message::Register(RegisterMessage { client_id, raw_message: json, websocket_sender })
        },
        _ => Message::WebsocketMessage(json),
    }
}

/// What the worker does for one message.
pub enum WorkerAction<S> {
    /// Connect to the RIL daemon at `socket_address`, register the client
    /// with that socket and the WebSocket sender, then evaluate `script`.
    Register { client_id: u8, socket_address: String, websocket_sender: S, script: String },
    /// Evaluate `script` in the worker.
    Evaluate { script: String },
}

/// Decides what the worker does with a message: every WebSocket message is
/// handed to `onmessage`, a register message first registers its client,
/// and RIL data is handed to `onRILMessage`.
pub fn plan_message<S>(message: Message<S>) -> (action: WorkerAction<S>)
    ensures
        match message {
            Message::Register(r) => action matches WorkerAction::Register {
                client_id,
                socket_address,
                websocket_sender,
                script,
            } && client_id == r.client_id && socket_address@ == ril_socket_address_spec(
                r.client_id,
            ) && websocket_sender == r.websocket_sender && script@ == onmessage_script_spec(
                r.raw_message@,
            ),
            Message::WebsocketMessage(raw) => action matches WorkerAction::Evaluate { script }
                && script@ == onmessage_script_spec(raw@),
            Message::RilMessage(m) => action matches WorkerAction::Evaluate { script }
                && script@ == on_ril_message_script_spec(m.client_id, m.data@),
        },
{
    match message {
        Message::Register(r) => {
            let socket_address = ril_socket_address(r.client_id);
            let script = onmessage_script(r.raw_message.as_str());
            WorkerAction::Register {
                client_id: r.client_id,
                socket_address,
                websocket_sender: r.websocket_sender,
                script,
            }
        },
        Message::WebsocketMessage(raw) => WorkerAction::Evaluate {
            script: onmessage_script(raw.as_str()),
        },
        Message::RilMessage(m) => WorkerAction::Evaluate {
            script: on_ril_message_script(m.client_id, m.data.as_slice()),
        },
    }
}

} // verus!
