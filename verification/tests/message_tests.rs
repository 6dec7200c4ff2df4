use ril_websocket::message::{
    plan_message, route_websocket_text, Message, MessageKind, RegisterMessage, RilMessage,
    WebsocketMessage, WorkerAction,
};

fn header(kind: MessageKind, register_client_id: Option<u8>) -> WebsocketMessage {
    WebsocketMessage { client_id: Some(0), register_client_id, token: 7, kind }
}

#[test]
fn register_message_keeps_sender_and_client_id() {
    let json = String::from(r#"{"rilMessageType":"registerClient","clientId":1}"#);
    match route_websocket_text(&header(MessageKind::Register, Some(1)), json.clone(), 42u32) {
        Message::Register(r) => {
            assert_eq!(r.client_id, 1);
            assert_eq!(r.raw_message, json);
            assert_eq!(r.websocket_sender, 42);
        }
        _ => panic!("expected a register message"),
    }
}

#[test]
fn other_kinds_pass_raw_text_on() {
    for kind in [
        MessageKind::SetInitialOptions,
        MessageKind::SetRadioEnabled,
        MessageKind::GetCurrentCalls,
        MessageKind::Dial,
    ] {
        let json = String::from(r#"{"rilMessageType":"dial"}"#);
        match route_websocket_text(&header(kind, None), json.clone(), ()) {
            Message::WebsocketMessage(raw) => assert_eq!(raw, json),
            _ => panic!("expected a plain message"),
        }
    }
}

#[test]
fn ril_message_takes_the_bytes_read() {
    let buf = [1u8, 2, 3, 4, 5];
    let m = RilMessage::from_read(2, &buf, 3);
    assert_eq!(m.client_id, 2);
    assert_eq!(m.data, vec![1, 2, 3]);
    assert_eq!(RilMessage::from_read(0, &buf, 0).data, Vec::<u8>::new());
}

#[test]
fn plan_for_register_connects_then_evaluates() {
    let m = Message::Register(RegisterMessage {
        client_id: 1,
        raw_message: String::from("{}"),
        websocket_sender: "sender",
    });
    match plan_message(m) {
        WorkerAction::Register { client_id, socket_address, websocket_sender, script } => {
            assert_eq!(client_id, 1);
            assert_eq!(socket_address, "/tmp/rilproxy2");
            assert_eq!(websocket_sender, "sender");
            assert_eq!(script, r#"onmessage({"data": {}});"#);
        }
        _ => panic!("expected a register action"),
    }
}

#[test]
fn plan_for_messages_evaluates_scripts() {
    match plan_message::<()>(Message::WebsocketMessage(String::from("[1]"))) {
        WorkerAction::Evaluate { script } => assert_eq!(script, r#"onmessage({"data": [1]});"#),
        _ => panic!("expected an evaluation"),
    }
    match plan_message::<()>(Message::RilMessage(RilMessage { client_id: 3, data: vec![9, 8] })) {
        WorkerAction::Evaluate { script } => {
            assert_eq!(script, "onRILMessage(3, new Uint8Array([9, 8]));")
        }
        _ => panic!("expected an evaluation"),
    }
}

#[test]
fn register_message_description() {
    let m = RegisterMessage {
        client_id: 12,
        raw_message: String::from(r#"{"clientId":12}"#),
        websocket_sender: (),
    };
    assert_eq!(m.describe(), r#"RegisterMessage { client_id: 12, raw_message: {"clientId":12} }"#);
}
