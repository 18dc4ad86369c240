use ws_session::message::{datamsg_to_wsmsg, ClientMessage, CloseFrame, DataMessage, WsMessage};

#[test]
fn text_frame_is_a_text_payload() {
    let classified = ClientMessage::from_message(WsMessage::Text("{\"a\":1}".to_owned()));
    assert_eq!(classified, ClientMessage::Message(DataMessage::Text("{\"a\":1}".to_owned())));
}

#[test]
fn binary_frame_is_a_binary_payload() {
    let classified = ClientMessage::from_message(WsMessage::Binary(vec![0x01, 0x02]));
    assert_eq!(classified, ClientMessage::Message(DataMessage::Binary(vec![0x01, 0x02])));
}

#[test]
fn empty_binary_frame_is_an_empty_payload() {
    let classified = ClientMessage::from_message(WsMessage::Binary(Vec::new()));
    assert_eq!(classified, ClientMessage::Message(DataMessage::Binary(Vec::new())));
}

#[test]
fn ping_and_pong_keep_their_payload() {
    assert_eq!(ClientMessage::from_message(WsMessage::Ping(vec![7])), ClientMessage::Ping(vec![7]));
    assert_eq!(ClientMessage::from_message(WsMessage::Pong(vec![8, 9])), ClientMessage::Pong(vec![8, 9]));
}

#[test]
fn close_keeps_its_frame() {
    let frame = CloseFrame { code: 1000, reason: "bye".to_owned() };
    assert_eq!(
        ClientMessage::from_message(WsMessage::Close(Some(frame.clone()))),
        ClientMessage::Close(Some(frame))
    );
    assert_eq!(ClientMessage::from_message(WsMessage::Close(None)), ClientMessage::Close(None));
}

#[test]
fn payloads_are_framed_by_kind() {
    assert_eq!(datamsg_to_wsmsg(DataMessage::Text("hi".to_owned())), WsMessage::Text("hi".to_owned()));
    assert_eq!(datamsg_to_wsmsg(DataMessage::Binary(vec![1, 2, 3])), WsMessage::Binary(vec![1, 2, 3]));
}

#[test]
fn framed_payload_reads_back_as_itself() {
    let text = DataMessage::Text("caf\u{e9}".to_owned());
    let binary = DataMessage::Binary(vec![0, 255, 16]);
    assert_eq!(ClientMessage::from_message(datamsg_to_wsmsg(text.clone())), ClientMessage::Message(text));
    assert_eq!(ClientMessage::from_message(datamsg_to_wsmsg(binary.clone())), ClientMessage::Message(binary));
}

#[test]
fn payloads_are_measured_in_bytes() {
    assert_eq!(DataMessage::Binary(vec![1, 2, 3]).len(), 3);
    assert_eq!(DataMessage::Binary(Vec::new()).len(), 0);
    assert_eq!(DataMessage::Text("abc".to_owned()).len(), 3);
    assert_eq!(DataMessage::Text("\u{e9}".to_owned()).len(), 2);
    assert_eq!(DataMessage::Text(String::new()).len(), 0);
}
