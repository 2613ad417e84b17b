use bubblewrap::protocol::Message;
use bubblewrap::Error;

/// Sends the bytes of the messages through a byte queue, as the pipe between
/// the sandbox processes carries them, and decodes them in order.
fn transmit(messages: &[Message]) -> Vec<Message> {
    let wire: Vec<u8> = messages.iter().map(|m| m.to_byte()).collect();
    wire.iter()
        .map(|b| Message::from_byte(*b).unwrap())
        .collect()
}

#[test]
fn messages_round_trip() {
    let received = transmit(&[Message::UserNamespaceReady, Message::InitReady]);

    assert_eq!(received[0], Message::UserNamespaceReady);
    assert_eq!(received[1], Message::InitReady);
}

#[test]
fn every_message_round_trips() {
    let all = [
        Message::UserNamespaceReady,
        Message::IdMappingsInstalled,
        Message::InitReady,
        Message::Abort,
    ];
    assert_eq!(transmit(&all), all.to_vec());
}

#[test]
fn message_bytes() {
    assert_eq!(Message::UserNamespaceReady.to_byte(), 1);
    assert_eq!(Message::IdMappingsInstalled.to_byte(), 2);
    assert_eq!(Message::InitReady.to_byte(), 3);
    assert_eq!(Message::Abort.to_byte(), 255);
}

#[test]
fn unknown_bytes_are_rejected() {
    for byte in [0u8, 4, 42, 254] {
        match Message::from_byte(byte) {
            Err(Error::InvalidConfig(text)) => {
                assert_eq!(text, "invalid process protocol message")
            }
            other => panic!("byte {} gave {:?}", byte, other),
        }
    }
}
