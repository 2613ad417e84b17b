//! The messages that the sandbox processes exchange while they set up, and
//! their one-byte encoding on the pipes between them.
use crate::error::Error;
use vstd::prelude::*;

verus! {

/// A message of the setup protocol.
#[derive(Clone, Copy, Debug, PartialEq, Eq, Structural)]
pub enum Message {
    /// The intermediate process has entered its new user namespace.
    UserNamespaceReady,
    /// The parent has written the id maps of that namespace.
    IdMappingsInstalled,
    /// The init process has been created.
    InitReady,
    /// The parent gives up the setup.
    Abort,
}

/// The byte that carries a message.
pub open spec fn message_byte(message: Message) -> u8 {
    match message {
        Message::UserNamespaceReady => 1,
        Message::IdMappingsInstalled => 2,
        Message::InitReady => 3,
        Message::Abort => 255,
    }
}

/// The message that a byte carries, if any.
pub open spec fn byte_message(byte: u8) -> Option<Message> {
    if byte == 1 {
        Some(Message::UserNamespaceReady)
    } else if byte == 2 {
        Some(Message::IdMappingsInstalled)
    } else if byte == 3 {
        Some(Message::InitReady)
    } else if byte == 255 {
        Some(Message::Abort)
    } else {
        None
    }
}

/// The text of the error for a byte that carries no message.
pub open spec fn invalid_message_text() -> Seq<char> {
    "invalid process protocol message"@
}

impl Message {
    /// The byte that is written to send this message.
    pub fn to_byte(self) -> (byte: u8)
        ensures
            byte == message_byte(self),
    {
        match self {
            Message::UserNamespaceReady => 1,
            Message::IdMappingsInstalled => 2,
            Message::InitReady => 3,
            Message::Abort => 255,
        }
    }

    /// The message that a received byte carries; any other byte is refused
    /// as an invalid message.
    pub fn from_byte(byte: u8) -> (message: Result<Message, Error>)
        ensures
            match message {
                Ok(m) => byte_message(byte) == Some(m),
                Err(e) => {
                    &&& byte_message(byte) is None
                    &&& e matches Error::InvalidConfig(text)
                    &&& text@ == invalid_message_text()
                },
            },
    {
        match byte {
            1 => Ok(Message::UserNamespaceReady),
            2 => Ok(Message::IdMappingsInstalled),
            3 => Ok(Message::InitReady),
            255 => Ok(Message::Abort),
            _ => Err(Error::InvalidConfig("invalid process protocol message")),
        }
    }
}

/// Every message is received as the message that was sent, and no two
/// messages are sent as the same byte.
pub proof fn lemma_message_round_trip(message: Message, other: Message)
    ensures
        byte_message(message_byte(message)) == Some(message),
        message_byte(message) == message_byte(other) ==> message == other,
{
}

/// The bytes that carry a message are exactly 1, 2, 3 and 255.
pub proof fn lemma_message_bytes(byte: u8)
    ensures
        byte_message(byte) is Some <==> (byte == 1 || byte == 2 || byte == 3 || byte == 255),
        byte_message(byte) matches Some(m) ==> message_byte(m) == byte,
{
}

} // verus!
