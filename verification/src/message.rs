//! Messages of the client transport, as the bridge reads them.

use vstd::prelude::*;
use vstd::utf8::decode_utf8;
use vstd::utf8::encode_utf8;
use vstd::utf8::encode_utf8_decode_utf8;
use vstd::utf8::encode_utf8_valid_utf8;
use vstd::utf8::valid_utf8;

verus! {

/// One message from the client. The transport has more kinds than the bridge
/// tells apart: those it has no use for are `Other`.
#[derive(Debug)]
pub enum ClientMessage {
    /// A text message.
    Text(String),
    /// A binary message.
    Binary(Vec<u8>),
    /// The close signal.
    Close,
    /// Any other kind, such as a ping.
    Other,
}

/// A client message with its contents as mathematical sequences.
pub enum ClientMessageModel {
    Text(Seq<char>),
    Binary(Seq<u8>),
    Close,
    Other,
}

impl View for ClientMessage {
    type V = ClientMessageModel;

    open spec fn view(&self) -> ClientMessageModel {
        match self {
            ClientMessage::Text(text) => ClientMessageModel::Text(text@),
            ClientMessage::Binary(bytes) => ClientMessageModel::Binary(bytes@),
            ClientMessage::Close => ClientMessageModel::Close,
            ClientMessage::Other => ClientMessageModel::Other,
        }
    }
}

/// The code payload that a first message carries, if it carries one: the
/// text of a text message, or the text that a binary message encodes in
/// UTF-8. Bytes that are not UTF-8 and the other kinds carry none.
pub open spec fn code_payload(message: ClientMessageModel) -> Option<Seq<char>> {
    match message {
        ClientMessageModel::Text(text) => Some(text),
        ClientMessageModel::Binary(bytes) => if valid_utf8(bytes) {
            Some(decode_utf8(bytes))
        } else {
            None
        },
        _ => None,
    }
}

/// The bytes that a message carries for the process's input, if any: the
/// body of a binary message, or the UTF-8 encoding of a text message.
pub open spec fn input_payload(message: ClientMessageModel) -> Option<Seq<u8>> {
    match message {
        ClientMessageModel::Text(text) => Some(encode_utf8(text)),
        ClientMessageModel::Binary(bytes) => Some(bytes),
        _ => None,
    }
}

/// Calls `String::from_utf8` of std, which hands the bytes back as a string
/// when they are valid UTF-8 and fails otherwise. The contract says so over
/// vstd's definition of UTF-8: success exactly on valid bytes, and the text
/// is the one that the bytes encode.
#[verifier::external_body]
fn text_from_utf8(bytes: Vec<u8>) -> (text: Option<String>)
    ensures
        text is Some <==> valid_utf8(bytes@),
        text matches Some(s) ==> s@ == decode_utf8(bytes@),
{
    String::from_utf8(bytes).ok()
}

/// Extracts the code payload from the first message of a session.
pub fn into_code(message: ClientMessage) -> (code: Option<String>)
    ensures
        code is Some <==> code_payload(message@) is Some,
        code matches Some(text) ==> Some(text@) == code_payload(message@),
{
    match message {
        ClientMessage::Text(text) => Some(text),
        ClientMessage::Binary(bytes) => text_from_utf8(bytes),
        ClientMessage::Close => None,
        ClientMessage::Other => None,
    }
}

/// Extracts the bytes to forward to the process's input.
pub fn into_input(message: ClientMessage) -> (input: Option<Vec<u8>>)
    ensures
        input is Some <==> input_payload(message@) is Some,
        input matches Some(bytes) ==> Some(bytes@) == input_payload(message@),
{
    match message {
        ClientMessage::Text(text) => Some(text.as_str().as_bytes_vec()),
        ClientMessage::Binary(bytes) => Some(bytes),
        ClientMessage::Close => None,
        ClientMessage::Other => None,
    }
}

/// A binary first message is read as the text message with the same bytes:
/// both carry the same code.
pub proof fn lemma_binary_code_is_text_code(text: Seq<char>)
    ensures
        code_payload(ClientMessageModel::Binary(encode_utf8(text))) == code_payload(
            ClientMessageModel::Text(text),
        ),
{
    encode_utf8_valid_utf8(text);
    encode_utf8_decode_utf8(text);
}

/// A text message and the binary message with the same bytes send the same
/// input to the process.
pub proof fn lemma_text_input_is_binary_input(text: Seq<char>)
    ensures
        input_payload(ClientMessageModel::Text(text)) == input_payload(
            ClientMessageModel::Binary(encode_utf8(text)),
        ),
{
}

} // verus!
