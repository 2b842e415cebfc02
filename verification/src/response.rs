//! The answers that a request handler gives once it has a fortune.
//!
//! The types are bare: turning them into JSON is the caller's business.
use vstd::prelude::*;

verus! {

/// The answer to a chat command: the text, shown to the whole channel.
#[derive(Clone, Debug)]
pub struct CommandReply {
    pub response_type: String,
    pub text: String,
}

/// The HTTP-style envelope round a serialised answer. Its headers are
/// always empty and are not kept here.
#[derive(Clone, Debug)]
pub struct Envelope {
    pub is_base64_encoded: bool,
    pub status_code: i32,
    pub body: String,
}

/// The answer to a plain event.
#[derive(Clone, Debug)]
pub struct MessageReply {
    pub message: String,
}

/// The answer to a chat command that carries a fortune: it goes to the
/// channel, and its text is the fortune, unchanged.
pub fn command_reply(text: String) -> (r: CommandReply)
    ensures
        r.response_type@ == "in_channel"@,
        r.text@ == text@,
{
    CommandReply { response_type: "in_channel".to_owned(), text }
}

/// The envelope of a successful answer: status 200, a body that is not
/// base64, and that body unchanged.
pub fn envelope(body: String) -> (r: Envelope)
    ensures
        !r.is_base64_encoded,
        r.status_code == 200,
        r.body@ == body@,
{
    Envelope { is_base64_encoded: false, status_code: 200, body }
}

/// The answer to a plain event that carries a fortune, unchanged.
pub fn message_reply(text: String) -> (r: MessageReply)
    ensures
        r.message@ == text@,
{
    MessageReply { message: text }
}

} // verus!
