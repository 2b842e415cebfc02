use sukkirisu::response::command_reply;
use sukkirisu::response::envelope;
use sukkirisu::response::message_reply;

#[test]
fn command_reply_goes_to_the_channel() {
    let reply = command_reply(String::from("3月: スッキリす🍀 5位"));
    assert_eq!(reply.response_type, "in_channel");
    assert_eq!(reply.text, "3月: スッキリす🍀 5位");
}

#[test]
fn envelope_is_a_plain_success() {
    let wrapped = envelope(String::from("{\"text\":\"x\"}"));
    assert!(!wrapped.is_base64_encoded);
    assert_eq!(wrapped.status_code, 200);
    assert_eq!(wrapped.body, "{\"text\":\"x\"}");
}

#[test]
fn message_reply_keeps_the_text() {
    assert_eq!(message_reply(String::from("line\nline")).message, "line\nline");
    assert_eq!(message_reply(String::new()).message, "");
}
