//! Which bus messages carry commands, and the topics this device uses.
use vstd::prelude::*;
use vstd::utf8::{decode_utf8, valid_utf8};

verus! {

/// Whether a topic's last path segment is "set", in any mix of letter case.
/// Only ASCII letters lower-case to 's', 'e' and 't', so comparing with
/// both cases of each letter is the same as lower-casing first.
pub open spec fn is_set_topic(topic: Seq<char>) -> bool {
    let n = topic.len();
    &&& n >= 3
    &&& (n == 3 || topic[n - 4] == '/')
    &&& (topic[n - 3] == 's' || topic[n - 3] == 'S')
    &&& (topic[n - 2] == 'e' || topic[n - 2] == 'E')
    &&& (topic[n - 1] == 't' || topic[n - 1] == 'T')
}

/// The command that a message on `topic` with body `payload` carries.
pub open spec fn message_command(topic: Seq<char>, payload: Seq<u8>) -> Option<Seq<char>> {
    if is_set_topic(topic) && valid_utf8(payload) {
        Some(decode_utf8(payload))
    } else {
        None
    }
}

/// Whether `topic` addresses the command sub-path "set".
pub fn is_command_topic(topic: &str) -> (r: bool)
    ensures
        r == is_set_topic(topic@),
{
    let n = topic.unicode_len();
    if n < 3 {
        return false;
    }
    if n > 3 && topic.get_char(n - 4) != '/' {
        return false;
    }
    let s = topic.get_char(n - 3);
    let e = topic.get_char(n - 2);
    let t = topic.get_char(n - 1);
    (s == 's' || s == 'S') && (e == 'e' || e == 'E') && (t == 't' || t == 'T')
}

/// Relies on String::from_utf8: it succeeds exactly on well-formed UTF-8
/// and then holds the characters the bytes encode.
#[verifier::external_body]
fn decode_text(bytes: Vec<u8>) -> (r: Option<String>)
    ensures
        r is Some <==> valid_utf8(bytes@),
        r matches Some(s) ==> s@ == decode_utf8(bytes@),
{
    String::from_utf8(bytes).ok()
}

/// The command carried by a message: its payload as text when the topic
/// ends in "set" and the payload is well-formed UTF-8, and nothing otherwise.
/// A malformed payload is dropped, never fatal.
pub fn command_from_message(topic: &str, payload: Vec<u8>) -> (r: Option<String>)
    ensures
        r is Some <==> is_set_topic(topic@) && valid_utf8(payload@),
        r matches Some(c) ==> c@ == decode_utf8(payload@),
        opt_text(r) == message_command(topic@, payload@),
{
    if is_command_topic(topic) {
        decode_text(payload)
    } else {
        None
    }
}

/// The characters of an optional string.
pub open spec fn opt_text(s: Option<String>) -> Option<Seq<char>> {
    match s {
        Some(t) => Some(t@),
        None => None,
    }
}

/// The prefix under which home-automation platforms look for devices.
pub open spec fn discovery_prefix() -> Seq<char> {
    seq!['h', 'o', 'm', 'e', 'a', 's', 's', 'i', 's', 't', 'a', 'n', 't']
}

/// The topic under which this device's selectable entity lives.
pub open spec fn device_topic(unique_id: Seq<char>) -> Seq<char> {
    discovery_prefix() + seq!['/', 's', 'e', 'l', 'e', 'c', 't', '/'] + unique_id
}

/// `<prefix>/select/<unique_id>`.
pub fn device_topic_of(unique_id: &str) -> (r: String)
    ensures
        r@ == device_topic(unique_id@),
{
    proof {
        reveal_strlit("homeassistant/select/");
    }
    let mut t = String::from_str("homeassistant/select/");
    assert(t@ == discovery_prefix() + seq!['/', 's', 'e', 'l', 'e', 'c', 't', '/']);
    t.append(unique_id);
    t
}

/// `<prefix>/select/<unique_id>/set`, where commands arrive.
pub fn command_topic(unique_id: &str) -> (r: String)
    ensures
        r@ == device_topic(unique_id@) + seq!['/', 's', 'e', 't'],
        is_set_topic(r@),
{
    proof {
        reveal_strlit("/set");
    }
    let mut t = device_topic_of(unique_id);
    t.append("/set");
    t
}

/// `<prefix>/select/<unique_id>/config`, where the retained discovery
/// message goes.
pub fn config_topic(unique_id: &str) -> (r: String)
    ensures
        r@ == device_topic(unique_id@) + seq!['/', 'c', 'o', 'n', 'f', 'i', 'g'],
{
    proof {
        reveal_strlit("/config");
    }
    let mut t = device_topic_of(unique_id);
    t.append("/config");
    t
}

/// `<prefix>/select/<unique_id>/#`, the filter that takes every sub-path.
pub fn subscription_filter(unique_id: &str) -> (r: String)
    ensures
        r@ == device_topic(unique_id@) + seq!['/', '#'],
{
    proof {
        reveal_strlit("/#");
    }
    let mut t = device_topic_of(unique_id);
    t.append("/#");
    t
}

} // verus!
