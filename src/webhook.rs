//! The direct-message webhook: request signatures, the challenge-response
//! check, and turning a signed event into a status update.

use crate::json::{field, first_item, JsonValue};
use crate::protocol::{person_is_ok, PersonIsUpdateHelloMessage};
use crate::timestamp::{millis_to_secs, utc_representable, Timestamp};
use hmac::{Hmac, Mac};
use sha2::Sha256;
use vstd::prelude::*;
use vstd::utf8::encode_utf8;

verus! {

/// The HMAC-SHA256 tag of `msg` under `key`.
pub uninterp spec fn hmac_sha256_of(key: Seq<u8>, msg: Seq<u8>) -> Seq<u8>;

/// The standard, padded base64 encoding of `bytes`.
pub uninterp spec fn base64_of(bytes: Seq<u8>) -> Seq<char>;

/// The percent-decoded name/value pairs of a form-urlencoded query, in order.
pub uninterp spec fn form_pairs_of(query: Seq<u8>) -> Seq<(Seq<char>, Seq<char>)>;

/// Relies on hmac's `Hmac<Sha256>` over sha2's `Sha256`: `new_from_slice`
/// accepts a key of any length (it always returns `Ok`), and `finalize`
/// yields the 32-byte tag.
#[verifier::external_body]
fn hmac_sha256(key: &[u8], msg: &[u8]) -> (r: Vec<u8>)
    ensures
        r@ == hmac_sha256_of(key@, msg@),
        r@.len() == 32,
{
    let mut mac = <Hmac<Sha256> as Mac>::new_from_slice(key).expect("HMAC accepts any key length");
    mac.update(msg);
    mac.finalize().into_bytes().to_vec()
}

/// Relies on base64's `encode`: the standard alphabet, with padding.
#[verifier::external_body]
fn base64_encode(bytes: &[u8]) -> (r: String)
    ensures
        r@ == base64_of(bytes@),
{
    base64::encode(bytes)
}

/// Relies on url's `form_urlencoded::parse`: the pairs of the query, in
/// order, names and values percent-decoded.
#[verifier::external_body]
fn form_pairs(query: &[u8]) -> (r: Vec<(String, String)>)
    ensures
        r@.len() == form_pairs_of(query@).len(),
        forall|k: int|
            0 <= k < r@.len() ==> r@[k].0@ == form_pairs_of(query@)[k].0 && r@[k].1@
                == form_pairs_of(query@)[k].1,
{
    url::form_urlencoded::parse(query).map(|(k, v)| (k.into_owned(), v.into_owned())).collect()
}

/// The value of a decimal digit string.
pub open spec fn digits_value(d: Seq<char>) -> int
    decreases d.len(),
{
    if d.len() == 0 {
        0
    } else {
        digits_value(d.drop_last()) * 10 + (d.last() as int - '0' as int)
    }
}

/// Whether `d` is a non-empty string of ASCII digits.
pub open spec fn is_digits(d: Seq<char>) -> bool {
    d.len() > 0 && forall|k: int| 0 <= k < d.len() ==> '0' <= #[trigger] d[k] <= '9'
}

/// The `i64` that `s` writes in decimal: an optional `+` or `-`, then
/// digits, nothing else, and within range.
pub open spec fn decimal_i64(s: Seq<char>) -> Option<i64> {
    let neg = s.len() > 0 && s[0] == '-';
    let d = if s.len() > 0 && (s[0] == '-' || s[0] == '+') {
        s.drop_first()
    } else {
        s
    };
    let v = if neg {
        -digits_value(d)
    } else {
        digits_value(d)
    };
    if is_digits(d) && i64::MIN <= v <= i64::MAX {
        Some(v as i64)
    } else {
        None
    }
}

/// Relies on std's `str::parse::<i64>`, which accepts an optional sign
/// followed by decimal digits, and fails on anything else or on overflow.
#[verifier::external_body]
fn parse_i64(s: &str) -> (r: Option<i64>)
    ensures
        r == decimal_i64(s@),
{
    s.parse::<i64>().ok()
}

/// Why a webhook request did not lead to an update.
#[derive(Clone, Copy, Debug, PartialEq, Eq, Structural)]
pub enum WebhookRejection {
    MissingSignature,
    SignatureMismatch,
    BodyNotJson,
    NotDmEvent,
    EmptyEventList,
    NoCreatedTimestamp,
    TimestampNotString,
    TimestampInvalid,
    TimestampOutOfRange,
    NotCreation,
    NoSenderId,
    WrongSender,
    NoMessageData,
    NoText,
    TextNotString,
    TextInvalid,
    PublishFailed,
}

/// The rejections that only mean the event is not for us; the others are
/// errors of the request or of the hub.
pub open spec fn irrelevant(r: WebhookRejection) -> bool {
    match r {
        WebhookRejection::NotDmEvent => true,
        WebhookRejection::EmptyEventList => true,
        WebhookRejection::NotCreation => true,
        WebhookRejection::WrongSender => true,
        WebhookRejection::TextInvalid => true,
        _ => false,
    }
}

impl WebhookRejection {
    /// Whether this rejection only means the event is not for us.
    pub fn is_irrelevant(&self) -> (r: bool)
        ensures
            r == irrelevant(*self),
    {
        match self {
            WebhookRejection::NotDmEvent
            | WebhookRejection::EmptyEventList
            | WebhookRejection::NotCreation
            | WebhookRejection::WrongSender
            | WebhookRejection::TextInvalid => true,
            _ => false,
        }
    }
}

/// The HTTP status that answers a webhook event: no content, unless the
/// request or the hub failed.
pub fn response_status(outcome: &Result<(), WebhookRejection>) -> (r: u16)
    ensures
        r == (match *outcome {
            Ok(()) => 204u16,
            Err(x) => if irrelevant(x) {
                204u16
            } else {
                400u16
            },
        }),
{
    match outcome {
        Ok(()) => 204,
        Err(x) => if x.is_irrelevant() {
            204
        } else {
            400
        },
    }
}

/// The signature of `msg` under the consumer secret: `sha256=` and the
/// base64 of the HMAC-SHA256 tag.
pub open spec fn signature_of(secret: Seq<char>, msg: Seq<u8>) -> Seq<char> {
    "sha256="@ + base64_of(hmac_sha256_of(encode_utf8(secret), msg))
}

/// Signs `msg` with the consumer secret.
pub fn signature(secret: &str, msg: &[u8]) -> (r: String)
    ensures
        r@ == signature_of(secret@, msg@),
{
    let tag = hmac_sha256(secret.as_bytes(), msg);
    let enc = base64_encode(tag.as_slice());
    let mut r = String::from_str("sha256=");
    r.append(enc.as_str());
    r
}

/// The answer to a challenge-response check: the signature of the token.
pub fn crc_response_token(secret: &str, crc_token: &str) -> (r: String)
    ensures
        r@ == signature_of(secret@, encode_utf8(crc_token@)),
{
    signature(secret, crc_token.as_bytes())
}

/// Whether two byte strings are equal.
fn bytes_equal(a: &[u8], b: &[u8]) -> (r: bool)
    ensures
        r == (a@ == b@),
{
    if a.len() != b.len() {
        return false;
    }
    let mut i: usize = 0;
    while i < a.len()
        invariant
            a@.len() == b@.len(),
            i <= a@.len(),
            forall|k: int| 0 <= k < i ==> a@[k] == b@[k],
        decreases a@.len() - i,
    {
        if a[i] != b[i] {
            return false;
        }
        i = i + 1;
    }
    assert(a@ == b@);
    true
}

/// Checks a request's signature header against the expected signature:
/// the header's bytes must be exactly the signature's UTF-8 encoding.
pub fn signature_header_matches(expected: &str, header: Option<&[u8]>) -> (r: Result<
    (),
    WebhookRejection,
>)
    ensures
        header is None ==> r == Err::<(), WebhookRejection>(WebhookRejection::MissingSignature),
        header matches Some(h) && encode_utf8(expected@) == h@ ==> r is Ok,
        header matches Some(h) && encode_utf8(expected@) != h@ ==> r == Err::<(), WebhookRejection>(
            WebhookRejection::SignatureMismatch,
        ),
{
    match header {
        None => Err(WebhookRejection::MissingSignature),
        Some(h) => {
            if bytes_equal(expected.as_bytes(), h) {
                Ok(())
            } else {
                Err(WebhookRejection::SignatureMismatch)
            }
        },
    }
}

/// Checks the signature header of a webhook request against its body.
pub fn check_signature(secret: &str, body: &[u8], header: Option<&[u8]>) -> (r: Result<
    (),
    WebhookRejection,
>)
    ensures
        header is None ==> r == Err::<(), WebhookRejection>(WebhookRejection::MissingSignature),
        header matches Some(h) && encode_utf8(signature_of(secret@, body@)) == h@ ==> r is Ok,
        header matches Some(h) && encode_utf8(signature_of(secret@, body@)) != h@ ==> r == Err::<
            (),
            WebhookRejection,
        >(WebhookRejection::SignatureMismatch),
{
    let expected = signature(secret, body);
    signature_header_matches(expected.as_str(), header)
}

/// The views of a list of pairs.
pub open spec fn pairs_view(pairs: Seq<(String, String)>) -> Seq<(Seq<char>, Seq<char>)> {
    pairs.map_values(|p: (String, String)| (p.0@, p.1@))
}

/// The value of the last pair named `name`.
pub open spec fn last_value(pairs: Seq<(Seq<char>, Seq<char>)>, name: Seq<char>) -> Option<Seq<char>>
    decreases pairs.len(),
{
    if pairs.len() == 0 {
        None
    } else if pairs.last().0 == name {
        Some(pairs.last().1)
    } else {
        last_value(pairs.drop_last(), name)
    }
}

/// The `crc_token` of decoded query pairs: the value of the last pair of
/// that name.
pub fn crc_token_from_pairs(pairs: &Vec<(String, String)>) -> (r: Option<String>)
    ensures
        r is None <==> last_value(pairs_view(pairs@), "crc_token"@) is None,
        r matches Some(t) ==> last_value(pairs_view(pairs@), "crc_token"@) == Some(t@),
{
    let name = String::from_str("crc_token");
    let mut found: Option<String> = None;
    let mut i: usize = 0;
    while i < pairs.len()
        invariant
            i <= pairs@.len(),
            name@ == "crc_token"@,
            found is None <==> last_value(pairs_view(pairs@.subrange(0, i as int)), name@) is None,
            found matches Some(t) ==> last_value(pairs_view(pairs@.subrange(0, i as int)), name@)
                == Some(t@),
        decreases pairs@.len() - i,
    {
        assert(pairs_view(pairs@.subrange(0, i + 1)).drop_last() == pairs_view(
            pairs@.subrange(0, i as int),
        ));
        if pairs[i].0 == name {
            found = Some(pairs[i].1.clone());
        }
        i = i + 1;
    }
    assert(pairs@.subrange(0, pairs@.len() as int) == pairs@);
    found
}

/// The `crc_token` parameter of a request's query string.
pub fn crc_token(query: &str) -> (r: Option<String>)
    ensures
        r is None <==> last_value(form_pairs_of(encode_utf8(query@)), "crc_token"@) is None,
        r matches Some(t) ==> last_value(form_pairs_of(encode_utf8(query@)), "crc_token"@) == Some(
            t@,
        ),
{
    let pairs = form_pairs(query.as_bytes());
    assert(pairs_view(pairs@) == form_pairs_of(encode_utf8(query@)));
    crc_token_from_pairs(&pairs)
}

/// The instant of a DM event: its `created_timestamp`, a decimal string of
/// milliseconds since the epoch, cut to the whole second.
pub open spec fn dm_timestamp(item: JsonValue) -> Result<Timestamp, WebhookRejection> {
    match field(item, "created_timestamp"@) {
        None => Err(WebhookRejection::NoCreatedTimestamp),
        Some(JsonValue::Str(s)) => match decimal_i64(s@) {
            None => Err(WebhookRejection::TimestampInvalid),
            Some(ms) => {
                let secs = millis_to_secs(ms as int) as i64;
                if utc_representable(secs, 0) {
                    Ok(Timestamp { secs, nanos: 0 })
                } else {
                    Err(WebhookRejection::TimestampOutOfRange)
                }
            },
        },
        Some(_) => Err(WebhookRejection::TimestampNotString),
    }
}

/// The text of a `message_create` object, if its sender is the allowed one.
pub open spec fn dm_text(create: JsonValue, allowed_sender: Seq<char>) -> Result<String, WebhookRejection> {
    match field(create, "sender_id"@) {
        None => Err(WebhookRejection::NoSenderId),
        Some(sender) => if !(sender matches JsonValue::Str(id) && id@ == allowed_sender) {
            Err(WebhookRejection::WrongSender)
        } else {
            match field(create, "message_data"@) {
                None => Err(WebhookRejection::NoMessageData),
                Some(data) => match field(data, "text"@) {
                    None => Err(WebhookRejection::NoText),
                    Some(JsonValue::Str(text)) => Ok(text),
                    Some(_) => Err(WebhookRejection::TextNotString),
                },
            }
        },
    }
}

/// The update that a webhook body asks for: the first DM event's text, sent
/// by the allowed sender and short enough, stamped with the event's time.
pub open spec fn dm_update(body: JsonValue, allowed_sender: Seq<char>) -> Result<
    PersonIsUpdateHelloMessage,
    WebhookRejection,
> {
    match field(body, "direct_message_events"@) {
        None => Err(WebhookRejection::NotDmEvent),
        Some(events) => match first_item(events) {
            None => Err(WebhookRejection::EmptyEventList),
            Some(item) => match dm_timestamp(item) {
                Err(e) => Err(e),
                Ok(timestamp) => match field(item, "message_create"@) {
                    None => Err(WebhookRejection::NotCreation),
                    Some(create) => match dm_text(create, allowed_sender) {
                        Err(e) => Err(e),
                        Ok(person_is) => if person_is_ok(person_is@) {
                            Ok(PersonIsUpdateHelloMessage { person_is, timestamp })
                        } else {
                            Err(WebhookRejection::TextInvalid)
                        },
                    },
                },
            },
        },
    }
}

fn event_timestamp(item: &JsonValue) -> (r: Result<Timestamp, WebhookRejection>)
    ensures
        r == dm_timestamp(*item),
{
    let key = String::from_str("created_timestamp");
    let raw = match item.get(&key) {
        None => return Err(WebhookRejection::NoCreatedTimestamp),
        Some(v) => v,
    };
    let s = match raw.as_str() {
        None => return Err(WebhookRejection::TimestampNotString),
        Some(s) => s,
    };
    match parse_i64(s.as_str()) {
        None => Err(WebhookRejection::TimestampInvalid),
        Some(ms) => match Timestamp::from_unix_millis(ms) {
            None => Err(WebhookRejection::TimestampOutOfRange),
            Some(t) => Ok(t),
        },
    }
}

fn event_text(create: &JsonValue, allowed_sender: &str) -> (r: Result<String, WebhookRejection>)
    ensures
        r == dm_text(*create, allowed_sender@),
{
    let sender_key = String::from_str("sender_id");
    let sender = match create.get(&sender_key) {
        None => return Err(WebhookRejection::NoSenderId),
        Some(v) => v,
    };
    let allowed = String::from_str(allowed_sender);
    let matches_sender = match sender.as_str() {
        Some(id) => *id == allowed,
        None => false,
    };
    if !matches_sender {
        return Err(WebhookRejection::WrongSender);
    }
    let data_key = String::from_str("message_data");
    let data = match create.get(&data_key) {
        None => return Err(WebhookRejection::NoMessageData),
        Some(v) => v,
    };
    let text_key = String::from_str("text");
    let text = match data.get(&text_key) {
        None => return Err(WebhookRejection::NoText),
        Some(v) => v,
    };
    match text.as_str() {
        None => Err(WebhookRejection::TextNotString),
        Some(t) => Ok(t.clone()),
    }
}

/// Reads a webhook event body: the status update that its first direct
/// message asks for, or why there is none.
pub fn update_from_dm_event(body: &JsonValue, allowed_sender: &str) -> (r: Result<
    PersonIsUpdateHelloMessage,
    WebhookRejection,
>)
    ensures
        r == dm_update(*body, allowed_sender@),
{
    let events_key = String::from_str("direct_message_events");
    let events = match body.get(&events_key) {
        None => return Err(WebhookRejection::NotDmEvent),
        Some(v) => v,
    };
    let item = match events.first() {
        None => return Err(WebhookRejection::EmptyEventList),
        Some(v) => v,
    };
    let timestamp = match event_timestamp(item) {
        Err(e) => return Err(e),
        Ok(t) => t,
    };
    let create_key = String::from_str("message_create");
    let create = match item.get(&create_key) {
        None => return Err(WebhookRejection::NotCreation),
        Some(v) => v,
    };
    let person_is = match event_text(create, allowed_sender) {
        Err(e) => return Err(e),
        Ok(t) => t,
    };
    if crate::protocol::is_person_is_valid(person_is.as_str()) {
        Ok(PersonIsUpdateHelloMessage { person_is, timestamp })
    } else {
        Err(WebhookRejection::TextInvalid)
    }
}

} // verus!
