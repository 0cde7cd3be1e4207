//! Request signing for the exchange's private WebSocket.
//!
//! A request is signed over the text `channel=<channel>\nevent=<event>\nts=<unix seconds>`: the
//! signature is the HMAC-SHA512 of that text under the API secret, in hexadecimal. For the login
//! message channel and event are empty.

use hmac::Mac;
use vstd::prelude::*;
use vstd::utf8::*;

use crate::decimal::{append_decimal, decimal};
use crate::text::{hex_text, hex_text_gives_bytes_back, hex_text_is_hexadecimal, hex_value};

verus! {

/// Authentication data of a login message.
#[derive(Debug, Clone)]
pub struct AuthHeader {
    pub method: String,
    pub key: String,
    pub signature: String,
    pub timestamp: u64,
}

/// The HMAC-SHA512 of a message under a key.
pub uninterp spec fn hmac_sha512_of(key: Seq<u8>, message: Seq<u8>) -> Seq<u8>;

/// `hmac::Hmac<sha2::Sha512>`: keyed with `new_from_slice`, fed with `update`, closed with
/// `finalize`.
///
/// Claimed: the code depends on key and message alone, and has 64 bytes, the output size of
/// SHA-512. Keys of any length are accepted. What the bytes are is left unsaid.
#[verifier::external_body]
fn hmac_sha512(key: &[u8], message: &[u8]) -> (r: Vec<u8>)
    ensures
        r@ == hmac_sha512_of(key@, message@),
        r@.len() == 64,
{
    let mut mac = hmac::Hmac::<sha2::Sha512>::new_from_slice(key).expect("any key length is accepted");
    mac.update(message);
    mac.finalize().into_bytes().to_vec()
}

/// `hex::encode`: two lower-case hexadecimal digits per byte, the high half first.
#[verifier::external_body]
fn hex_encode(bytes: &[u8]) -> (r: String)
    ensures
        r@ == hex_text(bytes@),
{
    hex::encode(bytes)
}

/// The text that is signed.
pub open spec fn sign_string(channel: Seq<char>, event: Seq<char>, ts: u64) -> Seq<char> {
    "channel="@ + channel + "\nevent="@ + event + "\nts="@ + decimal(ts as nat)
}

/// The signature of a text under a secret.
pub open spec fn signature_of(secret: Seq<char>, message: Seq<char>) -> Seq<char> {
    hex_text(hmac_sha512_of(encode_utf8(secret), encode_utf8(message)))
}

/// A signature is 128 characters, each of them a lower-case hexadecimal digit.
pub open spec fn is_signature(s: Seq<char>) -> bool {
    &&& s.len() == 128
    &&& forall|i: int|
        0 <= i < s.len() ==> {
            let c = #[trigger] s[i];
            '0' <= c <= '9' || 'a' <= c <= 'f'
        }
}

/// Writes the text that is signed.
pub fn sign_text(channel: &str, event: &str, ts: u64) -> (r: String)
    ensures
        r@ == sign_string(channel@, event@, ts),
{
    let mut out = String::new();
    out.append("channel=");
    out.append(channel);
    out.append("\nevent=");
    out.append(event);
    out.append("\nts=");
    append_decimal(&mut out, ts);
    assert(out@ =~= sign_string(channel@, event@, ts));
    out
}

/// Writes an authentication code of 64 bytes as a signature.
pub fn signature_text(mac: &[u8]) -> (r: String)
    requires
        mac@.len() == 64,
    ensures
        r@ == hex_text(mac@),
        is_signature(r@),
{
    proof {
        hex_text_is_hexadecimal(mac@);
    }
    hex_encode(mac)
}

/// Signs a message with a secret.
pub fn hmac_sign(secret: &str, message: &str) -> (r: String)
    ensures
        r@ == signature_of(secret@, message@),
        is_signature(r@),
{
    let mac = hmac_sha512(secret.as_bytes(), message.as_bytes());
    signature_text(mac.as_slice())
}

/// Authentication data for a login at `ts`, in seconds since the Unix epoch.
pub fn build_auth_header(api_key: &str, api_secret: &str, ts: u64) -> (r: AuthHeader)
    ensures
        r.method@ == "api_key"@,
        r.key@ == api_key@,
        r.signature@ == signature_of(api_secret@, sign_string(""@, ""@, ts)),
        is_signature(r.signature@),
        r.timestamp == ts,
{
    let message = sign_text("", "", ts);
    let signature = hmac_sign(api_secret, message.as_str());
    AuthHeader {
        method: "api_key".to_string(),
        key: api_key.to_string(),
        signature,
        timestamp: ts,
    }
}

/// What is signed names channel, event and time, each behind its own name, in that order. The login
/// is signed with both names empty, under the secret and not under the key.
pub proof fn logins_sign_their_time(
    api_key: &str,
    api_secret: &str,
    ts: u64,
    r: AuthHeader,
    channel: &str,
    event: &str,
    text: String,
)
    requires
        call_ensures(build_auth_header, (api_key, api_secret, ts), r),
        call_ensures(sign_text, (channel, event, ts), text),
    ensures
        text@ == "channel="@ + channel@ + "\nevent="@ + event@ + "\nts="@ + decimal(ts as nat),
        r.method@ == "api_key"@,
        r.key@ == api_key@,
        r.timestamp == ts,
        r.signature@.len() == 128,
        channel@ == ""@ && event@ == ""@ ==> r.signature@ == hex_text(
            hmac_sha512_of(encode_utf8(api_secret@), encode_utf8(text@)),
        ),
{
}

/// A signature is the code of the message under the secret, two hexadecimal digits per byte: the
/// digits of each byte give the byte back.
pub proof fn signatures_spell_the_code(secret: &str, message: &str, r: String, i: int)
    requires
        call_ensures(hmac_sign, (secret, message), r),
        0 <= i < 64,
    ensures
        ({
            let code = hmac_sha512_of(encode_utf8(secret@), encode_utf8(message@));
            &&& r@.len() == 128
            &&& code.len() == 64
            &&& hex_value(r@[2 * i]) * 16 + hex_value(r@[2 * i + 1]) == code[i]
        }),
{
    hex_text_is_hexadecimal(hmac_sha512_of(encode_utf8(secret@), encode_utf8(message@)));
    hex_text_gives_bytes_back(hmac_sha512_of(encode_utf8(secret@), encode_utf8(message@)), i);
}

} // verus!
