//! Request authentication for the webhook: only requests signed with the
//! shared secret, and signed recently, are let through.

use crate::interface::status::StatusCode;
use crate::text::{hex, lemma_hex_is_injective, parse_i64, parse_integer, push_hex, same_text};
use crate::util::{now_timestamp, rfc3339_utc};
use vstd::prelude::*;
use vstd::utf8::{encode_utf8, valid_utf8};

verus! {

/// The HMAC-SHA256 tag of a message under a key, as the `hmac` and `sha2`
/// crates compute it.
pub uninterp spec fn hmac_sha256(key: Seq<u8>, message: Seq<u8>) -> Seq<u8>;

/// Computes a tag with `Hmac::<Sha256>`: `new_from_slice` with the key,
/// `update` with the message, `finalize`. Claims that there always is a tag,
/// since HMAC takes a key of any length, that it is the one named above, and
/// that it has the 32 bytes of a SHA-256 output.
#[verifier::external_body]
fn hmac_sha256_tag(key: &[u8], message: &[u8]) -> (tag: Option<Vec<u8>>)
    ensures
        tag is Some,
        tag->0@ == hmac_sha256(key@, message@),
        tag->0@.len() == 32,
{
    match <hmac::Hmac<sha2::Sha256> as hmac::Mac>::new_from_slice(key) {
        Ok(mut mac) => {
            hmac::Mac::update(&mut mac, message);
            Some(hmac::Mac::finalize(mac).into_bytes().to_vec())
        },
        Err(_) => None,
    }
}

/// Asks `std::str::from_utf8` whether the bytes are UTF-8.
#[verifier::external_body]
fn is_utf8(bytes: &[u8]) -> (valid: bool)
    ensures
        valid == valid_utf8(bytes@),
{
    std::str::from_utf8(bytes).is_ok()
}

/// The name of the header that carries the signature of a request.
pub const SIGNATURE_HEADER: &'static str = "X-Slack-Signature";

/// The name of the header that carries the instant at which a request was
/// signed, in seconds since the Unix epoch.
pub const TIMESTAMP_HEADER: &'static str = "X-Slack-Request-Timestamp";

/// A header of a request as the verifier sees it.
#[derive(Debug, Clone, PartialEq)]
pub enum Header {
    /// The request has no such header.
    Missing,
    /// The header's value is not visible ASCII text.
    NotText,
    /// The header's value.
    Text(String),
}

pub enum HeaderView {
    Missing,
    NotText,
    Text(Seq<char>),
}

impl View for Header {
    type V = HeaderView;

    open spec fn view(&self) -> HeaderView {
        match self {
            Header::Missing => HeaderView::Missing,
            Header::NotText => HeaderView::NotText,
            Header::Text(t) => HeaderView::Text(t@),
        }
    }
}

/// What the verifier reads of the head of a request: the header named
/// `SIGNATURE_HEADER` and the header named `TIMESTAMP_HEADER`.
#[derive(Debug, Clone, PartialEq)]
pub struct Parts {
    pub signature: Header,
    pub timestamp: Header,
}

pub struct PartsView {
    pub signature: HeaderView,
    pub timestamp: HeaderView,
}

impl View for Parts {
    type V = PartsView;

    open spec fn view(&self) -> PartsView {
        PartsView { signature: self.signature@, timestamp: self.timestamp@ }
    }
}

/// Why a request could not be checked.
#[derive(Debug, Clone, Copy, PartialEq, Eq, Structural)]
pub enum AuthError {
    NoSignature,
    SignatureNotText,
    NoTimestamp,
    TimestampNotText,
    TimestampNotInteger,
    /// The request was signed more than five minutes ago.
    TimestampTooOld,
    /// The body is not UTF-8.
    BodyNotText,
}

/// For how many seconds a signature stays good.
pub const REPLAY_WINDOW: i64 = 300;

/// The bytes that are signed: `v0:`, the timestamp as the header gives it, a
/// colon, and the body.
pub open spec fn signing_base(timestamp: Seq<char>, body: Seq<u8>) -> Seq<u8> {
    encode_utf8("v0:"@) + encode_utf8(timestamp) + encode_utf8(":"@) + body
}

/// The signature that a request with this timestamp and body has to carry:
/// `v0=` and the tag of the signed bytes under the secret, in hexadecimal.
pub open spec fn expected_signature(secret: Seq<char>, timestamp: Seq<char>, body: Seq<u8>) -> Seq<
    char,
> {
    "v0="@ + hex(hmac_sha256(encode_utf8(secret), signing_base(timestamp, body)))
}

/// What the check of a request at the instant `now` comes to. Both headers
/// have to be there as text and the timestamp has to be an integer, or the
/// request cannot be checked. A timestamp more than five minutes before `now`
/// is too old, whatever the signature. The body has to be UTF-8. Then the
/// request is good exactly if its signature is the expected one.
pub open spec fn signature_verdict(
    parts: PartsView,
    body: Seq<u8>,
    secret: Seq<char>,
    now: int,
) -> Result<bool, AuthError> {
    match parts.signature {
        HeaderView::Missing => Err(AuthError::NoSignature),
        HeaderView::NotText => Err(AuthError::SignatureNotText),
        HeaderView::Text(signature) => match parts.timestamp {
            HeaderView::Missing => Err(AuthError::NoTimestamp),
            HeaderView::NotText => Err(AuthError::TimestampNotText),
            HeaderView::Text(timestamp) => match parse_integer(timestamp) {
                None => Err(AuthError::TimestampNotInteger),
                Some(signed_at) => if now - signed_at > REPLAY_WINDOW {
                    Err(AuthError::TimestampTooOld)
                } else if !valid_utf8(body) {
                    Err(AuthError::BodyNotText)
                } else {
                    Ok(signature == expected_signature(secret, timestamp, body))
                },
            },
        },
    }
}

/// A request signed more than five minutes ago is never good, whatever
/// signature it carries.
pub proof fn lemma_stale_request_is_rejected(
    parts: PartsView,
    body: Seq<u8>,
    secret: Seq<char>,
    now: int,
    signed_at: int,
)
    requires
        parts.timestamp matches HeaderView::Text(timestamp) && parse_integer(timestamp) == Some(
            signed_at,
        ),
        now - signed_at > REPLAY_WINDOW,
    ensures
        signature_verdict(parts, body, secret, now) != Ok::<bool, AuthError>(true),
        parts.signature is Text ==> signature_verdict(parts, body, secret, now) == Err::<
            bool,
            _,
        >(AuthError::TimestampTooOld),
{
}

/// A request with a UTF-8 body that was signed at most five minutes ago and
/// carries the expected signature is good.
pub proof fn lemma_fresh_signed_request_is_accepted(
    timestamp: Seq<char>,
    body: Seq<u8>,
    secret: Seq<char>,
    now: int,
    signed_at: int,
)
    requires
        parse_integer(timestamp) == Some(signed_at),
        now - signed_at <= REPLAY_WINDOW,
        valid_utf8(body),
    ensures
        signature_verdict(
            PartsView {
                signature: HeaderView::Text(expected_signature(secret, timestamp, body)),
                timestamp: HeaderView::Text(timestamp),
            },
            body,
            secret,
            now,
        ) == Ok::<bool, AuthError>(true),
{
}

/// Another body is signed as other bytes: with the same timestamp, two
/// bodies that differ, be it in one byte, give signed byte strings that differ.
pub proof fn lemma_another_body_is_signed_differently(
    timestamp: Seq<char>,
    body: Seq<u8>,
    other: Seq<u8>,
)
    requires
        body != other,
    ensures
        signing_base(timestamp, body) != signing_base(timestamp, other),
{
    let head = encode_utf8("v0:"@) + encode_utf8(timestamp) + encode_utf8(":"@);
    if signing_base(timestamp, body) == signing_base(timestamp, other) {
        assert((head + body).skip(head.len() as int) =~= body);
        assert((head + other).skip(head.len() as int) =~= other);
    }
}

/// A signature is good for one body only, short of a collision. Where the
/// same request head is good for two bodies that differ, the two byte strings
/// that were signed differ, and HMAC-SHA256 gives them the same tag under the
/// secret. Nothing else makes a signature good for another body; that there
/// is no such pair of byte strings is what is expected of HMAC-SHA256.
pub proof fn lemma_signature_for_another_body_needs_a_collision(
    parts: PartsView,
    body: Seq<u8>,
    other: Seq<u8>,
    secret: Seq<char>,
    now: int,
)
    requires
        body != other,
        signature_verdict(parts, body, secret, now) == Ok::<bool, AuthError>(true),
        signature_verdict(parts, other, secret, now) == Ok::<bool, AuthError>(true),
    ensures
        parts.timestamp matches HeaderView::Text(timestamp) && signing_base(timestamp, body)
            != signing_base(timestamp, other) && hmac_sha256(
            encode_utf8(secret),
            signing_base(timestamp, body),
        ) == hmac_sha256(encode_utf8(secret), signing_base(timestamp, other)),
{
    let timestamp = parts.timestamp->Text_0;
    let signature = parts.signature->Text_0;
    lemma_another_body_is_signed_differently(timestamp, body, other);
    let one = hex(hmac_sha256(encode_utf8(secret), signing_base(timestamp, body)));
    let two = hex(hmac_sha256(encode_utf8(secret), signing_base(timestamp, other)));
    assert(signature == "v0="@ + one);
    assert(signature == "v0="@ + two);
    assert(one =~= ("v0="@ + one).skip("v0="@.len() as int));
    assert(two =~= ("v0="@ + two).skip("v0="@.len() as int));
    lemma_hex_is_injective(
        hmac_sha256(encode_utf8(secret), signing_base(timestamp, body)),
        hmac_sha256(encode_utf8(secret), signing_base(timestamp, other)),
    );
}

/// Checks a request at the instant `now`, in seconds since the Unix epoch.
pub fn check_signature_at(parts: &Parts, body: &[u8], signing_secret: &str, now: i64) -> (verdict:
    Result<bool, AuthError>)
    ensures
        verdict == signature_verdict(parts@, body@, signing_secret@, now as int),
{
    let signature = match &parts.signature {
        Header::Missing => {
            return Err(AuthError::NoSignature);
        },
        Header::NotText => {
            return Err(AuthError::SignatureNotText);
        },
        Header::Text(signature) => signature,
    };
    let timestamp = match &parts.timestamp {
        Header::Missing => {
            return Err(AuthError::NoTimestamp);
        },
        Header::NotText => {
            return Err(AuthError::TimestampNotText);
        },
        Header::Text(timestamp) => timestamp,
    };
    let signed_at = match parse_i64(timestamp.as_str()) {
        Some(signed_at) => signed_at,
        None => {
            return Err(AuthError::TimestampNotInteger);
        },
    };
    if now as i128 - signed_at as i128 > REPLAY_WINDOW as i128 {
        return Err(AuthError::TimestampTooOld);
    }
    if !is_utf8(body) {
        return Err(AuthError::BodyNotText);
    }
    let mut base: Vec<u8> = Vec::new();
    base.extend_from_slice("v0:".as_bytes());
    base.extend_from_slice(timestamp.as_str().as_bytes());
    base.extend_from_slice(":".as_bytes());
    base.extend_from_slice(body);
    assert(base@ =~= signing_base(timestamp@, body@));
    let tag = match hmac_sha256_tag(signing_secret.as_bytes(), base.as_slice()) {
        Some(tag) => tag,
        None => {
            return Ok(false);
        },
    };
    let mut expected = String::from_str("v0=");
    push_hex(&mut expected, tag.as_slice());
    Ok(same_text(signature.as_str(), expected.as_str()))
}

/// Checks a request against the clock. The verdict is that of the instant
/// the clock gave, which is an instant that has a date.
pub fn check_signature(parts: &Parts, body: &[u8], signing_secret: &str) -> (verdict: Result<
    bool,
    AuthError,
>)
    ensures
        exists|now: i64|
            rfc3339_utc(now as int) is Some && verdict == #[trigger] signature_verdict(
                parts@,
                body@,
                signing_secret@,
                now as int,
            ),
{
    let now = now_timestamp();
    check_signature_at(parts, body, signing_secret, now)
}

/// The answer to a request that is not let through: 401.
pub fn make_error_response() -> (status: StatusCode)
    ensures
        status == StatusCode::Unauthorized,
{
    StatusCode::Unauthorized
}

/// The signature check of the webhook, holding the shared signing secret.
#[derive(Debug, Clone, PartialEq)]
pub struct Auth {
    pub signing_secret: String,
}

/// A signature check in the making.
#[derive(Debug, Clone, PartialEq)]
pub struct AuthBuilder {
    pub signing_secret: Option<String>,
}

impl AuthBuilder {
    pub fn signing_secret(self, signing_secret: String) -> (next: AuthBuilder)
        ensures
            next == (AuthBuilder { signing_secret: Some(signing_secret) }),
    {
        AuthBuilder { signing_secret: Some(signing_secret) }
    }

    /// The signature check, once the secret was given.
    pub fn build(self) -> (auth: Auth)
        requires
            self.signing_secret is Some,
        ensures
            auth == (Auth { signing_secret: self.signing_secret->0 }),
    {
        Auth { signing_secret: self.signing_secret.unwrap() }
    }
}

impl Auth {
    /// Begins a signature check without a secret.
    pub fn builder() -> (builder: AuthBuilder)
        ensures
            builder == (AuthBuilder { signing_secret: None }),
    {
        AuthBuilder { signing_secret: None }
    }

    /// Decides at the instant `now` whether a request is let through. It is
    /// let through exactly if its check comes to "good"; a request that is
    /// not good and a request that cannot be checked are both answered with
    /// 401.
    pub fn authorize_at(&self, parts: &Parts, body: &[u8], now: i64) -> (pass: Result<
        (),
        StatusCode,
    >)
        ensures
            pass is Ok <==> signature_verdict(parts@, body@, self.signing_secret@, now as int)
                == Ok::<bool, AuthError>(true),
            pass is Err ==> pass == Err::<(), StatusCode>(StatusCode::Unauthorized),
    {
        match check_signature_at(parts, body, self.signing_secret.as_str(), now) {
            Ok(true) => Ok(()),
            _ => Err(make_error_response()),
        }
    }

    /// Decides against the clock whether a request is let through: at the
    /// instant the clock gave, which is an instant that has a date.
    pub fn authorize(&self, parts: &Parts, body: &[u8]) -> (pass: Result<(), StatusCode>)
        ensures
            pass is Err ==> pass == Err::<(), StatusCode>(StatusCode::Unauthorized),
            exists|now: i64|
                rfc3339_utc(now as int) is Some && (pass is Ok <==> #[trigger] signature_verdict(
                    parts@,
                    body@,
                    self.signing_secret@,
                    now as int,
                ) == Ok::<bool, AuthError>(true)),
    {
        let now = now_timestamp();
        let pass = self.authorize_at(parts, body, now);
        assert(pass is Ok <==> signature_verdict(parts@, body@, self.signing_secret@, now as int)
            == Ok::<bool, AuthError>(true));
        pass
    }
}

} // verus!
