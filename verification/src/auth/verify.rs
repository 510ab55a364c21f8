//! The checks that a request passes before its body is read.

use crate::auth::signature::{
    bytes_fault, examine_signature, well_signed, well_signed_means_no_fault, SignatureFault,
    SIGNATURE_LENGTH,
};
use crate::clock::unix_seconds;
use crate::decimal::{decimal_i64, parse_i64};
use crate::encoding::{decode_hex, hex_decoded};
use crate::subscription::{entitled, Subscription, SubscriptionManager};
use vstd::prelude::*;
use vstd::string::{StrSliceExecFns, StringSliceAdditionalSpecFns};
use vstd::utf8::encode_utf8;

verus! {

/// A request is rejected when its timestamp is more than this many seconds
/// in the past.
pub const MAX_AGE_SECONDS: i64 = 300;

/// A request is rejected when its timestamp is more than this many seconds
/// in the future.
pub const MAX_FUTURE_SKEW: i64 = 30;

/// What is wrong with the headers of a request.
#[derive(Debug, Clone, Copy, PartialEq, Eq, Structural)]
pub enum HeaderFault {
    /// The signature or the timestamp is empty.
    Missing,
    /// The timestamp is no decimal integer of 64 bits.
    TimestampNotInteger,
    /// The signature is not hexadecimal text.
    SignatureNotHex,
    /// The signature is not 64 bytes long.
    SignatureLength,
}

/// On which side of the freshness window a timestamp lies.
#[derive(Debug, Clone, Copy, PartialEq, Eq, Structural)]
pub enum Skew {
    /// More than [`MAX_FUTURE_SKEW`] seconds ahead of the clock.
    TooFarInFuture,
    /// More than [`MAX_AGE_SECONDS`] seconds behind the clock.
    TooOld,
    /// The clock could not be read as seconds since the epoch, so that no
    /// timestamp can be held against it.
    NoClock,
}

/// Why a request was not authenticated.
#[derive(Debug, Clone, Copy, PartialEq, Eq, Structural)]
pub enum AuthError {
    /// The signature or the timestamp is empty, the timestamp is no decimal
    /// integer, or the signature is not 64 bytes in hexadecimal.
    MalformedHeader(HeaderFault),
    /// The timestamp lies outside the freshness window.
    ClockSkew(Skew),
    /// The signature does not verify against the public key.
    BadSignature(SignatureFault),
}

/// The text that tells of an authentication failure.
pub open spec fn auth_error_message(error: AuthError) -> Seq<char> {
    match error {
        AuthError::MalformedHeader(HeaderFault::Missing) =>
            "Missing required Discord signature headers"@,
        AuthError::MalformedHeader(HeaderFault::TimestampNotInteger) =>
            "X-Signature-Timestamp is not a valid integer"@,
        AuthError::MalformedHeader(HeaderFault::SignatureNotHex) =>
            "Failed to decode signature hex"@,
        AuthError::MalformedHeader(HeaderFault::SignatureLength) =>
            "Signature has invalid length"@,
        AuthError::ClockSkew(Skew::TooFarInFuture) =>
            "Request timestamp is too far in the future"@,
        AuthError::ClockSkew(Skew::TooOld) => "Request timestamp is too old"@,
        AuthError::ClockSkew(Skew::NoClock) => "second time provided was later than self"@,
        AuthError::BadSignature(SignatureFault::KeyNotHex) => "Failed to decode public key hex"@,
        AuthError::BadSignature(SignatureFault::KeyLength) => "Public key has invalid length"@,
        AuthError::BadSignature(SignatureFault::KeyInvalid) => "Invalid public key bytes"@,
        AuthError::BadSignature(SignatureFault::Rejected) => "Signature verification failed"@,
    }
}

impl AuthError {
    /// The text that tells of this failure; see [`auth_error_message`].
    pub fn message(&self) -> (text: String)
        ensures
            text@ == auth_error_message(*self),
    {
        let text = match self {
            AuthError::MalformedHeader(HeaderFault::Missing) =>
                "Missing required Discord signature headers",
            AuthError::MalformedHeader(HeaderFault::TimestampNotInteger) =>
                "X-Signature-Timestamp is not a valid integer",
            AuthError::MalformedHeader(HeaderFault::SignatureNotHex) =>
                "Failed to decode signature hex",
            AuthError::MalformedHeader(HeaderFault::SignatureLength) =>
                "Signature has invalid length",
            AuthError::ClockSkew(Skew::TooFarInFuture) =>
                "Request timestamp is too far in the future",
            AuthError::ClockSkew(Skew::TooOld) => "Request timestamp is too old",
            AuthError::ClockSkew(Skew::NoClock) => "second time provided was later than self",
            AuthError::BadSignature(SignatureFault::KeyNotHex) => "Failed to decode public key hex",
            AuthError::BadSignature(SignatureFault::KeyLength) => "Public key has invalid length",
            AuthError::BadSignature(SignatureFault::KeyInvalid) => "Invalid public key bytes",
            AuthError::BadSignature(SignatureFault::Rejected) => "Signature verification failed",
        };
        text.to_owned()
    }
}

/// The guild has no active subscription.
#[derive(Debug, Clone, Copy, PartialEq, Eq, Structural)]
pub struct GateDecline {}

impl GateDecline {
    /// The text that tells of the decline.
    pub fn message(&self) -> (text: String)
        ensures
            text@ == "Guild subscription is not active"@,
    {
        "Guild subscription is not active".to_owned()
    }
}

/// The message that is signed: the bytes of the timestamp header, then the
/// raw body, with nothing in between.
pub open spec fn signed_message(timestamp: Seq<char>, body: Seq<u8>) -> Seq<u8> {
    encode_utf8(timestamp) + body
}

/// What is wrong with the signature header, if anything: it must be 64 bytes
/// in hexadecimal.
pub open spec fn signature_header_fault(signature_hex: Seq<char>) -> Option<HeaderFault> {
    match hex_decoded(signature_hex) {
        None => Some(HeaderFault::SignatureNotHex),
        Some(signature) => if signature.len() != SIGNATURE_LENGTH {
            Some(HeaderFault::SignatureLength)
        } else {
            None
        },
    }
}

/// What is wrong with the two headers, if anything. Both must be present,
/// the timestamp must be a decimal integer, and the signature 64 bytes in
/// hexadecimal; the first of these that fails is reported.
pub open spec fn header_fault(signature_hex: Seq<char>, timestamp: Seq<char>) -> Option<
    HeaderFault,
> {
    if signature_hex.len() == 0 || timestamp.len() == 0 {
        Some(HeaderFault::Missing)
    } else if decimal_i64(timestamp) is None {
        Some(HeaderFault::TimestampNotInteger)
    } else {
        signature_header_fault(signature_hex)
    }
}

/// Whether the signature header is 64 bytes in hexadecimal.
pub open spec fn signature_well_formed(signature_hex: Seq<char>) -> bool {
    signature_header_fault(signature_hex) is None
}

/// Whether both headers are present and have the form they must have.
pub open spec fn header_well_formed(signature_hex: Seq<char>, timestamp: Seq<char>) -> bool {
    header_fault(signature_hex, timestamp) is None
}

/// On which side of the window around `now` a timestamp lies, if on any: more
/// than [`MAX_FUTURE_SKEW`] seconds ahead, or more than [`MAX_AGE_SECONDS`]
/// behind.
pub open spec fn skew(timestamp: int, now: int) -> Option<Skew> {
    if timestamp > now + MAX_FUTURE_SKEW {
        Some(Skew::TooFarInFuture)
    } else if now - timestamp > MAX_AGE_SECONDS {
        Some(Skew::TooOld)
    } else {
        None
    }
}

/// Whether a timestamp lies in the window around `now`: at most
/// [`MAX_FUTURE_SKEW`] seconds ahead and at most [`MAX_AGE_SECONDS`] behind.
pub open spec fn fresh(timestamp: int, now: int) -> bool {
    timestamp <= now + MAX_FUTURE_SKEW && now - timestamp <= MAX_AGE_SECONDS
}

/// What is wrong with a signature under the public key given in hexadecimal,
/// if anything.
pub open spec fn key_fault(
    public_key_hex: Seq<char>,
    message: Seq<u8>,
    signature: Seq<u8>,
) -> Option<SignatureFault> {
    match hex_decoded(public_key_hex) {
        None => Some(SignatureFault::KeyNotHex),
        Some(key) => bytes_fault(key, message, signature),
    }
}

/// Whether the signature header verifies over timestamp and body against the
/// public key given in hexadecimal. A key that is not 32 bytes in
/// hexadecimal verifies nothing.
pub open spec fn signed_by(
    signature_hex: Seq<char>,
    timestamp: Seq<char>,
    body: Seq<u8>,
    public_key_hex: Seq<char>,
) -> bool {
    &&& hex_decoded(signature_hex) matches Some(signature)
    &&& hex_decoded(public_key_hex) matches Some(key)
    &&& well_signed(key, signed_message(timestamp, body), signature)
}

/// Outcome of the signature check alone, without a look at the timestamp or
/// the clock: the signature header must be well formed, then the signature
/// good.
pub open spec fn signature_outcome(
    signature_hex: Seq<char>,
    timestamp: Seq<char>,
    body: Seq<u8>,
    public_key_hex: Seq<char>,
) -> Result<(), AuthError> {
    match signature_header_fault(signature_hex) {
        Some(fault) => Err(AuthError::MalformedHeader(fault)),
        None => match key_fault(
            public_key_hex,
            signed_message(timestamp, body),
            hex_decoded(signature_hex)->0,
        ) {
            Some(fault) => Err(AuthError::BadSignature(fault)),
            None => Ok(()),
        },
    }
}

/// Outcome of the authentication of a request at time `now`: the headers
/// must be well formed, then the timestamp fresh, then the signature good.
pub open spec fn authentication(
    signature_hex: Seq<char>,
    timestamp: Seq<char>,
    body: Seq<u8>,
    public_key_hex: Seq<char>,
    now: int,
) -> Result<(), AuthError> {
    match header_fault(signature_hex, timestamp) {
        Some(fault) => Err(AuthError::MalformedHeader(fault)),
        None => match skew(decimal_i64(timestamp)->0 as int, now) {
            Some(side) => Err(AuthError::ClockSkew(side)),
            None => match key_fault(
                public_key_hex,
                signed_message(timestamp, body),
                hex_decoded(signature_hex)->0,
            ) {
                Some(fault) => Err(AuthError::BadSignature(fault)),
                None => Ok(()),
            },
        },
    }
}

/// The signature header in bytes, or what is wrong with it.
fn decode_signature(signature_hex: &str) -> (decoded: Result<Vec<u8>, HeaderFault>)
    ensures
        match decoded {
            Ok(signature) => signature_header_fault(signature_hex@) is None && hex_decoded(
                signature_hex@,
            ) == Some(signature@),
            Err(fault) => signature_header_fault(signature_hex@) == Some(fault),
        },
{
    match decode_hex(signature_hex) {
        Some(signature) => if signature.len() != SIGNATURE_LENGTH {
            Err(HeaderFault::SignatureLength)
        } else {
            Ok(signature)
        },
        None => Err(HeaderFault::SignatureNotHex),
    }
}

/// The time that the timestamp header gives and the signature header in
/// bytes, or what is wrong with the headers.
fn read_headers(signature_hex: &str, timestamp: &str) -> (headers: Result<
    (i64, Vec<u8>),
    HeaderFault,
>)
    ensures
        match headers {
            Ok((sent, signature)) => header_fault(signature_hex@, timestamp@) is None
                && decimal_i64(timestamp@) == Some(sent) && hex_decoded(signature_hex@) == Some(
                signature@,
            ),
            Err(fault) => header_fault(signature_hex@, timestamp@) == Some(fault),
        },
{
    if signature_hex.is_empty() || timestamp.is_empty() {
        return Err(HeaderFault::Missing);
    }
    let sent = match parse_i64(timestamp) {
        Some(sent) => sent,
        None => {
            return Err(HeaderFault::TimestampNotInteger);
        },
    };
    match decode_signature(signature_hex) {
        Ok(signature) => Ok((sent, signature)),
        Err(fault) => Err(fault),
    }
}

/// Checks a signature in bytes over the timestamp followed by the body,
/// against the public key given in hexadecimal.
fn check_signed_message(
    signature: &Vec<u8>,
    timestamp: &str,
    body: &[u8],
    public_key_hex: &str,
) -> (fault: Option<SignatureFault>)
    ensures
        fault == key_fault(public_key_hex@, signed_message(timestamp@, body@), signature@),
{
    let key = match decode_hex(public_key_hex) {
        Some(key) => key,
        None => {
            return Some(SignatureFault::KeyNotHex);
        },
    };
    let mut message = timestamp.as_bytes_vec();
    let mut i: usize = 0;
    while i < body.len()
        invariant
            i <= body.len(),
            message@ == timestamp.spec_bytes() + body@.take(i as int),
        decreases body.len() - i,
    {
        message.push(body[i]);
        assert(body@.take(i + 1) =~= body@.take(i as int).push(body@[i as int]));
        i += 1;
    }
    assert(body@.take(i as int) =~= body@);
    examine_signature(&key, message.as_slice(), signature)
}

/// Checks the signature of a request over the timestamp followed by the
/// body, and nothing else: the timestamp may be any text and is not held
/// against the clock. This is one stage of authentication, not the whole of
/// it; see [`verify_discord_request`].
pub fn check_request_signature(
    signature_hex: &str,
    timestamp: &str,
    body: &[u8],
    public_key_hex: &str,
) -> (outcome: Result<(), AuthError>)
    ensures
        outcome == signature_outcome(signature_hex@, timestamp@, body@, public_key_hex@),
{
    let signature = match decode_signature(signature_hex) {
        Ok(signature) => signature,
        Err(fault) => {
            return Err(AuthError::MalformedHeader(fault));
        },
    };
    match check_signed_message(&signature, timestamp, body, public_key_hex) {
        Some(fault) => Err(AuthError::BadSignature(fault)),
        None => Ok(()),
    }
}

/// Authenticates a request at the time `now`, in seconds since the epoch:
/// the headers must be well formed, the timestamp must lie in the freshness
/// window around `now`, and the signature must verify over the timestamp
/// followed by the body; see [`authentication`].
pub fn verify_discord_request(
    signature_hex: &str,
    timestamp: &str,
    body: &[u8],
    public_key_hex: &str,
    now: i64,
) -> (outcome: Result<(), AuthError>)
    ensures
        outcome == authentication(
            signature_hex@,
            timestamp@,
            body@,
            public_key_hex@,
            now as int,
        ),
{
    let (sent, signature) = match read_headers(signature_hex, timestamp) {
        Ok(headers) => headers,
        Err(fault) => {
            return Err(AuthError::MalformedHeader(fault));
        },
    };
    if sent as i128 > now as i128 + MAX_FUTURE_SKEW as i128 {
        return Err(AuthError::ClockSkew(Skew::TooFarInFuture));
    }
    if now as i128 - sent as i128 > MAX_AGE_SECONDS as i128 {
        return Err(AuthError::ClockSkew(Skew::TooOld));
    }
    match check_signed_message(&signature, timestamp, body, public_key_hex) {
        Some(fault) => Err(AuthError::BadSignature(fault)),
        None => Ok(()),
    }
}

/// Authenticates requests and checks entitlement.
#[derive(Debug, Clone, Copy, PartialEq, Eq, Structural)]
pub struct AuthManager {
    pub subscriptions: SubscriptionManager,
}

impl AuthManager {
    /// A manager that judges entitlement by `subscriptions`.
    pub fn new(subscriptions: SubscriptionManager) -> (manager: Self)
        ensures
            manager == (AuthManager { subscriptions }),
    {
        AuthManager { subscriptions }
    }

    /// Authenticates a request at the time `now`, in seconds since the epoch;
    /// see [`authentication`].
    pub fn verify_signature_at(
        &self,
        signature_hex: &str,
        timestamp: &str,
        body: &[u8],
        public_key_hex: &str,
        now: i64,
    ) -> (outcome: Result<(), AuthError>)
        ensures
            outcome == authentication(
                signature_hex@,
                timestamp@,
                body@,
                public_key_hex@,
                now as int,
            ),
    {
        verify_discord_request(signature_hex, timestamp, body, public_key_hex, now)
    }

    /// Authenticates a request at the time that the system clock shows. A
    /// clock that cannot be read as seconds since the epoch makes no
    /// timestamp fresh.
    pub fn verify_signature(
        &self,
        signature_hex: &str,
        timestamp: &str,
        body: &[u8],
        public_key_hex: &str,
    ) -> (outcome: Result<(), AuthError>)
        ensures
            header_fault(signature_hex@, timestamp@) matches Some(fault) ==> outcome == Err::<
                (),
                AuthError,
            >(AuthError::MalformedHeader(fault)),
            header_fault(signature_hex@, timestamp@) is None ==> outcome == Err::<(), AuthError>(
                AuthError::ClockSkew(Skew::NoClock),
            ) || exists|now: int|
                outcome == authentication(
                    signature_hex@,
                    timestamp@,
                    body@,
                    public_key_hex@,
                    now,
                ),
            outcome is Ok ==> signed_by(signature_hex@, timestamp@, body@, public_key_hex@),
    {
        match unix_seconds() {
            Some(seconds) => {
                if seconds <= i64::MAX as u64 {
                    let now = seconds as i64;
                    let outcome = verify_discord_request(
                        signature_hex,
                        timestamp,
                        body,
                        public_key_hex,
                        now,
                    );
                    proof {
                        well_signed_means_no_fault(
                            hex_decoded(public_key_hex@)->0,
                            signed_message(timestamp@, body@),
                            hex_decoded(signature_hex@)->0,
                        );
                    }
                    assert(outcome == authentication(
                        signature_hex@,
                        timestamp@,
                        body@,
                        public_key_hex@,
                        now as int,
                    ));
                    return outcome;
                }
            },
            None => {},
        }
        // No time is known: whatever the time, malformed headers stay malformed.
        match read_headers(signature_hex, timestamp) {
            Ok(_) => Err(AuthError::ClockSkew(Skew::NoClock)),
            Err(fault) => Err(AuthError::MalformedHeader(fault)),
        }
    }

    /// Lets a guild pass when its subscription is active at `now`.
    pub fn verify_subscription(&self, record: &Option<Subscription>, now: i64) -> (outcome: Result<
        (),
        GateDecline,
    >)
        ensures
            outcome is Ok <==> entitled(record.deep_view(), now as int),
    {
        if self.subscriptions.is_active(record, now) {
            Ok(())
        } else {
            Err(GateDecline {  })
        }
    }
}

/// A timestamp outside the freshness window fails authentication, whatever
/// the signature.
pub proof fn stale_timestamp_is_rejected(
    signature_hex: Seq<char>,
    timestamp: Seq<char>,
    body: Seq<u8>,
    public_key_hex: Seq<char>,
    now: int,
)
    requires
        decimal_i64(timestamp) matches Some(sent) && (now - sent > MAX_AGE_SECONDS || sent > now
            + MAX_FUTURE_SKEW),
    ensures
        authentication(signature_hex, timestamp, body, public_key_hex, now) is Err,
        header_well_formed(signature_hex, timestamp) ==> authentication(
            signature_hex,
            timestamp,
            body,
            public_key_hex,
            now,
        ) matches Err(AuthError::ClockSkew(_)),
{
}

/// A well-formed, fresh request succeeds exactly when its signature verifies
/// over the timestamp followed by the body against the public key.
pub proof fn fresh_request_succeeds_iff_signed(
    signature_hex: Seq<char>,
    timestamp: Seq<char>,
    body: Seq<u8>,
    public_key_hex: Seq<char>,
    now: int,
)
    requires
        header_well_formed(signature_hex, timestamp),
        fresh(decimal_i64(timestamp)->0 as int, now),
    ensures
        authentication(signature_hex, timestamp, body, public_key_hex, now) is Ok <==> signed_by(
            signature_hex,
            timestamp,
            body,
            public_key_hex,
        ),
{
    well_signed_means_no_fault(
        hex_decoded(public_key_hex)->0,
        signed_message(timestamp, body),
        hex_decoded(signature_hex)->0,
    );
}

/// The signature stage alone accepts a request whatever its timestamp, and
/// authentication is that stage behind the checks of the headers and of the
/// window: a request that authenticates has passed the signature stage, and
/// one that passes the stage authenticates exactly when its headers are well
/// formed and its timestamp is fresh.
pub proof fn authentication_adds_freshness(
    signature_hex: Seq<char>,
    timestamp: Seq<char>,
    body: Seq<u8>,
    public_key_hex: Seq<char>,
    now: int,
)
    ensures
        authentication(signature_hex, timestamp, body, public_key_hex, now) is Ok <==> {
            &&& signature_outcome(signature_hex, timestamp, body, public_key_hex) is Ok
            &&& header_well_formed(signature_hex, timestamp)
            &&& fresh(decimal_i64(timestamp)->0 as int, now)
        },
{
}

} // verus!
