//! Token checks on incoming requests, and the issuance of challenges and
//! tokens.

use crate::proto::{AuthTokens, GenerateAuthTokensRequest, Timestamp, Token, TokenView};
use crate::utils::keypair_manager::{ed25519_verifies, verify_signature};
use crate::utils::solana_blockhash_fetcher::{base58_encode, base58_text};
use vstd::utf8::encode_utf8;
use crate::text::{decimal, push_decimal};
use vstd::prelude::*;

verus! {

broadcast use vstd::string::is_ascii_spec_bytes;

/// How long an access token is valid, in seconds.
pub const ACCESS_TOKEN_LIFETIME_SECS: u64 = 3600;

/// How long a refresh token is valid, in seconds.
pub const REFRESH_TOKEN_LIFETIME_SECS: u64 = 86400;

/// A reading of the clock: time since the Unix epoch.
#[derive(Clone, Copy, Debug, PartialEq, Eq, Structural)]
pub struct UnixTime {
    pub secs: u64,
    pub nanos: u32,
}

/// Why a request or a token request is refused.
#[derive(Clone, Copy, Debug, PartialEq, Eq, Structural)]
pub enum AuthRejection {
    /// The authorization header holds bytes other than visible ASCII.
    InvalidTokenFormat,
    /// The authorization header holds no token this server issues.
    InvalidToken,
    /// The request has no authorization header.
    MissingAuthorizationHeader,
    /// The signed challenge is empty.
    InvalidSignature,
}

impl AuthRejection {
    /// The text that goes with the rejection.
    pub open spec fn spec_message(self) -> Seq<char> {
        match self {
            AuthRejection::InvalidTokenFormat => "Invalid token format"@,
            AuthRejection::InvalidToken => "Invalid token"@,
            AuthRejection::MissingAuthorizationHeader => "Missing authorization header"@,
            AuthRejection::InvalidSignature => "Invalid signature"@,
        }
    }

    /// The text that goes with the rejection.
    pub fn message(&self) -> (m: String)
        ensures
            m@ == self.spec_message(),
    {
        match self {
            AuthRejection::InvalidTokenFormat => {
                proof {
                    reveal_strlit("Invalid token format");
                }
                String::from_str("Invalid token format")
            },
            AuthRejection::InvalidToken => {
                proof {
                    reveal_strlit("Invalid token");
                }
                String::from_str("Invalid token")
            },
            AuthRejection::MissingAuthorizationHeader => {
                proof {
                    reveal_strlit("Missing authorization header");
                }
                String::from_str("Missing authorization header")
            },
            AuthRejection::InvalidSignature => {
                proof {
                    reveal_strlit("Invalid signature");
                }
                String::from_str("Invalid signature")
            },
        }
    }
}

/// A byte that a header value may hold when read as text: visible ASCII or tab.
pub open spec fn is_visible_ascii(b: u8) -> bool {
    (32 <= b && b < 127) || b == 9
}

/// The bytes of ASCII text.
pub open spec fn ascii_bytes(s: Seq<char>) -> Seq<u8> {
    Seq::new(s.len(), |i: int| s[i] as u8)
}

/// The header prefix of an issued access token.
pub open spec fn access_token_header_prefix() -> Seq<u8> {
    ascii_bytes("Bearer access_token_"@)
}

/// The header prefix of a refreshed access token.
pub open spec fn refreshed_token_header_prefix() -> Seq<u8> {
    ascii_bytes("Bearer refreshed_access_token_"@)
}

/// The verdict on a request's authorization header.
pub open spec fn authorization_verdict(header: Option<Seq<u8>>) -> Result<(), AuthRejection> {
    match header {
        None => Err(AuthRejection::MissingAuthorizationHeader),
        Some(h) => if !(forall|i: int| 0 <= i < h.len() ==> is_visible_ascii(#[trigger] h[i])) {
            Err(AuthRejection::InvalidTokenFormat)
        } else if access_token_header_prefix().is_prefix_of(h)
            || refreshed_token_header_prefix().is_prefix_of(h) {
            Ok(())
        } else {
            Err(AuthRejection::InvalidToken)
        },
    }
}

/// Text followed by the decimal rendering of a number.
pub open spec fn numbered(prefix: Seq<char>, n: u64) -> Seq<char> {
    prefix + decimal(n as nat)
}

/// The timestamp of `offset` seconds after `now`.
pub open spec fn timestamp_after(now: UnixTime, offset: u64) -> Timestamp {
    Timestamp { seconds: (now.secs + offset) as i64, nanos: now.nanos as i32 }
}

/// The access token issued at `now`.
pub open spec fn issued_access_token(now: UnixTime) -> TokenView {
    TokenView {
        value: numbered("access_token_"@, now.secs),
        expires_at_utc: Some(timestamp_after(now, ACCESS_TOKEN_LIFETIME_SECS)),
    }
}

/// The refresh token issued at `now`.
pub open spec fn issued_refresh_token(now: UnixTime) -> TokenView {
    TokenView {
        value: numbered("refresh_token_"@, now.secs),
        expires_at_utc: Some(timestamp_after(now, REFRESH_TOKEN_LIFETIME_SECS)),
    }
}

/// The access token issued on refresh: named after the clock's first reading,
/// expiring an hour after its second.
pub open spec fn refreshed_access_token(named_at: u64, now: UnixTime) -> TokenView {
    TokenView {
        value: numbered("refreshed_access_token_"@, named_at),
        expires_at_utc: Some(timestamp_after(now, ACCESS_TOKEN_LIFETIME_SECS)),
    }
}

/// The message a client signs to answer a challenge: the base58 text of
/// its public key followed by the challenge, as UTF-8 bytes.
pub open spec fn signed_message(client_pubkey: Seq<u8>, challenge: Seq<char>) -> Seq<u8> {
    encode_utf8(base58_text(client_pubkey) + challenge)
}

/// Whether a token request carries an accepted signature: a non-empty
/// Ed25519 signature by the client's key of its key's text and the challenge.
pub open spec fn signature_accepted(client_pubkey: Seq<u8>, challenge: Seq<char>, signed_challenge: Seq<u8>) -> bool {
    signed_challenge.len() > 0 && ed25519_verifies(client_pubkey, signed_message(client_pubkey, challenge), signed_challenge)
}

/// A clock reading that the token lifetimes can be added to.
pub open spec fn valid_now(now: UnixTime, offset: u64) -> bool {
    now.secs + offset <= i64::MAX && now.nanos < 1_000_000_000
}

/// Whether `data` starts with `prefix`.
fn starts_with_bytes(data: &[u8], prefix: &[u8]) -> (r: bool)
    ensures
        r == prefix@.is_prefix_of(data@),
{
    if prefix.len() > data.len() {
        return false;
    }
    let mut i: usize = 0;
    while i < prefix.len()
        invariant
            prefix@.len() <= data@.len(),
            i <= prefix@.len(),
            forall|j: int| 0 <= j < i ==> prefix@[j] == data@[j],
        decreases prefix@.len() - i,
    {
        if prefix[i] != data[i] {
            return false;
        }
        i = i + 1;
    }
    true
}

fn all_visible_ascii(data: &[u8]) -> (r: bool)
    ensures
        r == (forall|i: int| 0 <= i < data@.len() ==> is_visible_ascii(#[trigger] data@[i])),
{
    let mut i: usize = 0;
    while i < data.len()
        invariant
            i <= data@.len(),
            forall|j: int| 0 <= j < i ==> is_visible_ascii(#[trigger] data@[j]),
        decreases data@.len() - i,
    {
        let b = data[i];
        if !((32 <= b && b < 127) || b == 9) {
            return false;
        }
        i = i + 1;
    }
    true
}

/// Checks the authorization header of every request to a protected service.
#[derive(Clone, Copy, Debug, Default)]
pub struct AuthInterceptor;

impl AuthInterceptor {
    /// The verdict on a request whose authorization header holds
    /// `authorization` (`None` when the header is absent): refused when
    /// absent, refused as badly formatted when it holds anything but visible
    /// ASCII, accepted when it starts with `Bearer access_token_` or
    /// `Bearer refreshed_access_token_`, refused as an invalid token otherwise.
    pub fn authorize(&mut self, authorization: Option<&[u8]>) -> (verdict: Result<(), AuthRejection>)
        ensures
            verdict == authorization_verdict(
                match authorization {
                    Some(h) => Some(h@),
                    None => None,
                },
            ),
    {
        match authorization {
            None => Err(AuthRejection::MissingAuthorizationHeader),
            Some(h) => {
                if !all_visible_ascii(h) {
                    return Err(AuthRejection::InvalidTokenFormat);
                }
                let access = "Bearer access_token_";
                let refreshed = "Bearer refreshed_access_token_";
                proof {
                    reveal_strlit("Bearer access_token_");
                    reveal_strlit("Bearer refreshed_access_token_");
                    assert(vstd::string::is_ascii(access));
                    assert(vstd::string::is_ascii(refreshed));
                }
                let access_bytes = access.as_bytes();
                let refreshed_bytes = refreshed.as_bytes();
                assert(access_bytes@ =~= access_token_header_prefix());
                assert(refreshed_bytes@ =~= refreshed_token_header_prefix());
                if starts_with_bytes(h, access_bytes) || starts_with_bytes(h, refreshed_bytes) {
                    Ok(())
                } else {
                    Err(AuthRejection::InvalidToken)
                }
            },
        }
    }
}

fn numbered_string(prefix: &str, n: u64) -> (s: String)
    ensures
        s@ == numbered(prefix@, n),
{
    let mut s = String::from_str(prefix);
    push_decimal(&mut s, n);
    s
}

/// Issues challenges and tokens.
#[derive(Clone, Copy, Debug, Default)]
pub struct AuthServiceImpl;

impl AuthServiceImpl {
    /// The challenge handed out at `now_secs`: `challenge_` and the seconds.
    pub fn generate_auth_challenge(&self, now_secs: u64) -> (challenge: String)
        ensures
            challenge@ == numbered("challenge_"@, now_secs),
    {
        numbered_string("challenge_", now_secs)
    }

    /// Validates the signed challenge and issues an access token valid for
    /// an hour and a refresh token valid for a day, both named after the
    /// second of issue; an empty or invalid signature is refused.
    pub fn generate_auth_tokens(&self, request: &GenerateAuthTokensRequest, now: UnixTime) -> (tokens: Result<AuthTokens, AuthRejection>)
        requires
            valid_now(now, REFRESH_TOKEN_LIFETIME_SECS),
        ensures
            match tokens {
                Ok(t) => {
                    &&& signature_accepted(request.client_pubkey@, request.challenge@, request.signed_challenge@)
                    &&& t.access_token matches Some(a) && a@ == issued_access_token(now)
                    &&& t.refresh_token matches Some(r) && r@ == issued_refresh_token(now)
                },
                Err(e) => {
                    &&& !signature_accepted(request.client_pubkey@, request.challenge@, request.signed_challenge@)
                    &&& e == AuthRejection::InvalidSignature
                },
            },
    {
        if request.signed_challenge.len() == 0 {
            return Err(AuthRejection::InvalidSignature);
        }
        let mut message = base58_encode(request.client_pubkey.as_slice());
        message.append(request.challenge.as_str());
        let valid = verify_signature(
            request.client_pubkey.as_slice(),
            message.as_str().as_bytes(),
            request.signed_challenge.as_slice(),
        );
        if !valid {
            return Err(AuthRejection::InvalidSignature);
        }
        let access_token = Token {
            value: numbered_string("access_token_", now.secs),
            expires_at_utc: Some(timestamp_after_exec(now, ACCESS_TOKEN_LIFETIME_SECS)),
        };
        let refresh_token = Token {
            value: numbered_string("refresh_token_", now.secs),
            expires_at_utc: Some(timestamp_after_exec(now, REFRESH_TOKEN_LIFETIME_SECS)),
        };
        Ok(AuthTokens { access_token: Some(access_token), refresh_token: Some(refresh_token) })
    }

    /// Issues a fresh access token: named after `named_at` (the clock's
    /// first reading) and expiring an hour after `now` (its second).
    pub fn refresh_access_token(&self, named_at: u64, now: UnixTime) -> (token: Token)
        requires
            valid_now(now, ACCESS_TOKEN_LIFETIME_SECS),
        ensures
            token@ == refreshed_access_token(named_at, now),
    {
        Token {
            value: numbered_string("refreshed_access_token_", named_at),
            expires_at_utc: Some(timestamp_after_exec(now, ACCESS_TOKEN_LIFETIME_SECS)),
        }
    }
}

/// The timestamp of `offset` seconds after `now`, as a protobuf timestamp
/// made from a time after the epoch: whole seconds and the sub-second nanoseconds.
fn timestamp_after_exec(now: UnixTime, offset: u64) -> (ts: Timestamp)
    requires
        valid_now(now, offset),
    ensures
        ts == timestamp_after(now, offset),
{
    Timestamp { seconds: (now.secs + offset) as i64, nanos: now.nanos as i32 }
}

/// A token presented as a bearer credential.
pub open spec fn bearer_header(token: Seq<char>) -> Seq<char> {
    "Bearer "@ + token
}

/// Every character of a decimal rendering is a digit.
pub proof fn lemma_decimal_is_digits(n: nat)
    ensures
        forall|i: int| 0 <= i < decimal(n).len() ==> '0' <= #[trigger] decimal(n)[i] <= '9',
    decreases n,
{
    let d = decimal(n);
    if n >= 10 {
        lemma_decimal_is_digits(n / 10);
        let prev = decimal(n / 10);
        assert(d == prev.push(crate::text::decimal_digit(n % 10)));
        assert forall|i: int| 0 <= i < d.len() implies '0' <= #[trigger] d[i] <= '9' by {
            if i < prev.len() {
                assert(d[i] == prev[i]);
            }
        }
    }
}

/// Text of printable ASCII followed by a decimal number is printable ASCII.
pub proof fn lemma_numbered_printable(prefix: Seq<char>, n: u64)
    requires
        forall|i: int| 0 <= i < prefix.len() ==> ' ' <= #[trigger] prefix[i] <= '~',
    ensures
        forall|i: int|
            0 <= i < (prefix + decimal(n as nat)).len() ==> ' ' <= #[trigger] (prefix + decimal(
                n as nat,
            ))[i] <= '~',
{
    lemma_decimal_is_digits(n as nat);
    let d = decimal(n as nat);
    let full = prefix + d;
    assert forall|i: int| 0 <= i < full.len() implies ' ' <= #[trigger] full[i] <= '~' by {
        if i >= prefix.len() {
            assert(full[i] == d[i - prefix.len()]);
        }
    }
}

proof fn lemma_numbered_header_bytes(prefix: Seq<char>, n: u64)
    requires
        forall|i: int| 0 <= i < prefix.len() ==> ' ' <= #[trigger] prefix[i] <= '~',
    ensures
        ({
            let h = ascii_bytes(prefix + decimal(n as nat));
            &&& forall|i: int| 0 <= i < h.len() ==> is_visible_ascii(#[trigger] h[i])
            &&& ascii_bytes(prefix).is_prefix_of(h)
        }),
{
    lemma_numbered_printable(prefix, n);
    let full = prefix + decimal(n as nat);
    let h = ascii_bytes(full);
    assert forall|i: int| 0 <= i < h.len() implies is_visible_ascii(#[trigger] h[i]) by {
        assert(' ' <= full[i] <= '~');
    }
    assert forall|i: int| 0 <= i < ascii_bytes(prefix).len() implies ascii_bytes(prefix)[i] == h[i] by {
        assert(full[i] == prefix[i]);
    }
}

/// An access token that the service issues is accepted by the interceptor
/// when a client presents it as a bearer token.
pub proof fn lemma_issued_access_token_accepted(now: UnixTime)
    ensures
        authorization_verdict(Some(ascii_bytes(bearer_header(issued_access_token(now).value))))
            == Ok::<(), AuthRejection>(()),
{
    reveal_strlit("Bearer ");
    reveal_strlit("access_token_");
    reveal_strlit("Bearer access_token_");
    let prefix = "Bearer access_token_"@;
    assert("Bearer "@ + "access_token_"@ =~= prefix);
    assert(bearer_header(issued_access_token(now).value) =~= prefix + decimal(now.secs as nat));
    lemma_numbered_header_bytes(prefix, now.secs);
}

/// A refreshed access token is accepted by the interceptor when presented
/// as a bearer token.
pub proof fn lemma_refreshed_access_token_accepted(named_at: u64, now: UnixTime)
    ensures
        authorization_verdict(
            Some(ascii_bytes(bearer_header(refreshed_access_token(named_at, now).value))),
        ) == Ok::<(), AuthRejection>(()),
{
    reveal_strlit("Bearer ");
    reveal_strlit("refreshed_access_token_");
    reveal_strlit("Bearer refreshed_access_token_");
    let prefix = "Bearer refreshed_access_token_"@;
    assert("Bearer "@ + "refreshed_access_token_"@ =~= prefix);
    assert(bearer_header(refreshed_access_token(named_at, now).value) =~= prefix + decimal(
        named_at as nat,
    ));
    lemma_numbered_header_bytes(prefix, named_at);
}

/// The interceptor refuses a request without an authorization header, and
/// one whose header holds a control byte (DEL or a byte below space other
/// than tab) or a byte beyond ASCII as badly formatted; it accepts any
/// visible bearer credential that starts with `access_token_` or
/// `refreshed_access_token_`.
pub proof fn lemma_interceptor_verdicts(h: Seq<u8>, i: int, token: Seq<char>)
    ensures
        authorization_verdict(None) == Err::<(), AuthRejection>(AuthRejection::MissingAuthorizationHeader),
        (0 <= i < h.len() && (h[i] == 127 || h[i] >= 128 || (h[i] < 32 && h[i] != 9)))
            ==> authorization_verdict(Some(h)) == Err::<(), AuthRejection>(AuthRejection::InvalidTokenFormat),
        (forall|j: int| 0 <= j < token.len() ==> ' ' <= #[trigger] token[j] <= '~') ==> {
            &&& authorization_verdict(Some(ascii_bytes(bearer_header("access_token_"@ + token)))) == Ok::<(), AuthRejection>(())
            &&& authorization_verdict(Some(ascii_bytes(bearer_header("refreshed_access_token_"@ + token)))) == Ok::<(), AuthRejection>(())
        },
{
    if forall|j: int| 0 <= j < token.len() ==> ' ' <= #[trigger] token[j] <= '~' {
        reveal_strlit("Bearer ");
        reveal_strlit("access_token_");
        reveal_strlit("refreshed_access_token_");
        reveal_strlit("Bearer access_token_");
        reveal_strlit("Bearer refreshed_access_token_");
        let a = "Bearer access_token_"@;
        let r = "Bearer refreshed_access_token_"@;
        assert(bearer_header("access_token_"@ + token) =~= a + token);
        assert(bearer_header("refreshed_access_token_"@ + token) =~= r + token);
        lemma_printable_header_bytes(a, token);
        lemma_printable_header_bytes(r, token);
    }
}

proof fn lemma_printable_header_bytes(prefix: Seq<char>, token: Seq<char>)
    requires
        forall|i: int| 0 <= i < prefix.len() ==> ' ' <= #[trigger] prefix[i] <= '~',
        forall|i: int| 0 <= i < token.len() ==> ' ' <= #[trigger] token[i] <= '~',
    ensures
        ({
            let h = ascii_bytes(prefix + token);
            &&& forall|i: int| 0 <= i < h.len() ==> is_visible_ascii(#[trigger] h[i])
            &&& ascii_bytes(prefix).is_prefix_of(h)
        }),
{
    let full = prefix + token;
    let h = ascii_bytes(full);
    assert forall|i: int| 0 <= i < h.len() implies is_visible_ascii(#[trigger] h[i]) by {
        if i < prefix.len() {
            assert(full[i] == prefix[i]);
        } else {
            assert(full[i] == token[i - prefix.len()]);
        }
    }
    assert forall|i: int| 0 <= i < ascii_bytes(prefix).len() implies ascii_bytes(prefix)[i] == h[i] by {
        assert(full[i] == prefix[i]);
    }
}

/// Access tokens are valid for an hour and refresh tokens for a day from
/// the moment of issue, at the same sub-second nanoseconds; a refreshed
/// access token again for an hour from its issue.
pub proof fn lemma_token_lifetimes(now: UnixTime, named_at: u64)
    ensures
        issued_access_token(now).expires_at_utc == Some(Timestamp { seconds: (now.secs + 3600) as i64, nanos: now.nanos as i32 }),
        issued_refresh_token(now).expires_at_utc == Some(Timestamp { seconds: (now.secs + 86400) as i64, nanos: now.nanos as i32 }),
        refreshed_access_token(named_at, now).expires_at_utc == Some(Timestamp { seconds: (now.secs + 3600) as i64, nanos: now.nanos as i32 }),
{
}

/// A refresh token does not pass the interceptor: it is no access token.
pub proof fn lemma_refresh_token_refused(now: UnixTime)
    ensures
        authorization_verdict(Some(ascii_bytes(bearer_header(issued_refresh_token(now).value))))
            == Err::<(), AuthRejection>(AuthRejection::InvalidToken),
{
    reveal_strlit("Bearer ");
    reveal_strlit("refresh_token_");
    reveal_strlit("Bearer refresh_token_");
    reveal_strlit("Bearer access_token_");
    reveal_strlit("Bearer refreshed_access_token_");
    let prefix = "Bearer refresh_token_"@;
    assert("Bearer "@ + "refresh_token_"@ =~= prefix);
    let full = prefix + decimal(now.secs as nat);
    assert(bearer_header(issued_refresh_token(now).value) =~= full);
    lemma_numbered_header_bytes(prefix, now.secs);
    let h = ascii_bytes(full);
    assert(full[7] == 'r');
    assert(h[7] != access_token_header_prefix()[7]);
    assert(full[14] == '_');
    assert(h[14] != refreshed_token_header_prefix()[14]);
}

} // verus!
