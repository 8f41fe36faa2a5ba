//! The validator client's decisions: retrying a connection or an
//! authentication a bounded number of times, the subscription loop that
//! authenticates, subscribes, reads the stream and reconnects, and the
//! bookkeeping of what the streams deliver.

use crate::proto::{
    AuthTokens, BundleUuid, BundleUuidView, GenerateAuthChallengeRequest, GenerateAuthTokensRequest,
    PacketBatch, Role,
};
use crate::text::{decimal, push_decimal};
use crate::utils::keypair_manager::{address_text, ed25519_public_key, ed25519_signature, KeypairManager};
use crate::utils::auth::{
    ascii_bytes, authorization_verdict, bearer_header, issued_access_token, signature_accepted,
    AuthRejection, UnixTime,
};
use crate::utils::hash_utils::{bundle_hash, calculate_bundle_hash, calculate_packet_batch_hash, packet_batch_hash};
use vstd::prelude::*;
use vstd::utf8::encode_utf8;

verus! {

broadcast use vstd::utf8::is_ascii_chars_encode_utf8;

/// How often a connection or an authentication is tried before giving up.
pub const MAX_ATTEMPTS: u32 = 60;

/// How many failed rounds (of authentication, subscription or streaming) the
/// subscription loop survives.
pub const MAX_RECONNECT_ATTEMPTS: u32 = 5;

/// Seconds the subscription loop waits after a failed authentication.
pub const AUTH_RETRY_DELAY_SECS: u64 = 3;

/// Seconds before reconnecting after a subscription round failed.
pub const RECONNECT_DELAY_SECS: u64 = 5;

// ------------------------------------------------------------------------
// Bounded retries of one operation.
// ------------------------------------------------------------------------

/// Where a bounded retry of one operation stands.
#[derive(Clone, Copy, Debug, PartialEq, Eq, Structural)]
pub struct RetryLoop {
    /// The number of the attempt under way, from 1.
    pub attempt: u32,
    pub max_attempts: u32,
    pub finished: bool,
}

/// What to do after an attempt.
#[derive(Clone, Copy, Debug, PartialEq, Eq, Structural)]
pub enum RetryAction {
    /// Wait `delay_secs`, then make attempt `next_attempt`.
    Retry { next_attempt: u32, delay_secs: u64 },
    /// The operation succeeded on attempt `attempt`.
    Succeeded { attempt: u32 },
    /// The operation failed `attempts` times; give up.
    GiveUp { attempts: u32 },
}

/// The wait after failed attempt `attempt` before the next one: twice the
/// attempt's number, in seconds.
pub open spec fn backoff_secs(attempt: u32) -> u64 {
    (2 * attempt) as u64
}

/// A retry that is still under way.
pub open spec fn retry_running(s: RetryLoop) -> bool {
    !s.finished && 1 <= s.attempt <= s.max_attempts
}

/// The retry after an attempt that succeeded or failed, and what to do next.
pub open spec fn retry_step(s: RetryLoop, succeeded: bool) -> (RetryLoop, RetryAction) {
    if succeeded {
        (RetryLoop { finished: true, ..s }, RetryAction::Succeeded { attempt: s.attempt })
    } else if s.attempt < s.max_attempts {
        (
            RetryLoop { attempt: (s.attempt + 1) as u32, ..s },
            RetryAction::Retry { next_attempt: (s.attempt + 1) as u32, delay_secs: backoff_secs(s.attempt) },
        )
    } else {
        (RetryLoop { finished: true, ..s }, RetryAction::GiveUp { attempts: s.max_attempts })
    }
}

impl RetryLoop {
    /// A retry about to make its first attempt.
    pub fn new(max_attempts: u32) -> (r: RetryLoop)
        requires
            max_attempts >= 1,
        ensures
            r == (RetryLoop { attempt: 1, max_attempts, finished: false }),
    {
        RetryLoop { attempt: 1, max_attempts, finished: false }
    }

    /// Records the outcome of the attempt under way and says what comes next.
    pub fn on_outcome(&mut self, succeeded: bool) -> (action: RetryAction)
        requires
            retry_running(*old(self)),
        ensures
            (*final(self), action) == retry_step(*old(self), succeeded),
    {
        if succeeded {
            self.finished = true;
            RetryAction::Succeeded { attempt: self.attempt }
        } else if self.attempt < self.max_attempts {
            let delay_secs = 2 * (self.attempt as u64);
            self.attempt = self.attempt + 1;
            RetryAction::Retry { next_attempt: self.attempt, delay_secs }
        } else {
            self.finished = true;
            RetryAction::GiveUp { attempts: self.max_attempts }
        }
    }
}

/// A fresh retry after `n` failed attempts.
pub open spec fn retry_after_failures(max_attempts: u32, n: nat) -> RetryLoop
    decreases n,
{
    if n == 0 {
        RetryLoop { attempt: 1, max_attempts, finished: false }
    } else {
        retry_step(retry_after_failures(max_attempts, (n - 1) as nat), false).0
    }
}

/// A bounded retry makes at most `max_attempts` attempts: after `n` failures
/// (fewer than the bound) it is on attempt `n + 1`, a success then ends it
/// with that attempt, another failure waits `2 * (n + 1)` seconds and tries
/// again unless it was the last allowed attempt, in which case the retry
/// gives up.
pub proof fn lemma_retry_bound(max_attempts: u32, n: nat)
    requires
        max_attempts >= 1,
        n < max_attempts,
    ensures
        retry_after_failures(max_attempts, n) == (RetryLoop { attempt: (n + 1) as u32, max_attempts, finished: false }),
        retry_step(retry_after_failures(max_attempts, n), true).1 == (RetryAction::Succeeded { attempt: (n + 1) as u32 }),
        retry_step(retry_after_failures(max_attempts, n), false).1 == (if n + 1 < max_attempts {
            RetryAction::Retry { next_attempt: (n + 2) as u32, delay_secs: (2 * (n + 1)) as u64 }
        } else {
            RetryAction::GiveUp { attempts: max_attempts }
        }),
    decreases n,
{
    if n > 0 {
        lemma_retry_bound(max_attempts, (n - 1) as nat);
    }
}

// ------------------------------------------------------------------------
// The subscription loop.
// ------------------------------------------------------------------------

/// Where the subscription loop stands.
#[derive(Clone, Copy, Debug, PartialEq, Eq, Structural)]
pub enum Phase {
    /// At the top of the loop: about to authenticate or subscribe.
    Idle,
    /// Waiting for the outcome of an authentication.
    Authenticating,
    /// Waiting for the outcome of a subscription request.
    Subscribing,
    /// Reading the subscribed stream.
    Streaming,
    /// The loop has given up.
    Failed,
}

/// What the outside world reports to the subscription loop.
#[derive(Debug)]
pub enum LoopEvent {
    /// Authentication succeeded with this access token.
    Authenticated { token: String },
    /// Authentication failed.
    AuthenticationFailed,
    /// The subscription was accepted and its stream opened.
    Subscribed,
    /// The subscription was refused; `unauthenticated` when for want of a valid token.
    SubscribeFailed { unauthenticated: bool },
    /// The stream yielded an error; `unauthenticated` when for want of a valid token.
    StreamError { unauthenticated: bool },
    /// The stream ended.
    StreamEnded,
}

/// What the subscription loop asks the outside world to do.
#[derive(Debug)]
pub enum LoopAction {
    /// Authenticate (with its own bounded retries).
    Authenticate,
    /// Subscribe, sending this `authorization` header.
    Subscribe { authorization: String },
    /// Read the next item of the stream.
    ReadStream,
    /// Wait, then come back to the top of the loop.
    Sleep { secs: u64 },
    /// Wait, reconnect (whatever the outcome), then come back to the top of the loop.
    SleepThenReconnect { secs: u64 },
    /// Stop with this error.
    Fail { message: String },
}

pub enum LoopEventView {
    Authenticated { token: Seq<char> },
    AuthenticationFailed,
    Subscribed,
    SubscribeFailed { unauthenticated: bool },
    StreamError { unauthenticated: bool },
    StreamEnded,
}

pub enum LoopActionView {
    Authenticate,
    Subscribe { authorization: Seq<char> },
    ReadStream,
    Sleep { secs: u64 },
    SleepThenReconnect { secs: u64 },
    Fail { message: Seq<char> },
}

impl View for LoopEvent {
    type V = LoopEventView;

    open spec fn view(&self) -> LoopEventView {
        match self {
            LoopEvent::Authenticated { token } => LoopEventView::Authenticated { token: token@ },
            LoopEvent::AuthenticationFailed => LoopEventView::AuthenticationFailed,
            LoopEvent::Subscribed => LoopEventView::Subscribed,
            LoopEvent::SubscribeFailed { unauthenticated } => LoopEventView::SubscribeFailed {
                unauthenticated: *unauthenticated,
            },
            LoopEvent::StreamError { unauthenticated } => LoopEventView::StreamError {
                unauthenticated: *unauthenticated,
            },
            LoopEvent::StreamEnded => LoopEventView::StreamEnded,
        }
    }
}

impl View for LoopAction {
    type V = LoopActionView;

    open spec fn view(&self) -> LoopActionView {
        match self {
            LoopAction::Authenticate => LoopActionView::Authenticate,
            LoopAction::Subscribe { authorization } => LoopActionView::Subscribe {
                authorization: authorization@,
            },
            LoopAction::ReadStream => LoopActionView::ReadStream,
            LoopAction::Sleep { secs } => LoopActionView::Sleep { secs: *secs },
            LoopAction::SleepThenReconnect { secs } => LoopActionView::SleepThenReconnect {
                secs: *secs,
            },
            LoopAction::Fail { message } => LoopActionView::Fail { message: message@ },
        }
    }
}

/// The state of the subscription loop.
#[derive(Debug)]
pub struct SubscriptionLoop {
    phase: Phase,
    reconnect_attempt: u32,
    access_token: Option<String>,
}

pub struct SubscriptionLoopView {
    pub phase: Phase,
    pub reconnect_attempt: u32,
    pub access_token: Option<Seq<char>>,
}

impl View for SubscriptionLoop {
    type V = SubscriptionLoopView;

    closed spec fn view(&self) -> SubscriptionLoopView {
        SubscriptionLoopView {
            phase: self.phase,
            reconnect_attempt: self.reconnect_attempt,
            access_token: match self.access_token {
                Some(t) => Some(t@),
                None => None,
            },
        }
    }
}

/// A byte that an ASCII metadata value may hold: anything from space up but
/// DEL, and tab.
pub open spec fn is_header_value_byte(b: u8) -> bool {
    (b >= 32 && b != 127) || b == 9
}

/// Text that makes a valid ASCII metadata value: every byte of its UTF-8
/// encoding is allowed.
pub open spec fn is_header_value_text(s: Seq<char>) -> bool {
    forall|i: int| 0 <= i < encode_utf8(s).len() ==> is_header_value_byte(#[trigger] encode_utf8(s)[i])
}

/// Trusted: `MetadataValue::<Ascii>::try_from(String)` of tonic succeeds
/// exactly when every byte of the text is allowed in a header value (the
/// check `HeaderValue::from_str` of `http` makes).
#[verifier::external_body]
fn header_value_accepted(text: &String) -> (ok: bool)
    ensures
        ok == is_header_value_text(text@),
{
    tonic::metadata::MetadataValue::<tonic::metadata::Ascii>::try_from(text.clone()).is_ok()
}

/// The text of a rejected metadata value.
pub open spec fn invalid_metadata_message() -> Seq<char> {
    "failed to parse metadata value"@
}

/// The text when authentication inside the loop gives up.
pub open spec fn authentication_exhausted_message() -> Seq<char> {
    "Failed to authenticate after 5 attempts"@
}

/// The text when reconnection gives up.
pub open spec fn reconnection_exhausted_message() -> Seq<char> {
    "Failed to reconnect after 5 attempts"@
}

/// The loop with the given phase.
pub open spec fn with_phase(s: SubscriptionLoopView, phase: Phase) -> SubscriptionLoopView {
    SubscriptionLoopView { phase, ..s }
}

/// Subscribing with `token`: the request carries `Bearer <token>`, unless
/// that is no valid header value, which ends the loop.
pub open spec fn subscribe_with(s: SubscriptionLoopView, token: Seq<char>) -> (SubscriptionLoopView, LoopActionView) {
    let header = bearer_header(token);
    if is_header_value_text(header) {
        (with_phase(s, Phase::Subscribing), LoopActionView::Subscribe { authorization: header })
    } else {
        (with_phase(s, Phase::Failed), LoopActionView::Fail { message: invalid_metadata_message() })
    }
}

/// The top of the loop: authenticate when no token is held, else subscribe.
pub open spec fn loop_begin(s: SubscriptionLoopView) -> (SubscriptionLoopView, LoopActionView) {
    match s.access_token {
        None => (with_phase(s, Phase::Authenticating), LoopActionView::Authenticate),
        Some(token) => subscribe_with(s, token),
    }
}

/// The end of a round without a usable stream: count it, and give up when
/// the bound is reached, else wait and reconnect.
pub open spec fn end_round(s: SubscriptionLoopView) -> (SubscriptionLoopView, LoopActionView) {
    let attempt = s.reconnect_attempt + 1;
    if attempt >= MAX_RECONNECT_ATTEMPTS {
        (
            SubscriptionLoopView { phase: Phase::Failed, reconnect_attempt: attempt as u32, ..s },
            LoopActionView::Fail { message: reconnection_exhausted_message() },
        )
    } else {
        (
            SubscriptionLoopView { phase: Phase::Idle, reconnect_attempt: attempt as u32, ..s },
            LoopActionView::SleepThenReconnect { secs: RECONNECT_DELAY_SECS },
        )
    }
}

/// The token after an error: dropped when the error was for want of a valid token.
pub open spec fn after_error(s: SubscriptionLoopView, unauthenticated: bool) -> SubscriptionLoopView {
    if unauthenticated {
        SubscriptionLoopView { access_token: None, ..s }
    } else {
        s
    }
}

/// Whether the loop in state `s` waits for `e`.
pub open spec fn loop_expects(s: SubscriptionLoopView, e: LoopEventView) -> bool {
    match e {
        LoopEventView::Authenticated { .. } | LoopEventView::AuthenticationFailed => s.phase == Phase::Authenticating,
        LoopEventView::Subscribed | LoopEventView::SubscribeFailed { .. } => s.phase == Phase::Subscribing,
        LoopEventView::StreamError { .. } | LoopEventView::StreamEnded => s.phase == Phase::Streaming,
    }
}

/// The loop after event `e`, and what it asks for next.
pub open spec fn loop_step(s: SubscriptionLoopView, e: LoopEventView) -> (SubscriptionLoopView, LoopActionView) {
    match e {
        LoopEventView::Authenticated { token } => subscribe_with(
            SubscriptionLoopView { access_token: Some(token), ..s },
            token,
        ),
        LoopEventView::AuthenticationFailed => {
            let attempt = s.reconnect_attempt + 1;
            if attempt >= MAX_RECONNECT_ATTEMPTS {
                (
                    SubscriptionLoopView { phase: Phase::Failed, reconnect_attempt: attempt as u32, ..s },
                    LoopActionView::Fail { message: authentication_exhausted_message() },
                )
            } else {
                (
                    SubscriptionLoopView { phase: Phase::Idle, reconnect_attempt: attempt as u32, ..s },
                    LoopActionView::Sleep { secs: AUTH_RETRY_DELAY_SECS },
                )
            }
        },
        LoopEventView::Subscribed => (
            SubscriptionLoopView { phase: Phase::Streaming, reconnect_attempt: 0, ..s },
            LoopActionView::ReadStream,
        ),
        LoopEventView::SubscribeFailed { unauthenticated } => end_round(after_error(s, unauthenticated)),
        LoopEventView::StreamError { unauthenticated } => end_round(after_error(s, unauthenticated)),
        LoopEventView::StreamEnded => end_round(s),
    }
}

/// What every reachable state of the loop satisfies: below the bound on
/// failed rounds unless it has given up.
pub open spec fn loop_inv(s: SubscriptionLoopView) -> bool {
    s.phase != Phase::Failed ==> s.reconnect_attempt < MAX_RECONNECT_ATTEMPTS
}

fn bearer_header_string(token: &String) -> (h: String)
    ensures
        h@ == bearer_header(token@),
{
    proof {
        reveal_strlit("Bearer ");
    }
    let mut h = String::from_str("Bearer ");
    h.append(token.as_str());
    h
}

impl SubscriptionLoop {
    /// A loop at its top, holding the token obtained before (if any).
    pub fn new(access_token: Option<String>) -> (l: SubscriptionLoop)
        ensures
            l@.phase == Phase::Idle,
            l@.reconnect_attempt == 0,
            loop_inv(l@),
            l@.access_token == (match access_token {
                Some(t) => Some(t@),
                None => None,
            }),
    {
        SubscriptionLoop { phase: Phase::Idle, reconnect_attempt: 0, access_token }
    }

    /// Whether the loop is within its bound on failed rounds (or has given
    /// up): what [`Self::step`] needs, and what every step keeps.
    pub fn within_bound(&self) -> (r: bool)
        ensures
            r == loop_inv(self@),
    {
        self.phase == Phase::Failed || self.reconnect_attempt < MAX_RECONNECT_ATTEMPTS
    }

    /// The phase the loop is in.
    pub fn phase(&self) -> (p: Phase)
        ensures
            p == self@.phase,
    {
        self.phase
    }

    /// The access token the loop holds.
    pub fn access_token(&self) -> (t: Option<String>)
        ensures
            match t {
                Some(t) => self@.access_token == Some(t@),
                None => self@.access_token is None,
            },
    {
        match &self.access_token {
            Some(t) => Some(t.clone()),
            None => None,
        }
    }

    /// Whether the loop waits for `event`.
    pub fn expects(&self, event: &LoopEvent) -> (r: bool)
        ensures
            r == loop_expects(self@, event@),
    {
        match event {
            LoopEvent::Authenticated { .. } | LoopEvent::AuthenticationFailed => self.phase == Phase::Authenticating,
            LoopEvent::Subscribed | LoopEvent::SubscribeFailed { .. } => self.phase == Phase::Subscribing,
            LoopEvent::StreamError { .. } | LoopEvent::StreamEnded => self.phase == Phase::Streaming,
        }
    }

    fn subscribe(&mut self) -> (action: LoopAction)
        requires
            old(self)@.access_token is Some,
        ensures
            (final(self)@, action@) == subscribe_with(old(self)@, old(self)@.access_token->0),
    {
        let header = match &self.access_token {
            Some(token) => bearer_header_string(token),
            None => String::new(),
        };
        if header_value_accepted(&header) {
            self.phase = Phase::Subscribing;
            LoopAction::Subscribe { authorization: header }
        } else {
            self.phase = Phase::Failed;
            proof {
                reveal_strlit("failed to parse metadata value");
            }
            LoopAction::Fail { message: String::from_str("failed to parse metadata value") }
        }
    }

    fn end_round(&mut self) -> (action: LoopAction)
        requires
            old(self)@.reconnect_attempt < MAX_RECONNECT_ATTEMPTS,
        ensures
            (final(self)@, action@) == end_round(old(self)@),
    {
        self.reconnect_attempt = self.reconnect_attempt + 1;
        if self.reconnect_attempt >= MAX_RECONNECT_ATTEMPTS {
            self.phase = Phase::Failed;
            proof {
                reveal_strlit("Failed to reconnect after 5 attempts");
            }
            LoopAction::Fail { message: String::from_str("Failed to reconnect after 5 attempts") }
        } else {
            self.phase = Phase::Idle;
            LoopAction::SleepThenReconnect { secs: RECONNECT_DELAY_SECS }
        }
    }

    /// At the top of the loop: asks to authenticate when no token is held,
    /// else to subscribe with the token as bearer credential.
    pub fn begin(&mut self) -> (action: LoopAction)
        requires
            old(self)@.phase == Phase::Idle,
        ensures
            (final(self)@, action@) == loop_begin(old(self)@),
            loop_inv(old(self)@) ==> loop_inv(final(self)@),
    {
        if self.access_token.is_none() {
            self.phase = Phase::Authenticating;
            LoopAction::Authenticate
        } else {
            self.subscribe()
        }
    }

    /// Takes in what happened and says what to do next.
    pub fn step(&mut self, event: LoopEvent) -> (action: LoopAction)
        requires
            loop_expects(old(self)@, event@),
            loop_inv(old(self)@),
        ensures
            (final(self)@, action@) == loop_step(old(self)@, event@),
            loop_inv(final(self)@),
    {
        match event {
            LoopEvent::Authenticated { token } => {
                self.access_token = Some(token);
                self.subscribe()
            },
            LoopEvent::AuthenticationFailed => {
                self.reconnect_attempt = self.reconnect_attempt + 1;
                if self.reconnect_attempt >= MAX_RECONNECT_ATTEMPTS {
                    self.phase = Phase::Failed;
                    proof {
                        reveal_strlit("Failed to authenticate after 5 attempts");
                    }
                    LoopAction::Fail { message: String::from_str("Failed to authenticate after 5 attempts") }
                } else {
                    self.phase = Phase::Idle;
                    LoopAction::Sleep { secs: AUTH_RETRY_DELAY_SECS }
                }
            },
            LoopEvent::Subscribed => {
                self.phase = Phase::Streaming;
                self.reconnect_attempt = 0;
                LoopAction::ReadStream
            },
            LoopEvent::SubscribeFailed { unauthenticated } => {
                if unauthenticated {
                    self.access_token = None;
                }
                self.end_round()
            },
            LoopEvent::StreamError { unauthenticated } => {
                if unauthenticated {
                    self.access_token = None;
                }
                self.end_round()
            },
            LoopEvent::StreamEnded => self.end_round(),
        }
    }
}

/// Every step of the loop keeps it below the bound on failed rounds until it gives up.
pub proof fn lemma_loop_inv_preserved(s: SubscriptionLoopView, e: LoopEventView)
    requires
        loop_inv(s),
        loop_expects(s, e),
    ensures
        loop_inv(loop_begin(s).0),
        loop_inv(loop_step(s, e).0),
{
}

/// A refusal or a stream error for want of a valid token drops the token the
/// loop holds, so that, unless the loop has given up, it authenticates
/// afresh at the top of the loop; any other failed round keeps the token.
pub proof fn lemma_token_dropped_only_when_unauthenticated(s: SubscriptionLoopView, unauthenticated: bool)
    ensures
        ({
            let after_refusal = loop_step(s, LoopEventView::SubscribeFailed { unauthenticated }).0;
            let after_error = loop_step(s, LoopEventView::StreamError { unauthenticated }).0;
            &&& unauthenticated ==> after_refusal.access_token is None && after_error.access_token is None
            &&& !unauthenticated ==> after_refusal.access_token == s.access_token && after_error.access_token == s.access_token
            &&& loop_step(s, LoopEventView::StreamEnded).0.access_token == s.access_token
            &&& (unauthenticated && after_refusal.phase == Phase::Idle) ==> loop_begin(after_refusal).1 == LoopActionView::Authenticate
            &&& (unauthenticated && after_error.phase == Phase::Idle) ==> loop_begin(after_error).1 == LoopActionView::Authenticate
        }),
{
}

/// One round in which the subscription is refused for a reason other than
/// the token: subscribe, be refused, count the round.
pub open spec fn refused_round(s: SubscriptionLoopView) -> SubscriptionLoopView {
    loop_step(loop_begin(s).0, LoopEventView::SubscribeFailed { unauthenticated: false }).0
}

/// The loop after `n` refused rounds.
pub open spec fn refused_rounds(s: SubscriptionLoopView, n: nat) -> SubscriptionLoopView
    decreases n,
{
    if n == 0 {
        s
    } else {
        refused_round(refused_rounds(s, (n - 1) as nat))
    }
}

/// Reconnection is bounded: from the top of the loop, holding a token that
/// makes a valid header, with `a` failed rounds counted, each refused round
/// counts one more and comes back to the top with the same token, until the
/// round that reaches the bound, which ends the loop with the reconnection
/// error.
pub proof fn lemma_reconnect_bound(s: SubscriptionLoopView, n: nat)
    requires
        s.phase == Phase::Idle,
        s.access_token matches Some(t) && is_header_value_text(bearer_header(t)),
        s.reconnect_attempt + n < MAX_RECONNECT_ATTEMPTS,
    ensures
        refused_rounds(s, n) == (SubscriptionLoopView { reconnect_attempt: (s.reconnect_attempt + n) as u32, ..s }),
        loop_step(
            loop_begin(refused_rounds(s, n)).0,
            LoopEventView::SubscribeFailed { unauthenticated: false },
        ).1 == (if s.reconnect_attempt + n + 1 >= MAX_RECONNECT_ATTEMPTS {
            LoopActionView::Fail { message: reconnection_exhausted_message() }
        } else {
            LoopActionView::SleepThenReconnect { secs: RECONNECT_DELAY_SECS }
        }),
    decreases n,
{
    if n > 0 {
        lemma_reconnect_bound(s, (n - 1) as nat);
    }
}

/// A token that the authentication service issues, once held by the loop,
/// goes out as a header value that the loop sends and the server's
/// interceptor accepts.
pub proof fn lemma_issued_token_subscribes_and_passes(s: SubscriptionLoopView, now: UnixTime)
    requires
        s.phase == Phase::Idle,
        s.access_token == Some(issued_access_token(now).value),
    ensures
        loop_begin(s).1 == (LoopActionView::Subscribe { authorization: bearer_header(issued_access_token(now).value) }),
        authorization_verdict(Some(ascii_bytes(bearer_header(issued_access_token(now).value))))
            == Ok::<(), AuthRejection>(()),
{
    reveal_strlit("Bearer ");
    reveal_strlit("access_token_");
    let prefix = "Bearer access_token_"@;
    reveal_strlit("Bearer access_token_");
    assert("Bearer "@ + "access_token_"@ =~= prefix);
    let h = bearer_header(issued_access_token(now).value);
    assert(h =~= prefix + crate::text::decimal(now.secs as nat));
    crate::utils::auth::lemma_numbered_printable(prefix, now.secs);
    assert(vstd::utf8::is_ascii_chars(h));
    assert forall|i: int| 0 <= i < encode_utf8(h).len() implies is_header_value_byte(#[trigger] encode_utf8(h)[i]) by {
        assert(h[i] as u8 == encode_utf8(h)[i]);
        assert(' ' <= h[i] <= '~');
    }
    crate::utils::auth::lemma_issued_access_token_accepted(now);
}

// ------------------------------------------------------------------------
// What the streams deliver.
// ------------------------------------------------------------------------

/// A bundle received on the bundle stream, as the client reports it.
#[derive(Debug)]
pub struct ReceivedBundle {
    /// Its number among the bundles this client received, from 1.
    pub number: u64,
    pub uuid: String,
    pub hash: String,
    pub packets: usize,
}

pub struct ReceivedBundleView {
    pub number: u64,
    pub uuid: Seq<char>,
    pub hash: Seq<char>,
    pub packets: nat,
}

impl View for ReceivedBundle {
    type V = ReceivedBundleView;

    open spec fn view(&self) -> ReceivedBundleView {
        ReceivedBundleView { number: self.number, uuid: self.uuid@, hash: self.hash@, packets: self.packets as nat }
    }
}

/// How many of the identified bundles carry a bundle.
pub open spec fn bundles_present(bs: Seq<BundleUuidView>) -> nat
    decreases bs.len(),
{
    if bs.len() == 0 {
        0
    } else {
        bundles_present(bs.drop_last()) + if bs.last().bundle is Some { 1nat } else { 0nat }
    }
}

/// The reports of the bundles present in `bs`, numbered on from `start`.
pub open spec fn receipts(start: u64, bs: Seq<BundleUuidView>) -> Seq<ReceivedBundleView>
    decreases bs.len(),
{
    if bs.len() == 0 {
        Seq::empty()
    } else {
        let prev = receipts(start, bs.drop_last());
        match bs.last().bundle {
            Some(b) => prev.push(
                ReceivedBundleView {
                    number: (start + bundles_present(bs.drop_last()) + 1) as u64,
                    uuid: bs.last().uuid,
                    hash: bundle_hash(b),
                    packets: b.packets.len(),
                },
            ),
            None => prev,
        }
    }
}

/// The views of identified bundles.
pub open spec fn bundle_uuids_view(bs: Seq<BundleUuid>) -> Seq<BundleUuidView> {
    bs.map_values(|b: BundleUuid| b@)
}

proof fn lemma_bundles_present_bound(bs: Seq<BundleUuidView>)
    ensures
        bundles_present(bs) <= bs.len(),
    decreases bs.len(),
{
    if bs.len() > 0 {
        lemma_bundles_present_bound(bs.drop_last());
    }
}

/// The identified bundles that carry a bundle, in the order received.
pub open spec fn present_bundles(bs: Seq<BundleUuidView>) -> Seq<BundleUuidView> {
    bs.filter(|b: BundleUuidView| b.bundle is Some)
}

/// Each bundle received is reported once, in order: the `k`-th bundle
/// present is reported with number `start + k + 1`, its identifier, its hash
/// and the number of its packets.
pub proof fn lemma_receipts_report_each_bundle(start: u64, bs: Seq<BundleUuidView>)
    requires
        start + bs.len() <= u64::MAX,
    ensures
        receipts(start, bs).len() == present_bundles(bs).len(),
        bundles_present(bs) == present_bundles(bs).len(),
        forall|k: int|
            0 <= k < present_bundles(bs).len() ==> {
                let r = #[trigger] receipts(start, bs)[k];
                let b = present_bundles(bs)[k];
                &&& r.number == start + k + 1
                &&& r.uuid == b.uuid
                &&& r.hash == bundle_hash(b.bundle->0)
                &&& r.packets == b.bundle->0.packets.len()
            },
    decreases bs.len(),
{
    reveal(Seq::filter);
    if bs.len() > 0 {
        let prev = bs.drop_last();
        lemma_receipts_report_each_bundle(start, prev);
        lemma_receipts_consecutive(start, prev);
        lemma_receipts_consecutive(start, bs);
        assert(present_bundles(bs) == (if bs.last().bundle is Some {
            present_bundles(prev).push(bs.last())
        } else {
            present_bundles(prev)
        }));
    }
}

/// The count of bundles a client has received on its bundle stream.
#[derive(Debug, Default)]
pub struct BundleTally {
    pub count: u64,
}

impl BundleTally {
    /// Counts the bundles of one stream response and reports each present
    /// bundle with its number, identifier, hash and packet count.
    pub fn record(&mut self, bundles: &Vec<BundleUuid>) -> (reports: Vec<ReceivedBundle>)
        requires
            old(self).count + bundles@.len() <= u64::MAX,
        ensures
            final(self).count == old(self).count + bundles_present(bundle_uuids_view(bundles@)),
            reports@.map_values(|r: ReceivedBundle| r@) == receipts(old(self).count, bundle_uuids_view(bundles@)),
    {
        let ghost bs = bundle_uuids_view(bundles@);
        let ghost start = self.count;
        let mut reports: Vec<ReceivedBundle> = Vec::new();
        let mut i: usize = 0;
        while i < bundles.len()
            invariant
                i <= bundles@.len(),
                bs == bundle_uuids_view(bundles@),
                start + bundles@.len() <= u64::MAX,
                self.count == start + bundles_present(bs.take(i as int)),
                reports@.map_values(|r: ReceivedBundle| r@) == receipts(start, bs.take(i as int)),
            decreases bundles@.len() - i,
        {
            proof {
                assert(bs.take(i + 1).drop_last() =~= bs.take(i as int));
                lemma_bundles_present_bound(bs.take(i as int));
            }
            let bundle_uuid = &bundles[i];
            assert(bs.take(i + 1).last() == bundle_uuid@);
            match &bundle_uuid.bundle {
                Some(bundle) => {
                    self.count = self.count + 1;
                    let report = ReceivedBundle {
                        number: self.count,
                        uuid: bundle_uuid.uuid.clone(),
                        hash: calculate_bundle_hash(bundle),
                        packets: bundle.packets.len(),
                    };
                    let ghost before = reports@;
                    reports.push(report);
                    assert(reports@.map_values(|r: ReceivedBundle| r@) =~= before.map_values(
                        |r: ReceivedBundle| r@,
                    ).push(report@));
                },
                None => {},
            }
            i = i + 1;
        }
        assert(bs.take(bundles@.len() as int) =~= bs);
        reports
    }
}

/// Bundles are numbered consecutively: the reports of one response are
/// numbered `start + 1`, `start + 2`, and so on, one per bundle present.
pub proof fn lemma_receipts_consecutive(start: u64, bs: Seq<BundleUuidView>)
    requires
        start + bs.len() <= u64::MAX,
    ensures
        receipts(start, bs).len() == bundles_present(bs),
        forall|i: int| 0 <= i < receipts(start, bs).len() ==> #[trigger] receipts(start, bs)[i].number == start + i + 1,
    decreases bs.len(),
{
    if bs.len() > 0 {
        lemma_receipts_consecutive(start, bs.drop_last());
        lemma_bundles_present_bound(bs.drop_last());
    }
}

/// The number of packets a client has received on its packet stream.
#[derive(Debug, Default)]
pub struct PacketTally {
    pub total: u64,
}

impl PacketTally {
    /// Adds a received batch to the total and returns the batch's hash.
    pub fn record(&mut self, batch: &PacketBatch) -> (hash: String)
        requires
            old(self).total + batch.packets@.len() <= u64::MAX,
        ensures
            final(self).total == old(self).total + batch.packets@.len(),
            hash@ == packet_batch_hash(batch@),
    {
        let hash = calculate_packet_batch_hash(batch);
        self.total = self.total + batch.packets.len() as u64;
        hash
    }
}

// ------------------------------------------------------------------------
// Authentication requests and failure texts.
// ------------------------------------------------------------------------

/// The message the client signs to answer a challenge: its public key's
/// text followed by the challenge, as UTF-8 bytes.
pub open spec fn challenge_message(identity_secret: Seq<u8>, challenge: Seq<char>) -> Seq<u8> {
    encode_utf8(address_text(ed25519_public_key(identity_secret)) + challenge)
}

/// The request for a challenge: as a validator, with the client's public key.
pub fn auth_challenge_request(identity: &KeypairManager) -> (request: GenerateAuthChallengeRequest)
    ensures
        request.role == Role::Validator.spec_code(),
        request.pubkey@ == ed25519_public_key(identity.secret_key()),
{
    let pubkey = identity.public_key_bytes();
    GenerateAuthChallengeRequest { role: Role::Validator.code(), pubkey: vstd::slice::slice_to_vec(pubkey.as_slice()) }
}

/// The request for tokens answering `challenge`: the challenge, the
/// client's public key, and the signature of the public key's text
/// followed by the challenge. The server's signature check accepts it, so
/// the server issues tokens for it.
pub fn auth_tokens_request(identity: &KeypairManager, challenge: String) -> (request: GenerateAuthTokensRequest)
    ensures
        request.challenge@ == challenge@,
        request.client_pubkey@ == ed25519_public_key(identity.secret_key()),
        request.signed_challenge@ == ed25519_signature(identity.secret_key(), challenge_message(identity.secret_key(), challenge@)),
        signature_accepted(request.client_pubkey@, request.challenge@, request.signed_challenge@),
{
    let mut message = identity.get_public_key();
    message.append(challenge.as_str());
    let signature = identity.sign_message(message.as_str().as_bytes());
    let pubkey = identity.public_key_bytes();
    GenerateAuthTokensRequest {
        challenge,
        client_pubkey: vstd::slice::slice_to_vec(pubkey.as_slice()),
        signed_challenge: vstd::slice::slice_to_vec(signature.as_slice()),
    }
}

/// The access token from the issued tokens.
pub fn access_token_of(tokens: AuthTokens) -> (token: String)
    requires
        tokens.access_token is Some,
    ensures
        token@ == tokens.access_token->0.value@,
{
    match tokens.access_token {
        Some(t) => t.value,
        None => String::new(),
    }
}

fn attempts_message(head: &str, attempts: u32, tail: &str, error: &str) -> (m: String)
    ensures
        m@ == head@ + decimal(attempts as nat) + tail@ + error@,
{
    let mut m = String::from_str(head);
    push_decimal(&mut m, attempts as u64);
    m.append(tail);
    m.append(error);
    m
}

/// The error when connecting gave up: `Failed to connect after <n> attempts: <error>`.
pub fn connect_failure_message(attempts: u32, error: &str) -> (m: String)
    ensures
        m@ == "Failed to connect after "@ + decimal(attempts as nat) + " attempts: "@ + error@,
{
    attempts_message("Failed to connect after ", attempts, " attempts: ", error)
}

/// The error when authenticating gave up: `Authentication failed after <n> attempts: <error>`.
pub fn authentication_failure_message(attempts: u32, error: &str) -> (m: String)
    ensures
        m@ == "Authentication failed after "@ + decimal(attempts as nat) + " attempts: "@ + error@,
{
    attempts_message("Authentication failed after ", attempts, " attempts: ", error)
}

} // verus!
