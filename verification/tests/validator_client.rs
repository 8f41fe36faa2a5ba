use bundle_test_server::proto::{AuthTokens, Bundle, BundleUuid, Packet, PacketBatch, Role, Token};
use bundle_test_server::utils::auth::{AuthInterceptor, AuthServiceImpl, UnixTime};
use bundle_test_server::utils::hash_utils::{calculate_bundle_hash, calculate_packet_batch_hash};
use bundle_test_server::utils::keypair_manager::KeypairManager;
use bundle_test_server::validator_client::{
    access_token_of, auth_challenge_request, auth_tokens_request, authentication_failure_message,
    connect_failure_message, BundleTally, LoopAction, LoopEvent, PacketTally, Phase, RetryAction,
    RetryLoop, SubscriptionLoop, MAX_ATTEMPTS, MAX_RECONNECT_ATTEMPTS,
};
use solana_keypair::{Keypair, Signer};

#[test]
fn retry_succeeds_on_the_last_allowed_attempt() {
    let mut retry = RetryLoop::new(MAX_ATTEMPTS);
    for attempt in 1..MAX_ATTEMPTS {
        assert_eq!(
            retry.on_outcome(false),
            RetryAction::Retry { next_attempt: attempt + 1, delay_secs: 2 * attempt as u64 }
        );
    }
    assert_eq!(retry.on_outcome(true), RetryAction::Succeeded { attempt: 60 });
}

#[test]
fn retry_gives_up_after_sixty_failures() {
    let mut retry = RetryLoop::new(MAX_ATTEMPTS);
    let mut actions = Vec::new();
    for _ in 0..MAX_ATTEMPTS {
        actions.push(retry.on_outcome(false));
    }
    assert_eq!(actions.last(), Some(&RetryAction::GiveUp { attempts: 60 }));
    assert_eq!(actions.iter().filter(|a| matches!(a, RetryAction::Retry { .. })).count(), 59);
    assert!(retry.finished);
}

#[test]
fn retry_waits_twice_the_attempt_number() {
    let mut retry = RetryLoop::new(MAX_ATTEMPTS);
    assert_eq!(retry.on_outcome(false), RetryAction::Retry { next_attempt: 2, delay_secs: 2 });
    assert_eq!(retry.on_outcome(false), RetryAction::Retry { next_attempt: 3, delay_secs: 4 });
    assert_eq!(retry.on_outcome(false), RetryAction::Retry { next_attempt: 4, delay_secs: 6 });
    let mut last = RetryLoop::new(MAX_ATTEMPTS);
    for _ in 1..MAX_ATTEMPTS - 1 {
        last.on_outcome(false);
    }
    assert_eq!(last.on_outcome(false), RetryAction::Retry { next_attempt: 60, delay_secs: 118 });
}

#[test]
fn retry_first_attempt_success() {
    let mut retry = RetryLoop::new(MAX_ATTEMPTS);
    assert_eq!(retry.on_outcome(true), RetryAction::Succeeded { attempt: 1 });
}

#[test]
fn failure_messages() {
    assert_eq!(connect_failure_message(60, "refused"), "Failed to connect after 60 attempts: refused");
    assert_eq!(
        authentication_failure_message(60, "bad"),
        "Authentication failed after 60 attempts: bad"
    );
}

#[test]
fn loop_authenticates_then_subscribes_with_bearer_header() {
    let mut l = SubscriptionLoop::new(None);
    assert!(matches!(l.begin(), LoopAction::Authenticate));
    assert_eq!(l.phase(), Phase::Authenticating);
    let action = l.step(LoopEvent::Authenticated { token: "access_token_9".to_string() });
    match action {
        LoopAction::Subscribe { authorization } => assert_eq!(authorization, "Bearer access_token_9"),
        other => panic!("unexpected {:?}", other),
    }
    assert!(matches!(l.step(LoopEvent::Subscribed), LoopAction::ReadStream));
    assert_eq!(l.phase(), Phase::Streaming);
}

#[test]
fn loop_drops_token_on_unauthenticated_stream_error() {
    let mut l = SubscriptionLoop::new(Some("access_token_1".to_string()));
    assert!(matches!(l.begin(), LoopAction::Subscribe { .. }));
    assert!(matches!(l.step(LoopEvent::Subscribed), LoopAction::ReadStream));
    let action = l.step(LoopEvent::StreamError { unauthenticated: true });
    assert!(matches!(action, LoopAction::SleepThenReconnect { secs: 5 }));
    assert!(l.access_token().is_none());
    assert!(matches!(l.begin(), LoopAction::Authenticate));
}

#[test]
fn loop_keeps_token_on_other_errors() {
    let mut l = SubscriptionLoop::new(Some("access_token_1".to_string()));
    l.begin();
    assert!(matches!(l.step(LoopEvent::SubscribeFailed { unauthenticated: false }), LoopAction::SleepThenReconnect { secs: 5 }));
    assert_eq!(l.access_token(), Some("access_token_1".to_string()));
    l.begin();
    l.step(LoopEvent::Subscribed);
    assert!(matches!(l.step(LoopEvent::StreamEnded), LoopAction::SleepThenReconnect { secs: 5 }));
    assert_eq!(l.access_token(), Some("access_token_1".to_string()));
}

#[test]
fn loop_gives_up_after_five_failed_rounds() {
    let mut l = SubscriptionLoop::new(Some("access_token_1".to_string()));
    let mut last = None;
    let mut rounds = 0;
    for _ in 0..MAX_ATTEMPTS {
        rounds += 1;
        assert!(matches!(l.begin(), LoopAction::Subscribe { .. }));
        last = Some(l.step(LoopEvent::SubscribeFailed { unauthenticated: false }));
        if l.phase() == Phase::Failed {
            break;
        }
    }
    match last {
        Some(LoopAction::Fail { message }) => assert_eq!(message, "Failed to reconnect after 5 attempts"),
        other => panic!("unexpected {:?}", other),
    }
    assert_eq!(rounds, MAX_RECONNECT_ATTEMPTS);
    assert_eq!(l.phase(), Phase::Failed);
}

#[test]
fn successful_subscription_resets_the_round_count() {
    let mut l = SubscriptionLoop::new(Some("access_token_1".to_string()));
    for _ in 0..4 {
        l.begin();
        l.step(LoopEvent::SubscribeFailed { unauthenticated: false });
    }
    l.begin();
    l.step(LoopEvent::Subscribed);
    l.step(LoopEvent::StreamEnded);
    for _ in 0..3 {
        l.begin();
        assert!(matches!(l.step(LoopEvent::SubscribeFailed { unauthenticated: false }), LoopAction::SleepThenReconnect { .. }));
    }
    assert_eq!(l.phase(), Phase::Idle);
}

#[test]
fn loop_gives_up_after_five_failed_authentications() {
    let mut l = SubscriptionLoop::new(None);
    let mut last = None;
    for _ in 0..MAX_ATTEMPTS {
        assert!(matches!(l.begin(), LoopAction::Authenticate));
        last = Some(l.step(LoopEvent::AuthenticationFailed));
        if l.phase() == Phase::Failed {
            break;
        }
    }
    match last {
        Some(LoopAction::Fail { message }) => assert_eq!(message, "Failed to authenticate after 5 attempts"),
        other => panic!("unexpected {:?}", other),
    }
}

#[test]
fn failed_authentication_waits_three_seconds() {
    let mut l = SubscriptionLoop::new(None);
    l.begin();
    assert!(matches!(l.step(LoopEvent::AuthenticationFailed), LoopAction::Sleep { secs: 3 }));
    assert_eq!(l.phase(), Phase::Idle);
}

#[test]
fn token_that_makes_no_header_value_ends_the_loop() {
    let mut l = SubscriptionLoop::new(Some("bad\ntoken".to_string()));
    match l.begin() {
        LoopAction::Fail { message } => assert_eq!(message, "failed to parse metadata value"),
        other => panic!("unexpected {:?}", other),
    }
    let mut l2 = SubscriptionLoop::new(Some("t\u{e9}".to_string()));
    assert!(matches!(l2.begin(), LoopAction::Subscribe { .. }));
}

#[test]
fn issued_token_subscribes_and_passes_the_interceptor() {
    let identity = KeypairManager::from_secret_key([9; 32]);
    let request = auth_tokens_request(&identity, AuthServiceImpl.generate_auth_challenge(1_700_000_000));
    let tokens = AuthServiceImpl.generate_auth_tokens(&request, UnixTime { secs: 1_700_000_000, nanos: 0 }).unwrap();
    let mut l = SubscriptionLoop::new(None);
    l.begin();
    let action = l.step(LoopEvent::Authenticated { token: access_token_of(tokens) });
    match action {
        LoopAction::Subscribe { authorization } => {
            assert_eq!(AuthInterceptor.authorize(Some(authorization.as_bytes())), Ok(()));
        }
        other => panic!("unexpected {:?}", other),
    }
}

#[test]
fn bundles_are_numbered_consecutively() {
    let mut tally = BundleTally { count: 7 };
    let bundle = Bundle { header: None, packets: vec![Packet { data: vec![1], meta: None }] };
    let response = vec![
        BundleUuid { bundle: Some(bundle.clone()), uuid: "a".to_string() },
        BundleUuid { bundle: None, uuid: "skipped".to_string() },
        BundleUuid { bundle: Some(bundle.clone()), uuid: "b".to_string() },
    ];
    let reports = tally.record(&response);
    assert_eq!(reports.len(), 2);
    assert_eq!(reports[0].number, 8);
    assert_eq!(reports[0].uuid, "a");
    assert_eq!(reports[1].number, 9);
    assert_eq!(reports[1].uuid, "b");
    assert_eq!(reports[0].hash, calculate_bundle_hash(&bundle));
    assert_eq!(reports[0].packets, 1);
    assert_eq!(tally.count, 9);
}

#[test]
fn packet_totals_accumulate() {
    let mut tally = PacketTally::default();
    let batch = PacketBatch { packets: vec![Packet { data: vec![1], meta: None }, Packet { data: vec![2], meta: None }] };
    assert_eq!(tally.record(&batch), calculate_packet_batch_hash(&batch));
    tally.record(&batch);
    assert_eq!(tally.total, 4);
}

#[test]
fn authentication_requests_carry_key_and_signature() {
    let secret = [7u8; 32];
    let identity = KeypairManager::from_secret_key(secret);
    let keypair = Keypair::new_from_array(secret);
    let challenge_request = auth_challenge_request(&identity);
    assert_eq!(challenge_request.role, 2);
    assert_eq!(Role::Validator.code(), 2);
    assert_eq!(challenge_request.pubkey, keypair.pubkey().to_bytes().to_vec());
    let tokens_request = auth_tokens_request(&identity, "challenge_12".to_string());
    assert_eq!(tokens_request.challenge, "challenge_12");
    assert_eq!(tokens_request.client_pubkey, keypair.pubkey().to_bytes().to_vec());
    let message = format!("{}{}", keypair.pubkey(), "challenge_12");
    let expected = keypair.sign_message(message.as_bytes());
    assert_eq!(tokens_request.signed_challenge, expected.as_ref().to_vec());
}

#[test]
fn access_token_is_taken_from_the_tokens() {
    let tokens = AuthTokens {
        access_token: Some(Token { value: "access_token_3".to_string(), expires_at_utc: None }),
        refresh_token: None,
    };
    assert_eq!(access_token_of(tokens), "access_token_3");
}
