use bundle_test_server::proto::{GenerateAuthTokensRequest, Timestamp};
use bundle_test_server::utils::auth::{AuthInterceptor, AuthRejection, AuthServiceImpl, UnixTime};
use bundle_test_server::utils::keypair_manager::KeypairManager;
use bundle_test_server::validator_client::auth_tokens_request;
use solana_keypair::{Keypair, Signer};

/// A token request as the library's client builds it.
fn signed_request(secret: [u8; 32], challenge: &str) -> GenerateAuthTokensRequest {
    auth_tokens_request(&KeypairManager::from_secret_key(secret), challenge.to_string())
}

fn check(header: Option<&[u8]>) -> Result<(), AuthRejection> {
    AuthInterceptor.authorize(header)
}

#[test]
fn missing_header_is_refused() {
    assert_eq!(check(None), Err(AuthRejection::MissingAuthorizationHeader));
    assert_eq!(AuthRejection::MissingAuthorizationHeader.message(), "Missing authorization header");
}

#[test]
fn non_visible_bytes_are_a_format_error() {
    assert_eq!(check(Some(b"Bearer access_token_1\x7f")), Err(AuthRejection::InvalidTokenFormat));
    assert_eq!(check(Some(b"Bearer access_token_\xc3\xa9")), Err(AuthRejection::InvalidTokenFormat));
    assert_eq!(check(Some(b"Bearer access_token_\n")), Err(AuthRejection::InvalidTokenFormat));
    assert_eq!(AuthRejection::InvalidTokenFormat.message(), "Invalid token format");
}

#[test]
fn tab_is_a_visible_byte() {
    assert_eq!(check(Some(b"Bearer access_token_\t1")), Ok(()));
}

#[test]
fn access_and_refreshed_tokens_pass() {
    assert_eq!(check(Some(b"Bearer access_token_1700000000")), Ok(()));
    assert_eq!(check(Some(b"Bearer refreshed_access_token_5")), Ok(()));
    assert_eq!(check(Some(b"Bearer access_token_")), Ok(()));
}

#[test]
fn other_tokens_are_refused() {
    assert_eq!(check(Some(b"Bearer refresh_token_1")), Err(AuthRejection::InvalidToken));
    assert_eq!(check(Some(b"access_token_1")), Err(AuthRejection::InvalidToken));
    assert_eq!(check(Some(b"")), Err(AuthRejection::InvalidToken));
    assert_eq!(check(Some(b"Bearer access_toke")), Err(AuthRejection::InvalidToken));
    assert_eq!(AuthRejection::InvalidToken.message(), "Invalid token");
}

#[test]
fn challenge_names_the_second() {
    assert_eq!(AuthServiceImpl.generate_auth_challenge(1_700_000_000), "challenge_1700000000");
    assert_eq!(AuthServiceImpl.generate_auth_challenge(0), "challenge_0");
}

#[test]
fn tokens_are_issued_for_a_signature() {
    let now = UnixTime { secs: 1_700_000_000, nanos: 250 };
    let tokens = AuthServiceImpl.generate_auth_tokens(&signed_request([3; 32], "challenge_1"), now).unwrap();
    let access = tokens.access_token.unwrap();
    let refresh = tokens.refresh_token.unwrap();
    assert_eq!(access.value, "access_token_1700000000");
    assert_eq!(access.expires_at_utc, Some(Timestamp { seconds: 1_700_003_600, nanos: 250 }));
    assert_eq!(refresh.value, "refresh_token_1700000000");
    assert_eq!(refresh.expires_at_utc, Some(Timestamp { seconds: 1_700_086_400, nanos: 250 }));
}

#[test]
fn empty_signature_is_refused() {
    let now = UnixTime { secs: 10, nanos: 0 };
    let mut request = signed_request([3; 32], "challenge_10");
    request.signed_challenge = Vec::new();
    let refused = AuthServiceImpl.generate_auth_tokens(&request, now);
    assert_eq!(refused.err(), Some(AuthRejection::InvalidSignature));
    assert_eq!(AuthRejection::InvalidSignature.message(), "Invalid signature");
}

#[test]
fn refreshed_token_is_named_after_first_reading() {
    let token = AuthServiceImpl.refresh_access_token(100, UnixTime { secs: 101, nanos: 9 });
    assert_eq!(token.value, "refreshed_access_token_100");
    assert_eq!(token.expires_at_utc, Some(Timestamp { seconds: 3701, nanos: 9 }));
}

#[test]
fn issued_tokens_pass_the_interceptor_and_refresh_tokens_do_not() {
    let now = UnixTime { secs: 1_700_000_123, nanos: 0 };
    let tokens = AuthServiceImpl.generate_auth_tokens(&signed_request([7; 32], "challenge_7"), now).unwrap();
    let access = format!("Bearer {}", tokens.access_token.unwrap().value);
    let refresh = format!("Bearer {}", tokens.refresh_token.unwrap().value);
    let refreshed = format!("Bearer {}", AuthServiceImpl.refresh_access_token(5, now).value);
    assert_eq!(check(Some(access.as_bytes())), Ok(()));
    assert_eq!(check(Some(refreshed.as_bytes())), Ok(()));
    assert_eq!(check(Some(refresh.as_bytes())), Err(AuthRejection::InvalidToken));
}

#[test]
fn invalid_signatures_are_refused() {
    let now = UnixTime { secs: 10, nanos: 0 };
    // A signature of another challenge.
    let mut other_challenge = signed_request([5; 32], "challenge_1");
    other_challenge.challenge = "challenge_2".to_string();
    assert_eq!(AuthServiceImpl.generate_auth_tokens(&other_challenge, now).err(), Some(AuthRejection::InvalidSignature));
    // A signature by another key.
    let mut other_key = signed_request([5; 32], "challenge_1");
    other_key.client_pubkey = Keypair::new_from_array([6; 32]).pubkey().to_bytes().to_vec();
    assert_eq!(AuthServiceImpl.generate_auth_tokens(&other_key, now).err(), Some(AuthRejection::InvalidSignature));
    // Bytes that are no signature at all.
    let mut garbage = signed_request([5; 32], "challenge_1");
    garbage.signed_challenge = vec![1, 2, 3];
    assert_eq!(AuthServiceImpl.generate_auth_tokens(&garbage, now).err(), Some(AuthRejection::InvalidSignature));
    // The valid request itself is accepted.
    assert!(AuthServiceImpl.generate_auth_tokens(&signed_request([5; 32], "challenge_1"), now).is_ok());
}

#[test]
fn independently_signed_request_is_accepted() {
    let keypair = Keypair::new_from_array([8; 32]);
    let challenge = "challenge_42";
    let message = format!("{}{}", bs58::encode(keypair.pubkey().to_bytes()).into_string(), challenge);
    let request = GenerateAuthTokensRequest {
        challenge: challenge.to_string(),
        client_pubkey: keypair.pubkey().to_bytes().to_vec(),
        signed_challenge: keypair.sign_message(message.as_bytes()).as_ref().to_vec(),
    };
    let library = signed_request([8; 32], challenge);
    assert_eq!(request.challenge, library.challenge);
    assert_eq!(request.client_pubkey, library.client_pubkey);
    assert_eq!(request.signed_challenge, library.signed_challenge);
    assert!(AuthServiceImpl.generate_auth_tokens(&request, UnixTime { secs: 1, nanos: 0 }).is_ok());
}
