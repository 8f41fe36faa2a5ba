use bundle_test_server::utils::keypair_manager::KeypairManager;
use bundle_test_server::utils::solana_blockhash_fetcher::SolanaBlockhashFetcher;
use solana_keypair::{Keypair, Signer};

#[test]
fn random_blockhash_is_base58_of_32_bytes() {
    let a = SolanaBlockhashFetcher::generate_random_blockhash();
    let b = SolanaBlockhashFetcher::generate_random_blockhash();
    assert_eq!(bs58::decode(&a).into_vec().unwrap().len(), 32);
    assert_ne!(a, b);
    assert!(a.parse::<solana_sdk::hash::Hash>().is_ok());
}

#[test]
fn stored_blockhash_is_handed_out() {
    let mut fetcher = SolanaBlockhashFetcher::new_with_params(false);
    assert!(fetcher.fetches_from_rpc());
    assert_eq!(fetcher.get_blockhash(), "");
    fetcher.set_blockhash("abc".to_string());
    assert_eq!(fetcher.get_blockhash(), "abc");
}

#[test]
fn skipping_fetcher_hands_out_fresh_random_blockhashes() {
    let mut fetcher = SolanaBlockhashFetcher::new_with_params(true);
    assert!(!fetcher.fetches_from_rpc());
    assert_eq!(fetcher.update_blockhash(None), Ok(()));
    let a = fetcher.get_blockhash();
    let b = fetcher.get_blockhash();
    assert_ne!(a, b);
    assert_eq!(bs58::decode(&a).into_vec().unwrap().len(), 32);
}

#[test]
fn update_keeps_old_blockhash_on_failure() {
    let mut fetcher = SolanaBlockhashFetcher::new_with_params(false);
    let hash = [4u8; 32];
    assert_eq!(fetcher.update_blockhash(Some(Ok(hash))), Ok(()));
    let first = solana_sdk::hash::Hash::new_from_array(hash).to_string();
    assert_eq!(fetcher.get_blockhash(), first);
    assert_eq!(fetcher.update_blockhash(Some(Err("rpc down".to_string()))), Err("rpc down".to_string()));
    assert_eq!(fetcher.get_blockhash(), first);
}

#[test]
fn public_key_text_is_the_keypair_address() {
    let secret = [42u8; 32];
    let manager = KeypairManager::from_secret_key(secret);
    let keypair = Keypair::new_from_array(secret);
    assert_eq!(manager.get_public_key(), keypair.pubkey().to_string());
    assert_eq!(manager.public_key_bytes(), keypair.pubkey().to_bytes());
    assert_eq!(manager.secret_key_bytes(), secret);
    let signature = manager.sign_message(b"hello");
    assert_eq!(signature.to_vec(), keypair.sign_message(b"hello").as_ref().to_vec());
}

#[test]
fn refreshed_blockhashes_are_never_empty() {
    let mut random = SolanaBlockhashFetcher::new_with_params(true);
    random.update_blockhash(None).unwrap();
    assert!(!random.get_blockhash().is_empty());
    let mut fetched = SolanaBlockhashFetcher::new_with_params(false);
    fetched.update_blockhash(Some(Ok([0u8; 32]))).unwrap();
    assert_eq!(fetched.get_blockhash(), "11111111111111111111111111111111");
}
