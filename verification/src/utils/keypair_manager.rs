//! The signing identity of a server or client: an Ed25519 secret key, its
//! public key and the public key's text.

use crate::utils::solana_blockhash_fetcher::base58_text;
use vstd::prelude::*;
use solana_keypair::Signer;

verus! {

/// The Ed25519 public key that belongs to a 32-byte secret key.
pub uninterp spec fn ed25519_public_key(secret: Seq<u8>) -> Seq<u8>;

/// The Ed25519 signature of `message` under a 32-byte secret key.
pub uninterp spec fn ed25519_signature(secret: Seq<u8>, message: Seq<u8>) -> Seq<u8>;

/// The text of a Solana address (its base58 rendering).
pub uninterp spec fn address_text(address: Seq<u8>) -> Seq<char>;

/// Trusted: `Signer::pubkey` of `solana_keypair::Keypair`, for the keypair
/// `Keypair::new_from_array` makes from the secret key: the public key's
/// 32 bytes, a function of the secret alone.
#[verifier::external_body]
pub(crate) fn keypair_pubkey(secret: &[u8; 32]) -> (pubkey: [u8; 32])
    ensures
        pubkey@ == ed25519_public_key(secret@),
{
    solana_keypair::Keypair::new_from_array(*secret).pubkey().to_bytes()
}

/// Whether `signature` is an Ed25519 signature of `message` by the key
/// `pubkey`, as `solana_signature::Signature::verify` decides it.
pub uninterp spec fn ed25519_verifies(pubkey: Seq<u8>, message: Seq<u8>, signature: Seq<u8>) -> bool;

/// Trusted: `Signer::sign_message` of `solana_keypair::Keypair` (Ed25519,
/// deterministic), for the keypair made from the secret key: the signature's
/// 64 bytes, a function of the secret and the message alone. As Ed25519
/// signing does, it makes a signature that verifies under the keypair's
/// public key.
#[verifier::external_body]
pub(crate) fn keypair_sign_message(secret: &[u8; 32], message: &[u8]) -> (signature: [u8; 64])
    ensures
        signature@ == ed25519_signature(secret@, message@),
        ed25519_verifies(ed25519_public_key(secret@), message@, signature@),
{
    <[u8; 64]>::from(solana_keypair::Keypair::new_from_array(*secret).sign_message(message))
}

/// Trusted: `Signature::verify` (strict Ed25519 verification) on the
/// signature read from `signature`, a function of the key, message and
/// signature bytes alone; bytes of the wrong length for a signature
/// (`Signature::try_from` fails) verify nothing.
#[verifier::external_body]
pub(crate) fn verify_signature(pubkey: &[u8], message: &[u8], signature: &[u8]) -> (ok: bool)
    ensures
        ok == ed25519_verifies(pubkey@, message@, signature@),
{
    match solana_sdk::signature::Signature::try_from(signature) {
        Ok(sig) => sig.verify(pubkey, message),
        Err(_) => false,
    }
}

/// Trusted: the `Display` rendering of `solana_keypair::Address`, a function
/// of the address bytes alone: their base58 text, the same text as
/// `bs58::encode` makes of them.
#[verifier::external_body]
pub(crate) fn address_to_string(address: &[u8; 32]) -> (text: String)
    ensures
        text@ == address_text(address@),
        text@ == base58_text(address@),
{
    solana_keypair::Address::from(*address).to_string()
}

/// A signing identity: a secret key with its public key and the public
/// key's text.
pub struct KeypairManager {
    secret: [u8; 32],
    pubkey: [u8; 32],
    pubkey_str: String,
}

impl KeypairManager {
    /// The secret key.
    pub closed spec fn secret_key(&self) -> Seq<u8> {
        self.secret@
    }

    /// The identity is consistent: the public key and its text are those of
    /// the secret key.
    #[verifier::type_invariant]
    spec fn consistent(&self) -> bool {
        &&& self.pubkey@ == ed25519_public_key(self.secret@)
        &&& self.pubkey_str@ == address_text(self.pubkey@)
        &&& self.pubkey_str@ == base58_text(self.pubkey@)
    }

    /// The identity of a secret key.
    pub fn from_secret_key(secret: [u8; 32]) -> (m: KeypairManager)
        ensures
            m.secret_key() == secret@,
    {
        let pubkey = keypair_pubkey(&secret);
        let pubkey_str = address_to_string(&pubkey);
        KeypairManager { secret, pubkey, pubkey_str }
    }

    /// The public key's text.
    pub fn get_public_key(&self) -> (text: String)
        ensures
            text@ == address_text(ed25519_public_key(self.secret_key())),
            text@ == base58_text(ed25519_public_key(self.secret_key())),
    {
        proof {
            use_type_invariant(self);
        }
        self.pubkey_str.clone()
    }

    /// The public key's bytes.
    pub fn public_key_bytes(&self) -> (pubkey: [u8; 32])
        ensures
            pubkey@ == ed25519_public_key(self.secret_key()),
    {
        proof {
            use_type_invariant(self);
        }
        self.pubkey
    }

    /// The secret key's bytes.
    pub fn secret_key_bytes(&self) -> (secret: [u8; 32])
        ensures
            secret@ == self.secret_key(),
    {
        self.secret
    }

    /// Signs `message` with the secret key; the signature verifies under the
    /// public key.
    pub fn sign_message(&self, message: &[u8]) -> (signature: [u8; 64])
        ensures
            signature@ == ed25519_signature(self.secret_key(), message@),
            ed25519_verifies(ed25519_public_key(self.secret_key()), message@, signature@),
    {
        keypair_sign_message(&self.secret, message)
    }
}

} // verus!
