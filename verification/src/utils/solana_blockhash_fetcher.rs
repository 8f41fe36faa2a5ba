//! The recent blockhash that transactions are built on: the last one fetched
//! from a Solana RPC node, or a fresh random one when fetching is disabled.

use crate::block_engine::{is_unusable_blockhash, reads_as_blockhash};
use crate::utils::rng::{random_bytes_32, thread_rng};
use vstd::prelude::*;

verus! {

/// The base58 text of a byte string, as `bs58::encode(..).into_string()` makes it.
pub uninterp spec fn base58_text(bytes: Seq<u8>) -> Seq<char>;

/// Trusted: `bs58::encode(bytes).into_string()`, a function of the bytes
/// alone; each leading zero byte becomes a `1` and the rest its base-58
/// digits, so bytes give a non-empty text. The text of 32 bytes parses back
/// as a `solana_hash::Hash` to those bytes.
#[verifier::external_body]
pub(crate) fn base58_encode(bytes: &[u8]) -> (text: String)
    ensures
        text@ == base58_text(bytes@),
        bytes@.len() > 0 ==> text@.len() > 0,
        bytes@.len() == 32 ==> reads_as_blockhash(text@, bytes@),
{
    bs58::encode(bytes).into_string()
}

/// The text of a blockhash, as `Display` of `solana_hash::Hash` renders it.
pub uninterp spec fn hash_text(bytes: Seq<u8>) -> Seq<char>;

/// Trusted: `Display` of `solana_hash::Hash` (base58 of the 32 bytes by
/// `five8::encode_32`), a function of the bytes alone and never empty; it
/// parses back (`FromStr`) to the same hash.
#[verifier::external_body]
pub(crate) fn hash_to_string(bytes: &[u8; 32]) -> (text: String)
    ensures
        text@ == hash_text(bytes@),
        text@.len() > 0,
        reads_as_blockhash(text@, bytes@),
{
    solana_sdk::hash::Hash::from(*bytes).to_string()
}

/// The text of some 32-byte blockhash, which reads back as that blockhash.
pub open spec fn is_blockhash_text(s: Seq<char>) -> bool {
    exists|bytes: Seq<u8>|
        bytes.len() == 32 && s == base58_text(bytes) && #[trigger] reads_as_blockhash(s, bytes)
}

/// Holds the blockhash that transactions are built on.
#[derive(Debug, Clone)]
pub struct SolanaBlockhashFetcher {
    blockhash: String,
    skip_rpc_fetch: bool,
}

pub struct SolanaBlockhashFetcherView {
    pub blockhash: Seq<char>,
    pub skip_rpc_fetch: bool,
}

impl View for SolanaBlockhashFetcher {
    type V = SolanaBlockhashFetcherView;

    closed spec fn view(&self) -> SolanaBlockhashFetcherView {
        SolanaBlockhashFetcherView { blockhash: self.blockhash@, skip_rpc_fetch: self.skip_rpc_fetch }
    }
}

/// The fetcher after `blockhash` is stored.
pub open spec fn fetcher_after_set(f: SolanaBlockhashFetcherView, blockhash: Seq<char>) -> SolanaBlockhashFetcherView {
    SolanaBlockhashFetcherView { blockhash, ..f }
}

impl SolanaBlockhashFetcher {
    /// A fetcher holding no blockhash yet; `skip_rpc_fetch` makes it hand
    /// out random blockhashes instead of fetched ones.
    pub fn new_with_params(skip_rpc_fetch: bool) -> (f: SolanaBlockhashFetcher)
        ensures
            f@.blockhash == Seq::<char>::empty(),
            f@.skip_rpc_fetch == skip_rpc_fetch,
    {
        SolanaBlockhashFetcher { blockhash: String::new(), skip_rpc_fetch }
    }

    /// Whether blockhashes come from an RPC node.
    pub fn fetches_from_rpc(&self) -> (r: bool)
        ensures
            r == !self@.skip_rpc_fetch,
    {
        !self.skip_rpc_fetch
    }

    /// The blockhash to build on: the stored one, or a fresh random one when
    /// fetching is disabled.
    pub fn get_blockhash(&self) -> (blockhash: String)
        ensures
            !self@.skip_rpc_fetch ==> blockhash@ == self@.blockhash,
            self@.skip_rpc_fetch ==> is_blockhash_text(blockhash@) && !is_unusable_blockhash(blockhash@),
    {
        if self.skip_rpc_fetch {
            Self::generate_random_blockhash()
        } else {
            self.blockhash.clone()
        }
    }

    /// Stores a blockhash.
    pub fn set_blockhash(&mut self, blockhash: String)
        ensures
            final(self)@ == fetcher_after_set(old(self)@, blockhash@),
    {
        self.blockhash = blockhash;
    }

    /// Refreshes the stored blockhash: with a fresh random one when fetching
    /// is disabled (then `fetched` is `None`), else with the text of the
    /// blockhash the RPC node answered, keeping the old one and passing the
    /// error on when it failed.
    pub fn update_blockhash(&mut self, fetched: Option<Result<[u8; 32], String>>) -> (r: Result<(), String>)
        requires
            fetched is None <==> old(self)@.skip_rpc_fetch,
        ensures
            final(self)@.skip_rpc_fetch == old(self)@.skip_rpc_fetch,
            match fetched {
                None => r is Ok && is_blockhash_text(final(self)@.blockhash) && !is_unusable_blockhash(final(self)@.blockhash),
                Some(Ok(b)) => {
                    &&& r is Ok
                    &&& final(self)@ == fetcher_after_set(old(self)@, hash_text(b@))
                    &&& reads_as_blockhash(final(self)@.blockhash, b@)
                    &&& !is_unusable_blockhash(final(self)@.blockhash)
                },
                Some(Err(e)) => r == Err::<(), String>(e) && final(self)@ == old(self)@,
            },
    {
        match fetched {
            None => {
                let random_blockhash = Self::generate_random_blockhash();
                self.set_blockhash(random_blockhash);
                Ok(())
            },
            Some(Ok(hash)) => {
                self.blockhash = hash_to_string(&hash);
                Ok(())
            },
            Some(Err(e)) => Err(e),
        }
    }

    /// The base58 text of 32 random bytes.
    pub fn generate_random_blockhash() -> (blockhash: String)
        ensures
            is_blockhash_text(blockhash@),
            !is_unusable_blockhash(blockhash@),
    {
        let mut rng = thread_rng();
        let random_bytes = random_bytes_32(&mut rng);
        let text = base58_encode(&random_bytes);
        assert(random_bytes@.len() == 32 && text@ == base58_text(random_bytes@));
        text
    }
}

/// What a read gives back of a write: with fetching enabled, the blockhash
/// handed out after a blockhash is stored is the stored one.
pub proof fn lemma_get_after_set(f: SolanaBlockhashFetcherView, blockhash: Seq<char>)
    requires
        !f.skip_rpc_fetch,
    ensures
        !fetcher_after_set(f, blockhash).skip_rpc_fetch,
        fetcher_after_set(f, blockhash).blockhash == blockhash,
{
}

} // verus!
