//! The block engine's validator-facing service: it builds signed transfer
//! transactions from the service's key to itself, groups them into bundles
//! and packet batches at random sizes and amounts, and numbers the bundles
//! it streams out.

use crate::proto::{Bundle, Packet, PacketBatch, BundleUuid, PacketView};
use crate::text::push_decimal;
use crate::utils::auth::numbered;
use crate::utils::keypair_manager::{address_text, ed25519_public_key, KeypairManager};
use crate::utils::rng::{is_v4_uuid_text, new_uuid_v4_string, random_range_inclusive, thread_rng};
use solana_compute_budget_interface::ComputeBudgetInstruction;
use solana_keypair::Address;
use solana_sdk::hash::ParseHashError;
use crate::transaction::{
    instructions_view, serialize_transaction, sign_transaction, small_message, transaction_wire,
    AccountMetaModel, AccountMetaView, InstructionModel, InstructionView,
};
use vstd::prelude::*;
use vstd::utf8::encode_utf8;

verus! {

/// The instruction `ComputeBudgetInstruction::set_compute_unit_limit` makes.
pub uninterp spec fn compute_unit_limit_instruction(units: u32) -> InstructionView;

/// The instruction `ComputeBudgetInstruction::set_compute_unit_price` makes.
pub uninterp spec fn compute_unit_price_instruction(micro_lamports: u64) -> InstructionView;

/// The instruction `solana_system_interface::instruction::transfer` makes.
pub uninterp spec fn system_transfer_instruction(from: Seq<u8>, to: Seq<u8>, lamports: u64) -> InstructionView;

/// Why a text is no blockhash.
#[derive(Clone, Copy, Debug, PartialEq, Eq, Structural)]
pub enum BlockhashParseError {
    WrongSize,
    Invalid,
}

/// The blockhash that `str::parse::<Hash>` reads from a text.
pub uninterp spec fn parsed_blockhash(text: Seq<char>) -> Result<Seq<u8>, BlockhashParseError>;

/// Whether a text reads as the blockhash with these bytes.
pub open spec fn reads_as_blockhash(text: Seq<char>, bytes: Seq<u8>) -> bool {
    parsed_blockhash(text) == Ok::<Seq<u8>, BlockhashParseError>(bytes)
}

impl BlockhashParseError {
    /// The text of the error, as the parser's error displays it.
    pub open spec fn spec_message(self) -> Seq<char> {
        match self {
            BlockhashParseError::WrongSize => "string decoded to wrong size for hash"@,
            BlockhashParseError::Invalid => "failed to decoded string to hash"@,
        }
    }

    /// The text of the error.
    pub fn message(&self) -> (m: String)
        ensures
            m@ == self.spec_message(),
    {
        match self {
            BlockhashParseError::WrongSize => {
                proof {
                    reveal_strlit("string decoded to wrong size for hash");
                }
                String::from_str("string decoded to wrong size for hash")
            },
            BlockhashParseError::Invalid => {
                proof {
                    reveal_strlit("failed to decoded string to hash");
                }
                String::from_str("failed to decoded string to hash")
            },
        }
    }
}

/// Trusted: `str::parse::<solana_sdk::hash::Hash>` (base58 to 32 bytes),
/// a function of the text alone, with its error told apart by variant.
#[verifier::external_body]
fn parse_blockhash(text: &str) -> (r: Result<[u8; 32], BlockhashParseError>)
    ensures
        match r {
            Ok(h) => parsed_blockhash(text@) == Ok::<Seq<u8>, BlockhashParseError>(h@),
            Err(e) => parsed_blockhash(text@) == Err::<Seq<u8>, BlockhashParseError>(e),
        },
{
    match text.parse::<solana_sdk::hash::Hash>() {
        Ok(h) => Ok(h.to_bytes()),
        Err(ParseHashError::WrongSize) => Err(BlockhashParseError::WrongSize),
        Err(ParseHashError::Invalid) => Err(BlockhashParseError::Invalid),
    }
}

/// Trusted: `ComputeBudgetInstruction::set_compute_unit_limit`, converted
/// field by field; it names no accounts and its data is a tag byte and the
/// four bytes of the limit.
#[verifier::external_body]
fn compute_unit_limit_ix(units: u32) -> (ix: InstructionModel)
    ensures
        ix@ == compute_unit_limit_instruction(units),
        ix@.accounts.len() == 0,
        ix@.data.len() == 5,
{
    let ix = ComputeBudgetInstruction::set_compute_unit_limit(units);
    InstructionModel {
        program_id: ix.program_id.to_bytes(),
        accounts: ix.accounts.iter().map(|a| AccountMetaModel { pubkey: a.pubkey.to_bytes(), is_signer: a.is_signer, is_writable: a.is_writable }).collect(),
        data: ix.data,
    }
}

/// Trusted: `ComputeBudgetInstruction::set_compute_unit_price`, converted
/// field by field; it names no accounts and its data is a tag byte and the
/// eight bytes of the price.
#[verifier::external_body]
fn compute_unit_price_ix(micro_lamports: u64) -> (ix: InstructionModel)
    ensures
        ix@ == compute_unit_price_instruction(micro_lamports),
        ix@.accounts.len() == 0,
        ix@.data.len() == 9,
{
    let ix = ComputeBudgetInstruction::set_compute_unit_price(micro_lamports);
    InstructionModel {
        program_id: ix.program_id.to_bytes(),
        accounts: ix.accounts.iter().map(|a| AccountMetaModel { pubkey: a.pubkey.to_bytes(), is_signer: a.is_signer, is_writable: a.is_writable }).collect(),
        data: ix.data,
    }
}

/// Trusted: `solana_system_interface::instruction::transfer`, converted
/// field by field; it names the sender (signing, writable) and then the
/// receiver (writable); its data is the bincode form of the transfer (a
/// four-byte variant tag and the eight-byte amount).
#[verifier::external_body]
fn system_transfer_ix(from: &[u8; 32], to: &[u8; 32], lamports: u64) -> (ix: InstructionModel)
    ensures
        ix@ == system_transfer_instruction(from@, to@, lamports),
        ix@.data.len() == 12,
        ix@.accounts == seq![
            AccountMetaView { pubkey: from@, is_signer: true, is_writable: true },
            AccountMetaView { pubkey: to@, is_signer: false, is_writable: true },
        ],
{
    let ix = solana_system_interface::instruction::transfer(&Address::from(*from), &Address::from(*to), lamports);
    InstructionModel {
        program_id: ix.program_id.to_bytes(),
        accounts: ix.accounts.iter().map(|a| AccountMetaModel { pubkey: a.pubkey.to_bytes(), is_signer: a.is_signer, is_writable: a.is_writable }).collect(),
        data: ix.data,
    }
}

/// The bytes of the memo program's address (`MemoSq4gqABAXKb96qnH8TysNcWxMyWCqXgDLGmfcHr`).
pub open spec fn memo_program_id_bytes() -> Seq<u8> {
    seq![
        5u8, 74, 83, 90, 153, 41, 33, 6, 77, 36, 232, 113, 96, 218, 56, 124,
        124, 53, 181, 221, 188, 146, 187, 129, 228, 31, 168, 64, 65, 5, 68, 141,
    ]
}

/// Trusted: the bytes of `spl_memo::ID`, the memo program's address.
#[verifier::external_body]
fn memo_program_id() -> (id: [u8; 32])
    ensures
        id@ == memo_program_id_bytes(),
{
    spl_memo::ID.to_bytes()
}

/// The memo that goes with a transfer: `Transfer <amount> lamports`.
pub open spec fn transfer_memo(amount_lamports: u64) -> Seq<u8> {
    encode_utf8(numbered("Transfer "@, amount_lamports) + " lamports"@)
}

/// A transfer memo is ASCII text of at most 38 bytes.
proof fn lemma_transfer_memo_len(amount_lamports: u64)
    ensures
        transfer_memo(amount_lamports).len() <= 38,
{
    broadcast use vstd::utf8::is_ascii_chars_encode_utf8;

    reveal_strlit("Transfer ");
    reveal_strlit(" lamports");
    let head = numbered("Transfer "@, amount_lamports);
    let tail = " lamports"@;
    let text = head + tail;
    crate::utils::auth::lemma_numbered_printable("Transfer "@, amount_lamports);
    crate::text::lemma_decimal_len_u64(amount_lamports);
    assert forall|i: int| 0 <= i < text.len() implies '\0' <= #[trigger] text[i] <= '\u{7f}' by {
        if i < head.len() {
            assert(text[i] == head[i]);
            assert(' ' <= head[i] <= '~');
        } else {
            assert(text[i] == tail[i - head.len()]);
        }
    }
    assert(vstd::utf8::is_ascii_chars(text));
}

/// The instructions of a transfer from the payer to itself: the compute
/// unit limit, the compute unit price, the memo, and the transfer.
pub open spec fn transfer_instructions(payer: Seq<u8>, compute_unit_limit: u32, compute_unit_price: u32, amount_lamports: u64) -> Seq<InstructionView> {
    seq![
        compute_unit_limit_instruction(compute_unit_limit),
        compute_unit_price_instruction(compute_unit_price as u64),
        InstructionView {
            program_id: memo_program_id_bytes(),
            accounts: Seq::empty(),
            data: transfer_memo(amount_lamports),
        },
        system_transfer_instruction(payer, payer, amount_lamports),
    ]
}

/// A built transfer is the transaction of four instructions, in order: the
/// compute unit limit and the compute unit price the service is configured
/// with, the memo `Transfer <amount> lamports` (no accounts), and the
/// transfer of the amount from the service's key to itself; it is paid and
/// signed by the service's key on the given blockhash.
pub proof fn lemma_transfer_follows_configuration(s: BlockEngineValidatorServiceView, amount_lamports: u64, blockhash: Seq<u8>)
    ensures
        ({
            let payer = ed25519_public_key(s.secret_key);
            let ixs = transfer_instructions(payer, s.compute_unit_limit, s.compute_unit_price, amount_lamports);
            &&& transfer_wire(s, amount_lamports, blockhash) == transaction_wire(ixs, s.secret_key, blockhash)
            &&& ixs.len() == 4
            &&& ixs[0] == compute_unit_limit_instruction(s.compute_unit_limit)
            &&& ixs[1] == compute_unit_price_instruction(s.compute_unit_price as u64)
            &&& ixs[2].program_id == memo_program_id_bytes()
            &&& ixs[2].accounts.len() == 0
            &&& ixs[2].data == encode_utf8("Transfer "@ + crate::text::decimal(amount_lamports as nat) + " lamports"@)
            &&& ixs[3] == system_transfer_instruction(payer, payer, amount_lamports)
        }),
{
}

/// The least and the greatest amount of a generated transfer, in lamports.
pub const MIN_TRANSFER_LAMPORTS: u64 = 10000;
pub const MAX_TRANSFER_LAMPORTS: u64 = 20000;

/// The most transactions in a generated bundle, and in a generated packet batch.
pub const MAX_BUNDLE_TRANSACTIONS: u64 = 5;
pub const MAX_BATCH_PACKETS: u64 = 3;

/// The commission reported by the fee information endpoint.
pub const BLOCK_BUILDER_COMMISSION: u64 = 5;

/// What the fee information endpoint reports.
#[derive(Debug)]
pub struct BlockBuilderFeeInfo {
    pub commission: u64,
    pub pubkey: String,
}

/// The validator-facing block engine service.
pub struct BlockEngineValidatorService {
    keypair: KeypairManager,
    compute_unit_limit: u32,
    compute_unit_price: u32,
    disable_packets_subscription: bool,
    disable_bundles_subscription: bool,
    bundle_counter: u64,
}

pub struct BlockEngineValidatorServiceView {
    pub secret_key: Seq<u8>,
    pub compute_unit_limit: u32,
    pub compute_unit_price: u32,
    pub disable_packets_subscription: bool,
    pub disable_bundles_subscription: bool,
    pub bundles_sent: u64,
}

impl View for BlockEngineValidatorService {
    type V = BlockEngineValidatorServiceView;

    closed spec fn view(&self) -> BlockEngineValidatorServiceView {
        BlockEngineValidatorServiceView {
            secret_key: self.keypair.secret_key(),
            compute_unit_limit: self.compute_unit_limit,
            compute_unit_price: self.compute_unit_price,
            disable_packets_subscription: self.disable_packets_subscription,
            disable_bundles_subscription: self.disable_bundles_subscription,
            bundles_sent: self.bundle_counter,
        }
    }
}

/// The text when no blockhash is available.
pub open spec fn no_blockhash_message() -> Seq<char> {
    "No blockhash available"@
}

/// The bytes of the signed transfer of `amount_lamports` from the service's
/// key to itself, on the recent blockhash `blockhash`.
pub open spec fn transfer_wire(s: BlockEngineValidatorServiceView, amount_lamports: u64, blockhash: Seq<u8>) -> Seq<u8> {
    transaction_wire(
        transfer_instructions(
            ed25519_public_key(s.secret_key),
            s.compute_unit_limit,
            s.compute_unit_price,
            amount_lamports,
        ),
        s.secret_key,
        blockhash,
    )
}

/// A packet that carries a signed transfer of an amount within the
/// generated range, without metadata.
pub open spec fn is_generated_transfer(s: BlockEngineValidatorServiceView, blockhash: Seq<u8>, p: PacketView) -> bool {
    &&& p.meta is None
    &&& exists|amount: u64|
        MIN_TRANSFER_LAMPORTS <= amount <= MAX_TRANSFER_LAMPORTS && p.data == #[trigger] transfer_wire(s, amount, blockhash)
}

impl BlockEngineValidatorService {
    /// A service with the given key and settings that has sent no bundle yet.
    pub fn new(
        keypair: KeypairManager,
        compute_unit_limit: u32,
        compute_unit_price: u32,
        disable_packets_subscription: bool,
        disable_bundles_subscription: bool,
    ) -> (s: BlockEngineValidatorService)
        ensures
            s@ == (BlockEngineValidatorServiceView {
                secret_key: keypair.secret_key(),
                compute_unit_limit,
                compute_unit_price,
                disable_packets_subscription,
                disable_bundles_subscription,
                bundles_sent: 0,
            }),
    {
        BlockEngineValidatorService {
            keypair,
            compute_unit_limit,
            compute_unit_price,
            disable_packets_subscription,
            disable_bundles_subscription,
            bundle_counter: 0,
        }
    }

    /// Whether packet subscriptions are switched off.
    pub fn packets_subscription_disabled(&self) -> (r: bool)
        ensures
            r == self@.disable_packets_subscription,
    {
        self.disable_packets_subscription
    }

    /// How many bundles the service has streamed out.
    pub fn bundles_sent(&self) -> (n: u64)
        ensures
            n == self@.bundles_sent,
    {
        self.bundle_counter
    }

    /// Whether bundle subscriptions are switched off.
    pub fn bundles_subscription_disabled(&self) -> (r: bool)
        ensures
            r == self@.disable_bundles_subscription,
    {
        self.disable_bundles_subscription
    }

    fn transfer_memo_bytes(amount_lamports: u64) -> (memo: Vec<u8>)
        ensures
            memo@ == transfer_memo(amount_lamports),
    {
        proof {
            reveal_strlit("Transfer ");
        }
        let mut text = String::from_str("Transfer ");
        push_decimal(&mut text, amount_lamports);
        text.append(" lamports");
        vstd::slice::slice_to_vec(text.as_str().as_bytes())
    }

    /// Builds, signs and serializes a transfer of `amount_lamports` from the
    /// service's key to itself with a compute unit limit, a compute unit
    /// price and a memo, on the recent blockhash the text names. A text that
    /// names no blockhash gives the parser's error.
    pub fn create_transfer_transaction(&self, amount_lamports: u64, recent_blockhash: &str) -> (r: Result<Vec<u8>, String>)
        ensures
            match parsed_blockhash(recent_blockhash@) {
                Err(e) => r matches Err(m) && m@ == e.spec_message(),
                Ok(h) => r matches Ok(bytes) && bytes@ == transfer_wire(self@, amount_lamports, h),
            },
    {
        let blockhash = match parse_blockhash(recent_blockhash) {
            Ok(h) => h,
            Err(e) => return Err(e.message()),
        };
        let payer = self.keypair.public_key_bytes();
        let secret = self.keypair.secret_key_bytes();
        let mut instructions: Vec<InstructionModel> = Vec::new();
        instructions.push(compute_unit_limit_ix(self.compute_unit_limit));
        instructions.push(compute_unit_price_ix(self.compute_unit_price as u64));
        let memo = InstructionModel {
            program_id: memo_program_id(),
            accounts: Vec::new(),
            data: Self::transfer_memo_bytes(amount_lamports),
        };
        assert(memo@.accounts =~= Seq::<AccountMetaView>::empty());
        instructions.push(memo);
        instructions.push(system_transfer_ix(&payer, &payer, amount_lamports));
        proof {
            let v = instructions_view(instructions@);
            assert(v.len() == 4);
            assert(v[0] == instructions@[0]@);
            assert(v[2] == instructions@[2]@);
            assert(v =~= transfer_instructions(payer@, self.compute_unit_limit, self.compute_unit_price, amount_lamports));
            assert(v[2].accounts =~= Seq::<AccountMetaView>::empty());
            lemma_transfer_memo_len(amount_lamports);
            assert(small_message(v));
            assert forall|i: int, j: int|
                0 <= i < v.len() && 0 <= j < v[i].accounts.len()
                    && #[trigger] v[i].accounts[j].is_signer implies v[i].accounts[j].pubkey == payer@ by {
                if i == 3 {
                    assert(j == 0);
                }
            }
        }
        let tx = sign_transaction(&instructions, &payer, &secret, &blockhash);
        serialize_transaction(&tx)
    }
}

/// A bundle the service generates on a blockhash text: no header, one to
/// five generated transfers.
pub open spec fn is_generated_bundle(s: BlockEngineValidatorServiceView, blockhash: Seq<char>, b: crate::proto::BundleView) -> bool {
    &&& blockhash.len() > 0
    &&& parsed_blockhash(blockhash) matches Ok(h)
    &&& b.header is None
    &&& 1 <= b.packets.len() <= MAX_BUNDLE_TRANSACTIONS
    &&& forall|i: int| 0 <= i < b.packets.len() ==> is_generated_transfer(s, h, #[trigger] b.packets[i])
}

/// The error a generation on an unusable blockhash text ends with: the want
/// of a blockhash, or the parser's error.
pub open spec fn generation_failure(blockhash: Seq<char>) -> Seq<char> {
    if blockhash.len() == 0 {
        no_blockhash_message()
    } else {
        match parsed_blockhash(blockhash) {
            Err(e) => e.spec_message(),
            Ok(_) => Seq::empty(),
        }
    }
}

/// A blockhash text on which no transaction can be built.
pub open spec fn is_unusable_blockhash(blockhash: Seq<char>) -> bool {
    blockhash.len() == 0 || parsed_blockhash(blockhash) is Err
}

/// The prefix of the error sent for a packet that could not be built.
pub open spec fn packet_failure_prefix() -> Seq<char> {
    "Failed to create packet: "@
}

/// The prefix of the error sent for a bundle that could not be built.
pub open spec fn bundle_failure_prefix() -> Seq<char> {
    "Failed to create bundle: "@
}

/// What one generation round of the packet stream sends: without a
/// blockhash, that error alone; on a text that names no blockhash, one to
/// three copies of the packet error with the parser's error (one per packet
/// tried); on a readable blockhash, one batch of one to three generated
/// transfers.
pub open spec fn is_packet_round(s: BlockEngineValidatorServiceView, blockhash: Seq<char>, items: Seq<Result<Seq<PacketView>, Seq<char>>>) -> bool {
    if blockhash.len() == 0 {
        items == seq![Err::<Seq<PacketView>, Seq<char>>(no_blockhash_message())]
    } else {
        match parsed_blockhash(blockhash) {
            Err(e) => {
                &&& 1 <= items.len() <= MAX_BATCH_PACKETS
                &&& forall|k: int| 0 <= k < items.len() ==> #[trigger] items[k]
                    == Err::<Seq<PacketView>, Seq<char>>(packet_failure_prefix() + e.spec_message())
            },
            Ok(h) => {
                &&& items.len() == 1
                &&& items[0] matches Ok(batch)
                &&& 1 <= batch.len() <= MAX_BATCH_PACKETS
                &&& forall|i: int| 0 <= i < batch.len() ==> is_generated_transfer(s, h, #[trigger] batch[i])
            },
        }
    }
}

/// The views of the items a packet round sends.
pub open spec fn packet_items_view(items: Seq<Result<PacketBatch, String>>) -> Seq<Result<Seq<PacketView>, Seq<char>>> {
    items.map_values(|item: Result<PacketBatch, String>| match item {
        Ok(b) => Ok(b@),
        Err(m) => Err(m@),
    })
}

fn prefixed(prefix: &str, text: &String) -> (r: String)
    ensures
        r@ == prefix@ + text@,
{
    let mut r = String::from_str(prefix);
    r.append(text.as_str());
    r
}

impl BlockEngineValidatorService {
    /// Builds a bundle of one to five signed transfers of random amounts on
    /// the blockhash text; fails exactly when there is no blockhash or the
    /// text names none, with that error.
    pub fn create_bundle(&self, blockhash: &str) -> (r: Result<Bundle, String>)
        ensures
            r is Err <==> is_unusable_blockhash(blockhash@),
            match r {
                Ok(b) => is_generated_bundle(self@, blockhash@, b@),
                Err(m) => m@ == generation_failure(blockhash@),
            },
    {
        if blockhash.is_empty() {
            proof {
                reveal_strlit("No blockhash available");
            }
            return Err(String::from_str("No blockhash available"));
        }
        let ghost h = parsed_blockhash(blockhash@)->Ok_0;
        let mut rng = thread_rng();
        let tx_count = random_range_inclusive(&mut rng, 1, MAX_BUNDLE_TRANSACTIONS);
        let mut packets: Vec<Packet> = Vec::new();
        let mut i: u64 = 0;
        while i < tx_count
            invariant
                blockhash@.len() > 0,
                h == parsed_blockhash(blockhash@)->Ok_0,
                1 <= tx_count <= MAX_BUNDLE_TRANSACTIONS,
                i <= tx_count,
                packets@.len() == i,
                i > 0 ==> parsed_blockhash(blockhash@) is Ok,
                forall|j: int| 0 <= j < i ==> is_generated_transfer(self@, h, #[trigger] packets@[j]@),
            decreases tx_count - i,
        {
            let amount = random_range_inclusive(&mut rng, MIN_TRANSFER_LAMPORTS, MAX_TRANSFER_LAMPORTS);
            let tx_data = match self.create_transfer_transaction(amount, blockhash) {
                Ok(d) => d,
                Err(e) => return Err(e),
            };
            let packet = Packet { meta: None, data: tx_data };
            assert(is_generated_transfer(self@, h, packet@)) by {
                assert(packet@.data == transfer_wire(self@, amount, h));
            }
            packets.push(packet);
            i = i + 1;
        }
        let bundle = Bundle { header: None, packets };
        assert forall|j: int| 0 <= j < bundle@.packets.len() implies is_generated_transfer(self@, h, #[trigger] bundle@.packets[j]) by {
            assert(bundle@.packets[j] == bundle.packets@[j]@);
        }
        Ok(bundle)
    }

    /// One generation round of the packet stream: without a blockhash, that
    /// error alone; else one to three transfers of random amounts, an error
    /// for each that cannot be built, then the batch of the others if any
    /// (on a readable blockhash every transfer is built: one batch).
    pub fn generate_packet_round(&self, blockhash: &str) -> (items: Vec<Result<PacketBatch, String>>)
        ensures
            is_packet_round(self@, blockhash@, packet_items_view(items@)),
    {
        let mut items: Vec<Result<PacketBatch, String>> = Vec::new();
        if blockhash.is_empty() {
            proof {
                reveal_strlit("No blockhash available");
            }
            items.push(Err(String::from_str("No blockhash available")));
            assert(packet_items_view(items@) =~= seq![Err::<Seq<PacketView>, Seq<char>>(no_blockhash_message())]);
            return items;
        }
        let ghost parsed = parsed_blockhash(blockhash@);
        let ghost h = parsed->Ok_0;
        let ghost failure = packet_failure_prefix() + parsed->Err_0.spec_message();
        let mut rng = thread_rng();
        let packet_count = random_range_inclusive(&mut rng, 1, MAX_BATCH_PACKETS);
        let mut packets: Vec<Packet> = Vec::new();
        let mut i: u64 = 0;
        proof {
            reveal_strlit("Failed to create packet: ");
        }
        while i < packet_count
            invariant
                blockhash@.len() > 0,
                parsed == parsed_blockhash(blockhash@),
                h == parsed->Ok_0,
                failure == packet_failure_prefix() + parsed->Err_0.spec_message(),
                1 <= packet_count <= MAX_BATCH_PACKETS,
                i <= packet_count,
                parsed is Ok ==> packets@.len() == i && items@.len() == 0,
                parsed is Err ==> packets@.len() == 0 && items@.len() == i,
                forall|j: int| 0 <= j < packets@.len() ==> is_generated_transfer(self@, h, #[trigger] packets@[j]@),
                forall|k: int| 0 <= k < items@.len() ==> #[trigger] packet_items_view(items@)[k]
                    == Err::<Seq<PacketView>, Seq<char>>(failure),
            decreases packet_count - i,
        {
            let amount = random_range_inclusive(&mut rng, MIN_TRANSFER_LAMPORTS, MAX_TRANSFER_LAMPORTS);
            match self.create_transfer_transaction(amount, blockhash) {
                Ok(tx_data) => {
                    let packet = Packet { meta: None, data: tx_data };
                    assert(is_generated_transfer(self@, h, packet@)) by {
                        assert(packet@.data == transfer_wire(self@, amount, h));
                    }
                    packets.push(packet);
                },
                Err(e) => {
                    let message = prefixed("Failed to create packet: ", &e);
                    let ghost before = items@;
                    items.push(Err(message));
                    proof {
                        assert(packet_items_view(items@) =~= packet_items_view(before).push(Err(message@)));
                    }
                },
            }
            i = i + 1;
        }
        if packets.len() > 0 {
            let batch = PacketBatch { packets };
            assert forall|j: int| 0 <= j < batch@.len() implies is_generated_transfer(self@, h, #[trigger] batch@[j]) by {
                assert(batch@[j] == batch.packets@[j]@);
            }
            items.push(Ok(batch));
            assert(packet_items_view(items@) =~= seq![Ok::<Seq<PacketView>, Seq<char>>(batch@)]);
        }
        items
    }

    /// One generation round of the bundle stream: a bundle as
    /// [`Self::create_bundle`] builds it, numbered as the next bundle sent
    /// and given a random identifier; or the builder's error, prefixed.
    pub fn generate_bundle(&mut self, blockhash: &str) -> (r: Result<(u64, BundleUuid), String>)
        requires
            old(self)@.bundles_sent < u64::MAX,
        ensures
            r is Err <==> is_unusable_blockhash(blockhash@),
            final(self)@ == (match r {
                Ok(_) => BlockEngineValidatorServiceView { bundles_sent: (old(self)@.bundles_sent + 1) as u64, ..old(self)@ },
                Err(_) => old(self)@,
            }),
            match r {
                Ok((number, bundle_uuid)) => {
                    &&& number == final(self)@.bundles_sent
                    &&& is_v4_uuid_text(bundle_uuid@.uuid)
                    &&& bundle_uuid@.bundle matches Some(b) && is_generated_bundle(old(self)@, blockhash@, b)
                },
                Err(m) => m@ == bundle_failure_prefix() + generation_failure(blockhash@),
            },
    {
        match self.create_bundle(blockhash) {
            Ok(bundle) => {
                self.bundle_counter = self.bundle_counter + 1;
                let uuid = new_uuid_v4_string();
                Ok((self.bundle_counter, BundleUuid { bundle: Some(bundle), uuid }))
            },
            Err(e) => {
                proof {
                    reveal_strlit("Failed to create bundle: ");
                }
                Err(prefixed("Failed to create bundle: ", &e))
            },
        }
    }

    /// The fee information: a commission of 5 and the service's public key.
    pub fn get_block_builder_fee_info(&self) -> (info: BlockBuilderFeeInfo)
        ensures
            info.commission == BLOCK_BUILDER_COMMISSION,
            info.pubkey@ == address_text(ed25519_public_key(self@.secret_key)),
    {
        BlockBuilderFeeInfo { commission: BLOCK_BUILDER_COMMISSION, pubkey: self.keypair.get_public_key() }
    }
}

} // verus!
