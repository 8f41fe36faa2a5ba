use bundle_test_server::utils::solana_blockhash_fetcher::SolanaBlockhashFetcher;
use bundle_test_server::block_engine::{BlockEngineValidatorService, BLOCK_BUILDER_COMMISSION};
use bundle_test_server::utils::keypair_manager::KeypairManager;
use solana_keypair::{Keypair, Signer};
use solana_sdk::transaction::Transaction;

const SECRET: [u8; 32] = [3u8; 32];
const ZERO_BLOCKHASH: &str = "11111111111111111111111111111111";

fn service() -> BlockEngineValidatorService {
    BlockEngineValidatorService::new(KeypairManager::from_secret_key(SECRET), 1_400_000, 10_000, false, false)
}

fn memo_amount(tx: &Transaction) -> u64 {
    let memo = String::from_utf8(tx.message.instructions[2].data.clone()).unwrap();
    let amount = memo.strip_prefix("Transfer ").unwrap().strip_suffix(" lamports").unwrap();
    amount.parse().unwrap()
}

#[test]
fn transfer_transaction_is_signed_and_complete() {
    let svc = service();
    let bytes = svc.create_transfer_transaction(15_000, ZERO_BLOCKHASH).unwrap();
    let tx: Transaction = bincode::deserialize(&bytes).unwrap();
    let keypair = Keypair::new_from_array(SECRET);
    assert_eq!(tx.message.instructions.len(), 4);
    assert_eq!(tx.message.account_keys[0], keypair.pubkey());
    assert_eq!(tx.message.recent_blockhash.to_bytes(), [0u8; 32]);
    assert_eq!(memo_amount(&tx), 15_000);
    assert!(tx.verify().is_ok());
    let memo_program = tx.message.account_keys[tx.message.instructions[2].program_id_index as usize];
    assert_eq!(memo_program.to_string(), "MemoSq4gqABAXKb96qnH8TysNcWxMyWCqXgDLGmfcHr");
}

#[test]
fn transfer_transaction_matches_direct_construction() {
    let svc = service();
    let keypair = Keypair::new_from_array(SECRET);
    let blockhash: solana_sdk::hash::Hash = ZERO_BLOCKHASH.parse().unwrap();
    let instructions = vec![
        solana_compute_budget_interface::ComputeBudgetInstruction::set_compute_unit_limit(1_400_000),
        solana_compute_budget_interface::ComputeBudgetInstruction::set_compute_unit_price(10_000),
        solana_sdk::instruction::Instruction {
            program_id: solana_keypair::Address::from(spl_memo::ID.to_bytes()),
            accounts: vec![],
            data: b"Transfer 12345 lamports".to_vec(),
        },
        solana_system_interface::instruction::transfer(&keypair.pubkey(), &keypair.pubkey(), 12_345),
    ];
    let tx = Transaction::new_signed_with_payer(&instructions, Some(&keypair.pubkey()), &[&keypair], blockhash);
    let expected = bincode::serialize(&tx).unwrap();
    assert_eq!(svc.create_transfer_transaction(12_345, ZERO_BLOCKHASH).unwrap(), expected);
}

#[test]
fn unreadable_blockhash_is_refused() {
    let svc = service();
    assert_eq!(svc.create_transfer_transaction(1, "0OIl").unwrap_err(), "failed to decoded string to hash");
    assert_eq!(svc.create_transfer_transaction(1, "abc").unwrap_err(), "string decoded to wrong size for hash");
}

#[test]
fn bundle_without_blockhash_fails() {
    assert_eq!(service().create_bundle("").unwrap_err(), "No blockhash available");
}

#[test]
fn bundle_holds_one_to_five_transfers_in_range() {
    let svc = service();
    for _ in 0..20 {
        let bundle = svc.create_bundle(ZERO_BLOCKHASH).unwrap();
        assert!(bundle.header.is_none());
        assert!((1..=5).contains(&bundle.packets.len()));
        for packet in &bundle.packets {
            assert!(packet.meta.is_none());
            let tx: Transaction = bincode::deserialize(&packet.data).unwrap();
            assert!((10_000..=20_000).contains(&memo_amount(&tx)));
            assert!(tx.verify().is_ok());
        }
    }
}

#[test]
fn bundle_on_unreadable_blockhash_fails() {
    assert_eq!(service().create_bundle("0").unwrap_err(), "failed to decoded string to hash");
}

#[test]
fn packet_round_without_blockhash_sends_one_error() {
    let items = service().generate_packet_round("");
    assert_eq!(items.len(), 1);
    assert_eq!(items[0].as_ref().unwrap_err(), "No blockhash available");
}

#[test]
fn packet_round_on_unreadable_blockhash_sends_only_errors() {
    let items = service().generate_packet_round("abc");
    assert!((1..=3).contains(&items.len()));
    for item in &items {
        assert_eq!(item.as_ref().unwrap_err(), "Failed to create packet: string decoded to wrong size for hash");
    }
}

#[test]
fn packet_round_sends_one_batch() {
    let svc = service();
    for _ in 0..20 {
        let items = svc.generate_packet_round(ZERO_BLOCKHASH);
        assert_eq!(items.len(), 1);
        let batch = items[0].as_ref().unwrap();
        assert!((1..=3).contains(&batch.packets.len()));
        for packet in &batch.packets {
            let tx: Transaction = bincode::deserialize(&packet.data).unwrap();
            assert!((10_000..=20_000).contains(&memo_amount(&tx)));
        }
    }
}

#[test]
fn bundles_are_numbered_and_identified() {
    let mut svc = service();
    let (first, a) = svc.generate_bundle(ZERO_BLOCKHASH).unwrap();
    let (second, b) = svc.generate_bundle(ZERO_BLOCKHASH).unwrap();
    assert_eq!((first, second), (1, 2));
    for id in [&a.uuid, &b.uuid] {
        assert_eq!(id.len(), 36);
        assert_eq!(uuid::Uuid::parse_str(id).unwrap().get_version_num(), 4);
        assert_eq!(id.to_lowercase(), *id);
    }
    assert_ne!(a.uuid, b.uuid);
    assert!(a.bundle.is_some());
}

#[test]
fn failed_bundle_is_not_counted() {
    let mut svc = service();
    assert_eq!(svc.generate_bundle("").unwrap_err(), "Failed to create bundle: No blockhash available");
    let (number, _) = svc.generate_bundle(ZERO_BLOCKHASH).unwrap();
    assert_eq!(number, 1);
}

#[test]
fn fee_info_reports_commission_and_key() {
    let info = service().get_block_builder_fee_info();
    assert_eq!(info.commission, BLOCK_BUILDER_COMMISSION);
    assert_eq!(info.commission, 5);
    assert_eq!(info.pubkey, Keypair::new_from_array(SECRET).pubkey().to_string());
}

#[test]
fn subscription_switches_are_kept() {
    let svc = BlockEngineValidatorService::new(KeypairManager::from_secret_key(SECRET), 1, 2, true, false);
    assert!(svc.packets_subscription_disabled());
    assert!(!svc.bundles_subscription_disabled());
}

#[test]
fn bundle_stream_error_carries_the_parser_error() {
    let mut svc = service();
    assert_eq!(
        svc.generate_bundle("0").unwrap_err(),
        "Failed to create bundle: failed to decoded string to hash"
    );
    assert_eq!(svc.bundles_sent(), 0);
}

#[test]
fn handed_out_blockhashes_build_bundles() {
    let svc = service();
    let random = SolanaBlockhashFetcher::new_with_params(true);
    assert!(svc.create_bundle(&random.get_blockhash()).is_ok());
    let mut fetched = SolanaBlockhashFetcher::new_with_params(false);
    fetched.update_blockhash(Some(Ok([200u8; 32]))).unwrap();
    assert!(svc.create_bundle(&fetched.get_blockhash()).is_ok());
}
