use bundle_test_server::be_proxy::{
    BeProxyServiceImpl, BroadcastEvent, ForwardAction, ReceivedBundleCounter,
};
use bundle_test_server::proto::{Bundle, BundleUuid, Packet, SendBundleRequest};
use bundle_test_server::utils::hash_utils::calculate_bundle_hash;

fn packet(b: u8) -> Packet {
    Packet { data: vec![b], meta: None }
}

fn bundle_uuid(n: usize) -> BundleUuid {
    BundleUuid {
        bundle: Some(Bundle { header: None, packets: (0..n).map(|i| packet(i as u8)).collect() }),
        uuid: "u-1".to_string(),
    }
}

#[test]
fn remove_one_transaction_drops_the_first_packet() {
    let modified = BeProxyServiceImpl::remove_one_transaction(bundle_uuid(3), "addr");
    let packets = modified.bundle.unwrap().packets;
    assert_eq!(packets.len(), 2);
    assert_eq!(packets[0].data, vec![1]);
    assert_eq!(packets[1].data, vec![2]);
    assert_eq!(modified.uuid, "u-1");
}

#[test]
fn remove_one_transaction_keeps_an_empty_bundle() {
    let modified = BeProxyServiceImpl::remove_one_transaction(bundle_uuid(0), "addr");
    assert_eq!(modified.bundle.unwrap().packets.len(), 0);
}

#[test]
fn remove_one_transaction_without_bundle() {
    let modified = BeProxyServiceImpl::remove_one_transaction(
        BundleUuid { bundle: None, uuid: "x".to_string() },
        "addr",
    );
    assert!(modified.bundle.is_none());
    assert_eq!(modified.uuid, "x");
}

#[test]
fn send_bundle_forwards_the_trimmed_bundle() {
    let service = BeProxyServiceImpl;
    let mut counter = ReceivedBundleCounter { count: 41 };
    let outcome = service.send_bundle(&mut counter, SendBundleRequest { bundle_uuid: Some(bundle_uuid(2)) });
    assert!(outcome.response.success);
    assert_eq!(outcome.response.error_message, "");
    assert!(outcome.broadcast);
    assert_eq!(outcome.bundle_number, Some(42));
    assert_eq!(counter.count, 42);
    let forwarded = outcome.response.bundle_uuid.unwrap();
    assert_eq!(forwarded.bundle.unwrap().packets.len(), 1);
}

#[test]
fn send_bundle_without_bundle_data() {
    let service = BeProxyServiceImpl;
    let mut counter = ReceivedBundleCounter { count: 0 };
    let request = SendBundleRequest { bundle_uuid: Some(BundleUuid { bundle: None, uuid: "u".to_string() }) };
    let outcome = service.send_bundle(&mut counter, request);
    assert!(!outcome.response.success);
    assert_eq!(outcome.response.error_message, "BundleUuid contains no bundle data");
    assert_eq!(outcome.response.bundle_uuid.unwrap().uuid, "u");
    assert!(!outcome.broadcast);
    assert_eq!(outcome.bundle_number, Some(1));
    assert_eq!(counter.count, 1);
}

#[test]
fn send_bundle_without_bundle_uuid() {
    let service = BeProxyServiceImpl;
    let mut counter = ReceivedBundleCounter { count: 5 };
    let outcome = service.send_bundle(&mut counter, SendBundleRequest { bundle_uuid: None });
    assert!(!outcome.response.success);
    assert_eq!(outcome.response.error_message, "bundle_uuid is required");
    assert!(outcome.response.bundle_uuid.is_none());
    assert!(!outcome.broadcast);
    assert_eq!(outcome.bundle_number, None);
    assert_eq!(counter.count, 5);
}

#[test]
fn consecutive_bundles_get_consecutive_numbers() {
    let service = BeProxyServiceImpl;
    let mut counter = ReceivedBundleCounter::default();
    let numbers: Vec<Option<u64>> = (0..3)
        .map(|_| service.send_bundle(&mut counter, SendBundleRequest { bundle_uuid: Some(bundle_uuid(1)) }).bundle_number)
        .collect();
    assert_eq!(numbers, vec![Some(1), Some(2), Some(3)]);
}

#[test]
fn broadcast_label_is_hash_or_placeholder() {
    let with_bundle = bundle_uuid(2);
    let expected = calculate_bundle_hash(with_bundle.bundle.as_ref().unwrap());
    assert_eq!(BeProxyServiceImpl::broadcast_label(&with_bundle), expected);
    assert_eq!(BeProxyServiceImpl::calculate_bundle_hash(with_bundle.bundle.as_ref().unwrap()), expected);
    let without = BundleUuid { bundle: None, uuid: "u".to_string() };
    assert_eq!(BeProxyServiceImpl::broadcast_label(&without), "no_bundle");
}

#[test]
fn forwarding_stops_when_subscriber_or_broadcaster_is_gone() {
    assert_eq!(BeProxyServiceImpl::forward_decision(BroadcastEvent::Received { delivered: true }), ForwardAction::Continue);
    assert_eq!(BeProxyServiceImpl::forward_decision(BroadcastEvent::Received { delivered: false }), ForwardAction::Stop);
    assert_eq!(BeProxyServiceImpl::forward_decision(BroadcastEvent::Lagged { skipped: 12 }), ForwardAction::Continue);
    assert_eq!(BeProxyServiceImpl::forward_decision(BroadcastEvent::Closed), ForwardAction::Stop);
}
