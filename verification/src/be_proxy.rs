//! The bundle proxy: it counts the bundles it receives, drops the first
//! transaction of each, answers the sender with the modified bundle and
//! hands that bundle on to every result subscriber.

use crate::proto::{
    opt_bundle_uuid_view, Bundle, BundleUuid, BundleUuidView, BundleView, SendBundleRequest,
    SendBundleResponse, SendBundleResponseView,
};
use crate::utils::hash_utils::bundle_hash;
use vstd::prelude::*;

verus! {

/// The bundle proxy service.
#[derive(Debug, Default)]
pub struct BeProxyServiceImpl;

/// How many bundles with an identifier the proxy has received.
#[derive(Debug, Default)]
pub struct ReceivedBundleCounter {
    pub count: u64,
}

/// What handling one [`SendBundleRequest`] produced.
#[derive(Debug)]
pub struct SendBundleOutcome {
    /// The answer to the sender.
    pub response: SendBundleResponse,
    /// The number the received bundle got, when it carried an identifier.
    pub bundle_number: Option<u64>,
    /// Whether the bundle in the response goes to the result subscribers.
    pub broadcast: bool,
}

/// The error text when the identified bundle holds no bundle.
pub open spec fn error_no_bundle_data() -> Seq<char> {
    "BundleUuid contains no bundle data"@
}

/// The error text when the request holds no identified bundle.
pub open spec fn error_bundle_uuid_required() -> Seq<char> {
    "bundle_uuid is required"@
}

/// The text that stands for the hash when no bundle is present.
pub open spec fn no_bundle_label() -> Seq<char> {
    "no_bundle"@
}

/// A bundle with its first transaction removed, when it has one.
pub open spec fn without_first_transaction(b: BundleUuidView) -> BundleUuidView {
    match b.bundle {
        Some(bundle) if bundle.packets.len() > 0 => BundleUuidView {
            bundle: Some(BundleView { header: bundle.header, packets: bundle.packets.drop_first() }),
            uuid: b.uuid,
        },
        _ => b,
    }
}

/// The hash text logged for a bundle that is broadcast.
pub open spec fn broadcast_label(b: BundleUuidView) -> Seq<char> {
    match b.bundle {
        Some(bundle) => bundle_hash(bundle),
        None => no_bundle_label(),
    }
}

/// The proxy's answer to a request, by what the request holds.
pub open spec fn send_bundle_response(request: Option<BundleUuidView>) -> SendBundleResponseView {
    match request {
        None => SendBundleResponseView {
            success: false,
            error_message: error_bundle_uuid_required(),
            bundle_uuid: None,
        },
        Some(b) => match b.bundle {
            None => SendBundleResponseView {
                success: false,
                error_message: error_no_bundle_data(),
                bundle_uuid: Some(b),
            },
            Some(_) => SendBundleResponseView {
                success: true,
                error_message: Seq::empty(),
                bundle_uuid: Some(without_first_transaction(b)),
            },
        },
    }
}

/// Removing the first transaction changes nothing else: the identifier and
/// the header are kept, the packets are those after the first (all of them
/// when there are none), and an identified bundle without a bundle is left
/// as it is.
pub proof fn lemma_only_the_first_transaction_is_removed(b: BundleUuidView)
    ensures
        without_first_transaction(b).uuid == b.uuid,
        b.bundle is None ==> without_first_transaction(b).bundle is None,
        b.bundle matches Some(sent) ==> {
            &&& without_first_transaction(b).bundle matches Some(r)
            &&& r.header == sent.header
            &&& sent.packets.len() == 0 ==> r.packets.len() == 0
            &&& sent.packets.len() > 0 ==> r.packets.len() == sent.packets.len() - 1
            &&& forall|i: int| 0 <= i < r.packets.len() && sent.packets.len() > 0 ==> #[trigger] r.packets[i] == sent.packets[i + 1]
        },
{
}

/// A request with a bundle is answered with success, no error text, and
/// the bundle without its first transaction under the same identifier.
pub proof fn lemma_bundle_request_answered_with_trimmed_bundle(b: BundleUuidView)
    requires
        b.bundle is Some,
    ensures
        send_bundle_response(Some(b)).success,
        send_bundle_response(Some(b)).error_message.len() == 0,
        send_bundle_response(Some(b)).bundle_uuid == Some(without_first_transaction(b)),
{
}

/// What a result subscriber's forwarding task learns from the broadcast channel.
#[derive(Debug, Clone, Copy, PartialEq, Eq)]
pub enum BroadcastEvent {
    /// A bundle arrived and was handed to the subscriber; `delivered` tells
    /// whether the subscriber was still there to take it.
    Received { delivered: bool },
    /// The subscriber fell behind and `skipped` bundles were lost.
    Lagged { skipped: u64 },
    /// The broadcaster is gone.
    Closed,
}

/// What the forwarding task does next.
#[derive(Debug, Clone, Copy, PartialEq, Eq)]
pub enum ForwardAction {
    Continue,
    Stop,
}

impl BeProxyServiceImpl {
    /// Calculates a deterministic hash for the bundle for verification purposes.
    pub fn calculate_bundle_hash(bundle: &Bundle) -> (hash: String)
        ensures
            hash@ == bundle_hash(bundle@),
            hash@.len() == 16,
    {
        crate::utils::hash_utils::calculate_bundle_hash(bundle)
    }

    /// Removes the first transaction (packet) from the bundle, when it has
    /// one, and returns the modified bundle.
    pub fn remove_one_transaction(bundle_uuid: BundleUuid, addr_str: &str) -> (modified: BundleUuid)
        ensures
            modified@ == without_first_transaction(bundle_uuid@),
    {
        let BundleUuid { bundle, uuid } = bundle_uuid;
        match bundle {
            Some(b) => {
                let Bundle { header, packets } = b;
                let mut packets = packets;
                if packets.len() > 0 {
                    let ghost before = packets@;
                    packets.remove(0);
                    assert(crate::proto::packets_view(packets@) =~= crate::proto::packets_view(
                        before,
                    ).drop_first());
                }
                BundleUuid { bundle: Some(Bundle { header, packets }), uuid }
            },
            None => BundleUuid { bundle: None, uuid },
        }
    }

    /// The hash text logged when a bundle is broadcast: the bundle's hash, or
    /// `no_bundle` when there is no bundle.
    pub fn broadcast_label(bundle_uuid: &BundleUuid) -> (label: String)
        ensures
            label@ == broadcast_label(bundle_uuid@),
    {
        match &bundle_uuid.bundle {
            Some(bundle) => Self::calculate_bundle_hash(bundle),
            None => {
                proof {
                    reveal_strlit("no_bundle");
                }
                String::from_str("no_bundle")
            },
        }
    }

    /// Handles a request to forward a bundle: a request with an identified
    /// bundle is counted; one whose bundle is present loses its first
    /// transaction and is answered with success and broadcast; the others are
    /// answered with an error text.
    pub fn send_bundle(
        &self,
        counter: &mut ReceivedBundleCounter,
        request: SendBundleRequest,
    ) -> (outcome: SendBundleOutcome)
        requires
            request.bundle_uuid is Some ==> old(counter).count < u64::MAX,
        ensures
            outcome.response@ == send_bundle_response(opt_bundle_uuid_view(request.bundle_uuid)),
            outcome.broadcast == (request.bundle_uuid matches Some(b) && b.bundle is Some),
            match request.bundle_uuid {
                Some(_) => {
                    &&& final(counter).count == old(counter).count + 1
                    &&& outcome.bundle_number == Some(final(counter).count)
                },
                None => {
                    &&& final(counter).count == old(counter).count
                    &&& outcome.bundle_number is None
                },
            },
    {
        match request.bundle_uuid {
            Some(bundle_uuid) => {
                counter.count = counter.count + 1;
                let bundle_number = counter.count;
                if bundle_uuid.bundle.is_some() {
                    let modified = Self::remove_one_transaction(bundle_uuid, "");
                    SendBundleOutcome {
                        response: SendBundleResponse {
                            success: true,
                            error_message: String::new(),
                            bundle_uuid: Some(modified),
                        },
                        bundle_number: Some(bundle_number),
                        broadcast: true,
                    }
                } else {
                    proof {
                        reveal_strlit("BundleUuid contains no bundle data");
                    }
                    SendBundleOutcome {
                        response: SendBundleResponse {
                            success: false,
                            error_message: String::from_str("BundleUuid contains no bundle data"),
                            bundle_uuid: Some(bundle_uuid),
                        },
                        bundle_number: Some(bundle_number),
                        broadcast: false,
                    }
                }
            },
            None => {
                proof {
                    reveal_strlit("bundle_uuid is required");
                }
                SendBundleOutcome {
                    response: SendBundleResponse {
                        success: false,
                        error_message: String::from_str("bundle_uuid is required"),
                        bundle_uuid: None,
                    },
                    bundle_number: None,
                    broadcast: false,
                }
            },
        }
    }

    /// What a result subscriber's forwarding task does after an event: it
    /// keeps going after a delivered bundle or after lagging behind, and
    /// stops when the subscriber is gone or the broadcaster closed.
    pub fn forward_decision(event: BroadcastEvent) -> (action: ForwardAction)
        ensures
            action == (match event {
                BroadcastEvent::Received { delivered } => if delivered {
                    ForwardAction::Continue
                } else {
                    ForwardAction::Stop
                },
                BroadcastEvent::Lagged { .. } => ForwardAction::Continue,
                BroadcastEvent::Closed => ForwardAction::Stop,
            }),
    {
        match event {
            BroadcastEvent::Received { delivered } => if delivered {
                ForwardAction::Continue
            } else {
                ForwardAction::Stop
            },
            BroadcastEvent::Lagged { .. } => ForwardAction::Continue,
            BroadcastEvent::Closed => ForwardAction::Stop,
        }
    }
}

} // verus!
