//! The block-engine wire messages that the library's logic reads and builds,
//! as plain values, with their mathematical views.

use vstd::prelude::*;

verus! {

/// Flags that a packet's metadata may carry.
#[derive(Clone, Copy, PartialEq, Eq, Structural, Debug, Default)]
pub struct PacketFlags {
    pub discard: bool,
    pub forwarded: bool,
    pub repair: bool,
    pub simple_vote_tx: bool,
    pub tracer_packet: bool,
    pub from_staked_node: bool,
}

/// A point in time: whole seconds and nanoseconds since the Unix epoch.
#[derive(Clone, Copy, PartialEq, Eq, Structural, Debug, Default)]
pub struct Timestamp {
    pub seconds: i64,
    pub nanos: i32,
}

/// The header of a bundle.
#[derive(Clone, Copy, PartialEq, Eq, Structural, Debug, Default)]
pub struct Header {
    pub ts: Option<Timestamp>,
}

/// Where a packet came from.
#[derive(Clone, Debug, Default)]
pub struct Meta {
    pub size: u64,
    pub addr: String,
    pub port: u32,
    pub flags: Option<PacketFlags>,
    pub sender_stake: u64,
}

/// A serialized transaction with optional metadata.
#[derive(Clone, Debug, Default)]
pub struct Packet {
    pub data: Vec<u8>,
    pub meta: Option<Meta>,
}

/// An ordered group of transactions.
#[derive(Clone, Debug, Default)]
pub struct Bundle {
    pub header: Option<Header>,
    pub packets: Vec<Packet>,
}

/// A bundle together with the identifier it travels under.
#[derive(Clone, Debug, Default)]
pub struct BundleUuid {
    pub bundle: Option<Bundle>,
    pub uuid: String,
}

/// A batch of packets streamed outside of bundles.
#[derive(Clone, Debug, Default)]
pub struct PacketBatch {
    pub packets: Vec<Packet>,
}

/// A request to the bundle proxy to forward a bundle.
#[derive(Clone, Debug, Default)]
pub struct SendBundleRequest {
    pub bundle_uuid: Option<BundleUuid>,
}

/// The bundle proxy's answer to a [`SendBundleRequest`].
#[derive(Clone, Debug, Default)]
pub struct SendBundleResponse {
    pub success: bool,
    pub error_message: String,
    pub bundle_uuid: Option<BundleUuid>,
}

/// An authentication token and when it stops being valid.
#[derive(Clone, Debug, Default)]
pub struct Token {
    pub value: String,
    pub expires_at_utc: Option<Timestamp>,
}

/// The tokens issued after a successful challenge.
#[derive(Clone, Debug, Default)]
pub struct AuthTokens {
    pub access_token: Option<Token>,
    pub refresh_token: Option<Token>,
}

/// The role a client authenticates as.
#[derive(Clone, Copy, Debug, PartialEq, Eq, Structural)]
pub enum Role {
    Relayer,
    Searcher,
    Validator,
    ShredstreamSubscriber,
}

impl Role {
    /// The role's number on the wire.
    pub open spec fn spec_code(self) -> i32 {
        match self {
            Role::Relayer => 0,
            Role::Searcher => 1,
            Role::Validator => 2,
            Role::ShredstreamSubscriber => 3,
        }
    }

    /// The role's number on the wire.
    pub fn code(&self) -> (c: i32)
        ensures
            c == self.spec_code(),
    {
        match self {
            Role::Relayer => 0,
            Role::Searcher => 1,
            Role::Validator => 2,
            Role::ShredstreamSubscriber => 3,
        }
    }
}

/// A request for an authentication challenge.
#[derive(Clone, Debug, Default)]
pub struct GenerateAuthChallengeRequest {
    pub role: i32,
    pub pubkey: Vec<u8>,
}

/// A request for tokens, answering a challenge.
#[derive(Clone, Debug, Default)]
pub struct GenerateAuthTokensRequest {
    pub challenge: String,
    pub client_pubkey: Vec<u8>,
    pub signed_challenge: Vec<u8>,
}

pub struct MetaView {
    pub size: u64,
    pub addr: Seq<char>,
    pub port: u32,
    pub flags: Option<PacketFlags>,
    pub sender_stake: u64,
}

pub struct PacketView {
    pub data: Seq<u8>,
    pub meta: Option<MetaView>,
}

pub struct BundleView {
    pub header: Option<Header>,
    pub packets: Seq<PacketView>,
}

pub struct BundleUuidView {
    pub bundle: Option<BundleView>,
    pub uuid: Seq<char>,
}

impl View for Meta {
    type V = MetaView;

    open spec fn view(&self) -> MetaView {
        MetaView {
            size: self.size,
            addr: self.addr@,
            port: self.port,
            flags: self.flags,
            sender_stake: self.sender_stake,
        }
    }
}

impl View for Packet {
    type V = PacketView;

    open spec fn view(&self) -> PacketView {
        PacketView {
            data: self.data@,
            meta: match self.meta {
                Some(m) => Some(m@),
                None => None,
            },
        }
    }
}

/// The views of a sequence of packets.
pub open spec fn packets_view(ps: Seq<Packet>) -> Seq<PacketView> {
    ps.map_values(|p: Packet| p@)
}

impl View for Bundle {
    type V = BundleView;

    open spec fn view(&self) -> BundleView {
        BundleView { header: self.header, packets: packets_view(self.packets@) }
    }
}

impl View for PacketBatch {
    type V = Seq<PacketView>;

    open spec fn view(&self) -> Seq<PacketView> {
        packets_view(self.packets@)
    }
}

impl View for BundleUuid {
    type V = BundleUuidView;

    open spec fn view(&self) -> BundleUuidView {
        BundleUuidView {
            bundle: match self.bundle {
                Some(b) => Some(b@),
                None => None,
            },
            uuid: self.uuid@,
        }
    }
}

pub struct TokenView {
    pub value: Seq<char>,
    pub expires_at_utc: Option<Timestamp>,
}

impl View for Token {
    type V = TokenView;

    open spec fn view(&self) -> TokenView {
        TokenView { value: self.value@, expires_at_utc: self.expires_at_utc }
    }
}

/// The view of an optional bundle with identifier.
pub open spec fn opt_bundle_uuid_view(b: Option<BundleUuid>) -> Option<BundleUuidView> {
    match b {
        Some(b) => Some(b@),
        None => None,
    }
}

pub struct SendBundleResponseView {
    pub success: bool,
    pub error_message: Seq<char>,
    pub bundle_uuid: Option<BundleUuidView>,
}

impl View for SendBundleResponse {
    type V = SendBundleResponseView;

    open spec fn view(&self) -> SendBundleResponseView {
        SendBundleResponseView {
            success: self.success,
            error_message: self.error_message@,
            bundle_uuid: opt_bundle_uuid_view(self.bundle_uuid),
        }
    }
}

} // verus!
