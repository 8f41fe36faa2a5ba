//! Deterministic hashes of bundles and packet batches, rendered as sixteen
//! lower-case hexadecimal digits.
//!
//! The hash is std's `DefaultHasher` (fixed keys, created by `new`) fed, in
//! order, with the packet count, then for each packet its index, its data and,
//! when present, the size, address and port of its metadata, and for a bundle
//! finally the seconds and nanoseconds of its header's timestamp when present.

use crate::proto::{Bundle, BundleView, Header, MetaView, Packet, PacketBatch, PacketView};
use crate::text::{hex16, to_hex16};
use std::collections::hash_map::DefaultHasher;
use std::hash::{Hash, Hasher};
use vstd::prelude::*;
use vstd::std_specs::hash::DefaultHasherAdditionalSpecFns;

verus! {

/// What `<usize as Hash>::hash` writes into a `DefaultHasher`.
pub uninterp spec fn usize_hash_writes(x: usize) -> Seq<Seq<u8>>;

/// What `<u64 as Hash>::hash` writes into a `DefaultHasher`.
pub uninterp spec fn u64_hash_writes(x: u64) -> Seq<Seq<u8>>;

/// What `<u32 as Hash>::hash` writes into a `DefaultHasher`.
pub uninterp spec fn u32_hash_writes(x: u32) -> Seq<Seq<u8>>;

/// What `<i64 as Hash>::hash` writes into a `DefaultHasher`.
pub uninterp spec fn i64_hash_writes(x: i64) -> Seq<Seq<u8>>;

/// What `<i32 as Hash>::hash` writes into a `DefaultHasher`.
pub uninterp spec fn i32_hash_writes(x: i32) -> Seq<Seq<u8>>;

/// What `<Vec<u8> as Hash>::hash` writes into a `DefaultHasher`.
pub uninterp spec fn bytes_hash_writes(b: Seq<u8>) -> Seq<Seq<u8>>;

/// What `<String as Hash>::hash` writes into a `DefaultHasher`.
pub uninterp spec fn str_hash_writes(s: Seq<char>) -> Seq<Seq<u8>>;

/// Trusted: `<usize as Hash>::hash` appends to the hasher's record of writes
/// what hashing `x` writes, a function of `x` alone.
#[verifier::external_body]
fn hash_usize(x: usize, state: &mut DefaultHasher)
    ensures
        final(state)@ == old(state)@ + usize_hash_writes(x),
{
    x.hash(state)
}

/// Trusted: `<u64 as Hash>::hash` appends what hashing `x` writes.
#[verifier::external_body]
fn hash_u64(x: u64, state: &mut DefaultHasher)
    ensures
        final(state)@ == old(state)@ + u64_hash_writes(x),
{
    x.hash(state)
}

/// Trusted: `<u32 as Hash>::hash` appends what hashing `x` writes.
#[verifier::external_body]
fn hash_u32(x: u32, state: &mut DefaultHasher)
    ensures
        final(state)@ == old(state)@ + u32_hash_writes(x),
{
    x.hash(state)
}

/// Trusted: `<i64 as Hash>::hash` appends what hashing `x` writes.
#[verifier::external_body]
fn hash_i64(x: i64, state: &mut DefaultHasher)
    ensures
        final(state)@ == old(state)@ + i64_hash_writes(x),
{
    x.hash(state)
}

/// Trusted: `<i32 as Hash>::hash` appends what hashing `x` writes.
#[verifier::external_body]
fn hash_i32(x: i32, state: &mut DefaultHasher)
    ensures
        final(state)@ == old(state)@ + i32_hash_writes(x),
{
    x.hash(state)
}

/// Trusted: `<Vec<u8> as Hash>::hash` appends what hashing the bytes writes,
/// a function of the bytes alone.
#[verifier::external_body]
fn hash_bytes(b: &Vec<u8>, state: &mut DefaultHasher)
    ensures
        final(state)@ == old(state)@ + bytes_hash_writes(b@),
{
    b.hash(state)
}

/// Trusted: `<String as Hash>::hash` appends what hashing the text writes,
/// a function of the text alone.
#[verifier::external_body]
fn hash_string(s: &String, state: &mut DefaultHasher)
    ensures
        final(state)@ == old(state)@ + str_hash_writes(s@),
{
    s.hash(state)
}

/// What hashing a packet's metadata writes: its size, address and port.
pub open spec fn meta_writes(meta: Option<MetaView>) -> Seq<Seq<u8>> {
    match meta {
        Some(m) => u64_hash_writes(m.size) + str_hash_writes(m.addr) + u32_hash_writes(m.port),
        None => Seq::empty(),
    }
}

/// What hashing the packet at position `index` writes.
pub open spec fn packet_writes(index: int, p: PacketView) -> Seq<Seq<u8>> {
    usize_hash_writes(index as usize) + bytes_hash_writes(p.data) + meta_writes(p.meta)
}

/// What hashing a sequence of packets writes, packet after packet.
pub open spec fn packets_writes(ps: Seq<PacketView>) -> Seq<Seq<u8>>
    decreases ps.len(),
{
    if ps.len() == 0 {
        Seq::empty()
    } else {
        packets_writes(ps.drop_last()) + packet_writes(ps.len() - 1, ps.last())
    }
}

/// What hashing a bundle header writes: the timestamp's seconds and nanoseconds.
pub open spec fn header_writes(header: Option<Header>) -> Seq<Seq<u8>> {
    match header {
        Some(Header { ts: Some(ts) }) => i64_hash_writes(ts.seconds) + i32_hash_writes(ts.nanos),
        _ => Seq::empty(),
    }
}

/// Everything written into the hasher for a packet batch.
pub open spec fn packet_batch_hash_writes(ps: Seq<PacketView>) -> Seq<Seq<u8>> {
    usize_hash_writes(ps.len() as usize) + packets_writes(ps)
}

/// Everything written into the hasher for a bundle.
pub open spec fn bundle_hash_writes(b: BundleView) -> Seq<Seq<u8>> {
    packet_batch_hash_writes(b.packets) + header_writes(b.header)
}

/// The hash of a bundle, as text.
pub open spec fn bundle_hash(b: BundleView) -> Seq<char> {
    hex16(DefaultHasher::spec_finish(bundle_hash_writes(b)))
}

/// The hash of a packet batch, as text.
pub open spec fn packet_batch_hash(ps: Seq<PacketView>) -> Seq<char> {
    hex16(DefaultHasher::spec_finish(packet_batch_hash_writes(ps)))
}

proof fn lemma_packets_writes_step(ps: Seq<PacketView>, i: int)
    requires
        0 <= i < ps.len(),
    ensures
        packets_writes(ps.take(i + 1)) == packets_writes(ps.take(i)) + packet_writes(i, ps[i]),
{
    assert(ps.take(i + 1).drop_last() =~= ps.take(i));
}

/// Feeds every packet to the hasher: its index, its data and, when present,
/// the size, address and port of its metadata.
pub fn update_packets_hash(packets: &[Packet], hasher: &mut DefaultHasher)
    ensures
        final(hasher)@ == old(hasher)@ + packets_writes(crate::proto::packets_view(packets@)),
{
    let ghost ps = crate::proto::packets_view(packets@);
    let mut index: usize = 0;
    while index < packets.len()
        invariant
            index <= packets@.len(),
            ps == crate::proto::packets_view(packets@),
            hasher@ == old(hasher)@ + packets_writes(ps.take(index as int)),
        decreases packets@.len() - index,
    {
        let packet = &packets[index];
        let ghost before = hasher@;
        hash_usize(index, hasher);
        hash_bytes(&packet.data, hasher);
        if let Some(meta) = &packet.meta {
            hash_u64(meta.size, hasher);
            hash_string(&meta.addr, hasher);
            hash_u32(meta.port, hasher);
        }
        proof {
            lemma_packets_writes_step(ps, index as int);
            assert(ps[index as int] == packet@);
            let w = packet_writes(index as int, ps[index as int]);
            assert(hasher@ =~= before + w);
            assert(old(hasher)@ + packets_writes(ps.take(index + 1)) =~= (old(hasher)@
                + packets_writes(ps.take(index as int))) + w);
        }
        index = index + 1;
    }
    assert(ps.take(packets@.len() as int) =~= ps);
}

/// Calculates a deterministic hash for the bundle for verification purposes.
pub fn calculate_bundle_hash(bundle: &Bundle) -> (hash: String)
    ensures
        hash@ == bundle_hash(bundle@),
        hash@.len() == 16,
{
    let mut hasher = DefaultHasher::new();
    hash_usize(bundle.packets.len(), &mut hasher);
    update_packets_hash(bundle.packets.as_slice(), &mut hasher);
    if let Some(header) = &bundle.header {
        if let Some(ts) = &header.ts {
            hash_i64(ts.seconds, &mut hasher);
            hash_i32(ts.nanos, &mut hasher);
        }
    }
    assert(hasher@ =~= bundle_hash_writes(bundle@));
    let hash = to_hex16(hasher.finish());
    proof {
        crate::text::lemma_hex_fixed_len(DefaultHasher::spec_finish(hasher@) as nat, 16);
    }
    hash
}

/// Calculates a deterministic hash for the packet batch for verification purposes.
pub fn calculate_packet_batch_hash(batch: &PacketBatch) -> (hash: String)
    ensures
        hash@ == packet_batch_hash(batch@),
        hash@.len() == 16,
{
    let mut hasher = DefaultHasher::new();
    hash_usize(batch.packets.len(), &mut hasher);
    update_packets_hash(batch.packets.as_slice(), &mut hasher);
    assert(hasher@ =~= packet_batch_hash_writes(batch@));
    let hash = to_hex16(hasher.finish());
    proof {
        crate::text::lemma_hex_fixed_len(DefaultHasher::spec_finish(hasher@) as nat, 16);
    }
    hash
}

/// Every packet reaches the hasher, whatever its position: nothing is
/// written for no packets, and a packet appended after others adds, after
/// what they write, its index, its data and (when present) the size,
/// address and port of its metadata.
pub proof fn lemma_every_packet_is_hashed(ps: Seq<PacketView>, p: PacketView)
    ensures
        packets_writes(Seq::empty()) == Seq::<Seq<u8>>::empty(),
        packets_writes(ps.push(p)) == packets_writes(ps) + usize_hash_writes(ps.len() as usize)
            + bytes_hash_writes(p.data) + match p.meta {
                Some(m) => u64_hash_writes(m.size) + str_hash_writes(m.addr) + u32_hash_writes(m.port),
                None => Seq::<Seq<u8>>::empty(),
            },
{
    assert(ps.push(p).drop_last() =~= ps);
}

/// A bundle's hash is taken over, in order, its packet count, the writes of
/// its packets, and (when its header has one) the seconds and nanoseconds
/// of its timestamp; a packet batch's over its count and its packets.
pub proof fn lemma_hash_inputs(b: BundleView, ps: Seq<PacketView>)
    ensures
        bundle_hash(b) == hex16(DefaultHasher::spec_finish(
            usize_hash_writes(b.packets.len() as usize) + packets_writes(b.packets) + match b.header {
                Some(Header { ts: Some(ts) }) => i64_hash_writes(ts.seconds) + i32_hash_writes(ts.nanos),
                _ => Seq::<Seq<u8>>::empty(),
            },
        )),
        packet_batch_hash(ps) == hex16(DefaultHasher::spec_finish(
            usize_hash_writes(ps.len() as usize) + packets_writes(ps),
        )),
{
}

/// The hash depends on a bundle's contents alone: equal bundles hash alike.
pub proof fn lemma_bundle_hash_deterministic(a: BundleView, b: BundleView)
    requires
        a == b,
    ensures
        bundle_hash(a) == bundle_hash(b),
{
}

/// A bundle without a timestamp hashes exactly as the packet batch of its
/// packets does.
pub proof fn lemma_untimed_bundle_hashes_as_batch(b: BundleView)
    requires
        b.header matches Some(h) ==> h.ts is None,
    ensures
        bundle_hash(b) == packet_batch_hash(b.packets),
{
    assert(bundle_hash_writes(b) =~= packet_batch_hash_writes(b.packets));
}

/// Every hash is sixteen lower-case hexadecimal digits.
pub proof fn lemma_bundle_hash_shape(b: BundleView)
    ensures
        bundle_hash(b).len() == 16,
        forall|i: int| 0 <= i < 16 ==> ('0' <= #[trigger] bundle_hash(b)[i] <= '9') || ('a' <= bundle_hash(b)[i] <= 'f'),
{
    let v = DefaultHasher::spec_finish(bundle_hash_writes(b));
    crate::text::lemma_hex_fixed_len(v as nat, 16);
    crate::text::lemma_hex_fixed_digits(v as nat, 16);
}

} // verus!
