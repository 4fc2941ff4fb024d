//! Cutting a serialized frame into datagrams, and joining them back.

use std::collections::HashMap;
use vstd::prelude::*;
use vstd::std_specs::hash::group_hash_axioms;

verus! {

broadcast use group_hash_axioms;

/// Largest datagram that crosses the network without fragmentation.
pub const MTU: usize = 1500;

/// Size of the UDP header.
pub const UDP_HEADER_SIZE: usize = 8;

/// Size of the IPv4 header.
pub const IP_HEADER_SIZE: usize = 20;

/// Room left for the UDP payload.
pub const MAX_PAYLOAD: usize = MTU - UDP_HEADER_SIZE - IP_HEADER_SIZE;

/// Each datagram starts with the chunk's index and the chunk count, both
/// as big-endian 32-bit integers.
pub const PACKET_HEADER_SIZE: usize = 8;

/// Bytes of frame data that one datagram carries.
pub const CHUNK_SIZE: usize = MAX_PAYLOAD - PACKET_HEADER_SIZE;

/// Big-endian bytes of `x`.
pub open spec fn be32(x: u32) -> Seq<u8> {
    seq![(x >> 24u32) as u8, (x >> 16u32) as u8, (x >> 8u32) as u8, x as u8]
}

/// The integer that the four big-endian bytes `b` stand for.
pub open spec fn be32_value(b: Seq<u8>) -> u32 {
    ((b[0] as u32) << 24u32) | ((b[1] as u32) << 16u32) | ((b[2] as u32) << 8u32) | (b[3] as u32)
}

/// Number of datagrams needed for `len` bytes.
pub open spec fn packet_count(len: int) -> int {
    (len + CHUNK_SIZE - 1) / (CHUNK_SIZE as int)
}

/// The part of `data` that datagram `i` carries.
pub open spec fn chunk(data: Seq<u8>, i: int) -> Seq<u8> {
    let end = if (i + 1) * CHUNK_SIZE < data.len() { (i + 1) * CHUNK_SIZE } else { data.len() as int };
    data.subrange(i * CHUNK_SIZE, end)
}

/// Datagram `i` of `data`: its index, the datagram count, and its chunk.
pub open spec fn frame_packet(data: Seq<u8>, i: int) -> Seq<u8> {
    be32(i as u32) + be32(packet_count(data.len() as int) as u32) + chunk(data, i)
}

/// All the datagrams of `data`, in index order.
pub open spec fn fragments(data: Seq<u8>) -> Seq<Seq<u8>> {
    Seq::new(packet_count(data.len() as int) as nat, |i: int| frame_packet(data, i))
}

/// A frame of `len` bytes can be cut: the datagram count is computable and
/// fits the 32-bit header field.
pub open spec fn fragmentable(len: int) -> bool {
    &&& len + CHUNK_SIZE - 1 <= usize::MAX
    &&& packet_count(len) <= u32::MAX
}

pub proof fn lemma_be32_roundtrip(x: u32)
    ensures
        be32_value(be32(x)) == x,
{
    let b0 = (x >> 24u32) as u8;
    let b1 = (x >> 16u32) as u8;
    let b2 = (x >> 8u32) as u8;
    let b3 = x as u8;
    assert(((b0 as u32) << 24u32) | ((b1 as u32) << 16u32) | ((b2 as u32) << 8u32) | (b3 as u32) == x)
        by (bit_vector)
        requires
            b0 == (x >> 24u32) as u8,
            b1 == (x >> 16u32) as u8,
            b2 == (x >> 8u32) as u8,
            b3 == x as u8,
    ;
}

proof fn lemma_chunk_bounds(len: int, i: int)
    requires
        0 <= i < packet_count(len),
        0 <= len,
    ensures
        i * CHUNK_SIZE < len,
        0 <= i * CHUNK_SIZE,
        (i + 1) * CHUNK_SIZE <= len + CHUNK_SIZE - 1,
{
    assert(CHUNK_SIZE == 1464);
    assert((i + 1) * 1464 <= len + 1463) by (nonlinear_arith)
        requires 0 <= i < (len + 1463) / 1464, 0 <= len;
    assert(i * 1464 < len) by (nonlinear_arith)
        requires 0 <= i < (len + 1463) / 1464, 0 <= len;
    assert(0 <= i * 1464) by (nonlinear_arith)
        requires 0 <= i;
}

fn push_be32(out: &mut Vec<u8>, x: u32)
    ensures
        final(out)@ == old(out)@ + be32(x),
{
    out.push((x >> 24u32) as u8);
    out.push((x >> 16u32) as u8);
    out.push((x >> 8u32) as u8);
    out.push(x as u8);
    assert(final(out)@ =~= old(out)@ + be32(x));
}

/// Cuts a serialized frame into the datagrams that carry it, in order.
pub fn fragment_frame(serialized: &Vec<u8>) -> (packets: Vec<Vec<u8>>)
    requires
        fragmentable(serialized@.len() as int),
    ensures
        packets@.len() == packet_count(serialized@.len() as int),
        forall|i: int| 0 <= i < packets@.len() ==> #[trigger] packets@[i]@ == frame_packet(serialized@, i),
{
    let len = serialized.len();
    assert(CHUNK_SIZE == 1464);
    let total = (len + (CHUNK_SIZE - 1)) / CHUNK_SIZE;
    let mut packets: Vec<Vec<u8>> = Vec::new();
    let mut i: usize = 0;
    while i < total
        invariant
            len == serialized@.len(),
            fragmentable(len as int),
            CHUNK_SIZE == 1464,
            total == packet_count(len as int),
            i <= total,
            packets@.len() == i,
            forall|k: int| 0 <= k < i ==> #[trigger] packets@[k]@ == frame_packet(serialized@, k),
        decreases total - i,
    {
        proof {
            lemma_chunk_bounds(len as int, i as int);
        }
        let start = i * CHUNK_SIZE;
        let end = if (i + 1) * CHUNK_SIZE < len { (i + 1) * CHUNK_SIZE } else { len };
        let mut packet: Vec<u8> = Vec::with_capacity(MAX_PAYLOAD);
        push_be32(&mut packet, i as u32);
        push_be32(&mut packet, total as u32);
        let ghost header = packet@;
        let mut j = start;
        while j < end
            invariant
                start <= j <= end,
                end <= serialized@.len(),
                packet@ == header + serialized@.subrange(start as int, j as int),
            decreases end - j,
        {
            packet.push(serialized[j]);
            assert(packet@ =~= header + serialized@.subrange(start as int, j + 1));
            j = j + 1;
        }
        assert(packet@ =~= frame_packet(serialized@, i as int));
        packets.push(packet);
        i = i + 1;
    }
    packets
}

/// What a receiver knows of a frame in transit: the chunks received so far,
/// by index, and the datagram count announced by the first one.
pub type AssemblyState = (Map<u32, Seq<u8>>, Option<u32>);

/// The state before any datagram arrives.
pub open spec fn empty_assembly() -> AssemblyState {
    (Map::empty(), None)
}

/// The state after datagram `packet` arrives: its chunk is stored under its
/// index (replacing an earlier one with that index), and the first datagram
/// fixes the count.
pub open spec fn feed(st: AssemblyState, packet: Seq<u8>) -> AssemblyState {
    let index = be32_value(packet.subrange(0, 4));
    let count = be32_value(packet.subrange(4, 8));
    (st.0.insert(index, packet.subrange(8, packet.len() as int)), if st.1 is None { Some(count) } else { st.1 })
}

/// The receiver stops waiting once it holds as many chunks as announced.
pub open spec fn assembly_complete(st: AssemblyState) -> bool {
    st.1 matches Some(count) && st.0.len() >= count
}

/// Every index below the announced count has its chunk.
pub open spec fn all_chunks_present(st: AssemblyState) -> bool {
    st.1 matches Some(count) && forall|i: u32| i < count ==> #[trigger] st.0.contains_key(i)
}

/// The chunks with indices below `n`, joined in index order.
pub open spec fn joined(m: Map<u32, Seq<u8>>, n: nat) -> Seq<u8>
    decreases n,
{
    if n == 0 {
        Seq::empty()
    } else {
        joined(m, (n - 1) as nat) + m[(n - 1) as u32]
    }
}

/// The frame that a complete state stands for.
pub open spec fn assembled(st: AssemblyState) -> Seq<u8> {
    joined(st.0, st.1->0 as nat)
}

/// Feeds datagrams in arrival order until the state is complete; later
/// datagrams are not read.
pub open spec fn receive_session(st: AssemblyState, packets: Seq<Seq<u8>>) -> AssemblyState
    decreases packets.len(),
{
    if assembly_complete(st) || packets.len() == 0 {
        st
    } else {
        receive_session(feed(st, packets[0]), packets.drop_first())
    }
}

/// The frame that a receiver makes of datagrams arriving in this order:
/// `None` when they run out before the frame is complete, or when a chunk
/// below the count is missing once it is.
pub open spec fn received_frame(packets: Seq<Seq<u8>>) -> Option<Seq<u8>> {
    let st = receive_session(empty_assembly(), packets);
    if assembly_complete(st) && all_chunks_present(st) {
        Some(assembled(st))
    } else {
        None
    }
}

/// Collects the datagrams of one frame.
pub struct FrameAssembler {
    packets: HashMap<u32, Vec<u8>>,
    total: Option<u32>,
}

impl View for FrameAssembler {
    type V = AssemblyState;

    closed spec fn view(&self) -> AssemblyState {
        (self.packets@.map_values(|v: Vec<u8>| v@), self.total)
    }
}

impl FrameAssembler {
    pub fn new() -> (s: Self)
        ensures
            s@ == empty_assembly(),
    {
        let s = FrameAssembler { packets: HashMap::new(), total: None };
        assert(s@.0 =~= Map::empty());
        s
    }

    /// Whether the receiver has stopped waiting for datagrams.
    pub fn is_complete(&self) -> (done: bool)
        ensures
            done == assembly_complete(self@),
    {
        assert(self@.0.dom() =~= self.packets@.dom());
        match self.total {
            Some(total) => self.packets.len() >= total as usize,
            None => false,
        }
    }

    /// Takes one received datagram.
    pub fn add_packet(&mut self, packet: &[u8])
        requires
            packet@.len() >= PACKET_HEADER_SIZE,
        ensures
            final(self)@ == feed(old(self)@, packet@),
    {
        let index = u32::from(packet[0]) << 24u32 | u32::from(packet[1]) << 16u32 | u32::from(packet[2]) << 8u32 | u32::from(packet[3]);
        let count = u32::from(packet[4]) << 24u32 | u32::from(packet[5]) << 16u32 | u32::from(packet[6]) << 8u32 | u32::from(packet[7]);
        assert(index == be32_value(packet@.subrange(0, 4)));
        assert(count == be32_value(packet@.subrange(4, 8)));
        if self.total.is_none() {
            self.total = Some(count);
        }
        let mut payload: Vec<u8> = Vec::new();
        let mut j: usize = PACKET_HEADER_SIZE;
        while j < packet.len()
            invariant
                PACKET_HEADER_SIZE <= j <= packet@.len(),
                payload@ == packet@.subrange(8, j as int),
            decreases packet@.len() - j,
        {
            payload.push(packet[j]);
            assert(payload@ =~= packet@.subrange(8, j + 1));
            j = j + 1;
        }
        let ghost before = self.packets@;
        self.packets.insert(index, payload);
        assert(self@.0 =~= feed(old(self)@, packet@).0) by {
            assert(self.packets@ == before.insert(index, payload));
        }
    }

    /// Whether every chunk below the announced count has arrived.
    pub fn has_all_packets(&self) -> (all: bool)
        ensures
            all == all_chunks_present(self@),
    {
        assert(self@.0.dom() =~= self.packets@.dom());
        match self.total {
            None => false,
            Some(total) => {
                let mut i: u32 = 0;
                while i < total
                    invariant
                        self.total == Some(total),
                        self@.0.dom() == self.packets@.dom(),
                        i <= total,
                        forall|k: u32| k < i ==> #[trigger] self@.0.contains_key(k),
                    decreases total - i,
                {
                    if !self.packets.contains_key(&i) {
                        return false;
                    }
                    i = i + 1;
                }
                true
            },
        }
    }

    /// Joins the chunks in index order.
    pub fn assemble(self) -> (frame: Vec<u8>)
        requires
            all_chunks_present(self@),
        ensures
            frame@ == assembled(self@),
    {
        let ghost start = self@;
        let total = match self.total {
            Some(t) => t,
            None => 0,
        };
        let mut packets = self.packets;
        assert forall|k: u32| 0 <= k < total implies #[trigger] packets@.contains_key(k)
            && packets@[k]@ == start.0[k] by {
            assert(start.0.contains_key(k));
        }
        let mut frame: Vec<u8> = Vec::new();
        let mut i: u32 = 0;
        while i < total
            invariant
                start.1 == Some(total),
                forall|k: u32| k < total ==> #[trigger] start.0.contains_key(k),
                i <= total,
                forall|k: u32| i <= k < total ==> #[trigger] packets@.contains_key(k)
                    && packets@[k]@ == start.0[k],
                frame@ == joined(start.0, i as nat),
            decreases total - i,
        {
            let removed = packets.remove(&i);
            let mut chunk = match removed {
                Some(c) => c,
                None => Vec::new(),
            };
            frame.append(&mut chunk);
            i = i + 1;
        }
        frame
    }
}

/// The chunks of the first `k` datagrams of `data`, by index.
pub open spec fn prefix_chunks(data: Seq<u8>, k: int) -> Map<u32, Seq<u8>> {
    Map::new(|i: u32| (i as int) < k, |i: u32| chunk(data, i as int))
}

/// What a receiver holds after the first `k` datagrams of `data`.
pub open spec fn prefix_state(data: Seq<u8>, k: int) -> AssemblyState {
    (prefix_chunks(data, k), if k == 0 { None } else { Some(packet_count(data.len() as int) as u32) })
}

proof fn lemma_prefix_len(data: Seq<u8>, k: int)
    requires
        0 <= k <= u32::MAX,
    ensures
        prefix_chunks(data, k).dom().finite(),
        prefix_chunks(data, k).len() == k,
    decreases k,
{
    if k == 0 {
        assert(prefix_chunks(data, k).dom() =~= Set::empty());
    } else {
        lemma_prefix_len(data, k - 1);
        let key = (k - 1) as u32;
        assert(prefix_chunks(data, k).dom() =~= prefix_chunks(data, k - 1).dom().insert(key));
        assert(!prefix_chunks(data, k - 1).dom().contains(key));
    }
}

proof fn lemma_feed_fragment(data: Seq<u8>, k: int)
    requires
        0 < data.len(),
        fragmentable(data.len() as int),
        0 <= k < packet_count(data.len() as int),
    ensures
        feed(prefix_state(data, k), fragments(data)[k]) == prefix_state(data, k + 1),
{
    let t = packet_count(data.len() as int);
    let pkt = fragments(data)[k];
    lemma_chunk_bounds(data.len() as int, k);
    assert(pkt.subrange(0, 4) =~= be32(k as u32));
    assert(pkt.subrange(4, 8) =~= be32(t as u32));
    assert(pkt.subrange(8, pkt.len() as int) =~= chunk(data, k));
    lemma_be32_roundtrip(k as u32);
    lemma_be32_roundtrip(t as u32);
    let fed = feed(prefix_state(data, k), pkt);
    assert(fed.0 =~= prefix_chunks(data, k + 1));
}

proof fn lemma_session_from(data: Seq<u8>, k: int)
    requires
        0 < data.len(),
        fragmentable(data.len() as int),
        0 <= k <= packet_count(data.len() as int),
    ensures
        receive_session(prefix_state(data, k), fragments(data).subrange(k, packet_count(data.len() as int)))
            == prefix_state(data, packet_count(data.len() as int)),
    decreases packet_count(data.len() as int) - k,
{
    let t = packet_count(data.len() as int);
    let rest = fragments(data).subrange(k, t);
    assert(CHUNK_SIZE == 1464);
    assert(t >= 1) by (nonlinear_arith)
        requires t == (data.len() + 1463) / 1464, data.len() > 0;
    lemma_prefix_len(data, k);
    if k == t {
        assert(assembly_complete(prefix_state(data, k)));
    } else {
        assert(!assembly_complete(prefix_state(data, k)));
        assert(rest.len() > 0);
        assert(rest[0] == fragments(data)[k]);
        lemma_feed_fragment(data, k);
        assert(rest.drop_first() =~= fragments(data).subrange(k + 1, t));
        lemma_session_from(data, k + 1);
    }
}

proof fn lemma_joined_prefix(data: Seq<u8>, n: int)
    requires
        0 < data.len(),
        fragmentable(data.len() as int),
        0 <= n <= packet_count(data.len() as int),
    ensures
        joined(prefix_chunks(data, packet_count(data.len() as int)), n as nat)
            == data.subrange(0, if n * CHUNK_SIZE < data.len() { n * CHUNK_SIZE } else { data.len() as int }),
    decreases n,
{
    let t = packet_count(data.len() as int);
    assert(CHUNK_SIZE == 1464);
    if n == 0 {
        assert(data.subrange(0, 0) =~= Seq::<u8>::empty());
    } else {
        lemma_joined_prefix(data, n - 1);
        lemma_chunk_bounds(data.len() as int, n - 1);
        let m = prefix_chunks(data, t);
        assert(m[(n - 1) as u32] == chunk(data, n - 1));
        let a = (n - 1) * 1464;
        let b = if n * 1464 < data.len() { n * 1464 } else { data.len() as int };
        assert(data.subrange(0, a) + data.subrange(a, b) =~= data.subrange(0, b));
    }
}

/// Receiving, in order, every datagram that a frame was cut into gives back
/// the frame: the receiver stops waiting exactly after the last one, holds
/// every chunk, and joins them into the bytes that were cut. (An empty frame is
/// cut into no datagram at all, so its receiver never completes.)
pub proof fn lemma_fragments_reassemble(data: Seq<u8>)
    requires
        0 < data.len(),
        fragmentable(data.len() as int),
    ensures
        received_frame(fragments(data)) == Some(data),
{
    let t = packet_count(data.len() as int);
    assert(CHUNK_SIZE == 1464);
    assert(t >= 1) by (nonlinear_arith)
        requires t == (data.len() + 1463) / 1464, data.len() > 0;
    assert(prefix_state(data, 0).0 =~= Map::empty());
    assert(fragments(data).subrange(0, t) =~= fragments(data));
    lemma_session_from(data, 0);
    lemma_prefix_len(data, t);
    let st = prefix_state(data, t);
    assert(assembly_complete(st));
    assert(all_chunks_present(st));
    lemma_joined_prefix(data, t);
    assert(t * 1464 >= data.len()) by (nonlinear_arith)
        requires t == (data.len() + 1463) / 1464, data.len() > 0;
    assert(data.subrange(0, data.len() as int) =~= data);
}


/// Every entry of `order` is an index below `n`.
pub open spec fn indices_below(order: Seq<int>, n: int) -> bool {
    forall|j: int| 0 <= j < order.len() ==> 0 <= #[trigger] order[j] < n
}

/// `order` lists each of the indices `0..n` exactly once.
pub open spec fn is_permutation(order: Seq<int>, n: int) -> bool {
    &&& order.len() == n
    &&& order.no_duplicates()
    &&& forall|j: int| 0 <= j < n ==> 0 <= #[trigger] order[j] < n
}

/// The datagrams of `data`, arriving in the order `order` gives: the
/// `j`-th to arrive is datagram `order[j]`.
pub open spec fn reordered(data: Seq<u8>, order: Seq<int>) -> Seq<Seq<u8>> {
    Seq::new(order.len(), |j: int| fragments(data)[order[j]])
}

/// What a receiver holds after the first `k` datagrams of `data` in the
/// order `order`.
pub open spec fn arrived_state(data: Seq<u8>, order: Seq<int>, k: int) -> AssemblyState {
    (
        Map::new(|i: u32| order.subrange(0, k).contains(i as int), |i: u32| chunk(data, i as int)),
        if k == 0 { None } else { Some(packet_count(data.len() as int) as u32) },
    )
}

proof fn lemma_arrived_len(data: Seq<u8>, order: Seq<int>, k: int)
    requires
        fragmentable(data.len() as int),
        is_permutation(order, packet_count(data.len() as int)),
        0 <= k <= order.len(),
    ensures
        arrived_state(data, order, k).0.dom().finite(),
        arrived_state(data, order, k).0.len() == k,
    decreases k,
{
    let dom = arrived_state(data, order, k).0.dom();
    if k == 0 {
        assert(dom =~= Set::empty());
    } else {
        lemma_arrived_len(data, order, k - 1);
        let prev = arrived_state(data, order, k - 1).0.dom();
        let key = order[k - 1] as u32;
        assert(0 <= order[k - 1] < order.len());
        assert(key as int == order[k - 1]);
        assert forall|i: u32| #[trigger] dom.contains(i) <==> prev.insert(key).contains(i) by {
            let pre = order.subrange(0, k - 1);
            let cur = order.subrange(0, k);
            if cur.contains(i as int) {
                let j = choose|j: int| 0 <= j < cur.len() && cur[j] == i as int;
                if j < k - 1 {
                    assert(pre[j] == i as int);
                }
            }
            if pre.contains(i as int) {
                let j = choose|j: int| 0 <= j < pre.len() && pre[j] == i as int;
                assert(cur[j] == i as int);
            }
            if i == key {
                assert(cur[k - 1] == i as int);
            }
        }
        assert(dom =~= prev.insert(key));
        if prev.contains(key) {
            let pre = order.subrange(0, k - 1);
            let j = choose|j: int| 0 <= j < pre.len() && pre[j] == key as int;
            assert(order[j] == order[k - 1]);
        }
    }
}

proof fn lemma_feed_reordered(data: Seq<u8>, order: Seq<int>, k: int)
    requires
        0 < data.len(),
        fragmentable(data.len() as int),
        indices_below(order, packet_count(data.len() as int)),
        0 <= k < order.len(),
    ensures
        feed(arrived_state(data, order, k), reordered(data, order)[k]) == arrived_state(data, order, k + 1),
{
    let t = packet_count(data.len() as int);
    let idx = order[k];
    assert(0 <= idx < t);
    let pkt = fragments(data)[idx];
    assert(reordered(data, order)[k] == pkt);
    lemma_chunk_bounds(data.len() as int, idx);
    assert(pkt.subrange(0, 4) =~= be32(idx as u32));
    assert(pkt.subrange(4, 8) =~= be32(t as u32));
    assert(pkt.subrange(8, pkt.len() as int) =~= chunk(data, idx));
    lemma_be32_roundtrip(idx as u32);
    lemma_be32_roundtrip(t as u32);
    let fed = feed(arrived_state(data, order, k), pkt);
    let next = arrived_state(data, order, k + 1);
    assert forall|i: u32| #[trigger] fed.0.contains_key(i) <==> next.0.contains_key(i) by {
        let pre = order.subrange(0, k);
        let cur = order.subrange(0, k + 1);
        if cur.contains(i as int) {
            let j = choose|j: int| 0 <= j < cur.len() && cur[j] == i as int;
            if j < k {
                assert(pre[j] == i as int);
            }
        }
        if pre.contains(i as int) {
            let j = choose|j: int| 0 <= j < pre.len() && pre[j] == i as int;
            assert(cur[j] == i as int);
        }
        if i == idx as u32 {
            assert(cur[k] == i as int);
        }
    }
    assert(fed.0 =~= next.0);
}

proof fn lemma_session_reordered(data: Seq<u8>, order: Seq<int>, k: int)
    requires
        0 < data.len(),
        fragmentable(data.len() as int),
        is_permutation(order, packet_count(data.len() as int)),
        0 <= k <= order.len(),
    ensures
        receive_session(arrived_state(data, order, k), reordered(data, order).subrange(k, order.len() as int))
            == arrived_state(data, order, order.len() as int),
    decreases order.len() - k,
{
    let t = packet_count(data.len() as int);
    let rest = reordered(data, order).subrange(k, t);
    assert(CHUNK_SIZE == 1464);
    assert(t >= 1) by (nonlinear_arith)
        requires t == (data.len() + 1463) / 1464, data.len() > 0;
    lemma_arrived_len(data, order, k);
    if k == t {
        assert(assembly_complete(arrived_state(data, order, k)));
    } else {
        assert(!assembly_complete(arrived_state(data, order, k)));
        assert(rest.len() > 0);
        assert(rest[0] == reordered(data, order)[k]);
        lemma_feed_reordered(data, order, k);
        assert(rest.drop_first() =~= reordered(data, order).subrange(k + 1, t));
        lemma_session_reordered(data, order, k + 1);
    }
}

/// Datagrams may arrive in any order: a receiver that gets every datagram
/// of a frame once, in whatever order, joins them into the bytes that were cut.
pub proof fn lemma_any_arrival_order(data: Seq<u8>, order: Seq<int>)
    requires
        0 < data.len(),
        fragmentable(data.len() as int),
        is_permutation(order, packet_count(data.len() as int)),
    ensures
        received_frame(reordered(data, order)) == Some(data),
{
    let t = packet_count(data.len() as int);
    assert(CHUNK_SIZE == 1464);
    assert(t >= 1) by (nonlinear_arith)
        requires t == (data.len() + 1463) / 1464, data.len() > 0;
    assert(arrived_state(data, order, 0).0 =~= Map::empty());
    assert(reordered(data, order).subrange(0, t) =~= reordered(data, order));
    lemma_session_reordered(data, order, 0);
    lemma_arrived_len(data, order, t);
    lemma_prefix_len(data, t);
    let got = arrived_state(data, order, t);
    let full = prefix_state(data, t);
    assert(got.0.dom().subset_of(full.0.dom())) by {
        assert forall|i: u32| #[trigger] got.0.dom().contains(i) implies full.0.dom().contains(i) by {
            let j = choose|j: int| 0 <= j < order.subrange(0, t).len() && order.subrange(0, t)[j] == i as int;
            assert(order[j] == i as int);
        }
    }
    vstd::set_lib::lemma_subset_equality(got.0.dom(), full.0.dom());
    assert(got.0 =~= full.0);
    assert(got == full);
    assert(assembly_complete(full));
    assert(all_chunks_present(full));
    lemma_joined_prefix(data, t);
    assert(t * 1464 >= data.len()) by (nonlinear_arith)
        requires t == (data.len() + 1463) / 1464, data.len() > 0;
    assert(data.subrange(0, data.len() as int) =~= data);
}


/// Every index below `n` occurs in `order`.
pub open spec fn covers(order: Seq<int>, n: int) -> bool {
    forall|i: int| 0 <= i < n ==> #[trigger] order.contains(i)
}

proof fn lemma_arrived_within(data: Seq<u8>, order: Seq<int>, k: int)
    requires
        fragmentable(data.len() as int),
        indices_below(order, packet_count(data.len() as int)),
        0 <= k <= order.len(),
    ensures
        arrived_state(data, order, k).0.dom().subset_of(prefix_chunks(data, packet_count(data.len() as int)).dom()),
        arrived_state(data, order, k).0.dom().finite(),
        arrived_state(data, order, k).0.len() <= packet_count(data.len() as int),
{
    let t = packet_count(data.len() as int);
    let dom = arrived_state(data, order, k).0.dom();
    let full = prefix_chunks(data, t).dom();
    assert forall|i: u32| #[trigger] dom.contains(i) implies full.contains(i) by {
        let pre = order.subrange(0, k);
        let j = choose|j: int| 0 <= j < pre.len() && pre[j] == i as int;
        assert(order[j] == i as int);
    }
    lemma_prefix_len(data, t);
    vstd::set_lib::lemma_len_subset(dom, full);
}

proof fn lemma_session_covers(data: Seq<u8>, order: Seq<int>, k: int)
    requires
        0 < data.len(),
        fragmentable(data.len() as int),
        indices_below(order, packet_count(data.len() as int)),
        covers(order, packet_count(data.len() as int)),
        0 <= k <= order.len(),
    ensures
        receive_session(arrived_state(data, order, k), reordered(data, order).subrange(k, order.len() as int))
            == prefix_state(data, packet_count(data.len() as int)),
    decreases order.len() - k,
{
    let t = packet_count(data.len() as int);
    let n = order.len() as int;
    let st = arrived_state(data, order, k);
    let full = prefix_state(data, t);
    let rest = reordered(data, order).subrange(k, n);
    assert(CHUNK_SIZE == 1464);
    assert(t >= 1) by (nonlinear_arith)
        requires t == (data.len() + 1463) / 1464, data.len() > 0;
    lemma_arrived_within(data, order, k);
    lemma_prefix_len(data, t);
    if assembly_complete(st) {
        vstd::set_lib::lemma_subset_equality(st.0.dom(), full.0.dom());
        assert(st.0 =~= full.0);
        assert(st == full);
    } else {
        if k == n {
            assert forall|i: u32| #[trigger] full.0.dom().contains(i) implies st.0.dom().contains(i) by {
                assert(order.contains(i as int));
                assert(order.subrange(0, k) =~= order);
            }
            assert(order.contains(0));
            assert(st.0.dom() =~= full.0.dom());
            assert(false);
        }
        assert(rest.len() > 0);
        assert(rest[0] == reordered(data, order)[k]);
        lemma_feed_reordered(data, order, k);
        assert(rest.drop_first() =~= reordered(data, order).subrange(k + 1, n));
        lemma_session_covers(data, order, k + 1);
    }
}

/// Datagrams may arrive in any order and more than once: a receiver that
/// gets every datagram of a frame at least once, among repeats of them,
/// joins them into the bytes that were cut, and ignores what arrives after
/// the frame is complete.
pub proof fn lemma_arrivals_with_repeats(data: Seq<u8>, order: Seq<int>)
    requires
        0 < data.len(),
        fragmentable(data.len() as int),
        indices_below(order, packet_count(data.len() as int)),
        covers(order, packet_count(data.len() as int)),
    ensures
        received_frame(reordered(data, order)) == Some(data),
{
    let t = packet_count(data.len() as int);
    assert(CHUNK_SIZE == 1464);
    assert(t >= 1) by (nonlinear_arith)
        requires t == (data.len() + 1463) / 1464, data.len() > 0;
    assert(arrived_state(data, order, 0).0 =~= Map::empty());
    assert(reordered(data, order).subrange(0, order.len() as int) =~= reordered(data, order));
    lemma_session_covers(data, order, 0);
    lemma_prefix_len(data, t);
    let full = prefix_state(data, t);
    assert(assembly_complete(full));
    assert(all_chunks_present(full));
    lemma_joined_prefix(data, t);
    assert(t * 1464 >= data.len()) by (nonlinear_arith)
        requires t == (data.len() + 1463) / 1464, data.len() > 0;
    assert(data.subrange(0, data.len() as int) =~= data);
}

} // verus!
