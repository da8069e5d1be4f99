//! The emulator-side state of the raw TCP serial endpoint.
//!
//! Sockets live with the host side; this module keeps what the endpoint
//! decides: which connecting clients are admitted, the received bytes with
//! the client each came from, each client's bounded transmit queue, the byte
//! counters and the optional network trace. Clients are named by the id the
//! host side gives each accepted connection, and are kept in accept order.

use std::collections::VecDeque;
use vstd::prelude::*;
use crate::machine::fd400::sat_add;

verus! {

/// Most bytes moved through one socket call.
pub const SOCKET_CHUNK: usize = 4096;
pub const TCP_RX_QUEUE_LIMIT: usize = 65_536;
pub const CLIENT_TX_QUEUE_LIMIT: usize = 65_536;
pub const NETWORK_TRACE_LIMIT: usize = 4096;

/// One connected client: its id and the bytes waiting to be written to it.
pub struct TcpClientQueue {
    peer: u64,
    tx_queue: VecDeque<u8>,
}

#[derive(Clone, Copy, Debug, PartialEq, Eq, Structural)]
pub struct TcpRxByte {
    pub byte: u8,
    pub peer: u64,
}

#[derive(Clone, Copy, Debug, PartialEq, Eq, Structural)]
pub struct NetworkTraceEvent {
    pub sequence: u64,
    pub inbound: bool,
    pub byte: u8,
    pub peer: Option<u64>,
}

/// The endpoint as mathematical values.
pub struct TcpLinkView {
    /// (client id, transmit queue), in accept order.
    pub clients: Seq<(u64, Seq<u8>)>,
    pub rx_queue: Seq<TcpRxByte>,
    pub rx_bytes: u64,
    pub tx_bytes: u64,
    pub rejected_clients: u64,
    pub dropped_tx_bytes: u64,
    pub last_error: Option<Seq<char>>,
    pub network_trace_enabled: bool,
    pub network_trace: Seq<NetworkTraceEvent>,
    pub next_trace_sequence: u64,
}

pub struct TcpLink {
    clients: Vec<TcpClientQueue>,
    rx_queue: VecDeque<TcpRxByte>,
    rx_bytes: u64,
    tx_bytes: u64,
    rejected_clients: u64,
    dropped_tx_bytes: u64,
    last_error: Option<String>,
    network_trace_enabled: bool,
    network_trace: VecDeque<NetworkTraceEvent>,
    next_trace_sequence: u64,
}

pub closed spec fn spec_client(c: TcpClientQueue) -> (u64, Seq<u8>) {
    (c.peer, c.tx_queue@)
}

impl View for TcpLink {
    type V = TcpLinkView;

    closed spec fn view(&self) -> TcpLinkView {
        TcpLinkView {
            clients: self.clients@.map_values(|c: TcpClientQueue| spec_client(c)),
            rx_queue: self.rx_queue@,
            rx_bytes: self.rx_bytes,
            tx_bytes: self.tx_bytes,
            rejected_clients: self.rejected_clients,
            dropped_tx_bytes: self.dropped_tx_bytes,
            last_error: match self.last_error {
                Some(e) => Some(e@),
                None => None,
            },
            network_trace_enabled: self.network_trace_enabled,
            network_trace: self.network_trace@,
            next_trace_sequence: self.next_trace_sequence,
        }
    }
}

/// The queues never exceed their limits.
pub open spec fn spec_tcp_link_wf(v: TcpLinkView) -> bool {
    &&& v.rx_queue.len() <= TCP_RX_QUEUE_LIMIT
    &&& v.network_trace.len() <= NETWORK_TRACE_LIMIT
    &&& forall|i: int| 0 <= i < v.clients.len() ==> #[trigger] v.clients[i].1.len() <= CLIENT_TX_QUEUE_LIMIT
}

pub open spec fn spec_record_network_byte(v: TcpLinkView, inbound: bool, byte: u8, peer: Option<u64>) -> TcpLinkView {
    if !v.network_trace_enabled {
        v
    } else {
        let t = v.network_trace.push(
            NetworkTraceEvent { sequence: v.next_trace_sequence, inbound, byte, peer },
        );
        TcpLinkView {
            network_trace: if t.len() > NETWORK_TRACE_LIMIT {
                t.subrange(t.len() - NETWORK_TRACE_LIMIT, t.len() as int)
            } else {
                t
            },
            next_trace_sequence: sat_add(v.next_trace_sequence, 1),
            ..v
        }
    }
}

/// One guest byte goes to every client's queue that has room; each full
/// queue drops it and is counted. The byte is counted once however many
/// clients there are.
pub open spec fn spec_broadcast_clients(clients: Seq<(u64, Seq<u8>)>, byte: u8) -> Seq<(u64, Seq<u8>)> {
    clients.map_values(
        |c: (u64, Seq<u8>)|
            if c.1.len() < CLIENT_TX_QUEUE_LIMIT {
                (c.0, c.1.push(byte))
            } else {
                c
            },
    )
}

/// How many clients' queues are full.
pub open spec fn spec_full_clients(clients: Seq<(u64, Seq<u8>)>) -> nat
    decreases clients.len(),
{
    if clients.len() == 0 {
        0
    } else {
        spec_full_clients(clients.drop_last()) + if clients.last().1.len() < CLIENT_TX_QUEUE_LIMIT {
            0nat
        } else {
            1nat
        }
    }
}

pub open spec fn spec_received(v: TcpLinkView, peer: u64, bytes: Seq<u8>) -> TcpLinkView
    decreases bytes.len(),
{
    if bytes.len() == 0 {
        v
    } else {
        let w = spec_record_network_byte(v, true, bytes[0], Some(peer));
        spec_received(
            TcpLinkView { rx_queue: w.rx_queue.push(TcpRxByte { byte: bytes[0], peer }), ..w },
            peer,
            bytes.drop_first(),
        )
    }
}

impl TcpLink {
    pub fn new() -> (r: Self)
        ensures
            r@.clients.len() == 0,
            r@.rx_queue.len() == 0,
            r@.rx_bytes == 0 && r@.tx_bytes == 0,
            r@.rejected_clients == 0 && r@.dropped_tx_bytes == 0,
            r@.last_error is None,
            !r@.network_trace_enabled,
            r@.network_trace.len() == 0,
            r@.next_trace_sequence == 1,
            spec_tcp_link_wf(r@),
    {
        let r = TcpLink {
            clients: Vec::new(),
            rx_queue: VecDeque::new(),
            rx_bytes: 0,
            tx_bytes: 0,
            rejected_clients: 0,
            dropped_tx_bytes: 0,
            last_error: None,
            network_trace_enabled: false,
            network_trace: VecDeque::new(),
            next_trace_sequence: 1,
        };
        assert(r@.clients =~= Seq::empty());
        r
    }

    fn record_network_byte(&mut self, inbound: bool, byte: u8, peer: Option<u64>)
        requires
            spec_tcp_link_wf(old(self)@),
        ensures
            final(self)@ == spec_record_network_byte(old(self)@, inbound, byte, peer),
            spec_tcp_link_wf(final(self)@),
    {
        if !self.network_trace_enabled {
            return ;
        }
        self.network_trace.push_back(
            NetworkTraceEvent { sequence: self.next_trace_sequence, inbound, byte, peer },
        );
        self.next_trace_sequence = self.next_trace_sequence.saturating_add(1);
        let ghost pushed = self.network_trace@;
        if self.network_trace.len() > NETWORK_TRACE_LIMIT {
            self.network_trace.pop_front();
            assert(self.network_trace@ =~= pushed.subrange(
                pushed.len() - NETWORK_TRACE_LIMIT,
                pushed.len() as int,
            ));
        }
    }

    /// Whether a client that has just connected may stay. With a single
    /// client allowed, a second one is refused and counted.
    pub fn accepts_new_client(&mut self, allow_multiple_clients: bool) -> (r: bool)
        ensures
            r == (allow_multiple_clients || old(self)@.clients.len() == 0),
            r ==> final(self)@ == old(self)@,
            !r ==> final(self)@ == (TcpLinkView {
                rejected_clients: sat_add(old(self)@.rejected_clients, 1),
                ..old(self)@
            }),
    {
        if !allow_multiple_clients && self.clients.len() > 0 {
            self.rejected_clients = self.rejected_clients.saturating_add(1);
            return false;
        }
        true
    }

    /// An admitted client joins with an empty transmit queue.
    pub fn add_client(&mut self, peer: u64)
        requires
            spec_tcp_link_wf(old(self)@),
        ensures
            final(self)@ == (TcpLinkView { clients: old(self)@.clients.push((peer, Seq::empty())), ..old(self)@ }),
            spec_tcp_link_wf(final(self)@),
    {
        self.clients.push(TcpClientQueue { peer, tx_queue: VecDeque::new() });
        assert(self@.clients =~= old(self)@.clients.push((peer, Seq::empty())));
    }

    /// With a single client allowed, every client after the first is
    /// dropped; their ids come back in order.
    pub fn enforce_client_policy(&mut self, allow_multiple_clients: bool) -> (r: Vec<u64>)
        requires
            spec_tcp_link_wf(old(self)@),
        ensures
            spec_tcp_link_wf(final(self)@),
            allow_multiple_clients || old(self)@.clients.len() <= 1 ==> r@.len() == 0 && final(self)@
                == old(self)@,
            !(allow_multiple_clients || old(self)@.clients.len() <= 1) ==> final(self)@ == (TcpLinkView {
                clients: old(self)@.clients.subrange(0, 1),
                ..old(self)@
            }) && r@ == old(self)@.clients.subrange(1, old(self)@.clients.len() as int).map_values(
                |c: (u64, Seq<u8>)| c.0,
            ),
    {
        let mut dropped: Vec<u64> = Vec::new();
        if allow_multiple_clients || self.clients.len() <= 1 {
            return dropped;
        }
        let ghost all = old(self)@.clients;
        assert(all.len() == self.clients@.len());
        let mut i: usize = 1;
        while i < self.clients.len()
            invariant
                1 <= i <= self.clients@.len(),
                self@ == old(self)@,
                all == self@.clients,
                all.len() == self.clients@.len(),
                dropped@ == all.subrange(1, i as int).map_values(|c: (u64, Seq<u8>)| c.0),
            decreases self.clients@.len() - i,
        {
            let p = self.clients[i].peer;
            assert(p == all[i as int].0) by {
                assert(all[i as int] == spec_client(self.clients@[i as int]));
            }
            let ghost before = dropped@;
            dropped.push(p);
            assert(all.subrange(1, i + 1 as int) =~= all.subrange(1, i as int).push(all[i as int]));
            assert(all.subrange(1, i as int).push(all[i as int]).map_values(|c: (u64, Seq<u8>)| c.0)
                =~= before.push(p));
            i = i + 1;
            assert(dropped@ =~= all.subrange(1, i as int).map_values(|c: (u64, Seq<u8>)| c.0));
        }
        self.clients.truncate(1);
        assert(self@.clients =~= all.subrange(0, 1));
        dropped
    }

    /// How many bytes the next socket read may bring: what the receive queue
    /// still holds, at most one chunk.
    pub fn read_room(&self) -> (r: usize)
        requires
            spec_tcp_link_wf(self@),
        ensures
            r == (if TCP_RX_QUEUE_LIMIT - self@.rx_queue.len() < SOCKET_CHUNK {
                TCP_RX_QUEUE_LIMIT - self@.rx_queue.len()
            } else {
                SOCKET_CHUNK as int
            }),
    {
        let room = TCP_RX_QUEUE_LIMIT - self.rx_queue.len();
        if room < SOCKET_CHUNK {
            room
        } else {
            SOCKET_CHUNK
        }
    }

    /// Bytes a client sent, each queued with the client's id and traced.
    pub fn received(&mut self, index: usize, bytes: &[u8])
        requires
            spec_tcp_link_wf(old(self)@),
            index < old(self)@.clients.len(),
            old(self)@.rx_queue.len() + bytes@.len() <= TCP_RX_QUEUE_LIMIT,
        ensures
            spec_tcp_link_wf(final(self)@),
            ({
                let after = spec_received(old(self)@, old(self)@.clients[index as int].0, bytes@);
                final(self)@ == (TcpLinkView {
                    rx_bytes: sat_add(old(self)@.rx_bytes, bytes@.len() as int),
                    ..after
                })
            }),
    {
        let peer = self.clients[index].peer;
        let ghost start = self@;
        let mut i: usize = 0;
        assert(bytes@.subrange(0, bytes@.len() as int) =~= bytes@);
        while i < bytes.len()
            invariant
                i <= bytes@.len(),
                peer == start.clients[index as int].0,
                start == old(self)@,
                spec_tcp_link_wf(self@),
                self@.rx_queue.len() == start.rx_queue.len() + i,
                start.rx_queue.len() + bytes@.len() <= TCP_RX_QUEUE_LIMIT,
                self@.rx_bytes == start.rx_bytes,
                spec_received(start, peer, bytes@) == spec_received(
                    self@,
                    peer,
                    bytes@.subrange(i as int, bytes@.len() as int),
                ),
            decreases bytes@.len() - i,
        {
            let byte = bytes[i];
            let ghost rest = bytes@.subrange(i as int, bytes@.len() as int);
            assert(rest.drop_first() =~= bytes@.subrange(i + 1, bytes@.len() as int));
            self.record_network_byte(true, byte, Some(peer));
            self.rx_queue.push_back(TcpRxByte { byte, peer });
            i = i + 1;
        }
        assert(bytes@.subrange(bytes@.len() as int, bytes@.len() as int) =~= Seq::<u8>::empty());
        proof {
            lemma_received_keeps_counters(start, peer, bytes@);
        }
        self.rx_bytes = self.rx_bytes.saturating_add(bytes.len() as u64);
    }

    /// A client that closed or failed leaves; its id comes back.
    pub fn remove_client(&mut self, index: usize) -> (r: u64)
        requires
            spec_tcp_link_wf(old(self)@),
            index < old(self)@.clients.len(),
        ensures
            r == old(self)@.clients[index as int].0,
            final(self)@ == (TcpLinkView { clients: old(self)@.clients.remove(index as int), ..old(self)@ }),
            spec_tcp_link_wf(final(self)@),
    {
        let client = self.clients.remove(index);
        assert(self@.clients =~= old(self)@.clients.remove(index as int));
        client.peer
    }

    /// The next bytes to write to a client: the front of its queue, at most
    /// one chunk.
    pub fn tx_chunk(&self, index: usize) -> (r: Vec<u8>)
        requires
            index < self@.clients.len(),
        ensures
            ({
                let q = self@.clients[index as int].1;
                r@ == q.subrange(0, if q.len() < SOCKET_CHUNK { q.len() as int } else { SOCKET_CHUNK as int })
            }),
    {
        let queue = &self.clients[index].tx_queue;
        let n = if queue.len() < SOCKET_CHUNK {
            queue.len()
        } else {
            SOCKET_CHUNK
        };
        let mut out: Vec<u8> = Vec::new();
        let mut i: usize = 0;
        while i < n
            invariant
                i <= n,
                n <= queue@.len(),
                queue@ == self@.clients[index as int].1,
                out@ == queue@.subrange(0, i as int),
            decreases n - i,
        {
            out.push(queue[i]);
            i = i + 1;
            assert(out@ =~= queue@.subrange(0, i as int));
        }
        out
    }

    /// A socket write took `count` bytes from the front of a client's queue.
    pub fn wrote(&mut self, index: usize, count: usize)
        requires
            spec_tcp_link_wf(old(self)@),
            index < old(self)@.clients.len(),
            count <= old(self)@.clients[index as int].1.len(),
        ensures
            spec_tcp_link_wf(final(self)@),
            final(self)@ == (TcpLinkView {
                clients: old(self)@.clients.update(
                    index as int,
                    (
                        old(self)@.clients[index as int].0,
                        old(self)@.clients[index as int].1.subrange(
                            count as int,
                            old(self)@.clients[index as int].1.len() as int,
                        ),
                    ),
                ),
                ..old(self)@
            }),
    {
        let mut client = self.clients.remove(index);
        let ghost q0 = client.tx_queue@;
        let mut k: usize = 0;
        while k < count
            invariant
                k <= count,
                count <= q0.len(),
                client.peer == old(self)@.clients[index as int].0,
                q0 == old(self)@.clients[index as int].1,
                client.tx_queue@ == q0.subrange(k as int, q0.len() as int),
            decreases count - k,
        {
            client.tx_queue.pop_front();
            k = k + 1;
            assert(client.tx_queue@ =~= q0.subrange(k as int, q0.len() as int));
        }
        self.clients.insert(index, client);
        assert(self@.clients =~= old(self)@.clients.update(
            index as int,
            (old(self)@.clients[index as int].0, q0.subrange(count as int, q0.len() as int)),
        ));
    }

    /// Queues one guest-transmitted byte for every connected client.
    pub fn broadcast_byte(&mut self, byte: u8)
        requires
            spec_tcp_link_wf(old(self)@),
        ensures
            spec_tcp_link_wf(final(self)@),
            ({
                let traced = spec_record_network_byte(
                    TcpLinkView { tx_bytes: sat_add(old(self)@.tx_bytes, 1), ..old(self)@ },
                    false,
                    byte,
                    None,
                );
                final(self)@ == (TcpLinkView {
                    clients: spec_broadcast_clients(old(self)@.clients, byte),
                    dropped_tx_bytes: final(self)@.dropped_tx_bytes,
                    ..traced
                })
            }),
            old(self)@.dropped_tx_bytes + spec_full_clients(old(self)@.clients) <= u64::MAX
                ==> final(self)@.dropped_tx_bytes == old(self)@.dropped_tx_bytes + spec_full_clients(
                old(self)@.clients,
            ),
    {
        self.tx_bytes = self.tx_bytes.saturating_add(1);
        self.record_network_byte(false, byte, None);
        let ghost start = self@;
        let ghost all = start.clients;
        let mut i: usize = 0;
        while i < self.clients.len()
            invariant
                i <= self.clients@.len(),
                self.clients@.len() == all.len(),
                spec_tcp_link_wf(start),
                forall|j: int| 0 <= j < self.clients@.len() ==> #[trigger] self@.clients[j].1.len() <= CLIENT_TX_QUEUE_LIMIT,
                self@.clients.subrange(0, i as int) == spec_broadcast_clients(all, byte).subrange(0, i as int),
                self@.clients.subrange(i as int, all.len() as int) == all.subrange(i as int, all.len() as int),
                self@ == (TcpLinkView {
                    clients: self@.clients,
                    dropped_tx_bytes: self@.dropped_tx_bytes,
                    ..start
                }),
                start.dropped_tx_bytes + spec_full_clients(all) <= u64::MAX ==> self@.dropped_tx_bytes
                    == start.dropped_tx_bytes + spec_full_clients(all.subrange(0, i as int)),
                self@.dropped_tx_bytes >= start.dropped_tx_bytes,
            decreases all.len() - i,
        {
            proof {
                lemma_full_clients_prefix(all, i as int);
            }
            let ghost before = self@.clients;
            let mut client = self.clients.remove(i);
            if client.tx_queue.len() < CLIENT_TX_QUEUE_LIMIT {
                client.tx_queue.push_back(byte);
            } else {
                self.dropped_tx_bytes = self.dropped_tx_bytes.saturating_add(1);
            }
            self.clients.insert(i, client);
            assert(self@.clients =~= before.update(
                i as int,
                if before[i as int].1.len() < CLIENT_TX_QUEUE_LIMIT {
                    (before[i as int].0, before[i as int].1.push(byte))
                } else {
                    before[i as int]
                },
            ));
            assert(before[i as int] == all[i as int]) by {
                assert(before.subrange(i as int, all.len() as int)[0] == before[i as int]);
            }
            i = i + 1;
            assert(self@.clients.subrange(0, i as int) =~= spec_broadcast_clients(all, byte).subrange(
                0,
                i as int,
            ));
            assert forall|k: int| i <= k < all.len() implies #[trigger] self@.clients[k] == all[k] by {
                assert(before.subrange((i - 1) as int, all.len() as int)[k - (i - 1)] == before[k]);
                assert(all.subrange((i - 1) as int, all.len() as int)[k - (i - 1)] == all[k]);
            }
            assert(self@.clients.subrange(i as int, all.len() as int) =~= all.subrange(
                i as int,
                all.len() as int,
            ));
        }
        assert(self@.clients =~= spec_broadcast_clients(all, byte)) by {
            assert(self@.clients.subrange(0, all.len() as int) =~= self@.clients);
            assert(spec_broadcast_clients(all, byte).subrange(0, all.len() as int) =~= spec_broadcast_clients(
                all,
                byte,
            ));
        }
        assert(all.subrange(0, all.len() as int) =~= all);
    }

    /// The oldest received byte and the client it came from.
    pub fn pop_rx(&mut self) -> (r: Option<(u8, u64)>)
        requires
            spec_tcp_link_wf(old(self)@),
        ensures
            spec_tcp_link_wf(final(self)@),
            old(self)@.rx_queue.len() > 0 ==> r == Some((old(self)@.rx_queue[0].byte, old(self)@.rx_queue[0].peer))
                && final(self)@ == (TcpLinkView { rx_queue: old(self)@.rx_queue.drop_first(), ..old(self)@ }),
            old(self)@.rx_queue.len() == 0 ==> r is None && final(self)@ == old(self)@,
    {
        match self.rx_queue.pop_front() {
            Some(entry) => {
                assert(self.rx_queue@ =~= old(self)@.rx_queue.drop_first());
                Some((entry.byte, entry.peer))
            },
            None => None,
        }
    }

    pub fn clear_rx(&mut self)
        ensures
            final(self)@ == (TcpLinkView { rx_queue: Seq::empty(), ..old(self)@ }),
    {
        self.rx_queue.clear();
    }

    /// All clients are dropped and queued input is forgotten; the error is
    /// cleared when `clear_error`.
    pub fn reset_connections(&mut self, clear_error: bool)
        ensures
            final(self)@ == (TcpLinkView {
                clients: Seq::empty(),
                rx_queue: Seq::empty(),
                last_error: if clear_error {
                    None
                } else {
                    old(self)@.last_error
                },
                ..old(self)@
            }),
    {
        self.clients.clear();
        self.rx_queue.clear();
        if clear_error {
            self.last_error = None;
        }
        assert(self@.clients =~= Seq::empty());
    }

    pub fn set_error(&mut self, error: String)
        ensures
            final(self)@ == (TcpLinkView { last_error: Some(error@), ..old(self)@ }),
    {
        self.last_error = Some(error);
    }

    pub fn rx_pending(&self) -> (r: usize)
        ensures
            r == self@.rx_queue.len(),
    {
        self.rx_queue.len()
    }

    pub fn rx_bytes(&self) -> (r: u64)
        ensures
            r == self@.rx_bytes,
    {
        self.rx_bytes
    }

    pub fn tx_bytes(&self) -> (r: u64)
        ensures
            r == self@.tx_bytes,
    {
        self.tx_bytes
    }

    pub fn rejected_clients(&self) -> (r: u64)
        ensures
            r == self@.rejected_clients,
    {
        self.rejected_clients
    }

    pub fn dropped_tx_bytes(&self) -> (r: u64)
        ensures
            r == self@.dropped_tx_bytes,
    {
        self.dropped_tx_bytes
    }

    pub fn client_count(&self) -> (r: usize)
        ensures
            r == self@.clients.len(),
    {
        self.clients.len()
    }

    /// The ids of the connected clients, in accept order.
    pub fn peer_ids(&self) -> (r: Vec<u64>)
        ensures
            r@ == self@.clients.map_values(|c: (u64, Seq<u8>)| c.0),
    {
        let mut out: Vec<u64> = Vec::new();
        let mut i: usize = 0;
        while i < self.clients.len()
            invariant
                i <= self.clients@.len(),
                out@ == self@.clients.subrange(0, i as int).map_values(|c: (u64, Seq<u8>)| c.0),
            decreases self.clients@.len() - i,
        {
            out.push(self.clients[i].peer);
            i = i + 1;
            assert(out@ =~= self@.clients.subrange(0, i as int).map_values(|c: (u64, Seq<u8>)| c.0));
        }
        assert(self@.clients.subrange(0, self@.clients.len() as int) =~= self@.clients);
        out
    }

    pub fn last_error(&self) -> (r: &Option<String>)
        ensures
            match r {
                Some(e) => self@.last_error == Some(e@),
                None => self@.last_error is None,
            },
    {
        &self.last_error
    }

    pub fn network_trace_enabled(&self) -> (r: bool)
        ensures
            r == self@.network_trace_enabled,
    {
        self.network_trace_enabled
    }

    pub fn set_network_trace_enabled(&mut self, enabled: bool)
        ensures
            final(self)@ == (TcpLinkView { network_trace_enabled: enabled, ..old(self)@ }),
    {
        self.network_trace_enabled = enabled;
    }

    /// (sequence, inbound, byte, client) of each traced byte, oldest first.
    pub fn network_trace_snapshot(&self) -> (r: Vec<(u64, bool, u8, Option<u64>)>)
        ensures
            r@.len() == self@.network_trace.len(),
            forall|i: int|
                0 <= i < r@.len() ==> #[trigger] r@[i] == (
                    self@.network_trace[i].sequence,
                    self@.network_trace[i].inbound,
                    self@.network_trace[i].byte,
                    self@.network_trace[i].peer,
                ),
    {
        let mut out: Vec<(u64, bool, u8, Option<u64>)> = Vec::new();
        let mut i: usize = 0;
        while i < self.network_trace.len()
            invariant
                i <= self.network_trace@.len(),
                out@.len() == i,
                forall|k: int|
                    0 <= k < i ==> #[trigger] out@[k] == (
                        self@.network_trace[k].sequence,
                        self@.network_trace[k].inbound,
                        self@.network_trace[k].byte,
                        self@.network_trace[k].peer,
                    ),
            decreases self.network_trace@.len() - i,
        {
            let e = self.network_trace[i];
            out.push((e.sequence, e.inbound, e.byte, e.peer));
            i = i + 1;
        }
        out
    }

    pub fn clear_network_trace(&mut self)
        ensures
            final(self)@ == (TcpLinkView { network_trace: Seq::empty(), ..old(self)@ }),
    {
        self.network_trace.clear();
    }
}

impl Default for TcpLink {
    fn default() -> (r: Self)
        ensures
            r@.clients.len() == 0,
            spec_tcp_link_wf(r@),
    {
        TcpLink::new()
    }
}

proof fn lemma_full_clients_prefix(all: Seq<(u64, Seq<u8>)>, i: int)
    requires
        0 <= i < all.len(),
    ensures
        spec_full_clients(all.subrange(0, i + 1)) == spec_full_clients(all.subrange(0, i)) + if all[i].1.len()
            < CLIENT_TX_QUEUE_LIMIT {
            0nat
        } else {
            1nat
        },
        spec_full_clients(all.subrange(0, i + 1)) <= spec_full_clients(all),
{
    assert(all.subrange(0, i + 1).drop_last() =~= all.subrange(0, i));
    lemma_full_clients_monotone(all, i + 1);
}

proof fn lemma_full_clients_monotone(all: Seq<(u64, Seq<u8>)>, i: int)
    requires
        0 <= i <= all.len(),
    ensures
        spec_full_clients(all.subrange(0, i)) <= spec_full_clients(all),
    decreases all.len(),
{
    if i == all.len() {
        assert(all.subrange(0, i) =~= all);
    } else {
        assert(all.drop_last().subrange(0, i) =~= all.subrange(0, i));
        lemma_full_clients_monotone(all.drop_last(), i);
    }
}

proof fn lemma_received_keeps_counters(v: TcpLinkView, peer: u64, bytes: Seq<u8>)
    ensures
        spec_received(v, peer, bytes).rx_bytes == v.rx_bytes,
        spec_received(v, peer, bytes).clients == v.clients,
    decreases bytes.len(),
{
    if bytes.len() > 0 {
        let w = spec_record_network_byte(v, true, bytes[0], Some(peer));
        lemma_received_keeps_counters(
            TcpLinkView { rx_queue: w.rx_queue.push(TcpRxByte { byte: bytes[0], peer }), ..w },
            peer,
            bytes.drop_first(),
        );
    }
}

/// Broadcasting never lets a client's queue outgrow its limit, keeps every
/// client, and gives each client with room the byte at the back of its
/// queue.
pub proof fn lemma_broadcast_respects_queue_limits(clients: Seq<(u64, Seq<u8>)>, byte: u8, i: int)
    requires
        0 <= i < clients.len(),
        clients[i].1.len() <= CLIENT_TX_QUEUE_LIMIT,
    ensures
        spec_broadcast_clients(clients, byte).len() == clients.len(),
        spec_broadcast_clients(clients, byte)[i].0 == clients[i].0,
        spec_broadcast_clients(clients, byte)[i].1.len() <= CLIENT_TX_QUEUE_LIMIT,
        clients[i].1.len() < CLIENT_TX_QUEUE_LIMIT ==> spec_broadcast_clients(clients, byte)[i].1 == clients[i].1.push(
            byte,
        ),
{
}

} // verus!
