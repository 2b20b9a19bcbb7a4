//! The message channel: outboxes for the network collaborator and a
//! pending queue for local delivery.
//!
//! Sending is synchronous from the guest's point of view: a successful
//! send enqueues exactly one entry and returns; a failing send enqueues
//! nothing. Delivery is the collaborators' business — the reliable outbox
//! is handed to the network in order (its order guarantee holds relative
//! to other reliable sends from the same origin), the unreliable outbox
//! with no guarantee, and the local queue is distributed to module inboxes
//! at the next local dispatch opportunity.

use vstd::prelude::*;

verus! {

/// Where a message is addressed.
#[derive(Clone, Copy, Debug, PartialEq, Eq, Structural)]
pub enum MessageTarget {
    /// The authoritative peer, over the ordered, at-least-once channel.
    PeerReliable,
    /// The authoritative peer, with no ordering or delivery guarantee.
    PeerUnreliable,
    /// Every other loaded module on this host.
    LocalBroadcast,
    /// One module on this host, by id.
    LocalDirected(u64),
}

/// One send request handed to the network collaborator.
#[derive(Clone, Debug)]
pub struct NetSend {
    /// The connection the send goes out on.
    pub connection: u64,
    /// The module that sent it.
    pub origin: u64,
    /// The application-defined message name.
    pub name: String,
    /// The payload. Opaque bytes: interpretation is a contract between
    /// the sending and receiving modules alone.
    pub payload: Vec<u8>,
}

/// A locally addressed message waiting for the next dispatch opportunity.
#[derive(Clone, Debug)]
pub struct LocalQueued {
    pub origin: u64,
    /// The addressed module, or every other module if absent.
    pub target: Option<u64>,
    pub name: String,
    pub payload: Vec<u8>,
}

/// The channel state: two network outboxes and the local pending queue.
pub struct MessageChannel {
    pub reliable: Vec<NetSend>,
    pub unreliable: Vec<NetSend>,
    pub local_pending: Vec<LocalQueued>,
}

impl MessageChannel {
    /// An empty channel.
    pub fn new() -> (r: MessageChannel)
        ensures
            r.reliable@.len() == 0,
            r.unreliable@.len() == 0,
            r.local_pending@.len() == 0,
    {
        MessageChannel { reliable: Vec::new(), unreliable: Vec::new(), local_pending: Vec::new() }
    }

    /// Sends already enqueued are never reordered or dropped by the
    /// channel: later states only append. In particular, two reliable
    /// sends issued one after the other stay in issue order for the
    /// network collaborator.
    pub open spec fn extends(self, post: MessageChannel) -> bool {
        &&& self.reliable@.is_prefix_of(post.reliable@)
        &&& self.unreliable@.is_prefix_of(post.unreliable@)
    }

    /// `extends` composes across consecutive operations.
    pub proof fn lemma_extends_transitive(a: MessageChannel, b: MessageChannel, c: MessageChannel)
        requires
            a.extends(b),
            b.extends(c),
        ensures
            a.extends(c),
    {
        assert(a.reliable@.is_prefix_of(c.reliable@));
        assert(a.unreliable@.is_prefix_of(c.unreliable@));
    }
}

} // verus!
