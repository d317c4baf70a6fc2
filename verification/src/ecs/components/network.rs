// Network components: synchronisation markers, the send queue and lifetimes.

use vstd::prelude::*;
use std::collections::VecDeque;
use crate::time::now;

verus! {

/// Kinds of objects that the server sends.
#[derive(Debug, Clone, Copy, PartialEq, Eq, Structural)]
pub enum NetworkObjectType {
    /// Another player
    Player,
    NPC,
    Monster,
    /// A ground item
    Item,
    /// A spell effect
    Spell,
}

/// Marks an entity that the server keeps in sync.
#[derive(Debug, Clone)]
pub struct NetworkSync {
    /// Server object id
    pub object_id: u32,
    /// Time of the last update
    pub last_update: std::time::Instant,
    /// Object type
    pub object_type: NetworkObjectType,
}

impl NetworkSync {
    pub fn new(object_id: u32, object_type: NetworkObjectType) -> (s: Self)
        ensures
            s.object_id == object_id,
            s.object_type == object_type,
    {
        NetworkSync { object_id, last_update: now(), object_type }
    }
}

/// Messages waiting to be sent, at most `max_queue_size` of them.
#[derive(Debug, Clone)]
pub struct NetworkQueue {
    /// Pending messages, oldest first
    pub pending_messages: VecDeque<Vec<u8>>,
    /// Maximum queue length
    pub max_queue_size: usize,
}

impl NetworkQueue {
    /// The queue holds no more messages than its maximum.
    pub open spec fn wf(self) -> bool {
        self.pending_messages@.len() <= self.max_queue_size
    }

    pub fn new() -> (q: Self)
        ensures
            q.pending_messages@.len() == 0,
            q.max_queue_size == 100,
            q.wf(),
    {
        NetworkQueue { pending_messages: VecDeque::new(), max_queue_size: 100 }
    }

    /// Appends a message unless the queue is full, in which case it is dropped.
    pub fn enqueue_message(&mut self, message: Vec<u8>)
        ensures
            old(self).pending_messages@.len() < old(self).max_queue_size
                ==> final(self).pending_messages@ == old(self).pending_messages@.push(message),
            old(self).pending_messages@.len() >= old(self).max_queue_size
                ==> final(self).pending_messages@ == old(self).pending_messages@,
            final(self).max_queue_size == old(self).max_queue_size,
            old(self).wf() ==> final(self).wf(),
    {
        if self.pending_messages.len() < self.max_queue_size {
            self.pending_messages.push_back(message);
        }
    }

    /// Hands the queue to the network layer, which leaves it empty.
    pub fn process_send_queue(&mut self)
        ensures
            final(self).pending_messages@.len() == 0,
            final(self).max_queue_size == old(self).max_queue_size,
    {
        self.pending_messages.clear();
    }

    pub fn queue_size(&self) -> (n: usize)
        ensures
            n == self.pending_messages@.len(),
    {
        self.pending_messages.len()
    }
}

impl Default for NetworkQueue {
    fn default() -> (q: Self)
        ensures
            q.pending_messages@.len() == 0,
            q.max_queue_size == 100,
    {
        Self::new()
    }
}

/// Remaining lifetime of a timed entity (spell effects, drops).
#[derive(Debug, Clone, Copy)]
pub struct Lifetime {
    pub remaining_ms: u32,
}

impl Lifetime {
    pub fn new(duration_ms: u32) -> (l: Self)
        ensures
            l.remaining_ms == duration_ms,
    {
        Lifetime { remaining_ms: duration_ms }
    }

    /// Counts `delta_ms` down; returns true, with nothing left, once the time is up.
    pub fn update(&mut self, delta_ms: u32) -> (expired: bool)
        ensures
            expired == (old(self).remaining_ms <= delta_ms),
            final(self).remaining_ms == if expired {
                0
            } else {
                old(self).remaining_ms - delta_ms
            },
    {
        if self.remaining_ms > delta_ms {
            self.remaining_ms = self.remaining_ms - delta_ms;
            false
        } else {
            self.remaining_ms = 0;
            true
        }
    }
}

} // verus!
