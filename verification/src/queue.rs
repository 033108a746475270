//! Virtqueues, as far as the control path of a device knows them.

use vstd::prelude::*;

verus! {

/// A virtqueue: where the guest has put its rings, and whether they may be used.
#[derive(Debug, Clone, Copy, PartialEq, Eq)]
pub struct Queue {
    /// The maximal size in elements offered by the device.
    pub max_size: u16,
    /// Indicates if the queue is finished with configuration.
    pub ready: bool,
    /// Guest physical address of the descriptor table.
    pub desc_table: u64,
    /// Guest physical address of the available ring.
    pub avail_ring: u64,
    /// Guest physical address of the used ring.
    pub used_ring: u64,
}

impl Queue {
    /// A queue that is not configured yet.
    pub open spec fn fresh(max_size: u16) -> Queue {
        Queue { max_size, ready: false, desc_table: 0, avail_ring: 0, used_ring: 0 }
    }

    /// Constructs an empty virtqueue with the given `max_size`.
    pub fn new(max_size: u16) -> (r: Queue)
        ensures
            r == Queue::fresh(max_size),
    {
        Queue { max_size, ready: false, desc_table: 0, avail_ring: 0, used_ring: 0 }
    }

    /// Resets the queue to the state in which it was made.
    pub fn reset(&mut self)
        ensures
            *final(self) == Queue::fresh(old(self).max_size),
    {
        *self = Queue::new(self.max_size);
    }
}

/// A queue that is not configured is not ready, and has no addresses.
pub proof fn law_fresh_queue_is_not_ready(max_size: u16)
    ensures
        !Queue::fresh(max_size).ready,
        Queue::fresh(max_size).max_size == max_size,
        Queue::fresh(max_size).desc_table == 0,
        Queue::fresh(max_size).avail_ring == 0,
        Queue::fresh(max_size).used_ring == 0,
{
}

} // verus!
