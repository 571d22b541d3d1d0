use vstd::prelude::*;
use crate::channel::clone_sender;
use crate::stock::Transaction;
use crossbeam::channel::Sender;

verus! {

/// The channel registry: an ordered collection of outbound endpoints, one
/// per registered agent, indexed by agent identity.
///
/// Entries are only ever appended; an agent's identity is the registry's
/// length just before its endpoint was inserted. Agents receive an
/// independently owned snapshot, so registrations made after a snapshot was
/// taken are invisible to its holder.
pub struct World {
    pub senders: Vec<Sender<Transaction>>,
}

impl View for World {
    type V = Seq<Sender<Transaction>>;

    open spec fn view(&self) -> Seq<Sender<Transaction>> {
        self.senders@
    }
}

impl World {
    /// An empty registry, holding no endpoint.
    pub fn new() -> (w: World)
        ensures
            w@.len() == 0,
    {
        World { senders: Vec::new() }
    }

    /// The number of registered endpoints.
    pub fn len(&self) -> (n: usize)
        ensures
            n == self@.len(),
    {
        self.senders.len()
    }

    /// Append one endpoint and return the identity assigned to it: the
    /// registry's length just before the insertion.
    pub fn register(&mut self, endpoint: Sender<Transaction>) -> (id: i32)
        requires
            old(self)@.len() <= i32::MAX as int,
        ensures
            final(self)@ == old(self)@.push(endpoint),
            id as int == old(self)@.len(),
    {
        let id: i32 = self.senders.len() as i32;
        self.senders.push(endpoint);
        id
    }

    /// An independently owned copy of the registry as it stands now: the
    /// endpoint handles are cloned, not the queues behind them. Whatever is
    /// registered later is invisible to the holder of the copy.
    pub fn snapshot(&self) -> (w: World)
        ensures
            w@ == self@,
    {
        let mut senders: Vec<Sender<Transaction>> = Vec::new();
        let mut i: usize = 0;
        while i < self.senders.len()
            invariant
                0 <= i <= self.senders.len(),
                senders@ == self@.take(i as int),
            decreases self.senders.len() - i,
        {
            proof {
                assert(self@.take(i as int + 1) =~= self@.take(i as int).push(self@[i as int]));
            }
            senders.push(clone_sender(&self.senders[i]));
            i = i + 1;
        }
        proof {
            assert(self@.take(self.senders.len() as int) =~= self@);
        }
        World { senders }
    }
}

} // verus!
