use vstd::prelude::*;

use std::collections::VecDeque;

use crate::candidate::JoinProxyInfo;

verus! {

/// Abstract state of a discovery queue: the queued candidates, front first,
/// its capacity, and whether the producer side has closed it.
pub struct QueueView {
    pub items: Seq<JoinProxyInfo>,
    pub capacity: nat,
    pub closed: bool,
}

/// Whether a queue in state `q` takes one more candidate.
pub open spec fn accepts(q: QueueView) -> bool {
    !q.closed && q.items.len() < q.capacity
}

/// State after offering `c` to a queue in state `q`: appended at the back
/// when accepted, unchanged otherwise.
pub open spec fn after_push(q: QueueView, c: JoinProxyInfo) -> QueueView {
    if accepts(q) {
        QueueView { items: q.items.push(c), ..q }
    } else {
        q
    }
}

/// State after taking from a queue in state `q`: the front leaves, if any.
pub open spec fn after_pop(q: QueueView) -> QueueView {
    if q.items.len() > 0 {
        QueueView { items: q.items.drop_first(), ..q }
    } else {
        q
    }
}

/// What a consumer gets from a queue in state `q`.
pub open spec fn pop_result(q: QueueView) -> Dequeued {
    if q.items.len() > 0 {
        Dequeued::Item(q.items[0])
    } else if q.closed {
        Dequeued::Closed
    } else {
        Dequeued::Empty
    }
}

/// A candidate the queue refused, handed back to the producer.
#[derive(Debug)]
pub enum Refused {
    /// The queue holds `capacity` candidates already.
    Full(JoinProxyInfo),
    /// The queue was closed.
    Closed(JoinProxyInfo),
}

/// What the consumer gets from the queue.
#[derive(Debug)]
pub enum Dequeued {
    /// The oldest queued candidate.
    Item(JoinProxyInfo),
    /// Nothing queued yet; producers may still add more.
    Empty,
    /// Nothing queued and no producer left: the consumer stops.
    Closed,
}

/// A FIFO, capacity-bounded hand-off of registrar candidates from
/// producers to the single bootstrap consumer. It never reorders and never
/// drops a candidate it accepted.
#[derive(Debug)]
pub struct DiscoveryQueue {
    items: VecDeque<JoinProxyInfo>,
    capacity: usize,
    closed: bool,
}

impl View for DiscoveryQueue {
    type V = QueueView;

    closed spec fn view(&self) -> QueueView {
        QueueView { items: self.items@, capacity: self.capacity as nat, closed: self.closed }
    }
}

impl DiscoveryQueue {
    #[verifier::type_invariant]
    spec fn within_capacity(self) -> bool {
        self.items@.len() <= self.capacity
    }

    /// An open, empty queue that holds at most `capacity` candidates.
    pub fn new(capacity: usize) -> (r: DiscoveryQueue)
        ensures
            r@.items.len() == 0,
            r@.capacity == capacity,
            !r@.closed,
    {
        DiscoveryQueue { items: VecDeque::new(), capacity, closed: false }
    }

    pub fn len(&self) -> (n: usize)
        ensures
            n == self@.items.len(),
            n <= self@.capacity,
    {
        proof {
            use_type_invariant(self);
        }
        self.items.len()
    }

    pub fn capacity(&self) -> (n: usize)
        ensures
            n == self@.capacity,
    {
        self.capacity
    }

    pub fn is_closed(&self) -> (b: bool)
        ensures
            b == self@.closed,
    {
        self.closed
    }

    /// Whether a `push` now would be accepted.
    pub fn has_room(&self) -> (b: bool)
        ensures
            b == accepts(self@),
    {
        !self.closed && self.items.len() < self.capacity
    }

    /// Offers a candidate at the back. A closed or full queue refuses it and
    /// hands it back unchanged.
    pub fn push(&mut self, c: JoinProxyInfo) -> (r: Result<(), Refused>)
        ensures
            final(self)@ == after_push(old(self)@, c),
            r is Ok <==> accepts(old(self)@),
            old(self)@.closed ==> r == Err::<(), Refused>(Refused::Closed(c)),
            !old(self)@.closed && !accepts(old(self)@) ==> r == Err::<(), Refused>(
                Refused::Full(c),
            ),
    {
        proof {
            use_type_invariant(&*self);
        }
        if self.closed {
            return Err(Refused::Closed(c));
        }
        if self.items.len() >= self.capacity {
            return Err(Refused::Full(c));
        }
        let mut items = VecDeque::new();
        std::mem::swap(&mut self.items, &mut items);
        items.push_back(c);
        std::mem::swap(&mut self.items, &mut items);
        Ok(())
    }

    /// Takes the oldest candidate. An empty queue reports whether more may
    /// still come (`Empty`) or not (`Closed`).
    pub fn pop(&mut self) -> (r: Dequeued)
        ensures
            final(self)@ == after_pop(old(self)@),
            r == pop_result(old(self)@),
    {
        proof {
            use_type_invariant(&*self);
        }
        let mut items = VecDeque::new();
        std::mem::swap(&mut self.items, &mut items);
        let front = items.pop_front();
        std::mem::swap(&mut self.items, &mut items);
        match front {
            Some(c) => {
                proof {
                    assert(self.items@ =~= old(self)@.items.drop_first());
                }
                Dequeued::Item(c)
            },
            None => {
                if self.closed {
                    Dequeued::Closed
                } else {
                    Dequeued::Empty
                }
            },
        }
    }

    /// Releases the producer side: nothing more is accepted, and what is
    /// queued can still be taken.
    pub fn close(&mut self)
        ensures
            final(self)@ == (QueueView { closed: true, ..old(self)@ }),
    {
        proof {
            use_type_invariant(&*self);
        }
        self.closed = true;
    }
}

/// Accepted candidates queue up behind the earlier ones in acceptance
/// order: with room for two in an open queue, `x` then `y` are appended,
/// `x` first, and nothing before them moves.
pub proof fn lemma_push_order(q: QueueView, x: JoinProxyInfo, y: JoinProxyInfo)
    requires
        !q.closed,
        q.items.len() + 2 <= q.capacity,
    ensures
        after_push(after_push(q, x), y).items == q.items.push(x).push(y),
        after_push(after_push(q, x), y).capacity == q.capacity,
        !after_push(after_push(q, x), y).closed,
{
}

/// Candidates leave in the order they were accepted: after `x` and then
/// `y` are accepted by an empty queue, the consumer takes `x`, then `y`.
pub proof fn lemma_fifo_order(q: QueueView, x: JoinProxyInfo, y: JoinProxyInfo)
    requires
        q.items.len() == 0,
        !q.closed,
        q.capacity >= 2,
    ensures
        pop_result(after_push(after_push(q, x), y)) == Dequeued::Item(x),
        pop_result(after_pop(after_push(after_push(q, x), y))) == Dequeued::Item(y),
        after_pop(after_pop(after_push(after_push(q, x), y))).items.len() == 0,
{
    let q2 = after_push(after_push(q, x), y);
    assert(q2.items =~= seq![x, y]);
    assert(after_pop(q2).items =~= seq![y]);
}

} // verus!
