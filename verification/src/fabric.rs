//! Typed broadcast channels: the publish/subscribe fabric between
//! tasks.
//!
//! A channel carries one category of event.  Every subscriber owns an
//! independent bounded queue; a publish delivers a copy of the value to
//! each of them, dropping that subscriber's oldest unread entry when
//! its queue is full, so a publisher never blocks on a subscriber that
//! is gone.  Within one channel, each subscriber sees values in publish
//! order; a subscriber registered after a publish does not see it.

use vstd::prelude::*;

use crate::state::{ApplicationDataChange, ApplicationStateChange, NetworkStateChange, WindData};

verus! {

/// A value that a channel can deliver: one that can hand each
/// subscriber its own equal copy.
pub trait EventValue: Sized {
    /// An independent copy, equal to the original.
    fn duplicate(&self) -> (r: Self)
        ensures
            r == *self,
    ;
}

impl EventValue for WindData {
    fn duplicate(&self) -> (r: Self)
        ensures
            r == *self,
    {
        *self
    }
}

impl EventValue for NetworkStateChange {
    fn duplicate(&self) -> (r: Self)
        ensures
            r == *self,
    {
        *self
    }
}

impl EventValue for ApplicationDataChange {
    fn duplicate(&self) -> (r: Self)
        ensures
            r == *self,
    {
        *self
    }
}

impl EventValue for ApplicationStateChange {
    fn duplicate(&self) -> (r: Self)
        ensures
            r == *self,
    {
        match self {
            ApplicationStateChange::OTAUpdateRequest(url) => ApplicationStateChange::OTAUpdateRequest(
                url.clone(),
            ),
            ApplicationStateChange::OTAUpdateStarted => ApplicationStateChange::OTAUpdateStarted,
        }
    }
}

/// What one publish does to one subscriber queue of depth `cap`:
/// append, dropping the oldest unread entry if the queue is full.
pub open spec fn delivered<T>(q: Seq<T>, cap: int, v: T) -> Seq<T> {
    if q.len() < cap {
        q.push(v)
    } else {
        q.skip(1).push(v)
    }
}

/// Per-subscriber delivery order: a delivery appends the published
/// value — it is the last the subscriber will take — keeps the queue
/// within its depth, and keeps every value already queued (except a
/// dropped oldest one) in its order ahead of the new value.
pub proof fn lemma_delivered_order<T>(q: Seq<T>, cap: int, v: T)
    requires
        cap >= 1,
        q.len() <= cap,
    ensures
        delivered(q, cap, v).last() == v,
        delivered(q, cap, v).len() <= cap,
        forall|k: int|
            0 <= k < delivered(q, cap, v).len() - 1 ==> #[trigger] delivered(q, cap, v)[k] == (
            if q.len() < cap {
                q[k]
            } else {
                q[k + 1]
            }),
{
}

/// One typed broadcast channel: an independent bounded queue per
/// subscriber.
pub struct Channel<T> {
    queues: Vec<Vec<T>>,
    capacity: usize,
}

impl<T: EventValue> Channel<T> {
    /// The queues of all subscribers, in registration order; each queue
    /// holds its undelivered values, oldest first.
    pub closed spec fn sub_queues(&self) -> Seq<Seq<T>> {
        self.queues@.map_values(|q: Vec<T>| q@)
    }

    /// The depth bound of each subscriber queue.
    pub closed spec fn capacity(&self) -> int {
        self.capacity as int
    }

    /// Every subscriber queue stays within the depth bound.
    pub closed spec fn wf(&self) -> bool {
        &&& self.capacity >= 1
        &&& forall|i: int|
            0 <= i < self.queues@.len() ==> (#[trigger] self.queues@[i])@.len()
                <= self.capacity
    }

    /// A fresh channel with the given queue depth and no subscribers.
    pub fn new(capacity: usize) -> (r: Self)
        requires
            capacity >= 1,
        ensures
            r.wf(),
            r.capacity() == capacity,
            r.sub_queues() == Seq::<Seq<T>>::empty(),
    {
        Channel { queues: Vec::new(), capacity }
    }

    /// Register a new independent subscriber; its queue starts empty,
    /// so it receives nothing that was published before.  Returns the
    /// subscriber's id.
    pub fn subscribe(&mut self) -> (id: usize)
        requires
            old(self).wf(),
        ensures
            final(self).wf(),
            final(self).capacity() == old(self).capacity(),
            id == old(self).sub_queues().len(),
            final(self).sub_queues() == old(self).sub_queues().push(Seq::<T>::empty()),
    {
        let id = self.queues.len();
        self.queues.push(Vec::new());
        proof {
            assert(final(self).sub_queues() =~= old(self).sub_queues().push(Seq::<T>::empty()));
        }
        id
    }

    /// Deliver a copy of `v` to every current subscriber's queue,
    /// dropping a subscriber's oldest unread entry when its queue is
    /// full: every queue ends with `v`.
    pub fn publish(&mut self, v: &T)
        requires
            old(self).wf(),
        ensures
            final(self).wf(),
            final(self).capacity() == old(self).capacity(),
            final(self).sub_queues().len() == old(self).sub_queues().len(),
            forall|i: int|
                0 <= i < old(self).sub_queues().len() ==> #[trigger] final(self).sub_queues()[i]
                    == delivered(old(self).sub_queues()[i], old(self).capacity(), *v),
            forall|i: int|
                0 <= i < old(self).sub_queues().len()
                    ==> (#[trigger] final(self).sub_queues()[i]).last() == *v,
    {
        let n = self.queues.len();
        let mut i: usize = 0;
        while i < n
            invariant
                n == self.queues@.len(),
                i <= n,
                self.capacity == old(self).capacity,
                self.capacity >= 1,
                forall|j: int|
                    0 <= j < n ==> (#[trigger] self.queues@[j])@.len() <= self.capacity,
                forall|j: int|
                    i <= j < n ==> #[trigger] self.queues@[j]@ == old(self).sub_queues()[j],
                forall|j: int|
                    0 <= j < i ==> #[trigger] self.queues@[j]@ == delivered(
                        old(self).sub_queues()[j],
                        old(self).capacity(),
                        *v,
                    ),
            decreases n - i,
        {
            let mut q = self.queues.remove(i);
            if q.len() >= self.capacity {
                q.remove(0);
                proof {
                    assert(q@ =~= old(self).sub_queues()[i as int].skip(1));
                }
            }
            q.push(v.duplicate());
            self.queues.insert(i, q);
            i = i + 1;
        }
        proof {
            assert forall|j: int| 0 <= j < old(self).sub_queues().len() implies #[trigger]
                final(self).sub_queues()[j] == delivered(
                old(self).sub_queues()[j],
                old(self).capacity(),
                *v,
            ) by {
                assert(self.queues@[j]@ == delivered(
                    old(self).sub_queues()[j],
                    old(self).capacity(),
                    *v,
                ));
            }
        }
    }

    /// Take the next undelivered value of subscriber `id`, oldest
    /// first; `None` when its queue is empty.  This is where a task
    /// suspends while waiting.
    pub fn next(&mut self, id: usize) -> (r: Option<T>)
        requires
            old(self).wf(),
            id < old(self).sub_queues().len(),
        ensures
            final(self).wf(),
            final(self).capacity() == old(self).capacity(),
            final(self).sub_queues().len() == old(self).sub_queues().len(),
            forall|j: int|
                0 <= j < old(self).sub_queues().len() && j != id
                    ==> #[trigger] final(self).sub_queues()[j] == old(self).sub_queues()[j],
            if old(self).sub_queues()[id as int].len() > 0 {
                &&& r == Some(old(self).sub_queues()[id as int][0])
                &&& final(self).sub_queues()[id as int] == old(self).sub_queues()[id as int].skip(
                    1,
                )
            } else {
                r is None && final(self).sub_queues()[id as int] == old(self).sub_queues()[
                    id as int
                ]
            },
    {
        let mut q = self.queues.remove(id);
        let r = if q.len() > 0 {
            let v = q.remove(0);
            proof {
                assert(q@ =~= old(self).sub_queues()[id as int].skip(1));
            }
            Some(v)
        } else {
            None
        };
        self.queues.insert(id, q);
        proof {
            assert forall|j: int|
                0 <= j < old(self).sub_queues().len() && j != id implies #[trigger]
                final(self).sub_queues()[j] == old(self).sub_queues()[j] by {}
        }
        r
    }

    /// How many subscribers are registered.
    pub fn subscriber_count(&self) -> (r: usize)
        ensures
            r == self.sub_queues().len(),
    {
        self.queues.len()
    }
}

} // verus!
