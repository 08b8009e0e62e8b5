//! The runtime's polling order: a round-robin over the fixed set of tasks
//! spawned at startup. Tasks are polled to completion or suspension, one at
//! a time on the single core; the round-robin guarantees that no task can
//! starve the others indefinitely, since every task is polled once in every
//! full round.

use vstd::prelude::*;

verus! {

/// Which task the k-th poll after a round-robin standing at `next` selects.
pub open spec fn polled_task(next: int, k: int, task_count: int) -> int {
    (next + k) % task_count
}

/// Round-robin poll order over a fixed, never-growing set of tasks.
pub struct RoundRobin {
    /// How many tasks were spawned; fixed at startup, never zero.
    task_count: usize,
    /// The task the next poll selects.
    next: usize,
}

impl RoundRobin {
    /// The number of tasks in the round.
    pub closed spec fn spec_task_count(&self) -> int {
        self.task_count as int
    }

    /// The task the next poll selects.
    pub closed spec fn spec_next(&self) -> int {
        self.next as int
    }

    /// At least one task, and the cursor inside the round.
    pub closed spec fn wf(&self) -> bool {
        0 < self.task_count && self.next < self.task_count
    }

    /// A scheduler over `task_count` tasks, starting at the first.
    pub fn new(task_count: usize) -> (r: Self)
        requires
            0 < task_count,
        ensures
            r.wf(),
            r.spec_task_count() == task_count,
            r.spec_next() == 0,
    {
        RoundRobin { task_count, next: 0 }
    }

    /// Selects the task to poll now and moves the cursor one step around
    /// the round.
    pub fn poll_next(&mut self) -> (task: usize)
        requires
            old(self).wf(),
        ensures
            final(self).wf(),
            final(self).spec_task_count() == old(self).spec_task_count(),
            task == old(self).spec_next(),
            task < old(self).spec_task_count(),
            final(self).spec_next() == polled_task(old(self).spec_next(), 1, old(
                self,
            ).spec_task_count()),
    {
        let task = self.next;
        self.next = if self.next + 1 == self.task_count {
            0
        } else {
            self.next + 1
        };
        proof {
            if task + 1 == self.task_count {
                assert((task + 1) % (self.task_count as int) == 0) by {
                    vstd::arithmetic::div_mod::lemma_mod_self_0(self.task_count as int);
                };
            } else {
                assert((task + 1) % (self.task_count as int) == task + 1) by {
                    vstd::arithmetic::div_mod::lemma_small_mod(
                        (task + 1) as nat,
                        self.task_count as nat,
                    );
                };
            }
        }
        task
    }
}

/// The k-th poll after the cursor stood at `next` selects task
/// `(next + k) % task_count`: polling walks the round in order.
pub proof fn lemma_poll_order(next: int, k: int, task_count: int)
    requires
        0 < task_count,
        0 <= next < task_count,
        0 <= k,
    ensures
        polled_task(polled_task(next, k, task_count), 1, task_count) == polled_task(
            next,
            k + 1,
            task_count,
        ),
{
    vstd::arithmetic::div_mod::lemma_mod_bound(next + k, task_count);
    vstd::arithmetic::div_mod::lemma_add_mod_noop(next + k, 1, task_count);
    vstd::arithmetic::div_mod::lemma_mod_twice(next + k, task_count);
    if task_count > 1 {
        vstd::arithmetic::div_mod::lemma_small_mod(1nat, task_count as nat);
    }
}

/// No starvation: whatever task the cursor stands at, every task of the
/// round is polled within the next `task_count` polls — each task exactly
/// once per full round.
pub proof fn lemma_every_task_polled_each_round(next: int, task: int, task_count: int)
    requires
        0 < task_count,
        0 <= next < task_count,
        0 <= task < task_count,
    ensures
        exists|k: int|
            0 <= k < task_count && polled_task(next, k, task_count) == task,
{
    let k = if task >= next {
        task - next
    } else {
        task - next + task_count
    };
    if task >= next {
        vstd::arithmetic::div_mod::lemma_small_mod((next + k) as nat, task_count as nat);
    } else {
        vstd::arithmetic::div_mod::lemma_mod_add_multiples_vanish(task, task_count);
        vstd::arithmetic::div_mod::lemma_small_mod(task as nat, task_count as nat);
    }
    assert(polled_task(next, k, task_count) == task);
}

} // verus!
