use vstd::prelude::*;

use crate::config::ThreadConfig;

verus! {

/// The watch daemon's state: the watched threads and the one the next
/// poll hits. The daemon itself is a loop the caller runs: it asks
/// which thread to poll, performs the request, and records the poll
/// here; every decision lives in these two functions.
#[derive(Debug)]
pub struct WatchState {
    pub threads: Vec<ThreadConfig>,
    pub next: usize,
}

impl WatchState {
    /// At least one thread is watched and the cursor points at one.
    pub open spec fn wf(self) -> bool {
        &&& self.threads@.len() > 0
        &&& self.next < self.threads@.len()
    }

    /// Start watching a non-empty list of threads, from its first.
    pub fn new(threads: Vec<ThreadConfig>) -> (r: WatchState)
        requires
            threads@.len() > 0,
        ensures
            r.wf(),
            r.threads == threads,
            r.next == 0,
    {
        WatchState { threads, next: 0 }
    }

    /// Which thread to poll now, and the stamp, in epoch seconds, to
    /// condition the poll on (the moment that thread was last polled).
    pub fn next_poll(&self) -> (r: (usize, i64))
        requires
            self.wf(),
        ensures
            r.0 == self.next,
            r.1 == self.threads@[self.next as int].last_modified,
    {
        (self.next, self.threads[self.next].last_modified)
    }

    /// Record that the thread under the cursor was polled at `now`:
    /// its stamp becomes `now`, everything else stays, the cursor
    /// advances cyclically, and the caller is told how many seconds to
    /// pause before the next poll — one second between threads, plus
    /// twenty more after each full round.
    pub fn record_poll(&mut self, now: i64) -> (pause: u64)
        requires
            old(self).wf(),
        ensures
            ({
                let t_old = old(self).threads@;
                let j = old(self).next as int;
                &&& final(self).wf()
                &&& final(self).threads@.len() == t_old.len()
                &&& forall|i: int|
                    0 <= i < t_old.len() && i != j ==> final(self).threads@[i] == t_old[i]
                &&& final(self).threads@[j].board == t_old[j].board
                &&& final(self).threads@[j].id == t_old[j].id
                &&& final(self).threads@[j].name == t_old[j].name
                &&& final(self).threads@[j].last_modified == now
                &&& final(self).next == if j + 1 == t_old.len() {
                    0int
                } else {
                    j + 1
                }
                &&& pause == if j + 1 == t_old.len() {
                    21u64
                } else {
                    1u64
                }
            }),
    {
        let i: usize = self.next;
        let mut polled = self.threads.remove(i);
        polled.last_modified = now;
        self.threads.insert(i, polled);
        let len: usize = self.threads.len();
        proof {
            assert(self.threads@.len() == old(self).threads@.len());
            assert(i < len);
        }
        if i + 1 == len {
            self.next = 0;
            21
        } else {
            self.next = i + 1;
            1
        }
    }
}

} // verus!
