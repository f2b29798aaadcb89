use std::collections::VecDeque;
use vstd::prelude::*;

verus! {

/// The ready set of an executor, as a mathematical value. Tasks are named
/// by the index they were spawned with.
pub struct ReadyModel {
    /// Tasks waiting to be advanced, in the order they became ready.
    pub queue: Seq<usize>,
    /// Whether each task is in `queue`.
    pub queued: Seq<bool>,
    /// Whether each task's future is still running.
    pub live: Seq<bool>,
}

/// The ready set after a wake of `task`: a live task that is not already
/// queued joins the back of the queue; any other wake changes nothing.
pub open spec fn woken(m: ReadyModel, task: usize) -> ReadyModel {
    if m.live[task as int] && !m.queued[task as int] {
        ReadyModel {
            queue: m.queue.push(task),
            queued: m.queued.update(task as int, true),
            live: m.live,
        }
    } else {
        m
    }
}

/// The tasks of an executor and which of them are ready to be advanced.
pub struct ReadyQueue {
    queue: VecDeque<usize>,
    queued: Vec<bool>,
    live: Vec<bool>,
}

impl View for ReadyQueue {
    type V = ReadyModel;

    closed spec fn view(&self) -> ReadyModel {
        ReadyModel { queue: self.queue@, queued: self.queued@, live: self.live@ }
    }
}

/// The model's queue holds each task at most once, and exactly the tasks
/// marked as queued.
pub open spec fn ready_wf(m: ReadyModel) -> bool {
    &&& m.queued.len() == m.live.len()
    &&& m.queued.len() <= usize::MAX
    &&& forall|i: int| 0 <= i < m.queue.len() ==> (#[trigger] m.queue[i]) < m.queued.len() && m.queued[m.queue[i] as int]
    &&& forall|i: int, j: int| 0 <= i < j < m.queue.len() ==> m.queue[i] != m.queue[j]
    &&& forall|t: int| 0 <= t < m.queued.len() && #[trigger] m.queued[t] ==> m.queue.contains(t as usize)
}

/// Law: waking a task twice before it is advanced has the effect of waking
/// it once.
pub proof fn lemma_wake_idempotent(m: ReadyModel, task: usize)
    requires
        ready_wf(m),
        task < m.live.len(),
    ensures
        woken(woken(m, task), task) == woken(m, task),
{
}

impl ReadyQueue {
    pub open spec fn wf(&self) -> bool {
        ready_wf(self@)
    }

    pub fn new() -> (q: ReadyQueue)
        ensures
            q.wf(),
            q@ == (ReadyModel { queue: Seq::empty(), queued: Seq::empty(), live: Seq::empty() }),
    {
        ReadyQueue { queue: VecDeque::new(), queued: Vec::new(), live: Vec::new() }
    }

    /// Number of tasks spawned so far.
    pub fn task_count(&self) -> (r: usize)
        ensures
            r == self@.live.len(),
    {
        self.live.len()
    }

    /// Adds a task, ready at once, and returns its index. The spawner gets
    /// nothing else back.
    pub fn spawn(&mut self) -> (task: usize)
        requires
            old(self).wf(),
            old(self)@.live.len() < usize::MAX,
        ensures
            final(self).wf(),
            task == old(self)@.live.len(),
            final(self)@ == (ReadyModel {
                queue: old(self)@.queue.push(task),
                queued: old(self)@.queued.push(true),
                live: old(self)@.live.push(true),
            }),
    {
        let task = self.live.len();
        self.queue.push_back(task);
        self.queued.push(true);
        self.live.push(true);
        proof {
            let m = self@;
            assert(m.queue[m.queue.len() - 1] == task);
            assert forall|t: int| 0 <= t < m.queued.len() && #[trigger] m.queued[t] implies m.queue.contains(t as usize) by {
                if t < task {
                    let k = choose|k: int| 0 <= k < old(self)@.queue.len() && old(self)@.queue[k] == t as usize;
                    assert(m.queue[k] == t as usize);
                } else {
                    assert(m.queue[m.queue.len() - 1] == t as usize);
                }
            }
        }
        task
    }

    /// Marks `task` ready to be advanced again.
    pub fn wake(&mut self, task: usize)
        requires
            old(self).wf(),
            task < old(self)@.live.len(),
        ensures
            final(self).wf(),
            final(self)@ == woken(old(self)@, task),
    {
        if self.live[task] && !self.queued[task] {
            self.queue.push_back(task);
            self.queued.set(task, true);
            proof {
                let m = self@;
                let o = old(self)@;
                assert(m.queue == o.queue.push(task));
                assert forall|i: int| 0 <= i < m.queue.len() implies (#[trigger] m.queue[i]) < m.queued.len() && m.queued[m.queue[i] as int] by {
                    if i < o.queue.len() {
                        assert(o.queue[i] == m.queue[i]);
                    }
                }
                assert forall|i: int, j: int| 0 <= i < j < m.queue.len() implies m.queue[i] != m.queue[j] by {
                    if j == o.queue.len() {
                        assert(o.queued[o.queue[i] as int]);
                    }
                }
                assert forall|t: int| 0 <= t < m.queued.len() && #[trigger] m.queued[t] implies m.queue.contains(t as usize) by {
                    if t == task as int {
                        assert(m.queue[m.queue.len() - 1] == task);
                    } else {
                        assert(o.queued[t]);
                        let k = choose|k: int| 0 <= k < o.queue.len() && o.queue[k] == t as usize;
                        assert(m.queue[k] == t as usize);
                    }
                }
            }
        }
    }

    /// Takes the task that became ready first; it is not in the ready set
    /// until woken again, so no two workers hold it at once.
    pub fn next(&mut self) -> (r: Option<usize>)
        requires
            old(self).wf(),
        ensures
            final(self).wf(),
            old(self)@.queue.len() == 0 ==> r is None && final(self)@ == old(self)@,
            old(self)@.queue.len() > 0 ==> r == Some(old(self)@.queue[0]) && final(self)@ == (
            ReadyModel {
                queue: old(self)@.queue.drop_first(),
                queued: old(self)@.queued.update(old(self)@.queue[0] as int, false),
                live: old(self)@.live,
            }),
    {
        match self.queue.pop_front() {
            None => None,
            Some(task) => {
                proof {
                    let o = old(self)@;
                    assert(o.queue[0] == task);
                    assert(o.queue[0] < o.queued.len());
                }
                self.queued.set(task, false);
                proof {
                    let m = self@;
                    let o = old(self)@;
                    assert forall|i: int| 0 <= i < m.queue.len() implies (#[trigger] m.queue[i]) < m.queued.len() && m.queued[m.queue[i] as int] by {
                        assert(m.queue[i] == o.queue[i + 1]);
                        assert(o.queue[0] != o.queue[i + 1]);
                    }
                    assert forall|i: int, j: int| 0 <= i < j < m.queue.len() implies m.queue[i] != m.queue[j] by {
                        assert(m.queue[i] == o.queue[i + 1]);
                        assert(m.queue[j] == o.queue[j + 1]);
                    }
                    assert forall|t: int| 0 <= t < m.queued.len() && #[trigger] m.queued[t] implies m.queue.contains(t as usize) by {
                        assert(t != task as int);
                        assert(o.queued[t]);
                        let k = choose|k: int| 0 <= k < o.queue.len() && o.queue[k] == t as usize;
                        assert(k != 0);
                        assert(m.queue[k - 1] == t as usize);
                    }
                }
                Some(task)
            },
        }
    }

    /// Records that `task`'s future completed; later wakes of it are ignored.
    pub fn complete(&mut self, task: usize)
        requires
            old(self).wf(),
            task < old(self)@.live.len(),
        ensures
            final(self).wf(),
            final(self)@ == (ReadyModel { live: old(self)@.live.update(task as int, false), ..old(self)@ }),
    {
        self.live.set(task, false);
    }
}

} // verus!
