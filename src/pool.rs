use vstd::prelude::*;
use std::collections::VecDeque;

verus! {

/// The first-in, first-out queue that a worker pool's jobs wait in. Each job is handed
/// out once, in the order of submission.
pub struct JobQueue<T> {
    pending: VecDeque<T>,
    /// Every job submitted so far, in order.
    submitted: Ghost<Seq<T>>,
    /// How many of them have been handed out.
    handed_out: Ghost<nat>,
}

/// A queue seen as its history: what was submitted, and how many of those were handed
/// out.
pub struct QueueModel<T> {
    pub submitted: Seq<T>,
    pub handed_out: nat,
}

impl<T> QueueModel<T> {
    /// The jobs still waiting, oldest first.
    pub open spec fn pending(self) -> Seq<T> {
        self.submitted.subrange(self.handed_out as int, self.submitted.len() as int)
    }

    /// The jobs handed out so far, in the order they left.
    pub open spec fn delivered(self) -> Seq<T> {
        self.submitted.subrange(0, self.handed_out as int)
    }

    pub open spec fn wf(self) -> bool {
        self.handed_out <= self.submitted.len()
    }

    /// The model after `job` is submitted.
    pub open spec fn submit(self, job: T) -> QueueModel<T> {
        QueueModel { submitted: self.submitted.push(job), handed_out: self.handed_out }
    }

    /// The model after a worker asks for a job, and what it gets.
    pub open spec fn take(self) -> (QueueModel<T>, Option<T>) {
        if self.handed_out < self.submitted.len() {
            (
                QueueModel { submitted: self.submitted, handed_out: self.handed_out + 1 },
                Some(self.submitted[self.handed_out as int]),
            )
        } else {
            (self, None)
        }
    }
}

/// One operation on a job queue: a producer submits a job, or a worker asks for one.
pub enum QueueOp<T> {
    Submit(T),
    Take,
}

/// The jobs that a sequence of operations submits, in order.
pub open spec fn submissions<T>(ops: Seq<QueueOp<T>>) -> Seq<T>
    decreases ops.len(),
{
    if ops.len() == 0 {
        Seq::empty()
    } else {
        match ops.last() {
            QueueOp::Submit(job) => submissions(ops.drop_last()).push(job),
            QueueOp::Take => submissions(ops.drop_last()),
        }
    }
}

/// Runs `ops` in order on a queue modelled by `m`: the final model, and the jobs that
/// the workers got, in the order they got them.
pub open spec fn run<T>(m: QueueModel<T>, ops: Seq<QueueOp<T>>) -> (QueueModel<T>, Seq<T>)
    decreases ops.len(),
{
    if ops.len() == 0 {
        (m, Seq::empty())
    } else {
        let (before, got) = run(m, ops.drop_last());
        match ops.last() {
            QueueOp::Submit(job) => (before.submit(job), got),
            QueueOp::Take => {
                let (after, out) = before.take();
                match out {
                    Some(job) => (after, got.push(job)),
                    None => (after, got),
                }
            },
        }
    }
}

/// However submissions and requests from workers interleave on a fresh queue, the
/// workers get the submitted jobs in order of submission, each at most once: what they
/// got is always a prefix of what was submitted, and what was submitted but not got
/// still waits. Once nothing waits, every submitted job was got exactly once.
pub proof fn law_each_job_runs_once<T>(ops: Seq<QueueOp<T>>)
    ensures
        ({
            let fresh = QueueModel { submitted: Seq::<T>::empty(), handed_out: 0 };
            let (m, got) = run(fresh, ops);
            &&& m.wf()
            &&& m.submitted == submissions(ops)
            &&& got == m.delivered()
            &&& got.len() + m.pending().len() == submissions(ops).len()
            &&& m.pending().len() == 0 ==> got == submissions(ops)
        }),
    decreases ops.len(),
{
    let fresh = QueueModel { submitted: Seq::<T>::empty(), handed_out: 0 };
    if ops.len() == 0 {
        assert(fresh.delivered() == Seq::<T>::empty());
    } else {
        law_each_job_runs_once(ops.drop_last());
        let (before, got) = run(fresh, ops.drop_last());
        match ops.last() {
            QueueOp::Submit(job) => {
                let after = before.submit(job);
                assert(after.delivered() == before.delivered());
            },
            QueueOp::Take => {
                if before.handed_out < before.submitted.len() {
                    let (after, out) = before.take();
                    assert(after.delivered() == before.delivered().push(
                        before.submitted[before.handed_out as int],
                    ));
                }
            },
        }
        let (m, g) = run(fresh, ops);
        if m.pending().len() == 0 {
            assert(g == m.submitted.subrange(0, m.submitted.len() as int));
            assert(m.submitted.subrange(0, m.submitted.len() as int) == m.submitted);
        }
    }
}

impl<T> View for JobQueue<T> {
    type V = QueueModel<T>;

    closed spec fn view(&self) -> QueueModel<T> {
        QueueModel { submitted: self.submitted@, handed_out: self.handed_out@ }
    }
}

impl<T> JobQueue<T> {
    /// The waiting jobs are exactly those submitted and not yet handed out.
    pub closed spec fn wf(&self) -> bool {
        &&& self.handed_out@ <= self.submitted@.len()
        &&& self.pending@ == self@.pending()
    }

    /// An empty queue.
    pub fn new() -> (r: JobQueue<T>)
        ensures
            r.wf(),
            r@.submitted == Seq::<T>::empty(),
            r@.handed_out == 0,
    {
        let r = JobQueue {
            pending: VecDeque::new(),
            submitted: Ghost(Seq::empty()),
            handed_out: Ghost(0),
        };
        assert(r.pending@ == r@.pending());
        r
    }

    /// Adds a job at the back.
    pub fn submit(&mut self, job: T)
        requires
            old(self).wf(),
        ensures
            final(self).wf(),
            final(self)@ == old(self)@.submit(job),
    {
        let ghost j = job;
        self.pending.push_back(job);
        self.submitted = Ghost(self.submitted@.push(j));
        assert(self.pending@ == self@.pending());
    }

    /// Hands out the oldest waiting job, or nothing when none waits.
    pub fn take(&mut self) -> (r: Option<T>)
        requires
            old(self).wf(),
        ensures
            final(self).wf(),
            (final(self)@, r) == old(self)@.take(),
    {
        let r = self.pending.pop_front();
        if r.is_some() {
            self.handed_out = Ghost(self.handed_out@ + 1);
            assert(self.pending@ == self@.pending());
        }
        r
    }

    /// How many jobs wait.
    pub fn len(&self) -> (r: usize)
        requires
            self.wf(),
        ensures
            r == self@.pending().len(),
    {
        self.pending.len()
    }
}

} // verus!
