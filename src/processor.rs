//! The dispatch loop: the single consumer of the job queue. It starts queued
//! jobs one at a time in the order they were enqueued, steps the running job
//! through its executor, and hands each job's outcome, with the job's reply
//! sender, back exactly once.

use crate::executor::{
    advance, advances, begin_evm, begin_substrate, evm_start, rank, substrate_start, Progress,
    Request, Response, Stage,
};
use crate::types::{ErrorKind, Transaction, TxResult};
use std::collections::VecDeque;
use vstd::prelude::*;

verus! {

/// The client handles of a running job.
pub enum Handles<E, S, K> {
    Evm(E),
    Substrate(S, K),
}

/// A job taken off the queue.
struct Running<E, S, K, R> {
    handles: Handles<E, S, K>,
    stage: Stage,
    result_sender: R,
}

/// What the loop asks of its driver after a response.
pub enum Step<R> {
    /// Make this call with the running job's handles.
    Call(Request),
    /// The job is over: send the outcome through the sender.
    Reply(R, Result<TxResult, ErrorKind>),
}

/// An entry of the loop's history; jobs are numbered from 0 in the order
/// they were enqueued.
pub enum Record {
    Started(nat),
    Replied(nat),
}

/// The history of a loop that has started `started` jobs: each job's start
/// followed by its reply, one job after the other, the last one still
/// unanswered when `running`.
pub open spec fn serial_history(started: nat, running: bool) -> Seq<Record> {
    let len: int = if running {
        2 * started as int - 1
    } else {
        2 * started as int
    };
    Seq::new(
        len as nat,
        |k: int|
            if k % 2 == 0 {
                Record::Started((k / 2) as nat)
            } else {
                Record::Replied((k / 2) as nat)
            },
    )
}

/// The first stage and call of a job.
pub open spec fn job_start<E, S, K, R>(t: Transaction<E, S, K, R>) -> (Stage, Request) {
    match t {
        Transaction::Evm { to, amount, token_address, .. } => evm_start(to, amount, token_address),
        Transaction::Substrate { to, amount, asset_id, .. } => substrate_start(to, amount, asset_id),
    }
}

/// The client handles that a job carries.
pub open spec fn job_handles<E, S, K, R>(t: Transaction<E, S, K, R>) -> Handles<E, S, K> {
    match t {
        Transaction::Evm { provider, .. } => Handles::Evm(provider),
        Transaction::Substrate { api, signer, .. } => Handles::Substrate(api, signer),
    }
}

/// The reply sender that a job carries.
pub open spec fn job_sender<E, S, K, R>(t: Transaction<E, S, K, R>) -> R {
    match t {
        Transaction::Evm { result_sender, .. } => result_sender,
        Transaction::Substrate { result_sender, .. } => result_sender,
    }
}

/// The job queue and its single consumer.
pub struct TransactionProcessingSystem<E, S, K, R> {
    queue: VecDeque<Transaction<E, S, K, R>>,
    current: Option<Running<E, S, K, R>>,
    started: Ghost<nat>,
    history: Ghost<Seq<Record>>,
}

impl<E, S, K, R> TransactionProcessingSystem<E, S, K, R> {
    /// The jobs waiting, oldest first.
    pub closed spec fn queued(&self) -> Seq<Transaction<E, S, K, R>> {
        self.queue@
    }

    /// How many jobs have been taken off the queue.
    pub closed spec fn started(&self) -> nat {
        self.started@
    }

    /// Whether a job is running.
    pub closed spec fn running(&self) -> bool {
        self.current is Some
    }

    /// The stage of the running job.
    pub closed spec fn stage(&self) -> Stage {
        self.current->0.stage
    }

    /// The handles of the running job.
    pub closed spec fn current_handles(&self) -> Handles<E, S, K> {
        self.current->0.handles
    }

    /// The reply sender of the running job.
    pub closed spec fn sender(&self) -> R {
        self.current->0.result_sender
    }

    /// Starts and replies so far, in order.
    pub closed spec fn history(&self) -> Seq<Record> {
        self.history@
    }

    /// A bound on the loop steps still needed to reply to every job held: a
    /// `start_next` that starts a job or an `on_response` lowers it, and it
    /// is zero only when no job runs or waits.
    pub open spec fn pending_work(&self) -> nat {
        (if self.running() {
            rank(self.stage()) + 1
        } else {
            0nat
        }) + 6 * self.queued().len()
    }

    /// The history is that of one job after the other, and a running job
    /// is the last one started.
    pub closed spec fn wf(&self) -> bool {
        &&& self.current is Some ==> self.started@ > 0
        &&& self.history@ == serial_history(self.started@, self.current is Some)
    }

    /// An empty queue with no job running.
    pub fn new() -> (r: Self)
        ensures
            r.wf(),
            r.queued() == Seq::<Transaction<E, S, K, R>>::empty(),
            r.started() == 0,
            !r.running(),
            r.history() == Seq::<Record>::empty(),
    {
        let r = TransactionProcessingSystem {
            queue: VecDeque::new(),
            current: None,
            started: Ghost(0),
            history: Ghost(Seq::empty()),
        };
        assert(r.history@ =~= serial_history(0, false));
        r
    }

    /// Adds a job at the back of the queue. It will be job number
    /// `started() + queued().len()` of the history.
    pub fn enqueue(&mut self, job: Transaction<E, S, K, R>)
        requires
            old(self).wf(),
        ensures
            final(self).wf(),
            final(self).queued() == old(self).queued().push(job),
            final(self).started() == old(self).started(),
            final(self).running() == old(self).running(),
            final(self).stage() == old(self).stage(),
            final(self).current_handles() == old(self).current_handles(),
            final(self).sender() == old(self).sender(),
            final(self).history() == old(self).history(),
    {
        self.queue.push_back(job);
    }

    /// Whether a job is running.
    pub fn is_running(&self) -> (r: bool)
        ensures
            r == self.running(),
    {
        self.current.is_some()
    }

    /// How many jobs wait.
    pub fn queue_len(&self) -> (r: usize)
        ensures
            r == self.queued().len(),
    {
        self.queue.len()
    }

    /// The handles of the running job, through which its calls are made.
    pub fn handles(&self) -> (r: Option<&Handles<E, S, K>>)
        ensures
            r is Some == self.running(),
            r matches Some(h) ==> *h == self.current_handles(),
    {
        match &self.current {
            Some(run) => Some(&run.handles),
            None => None,
        }
    }

    /// Takes the oldest job off the queue and returns its first call. Does
    /// nothing, and returns `None`, while a job runs or when none waits.
    pub fn start_next(&mut self) -> (r: Option<Request>)
        requires
            old(self).wf(),
        ensures
            final(self).wf(),
            r is Some <==> !old(self).running() && old(self).queued().len() > 0,
            r is None ==> {
                &&& final(self).queued() == old(self).queued()
                &&& final(self).started() == old(self).started()
                &&& final(self).running() == old(self).running()
                &&& final(self).stage() == old(self).stage()
                &&& final(self).current_handles() == old(self).current_handles()
                &&& final(self).sender() == old(self).sender()
                &&& final(self).history() == old(self).history()
            },
            r matches Some(req) ==> {
                let job = old(self).queued()[0];
                &&& final(self).pending_work() < old(self).pending_work()
                &&& final(self).queued() == old(self).queued().drop_first()
                &&& final(self).started() == old(self).started() + 1
                &&& final(self).running()
                &&& (final(self).stage(), req) == job_start(job)
                &&& final(self).current_handles() == job_handles(job)
                &&& final(self).sender() == job_sender(job)
                &&& final(self).history() == old(self).history().push(
                    Record::Started(old(self).started()),
                )
            },
    {
        if self.current.is_some() {
            return None;
        }
        let job = match self.queue.pop_front() {
            Some(job) => job,
            None => return None,
        };
        let (running, req) = match job {
            Transaction::Evm { provider, to, amount, token_address, result_sender } => {
                let (stage, req) = begin_evm(to, amount, token_address);
                (Running { handles: Handles::Evm(provider), stage, result_sender }, req)
            },
            Transaction::Substrate { api, to, amount, asset_id, signer, result_sender } => {
                let (stage, req) = begin_substrate(to, amount, asset_id);
                (Running { handles: Handles::Substrate(api, signer), stage, result_sender }, req)
            },
        };
        self.current = Some(running);
        let ghost n = self.started@;
        self.history = Ghost(self.history@.push(Record::Started(n)));
        self.started = Ghost(n + 1);
        assert(self.history@ =~= serial_history(n + 1, true));
        Some(req)
    }

    /// Takes the response to the running job's pending call. Either the job
    /// goes on with a further call, or it is over: the loop is then idle, and
    /// the outcome leaves with the job's reply sender, whatever becomes of
    /// its delivery.
    pub fn on_response(&mut self, resp: Response) -> (r: Step<R>)
        requires
            old(self).wf(),
            old(self).running(),
        ensures
            final(self).wf(),
            final(self).queued() == old(self).queued(),
            final(self).started() == old(self).started(),
            final(self).pending_work() < old(self).pending_work(),
            match r {
                Step::Call(req) => {
                    &&& final(self).running()
                    &&& advances(old(self).stage(), resp, Progress::Call(final(self).stage(), req))
                    &&& rank(final(self).stage()) < rank(old(self).stage())
                    &&& final(self).current_handles() == old(self).current_handles()
                    &&& final(self).sender() == old(self).sender()
                    &&& final(self).history() == old(self).history()
                },
                Step::Reply(sender, outcome) => {
                    &&& !final(self).running()
                    &&& advances(old(self).stage(), resp, Progress::Done(outcome))
                    &&& sender == old(self).sender()
                    &&& final(self).history() == old(self).history().push(
                        Record::Replied((old(self).started() - 1) as nat),
                    )
                },
            },
    {
        let run = self.current.take().unwrap();
        let Running { handles, stage, result_sender } = run;
        match advance(stage, resp) {
            Progress::Call(next, req) => {
                self.current = Some(Running { handles, stage: next, result_sender });
                Step::Call(req)
            },
            Progress::Done(outcome) => {
                let ghost n = self.started@;
                self.history = Ghost(self.history@.push(Record::Replied((n - 1) as nat)));
                assert(self.history@ =~= serial_history(n, false));
                Step::Reply(result_sender, outcome)
            },
        }
    }
}

/// Each job is replied to at most once, and started at most once: no record
/// occurs twice in the history. Every job started before the running one has
/// been replied to, and the running one not yet.
pub proof fn lemma_one_reply_per_job<E, S, K, R>(sys: &TransactionProcessingSystem<E, S, K, R>)
    requires
        sys.wf(),
    ensures
        sys.history().no_duplicates(),
        forall|id: nat|
            #![trigger sys.history().contains(Record::Replied(id))]
            id < sys.started() && !(sys.running() && id + 1 == sys.started())
                ==> sys.history().contains(Record::Replied(id)),
        sys.running() ==> !sys.history().contains(
            Record::Replied((sys.started() - 1) as nat),
        ),
{
    let h = sys.history();
    assert forall|i: int, j: int| 0 <= i < h.len() && 0 <= j < h.len() && i != j implies h[i]
        != h[j] by {}
    assert forall|id: nat|
        #![trigger sys.history().contains(Record::Replied(id))]
        id < sys.started() && !(sys.running() && id + 1 == sys.started()) implies h.contains(
        Record::Replied(id),
    ) by {
        assert(h[2 * id as int + 1] == Record::Replied(id));
    }
    if sys.running() {
        let last = (sys.started() - 1) as nat;
        assert forall|i: int| 0 <= i < h.len() implies h[i] != Record::Replied(last) by {}
    }
}

/// Every enqueued job gets exactly one reply. While work is pending a step is
/// available: `start_next` when no job runs, `on_response` when one does, and
/// each lowers `pending_work`. Once none is left, no job waits or runs, and
/// every job taken off the queue, which is every job enqueued, has exactly one
/// reply in the history.
pub proof fn lemma_every_job_replied<E, S, K, R>(sys: &TransactionProcessingSystem<E, S, K, R>)
    requires
        sys.wf(),
    ensures
        sys.pending_work() > 0 ==> sys.running() || sys.queued().len() > 0,
        sys.pending_work() == 0 ==> {
            &&& !sys.running()
            &&& sys.queued().len() == 0
            &&& sys.history().no_duplicates()
            &&& forall|id: nat|
                #![trigger sys.history().contains(Record::Replied(id))]
                id < sys.started() ==> sys.history().contains(Record::Replied(id))
        },
{
    lemma_one_reply_per_job(sys);
}

/// Jobs run one after the other in the order they were enqueued: when job `b`
/// has started, every earlier job `a` has been started and replied to, and
/// both records of `a` come before the start of `b`.
pub proof fn lemma_serial_order<E, S, K, R>(
    sys: &TransactionProcessingSystem<E, S, K, R>,
    a: nat,
    b: nat,
)
    requires
        sys.wf(),
        a < b < sys.started(),
    ensures
        sys.history().contains(Record::Started(a)),
        sys.history().contains(Record::Replied(a)),
        forall|i: int, j: int|
            0 <= i < sys.history().len() && 0 <= j < sys.history().len() && sys.history()[i]
                == Record::Started(b) && (sys.history()[j] == Record::Started(a)
                || sys.history()[j] == Record::Replied(a)) ==> j < i,
{
    let h = sys.history();
    assert(h[2 * a as int] == Record::Started(a));
    assert(h[2 * a as int + 1] == Record::Replied(a));
}

} // verus!
