//! The job registry and scheduler: handler name to registration, the
//! admission of triggers under each block strategy, and the resolution of
//! completed runs, including the one-at-a-time drain of the block queue.
//!
//! The scheduler performs no I/O. Each operation returns what must happen
//! next (a run to start, reports to send), and the caller carries it out
//! and hands completions back.
use vstd::prelude::*;
use crate::admin::callback;
use crate::enum_type::ExecutorBlockStrategy;
use crate::handler::{
    discard_message, failure_code, queue_evicted, queue_push, JobContext, JobHandlerValue,
    BLOCK_QUEUE_CAPACITY,
};
use crate::model::{CallbackParam, XxlError, FAIL_CODE, SUCCESS_CODE};
use crate::text::str_eq;

verus! {

/// The state of one registration, as plain values.
pub struct HandlerState {
    pub handler: u64,
    pub is_running: bool,
    pub last_run_id: u64,
    pub last_job_id: u64,
    pub queue: Seq<JobContext>,
}

impl View for JobHandlerValue {
    type V = HandlerState;

    open spec fn view(&self) -> HandlerState {
        HandlerState {
            handler: self.handler,
            is_running: self.is_running,
            last_run_id: self.last_run_id,
            last_job_id: self.last_job_id,
            queue: self.block_jobs@,
        }
    }
}

/// A registration that has just started the run of `ctx`.
pub open spec fn started(v: HandlerState, ctx: JobContext) -> HandlerState {
    HandlerState { is_running: true, last_run_id: ctx.log_id, last_job_id: ctx.job_id, ..v }
}

/// A registration after the run with `log_id` finished: only the most
/// recently started run clears the running flag.
pub open spec fn finished(v: HandlerState, log_id: u64) -> HandlerState {
    if v.last_run_id == log_id {
        HandlerState { is_running: false, last_run_id: 0, ..v }
    } else {
        v
    }
}

/// A registration after a finished run, having started its oldest queued
/// trigger if there is one.
pub open spec fn after_completion(v: HandlerState, log_id: u64) -> HandlerState {
    let c = finished(v, log_id);
    if c.queue.len() == 0 {
        c
    } else {
        started(HandlerState { queue: c.queue.drop_first(), ..c }, c.queue[0])
    }
}

/// Whether a trigger arriving at `v` is held back by a running handler
/// under a strategy that does not overlap runs.
pub open spec fn blocks(v: HandlerState, ctx: JobContext) -> bool {
    v.is_running && (ctx.block_strategy == ExecutorBlockStrategy::SerialExecution
        || ctx.block_strategy == ExecutorBlockStrategy::DiscardLater)
}

/// The registration after `ctx` arrives.
pub open spec fn admitted(v: HandlerState, ctx: JobContext) -> HandlerState {
    if v.is_running && ctx.block_strategy == ExecutorBlockStrategy::SerialExecution {
        HandlerState { queue: queue_push(v.queue, ctx), ..v }
    } else if v.is_running && ctx.block_strategy == ExecutorBlockStrategy::DiscardLater {
        v
    } else {
        started(v, ctx)
    }
}

/// Whether the registration is busy with job `job_id`: running it, or
/// holding a trigger of it in the queue.
pub open spec fn busy_with(v: HandlerState, job_id: u64) -> bool {
    (v.is_running && v.last_job_id == job_id) || exists|i: int|
        0 <= i < v.queue.len() && #[trigger] v.queue[i].job_id == job_id
}

/// `cb` reports the failure of the queued trigger `ctx`.
pub open spec fn reports_failure(cb: CallbackParam, ctx: JobContext, now_ms: i64) -> bool {
    &&& cb.log_id == ctx.log_id
    &&& cb.log_date_tim == now_ms
    &&& cb.handle_code == failure_code(ctx.handle_code)
    &&& cb.handle_msg == ctx.handle_msg
}

/// A run to start: which handler, under which name, on which trigger.
#[derive(Debug)]
pub struct Dispatch {
    pub handler: u64,
    pub name: String,
    pub context: JobContext,
}

/// What the completion of a run must hand back: the name it ran under,
/// its log id, and the code its context carried before it started.
#[derive(Debug)]
pub struct JobTicket {
    pub name: String,
    pub log_id: u64,
    pub handle_code: i32,
}

impl Dispatch {
    /// The ticket under which this run's completion is reported.
    pub fn ticket(&self) -> (r: JobTicket)
        ensures
            r.name@ == self.name@,
            r.log_id == self.context.log_id,
            r.handle_code == self.context.handle_code,
    {
        JobTicket { name: self.name.clone(), log_id: self.context.log_id, handle_code: self.context.handle_code }
    }
}

/// The scheduler's verdict on a trigger, in the coordinator's terms.
#[derive(Clone, Copy, Debug, PartialEq, Eq, Structural)]
pub enum ExecutorActorResult {
    Accepted,
    NotFoundJob,
    Discard,
}

/// What became of an admitted trigger.
#[derive(Debug)]
pub enum Admission {
    /// Start this run now.
    Dispatched(Dispatch),
    /// Held in the block queue; at capacity the oldest entry was evicted
    /// and this is its failure report.
    Queued(Option<CallbackParam>),
    /// Refused under `DiscardLater`; this is the trigger's failure report.
    Discarded(CallbackParam),
}

impl Admission {
    pub fn result(&self) -> (r: ExecutorActorResult)
        ensures
            r == (if self is Discarded { ExecutorActorResult::Discard } else { ExecutorActorResult::Accepted }),
    {
        match self {
            Admission::Discarded(_) => ExecutorActorResult::Discard,
            _ => ExecutorActorResult::Accepted,
        }
    }
}

/// The verdict on a trigger given what `run_job` returned: an unknown
/// handler name is `NotFoundJob`.
pub fn verdict(r: &Result<Admission, XxlError>) -> (v: ExecutorActorResult)
    ensures
        r is Err ==> v == ExecutorActorResult::NotFoundJob,
        r matches Ok(a) ==> v == (if a is Discarded { ExecutorActorResult::Discard } else { ExecutorActorResult::Accepted }),
{
    match r {
        Ok(a) => a.result(),
        Err(_) => ExecutorActorResult::NotFoundJob,
    }
}

/// No two registrations share a name.
pub open spec fn names_unique(s: Seq<JobHandlerValue>) -> bool {
    forall|i: int, j: int|
        0 <= i < s.len() && 0 <= j < s.len() && i != j ==> s[i].name@ != s[j].name@
}

/// Every registration keeps its queue within capacity.
pub open spec fn all_wf(s: Seq<JobHandlerValue>) -> bool {
    forall|i: int| 0 <= i < s.len() ==> #[trigger] s[i].wf()
}

pub open spec fn has_name(s: Seq<JobHandlerValue>, k: Seq<char>) -> bool {
    exists|i: int| 0 <= i < s.len() && s[i].name@ == k
}

/// The registry as a map from handler name to registration state.
pub open spec fn registry_view(s: Seq<JobHandlerValue>) -> Map<Seq<char>, HandlerState> {
    Map::new(
        |k: Seq<char>| has_name(s, k),
        |k: Seq<char>| s[choose|i: int| 0 <= i < s.len() && s[i].name@ == k]@,
    )
}

proof fn lemma_view_index(s: Seq<JobHandlerValue>, i: int)
    requires
        names_unique(s),
        0 <= i < s.len(),
    ensures
        registry_view(s).contains_key(s[i].name@),
        registry_view(s)[s[i].name@] == s[i]@,
{
    let k = s[i].name@;
    assert(has_name(s, k));
    let j = choose|j: int| 0 <= j < s.len() && s[j].name@ == k;
    assert(j == i);
}

proof fn lemma_view_update(s: Seq<JobHandlerValue>, i: int, v: JobHandlerValue)
    requires
        names_unique(s),
        0 <= i < s.len(),
        v.name@ == s[i].name@,
    ensures
        names_unique(s.update(i, v)),
        all_wf(s) && v.wf() ==> all_wf(s.update(i, v)),
        registry_view(s.update(i, v)) == registry_view(s).insert(v.name@, v@),
{
    let t = s.update(i, v);
    assert(all_wf(s) && v.wf() ==> all_wf(t)) by {
        if all_wf(s) && v.wf() {
            assert forall|j: int| 0 <= j < t.len() implies #[trigger] t[j].wf() by {
                if j != i {
                    assert(s[j].wf());
                }
            }
        }
    }
    assert(names_unique(t));
    assert forall|k: Seq<char>| has_name(t, k) <==> has_name(s, k) || k == v.name@ by {
        if has_name(s, k) {
            let j = choose|j: int| 0 <= j < s.len() && s[j].name@ == k;
            assert(t[j].name@ == k);
        }
        if has_name(t, k) {
            let j = choose|j: int| 0 <= j < t.len() && t[j].name@ == k;
            assert(s[j].name@ == k);
        }
        if k == v.name@ {
            assert(t[i].name@ == k);
        }
    }
    assert forall|k: Seq<char>| #[trigger] registry_view(t).contains_key(k) implies registry_view(t)[k]
        == registry_view(s).insert(v.name@, v@)[k] by {
        let j = choose|j: int| 0 <= j < t.len() && t[j].name@ == k;
        lemma_view_index(t, j);
        if j != i {
            lemma_view_index(s, j);
        }
    }
    assert(registry_view(t) =~= registry_view(s).insert(v.name@, v@));
}

proof fn lemma_view_push(s: Seq<JobHandlerValue>, v: JobHandlerValue)
    requires
        names_unique(s),
        !has_name(s, v.name@),
    ensures
        names_unique(s.push(v)),
        all_wf(s) && v.wf() ==> all_wf(s.push(v)),
        registry_view(s.push(v)) == registry_view(s).insert(v.name@, v@),
{
    let t = s.push(v);
    assert(all_wf(s) && v.wf() ==> all_wf(t)) by {
        if all_wf(s) && v.wf() {
            assert forall|j: int| 0 <= j < t.len() implies #[trigger] t[j].wf() by {
                if j < s.len() {
                    assert(s[j].wf());
                }
            }
        }
    }
    assert(names_unique(t)) by {
        assert forall|i: int, j: int|
            0 <= i < t.len() && 0 <= j < t.len() && i != j implies t[i].name@ != t[j].name@ by {
            if i == s.len() {
                assert(s[j].name@ == t[j].name@);
            } else if j == s.len() {
                assert(s[i].name@ == t[i].name@);
            }
        }
    }
    assert forall|k: Seq<char>| has_name(t, k) <==> has_name(s, k) || k == v.name@ by {
        if has_name(s, k) {
            let j = choose|j: int| 0 <= j < s.len() && s[j].name@ == k;
            assert(t[j].name@ == k);
        }
        if has_name(t, k) {
            let j = choose|j: int| 0 <= j < t.len() && t[j].name@ == k;
            if j < s.len() {
                assert(s[j].name@ == k);
            }
        }
        if k == v.name@ {
            assert(t[s.len() as int].name@ == k);
        }
    }
    assert forall|k: Seq<char>| #[trigger] registry_view(t).contains_key(k) implies registry_view(t)[k]
        == registry_view(s).insert(v.name@, v@)[k] by {
        let j = choose|j: int| 0 <= j < t.len() && t[j].name@ == k;
        lemma_view_index(t, j);
        if j < s.len() {
            lemma_view_index(s, j);
        }
    }
    assert(registry_view(t) =~= registry_view(s).insert(v.name@, v@));
}

/// The registry of handler names and the scheduler over it.
pub struct ExecutorActor {
    job_handler_map: Vec<JobHandlerValue>,
}

impl View for ExecutorActor {
    type V = Map<Seq<char>, HandlerState>;

    closed spec fn view(&self) -> Map<Seq<char>, HandlerState> {
        registry_view(self.job_handler_map@)
    }
}

impl ExecutorActor {
    /// Names are unique and every block queue is within capacity.
    pub closed spec fn wf(&self) -> bool {
        &&& names_unique(self.job_handler_map@)
        &&& all_wf(self.job_handler_map@)
    }

    /// Every registration in the registry's view keeps its queue within
    /// capacity.
    pub proof fn lemma_queues_bounded(&self, name: Seq<char>)
        requires
            self.wf(),
            self@.contains_key(name),
        ensures
            self@[name].queue.len() <= BLOCK_QUEUE_CAPACITY,
    {
        let s = self.job_handler_map@;
        let j = choose|j: int| 0 <= j < s.len() && s[j].name@ == name;
        lemma_view_index(s, j);
        assert(s[j].wf());
    }

    pub fn new() -> (r: ExecutorActor)
        ensures
            r.wf(),
            r@ == Map::<Seq<char>, HandlerState>::empty(),
    {
        let r = ExecutorActor { job_handler_map: Vec::new() };
        assert(r@ =~= Map::<Seq<char>, HandlerState>::empty());
        r
    }

    fn find(&self, name: &str) -> (r: Option<usize>)
        requires
            self.wf(),
        ensures
            match r {
                Some(i) => i < self.job_handler_map@.len() && self.job_handler_map@[i as int].name@ == name@,
                None => !has_name(self.job_handler_map@, name@),
            },
    {
        let mut i: usize = 0;
        while i < self.job_handler_map.len()
            invariant
                i <= self.job_handler_map@.len(),
                forall|j: int| 0 <= j < i ==> self.job_handler_map@[j].name@ != name@,
            decreases self.job_handler_map@.len() - i,
        {
            if str_eq(self.job_handler_map[i].name.as_str(), name) {
                return Some(i);
            }
            i = i + 1;
        }
        None
    }

    /// Registers `job_handler` under its name, replacing any registration
    /// of that name.
    pub fn register_job_handler(&mut self, job_handler: JobHandlerValue)
        requires
            old(self).wf(),
            job_handler.wf(),
        ensures
            final(self).wf(),
            final(self)@ == old(self)@.insert(job_handler.name@, job_handler@),
    {
        let ghost s = self.job_handler_map@;
        let ghost v = job_handler;
        match self.find(job_handler.name.as_str()) {
            Some(i) => {
                self.job_handler_map.set(i, job_handler);
                proof {
                    lemma_view_update(s, i as int, v);
                }
            },
            None => {
                self.job_handler_map.push(job_handler);
                proof {
                    lemma_view_push(s, v);
                }
            },
        }
    }

    /// The registration of `name`, if any.
    pub fn get(&self, name: &str) -> (r: Option<&JobHandlerValue>)
        requires
            self.wf(),
        ensures
            match r {
                Some(v) => self@.contains_key(name@) && v@ == self@[name@] && v.name@ == name@ && v.wf(),
                None => !self@.contains_key(name@),
            },
    {
        match self.find(name) {
            Some(i) => {
                proof {
                    lemma_view_index(self.job_handler_map@, i as int);
                }
                Some(&self.job_handler_map[i])
            },
            None => None,
        }
    }

    /// Admits one trigger for the handler registered as `job_name`.
    ///
    /// An unknown name fails with `HandlerNotFound` and changes nothing.
    /// An idle handler starts the run. A running one queues it under
    /// `SerialExecution` (evicting and reporting the oldest entry at
    /// capacity), refuses and reports it under `DiscardLater`, and starts an
    /// overlapping run under `CoverEarly` and `Other`.
    pub fn run_job(&mut self, job_name: &str, job_context: JobContext, now_ms: i64) -> (r: Result<Admission, XxlError>)
        requires
            old(self).wf(),
        ensures
            final(self).wf(),
            !old(self)@.contains_key(job_name@) ==> r == Err::<Admission, XxlError>(XxlError::HandlerNotFound)
                && final(self)@ == old(self)@,
            old(self)@.contains_key(job_name@) ==> {
                let v = old(self)@[job_name@];
                &&& final(self)@ == old(self)@.insert(job_name@, admitted(v, job_context))
                &&& v.is_running && job_context.block_strategy == ExecutorBlockStrategy::SerialExecution
                    ==> (r matches Ok(Admission::Queued(ev)) && match ev {
                        Some(cb) => v.queue.len() >= BLOCK_QUEUE_CAPACITY && reports_failure(cb, v.queue[0], now_ms),
                        None => v.queue.len() < BLOCK_QUEUE_CAPACITY,
                    })
                &&& v.is_running && job_context.block_strategy == ExecutorBlockStrategy::DiscardLater
                    ==> (r matches Ok(Admission::Discarded(cb)) && cb.log_id == job_context.log_id
                        && cb.log_date_tim == now_ms && cb.handle_code == FAIL_CODE
                        && (cb.handle_msg matches Some(m) && m@ == discard_message(job_context.job_id, job_context.log_id)))
                &&& !blocks(v, job_context) ==> (r matches Ok(Admission::Dispatched(d)) && d.handler == v.handler
                    && d.name@ == job_name@ && d.context == job_context)
            },
    {
        let i = match self.find(job_name) {
            Some(i) => i,
            None => return Err(XxlError::HandlerNotFound),
        };
        let ghost s = self.job_handler_map@;
        proof {
            lemma_view_index(s, i as int);
            assert(s[i as int].wf());
        }
        if self.job_handler_map[i].is_running {
            match job_context.block_strategy {
                ExecutorBlockStrategy::SerialExecution => {
                    let evicted = self.job_handler_map[i].push_block_job(job_context);
                    proof {
                        lemma_view_update(s, i as int, self.job_handler_map@[i as int]);
                        assert(self.job_handler_map@ == s.update(i as int, self.job_handler_map@[i as int]));
                        assert(self.job_handler_map@[i as int]@ == admitted(s[i as int]@, job_context));
                    }
                    let report = match evicted {
                        Some(old_job) => Some(old_job.callback_failed(now_ms)),
                        None => None,
                    };
                    return Ok(Admission::Queued(report));
                },
                ExecutorBlockStrategy::DiscardLater => {
                    let report = job_context.callback_discarded(now_ms);
                    proof {
                        assert(old(self)@.insert(job_name@, admitted(s[i as int]@, job_context)) =~= old(self)@);
                    }
                    return Ok(Admission::Discarded(report));
                },
                _ => {},
            }
        }
        let log_id = job_context.log_id;
        let job_id = job_context.job_id;
        self.job_handler_map[i].is_running = true;
        self.job_handler_map[i].last_run_id = log_id;
        self.job_handler_map[i].last_job_id = job_id;
        proof {
            lemma_view_update(s, i as int, self.job_handler_map@[i as int]);
            assert(self.job_handler_map@ == s.update(i as int, self.job_handler_map@[i as int]));
            assert(self.job_handler_map@[i as int]@ == admitted(s[i as int]@, job_context));
        }
        let run_param = self.job_handler_map[i].build_run_param();
        Ok(Admission::Dispatched(Dispatch { handler: run_param.handler, name: run_param.name, context: job_context }))
    }

    /// Starts the oldest queued trigger of registration `i`, if any.
    fn run_next_block_job(&mut self, i: usize) -> (r: Option<Dispatch>)
        requires
            old(self).wf(),
            i < old(self).job_handler_map@.len(),
        ensures
            final(self).wf(),
            ({
                let v = old(self).job_handler_map@[i as int];
                &&& final(self).job_handler_map@ == old(self).job_handler_map@.update(
                    i as int,
                    final(self).job_handler_map@[i as int],
                )
                &&& final(self).job_handler_map@[i as int].name@ == v.name@
                &&& v@.queue.len() == 0 ==> r is None && final(self).job_handler_map@[i as int]@ == v@
                &&& v@.queue.len() > 0 ==> (r matches Some(d) && d.context == v@.queue[0] && d.handler == v.handler
                    && d.name@ == v.name@ && final(self).job_handler_map@[i as int]@ == started(
                    HandlerState { queue: v@.queue.drop_first(), ..v@ },
                    v@.queue[0],
                ))
            }),
    {
        let ghost s = self.job_handler_map@;
        let popped = self.job_handler_map[i].pop_block_job();
        match popped {
            None => None,
            Some(job) => {
                self.job_handler_map[i].is_running = true;
                self.job_handler_map[i].last_run_id = job.log_id;
                self.job_handler_map[i].last_job_id = job.job_id;
                let run_param = self.job_handler_map[i].build_run_param();
                proof {
                    assert(self.job_handler_map@[i as int]@ =~= started(
                        HandlerState { queue: s[i as int]@.queue.drop_first(), ..s[i as int]@ },
                        s[i as int]@.queue[0],
                    ));
                }
                Some(Dispatch { handler: run_param.handler, name: run_param.name, context: job })
            },
        }
    }

    /// Resolves the completion of the run described by `ticket`.
    ///
    /// Returns the run's report (success with the returned context's log
    /// id, or failure with the error's text) and the next run to start:
    /// the oldest queued trigger of that name, if any. Only a run whose log
    /// id is the registration's most recent one clears its running flag.
    pub fn on_job_done(&mut self, ticket: JobTicket, result: Result<JobContext, String>, now_ms: i64) -> (r: (
        CallbackParam,
        Option<Dispatch>,
    ))
        requires
            old(self).wf(),
        ensures
            final(self).wf(),
            r.0.log_date_tim == now_ms,
            match result {
                Ok(job) => r.0.log_id == job.log_id && r.0.handle_code == SUCCESS_CODE && r.0.handle_msg is None,
                Err(msg) => r.0.log_id == ticket.log_id && r.0.handle_code == failure_code(ticket.handle_code)
                    && r.0.handle_msg == Some(msg),
            },
            !old(self)@.contains_key(ticket.name@) ==> r.1 is None && final(self)@ == old(self)@,
            old(self)@.contains_key(ticket.name@) ==> {
                let v = old(self)@[ticket.name@];
                &&& final(self)@ == old(self)@.insert(ticket.name@, after_completion(v, ticket.log_id))
                &&& v.queue.len() == 0 ==> r.1 is None
                &&& v.queue.len() > 0 ==> (r.1 matches Some(d) && d.context == v.queue[0] && d.handler == v.handler
                    && d.name@ == ticket.name@)
            },
    {
        let report = match result {
            Ok(job) => job.callback_success(now_ms),
            Err(msg) => {
                let code = if ticket.handle_code != SUCCESS_CODE {
                    ticket.handle_code
                } else {
                    FAIL_CODE
                };
                callback(ticket.log_id, code, Some(msg), now_ms)
            },
        };
        let i = match self.find(ticket.name.as_str()) {
            Some(i) => i,
            None => return (report, None),
        };
        let ghost s = self.job_handler_map@;
        proof {
            lemma_view_index(s, i as int);
            assert(s[i as int].wf());
        }
        if self.job_handler_map[i].last_run_id == ticket.log_id {
            self.job_handler_map[i].is_running = false;
            self.job_handler_map[i].last_run_id = 0;
        }
        let ghost s1 = self.job_handler_map@;
        proof {
            assert(s1 == s.update(i as int, s1[i as int]));
            assert(s1[i as int]@ == finished(s[i as int]@, ticket.log_id));
            lemma_view_update(s, i as int, s1[i as int]);
        }
        let next = self.run_next_block_job(i);
        proof {
            lemma_view_update(s1, i as int, self.job_handler_map@[i as int]);
            assert(self.job_handler_map@[i as int]@ == after_completion(s[i as int]@, ticket.log_id));
            assert(self.job_handler_map@ == s.update(i as int, self.job_handler_map@[i as int]));
            lemma_view_update(s, i as int, self.job_handler_map@[i as int]);
        }
        (report, next)
    }

    /// Whether no registration is busy with job `job_id`.
    pub fn is_idle(&self, job_id: u64) -> (r: bool)
        requires
            self.wf(),
        ensures
            r == !exists|k: Seq<char>| self@.contains_key(k) && busy_with(#[trigger] self@[k], job_id),
    {
        let ghost s = self.job_handler_map@;
        let mut i: usize = 0;
        while i < self.job_handler_map.len()
            invariant
                s == self.job_handler_map@,
                names_unique(s),
                i <= s.len(),
                forall|j: int| 0 <= j < i ==> !busy_with(#[trigger] s[j]@, job_id),
            decreases s.len() - i,
        {
            let v = &self.job_handler_map[i];
            let mut busy = v.is_running && v.last_job_id == job_id;
            let mut q: usize = 0;
            while q < v.block_jobs.len() && !busy
                invariant
                    q <= v.block_jobs@.len(),
                    busy == ((v.is_running && v.last_job_id == job_id) || exists|j: int|
                        0 <= j < q && #[trigger] v.block_jobs@[j].job_id == job_id),
                decreases v.block_jobs@.len() - q,
            {
                if v.block_jobs[q].job_id == job_id {
                    busy = true;
                }
                q = q + 1;
            }
            if busy {
                proof {
                    lemma_view_index(s, i as int);
                    assert(busy_with(s[i as int]@, job_id));
                    assert(self@.contains_key(s[i as int].name@) && busy_with(self@[s[i as int].name@], job_id));
                }
                return false;
            }
            proof {
                assert(!busy_with(s[i as int]@, job_id));
            }
            i = i + 1;
        }
        proof {
            assert forall|k: Seq<char>| self@.contains_key(k) implies !busy_with(#[trigger] self@[k], job_id) by {
                let j = choose|j: int| 0 <= j < s.len() && s[j].name@ == k;
                lemma_view_index(s, j);
            }
        }
        true
    }
}


/// The block queue after each trigger of `jobs` in turn is admitted behind
/// a running `SerialExecution` handler whose queue was `q`.
pub open spec fn queue_after(q: Seq<JobContext>, jobs: Seq<JobContext>) -> Seq<JobContext>
    decreases jobs.len(),
{
    if jobs.len() == 0 {
        q
    } else {
        queue_push(queue_after(q, jobs.drop_last()), jobs.last())
    }
}

/// The entries evicted, in order, while `jobs` are admitted behind `q`.
pub open spec fn evictions(q: Seq<JobContext>, jobs: Seq<JobContext>) -> Seq<JobContext>
    decreases jobs.len(),
{
    if jobs.len() == 0 {
        Seq::empty()
    } else {
        let prev = queue_after(q, jobs.drop_last());
        evictions(q, jobs.drop_last()) + match queue_evicted(prev) {
            Some(e) => seq![e],
            None => Seq::<JobContext>::empty(),
        }
    }
}

/// How many of `n` waiting triggers do not fit in the block queue.
pub open spec fn overflow(n: nat) -> int {
    if n > BLOCK_QUEUE_CAPACITY {
        n - BLOCK_QUEUE_CAPACITY
    } else {
        0
    }
}

/// However many triggers arrive behind a busy `SerialExecution` handler,
/// its queue never holds more than its capacity: it keeps the newest
/// entries, and the entries that no longer fit are evicted oldest first,
/// each exactly once (and so get exactly one failure report).
pub proof fn serial_backlog_bounded(q: Seq<JobContext>, jobs: Seq<JobContext>)
    requires
        q.len() <= BLOCK_QUEUE_CAPACITY,
    ensures
        queue_after(q, jobs).len() <= BLOCK_QUEUE_CAPACITY,
        queue_after(q, jobs) == (q + jobs).skip(overflow(q.len() + jobs.len())),
        evictions(q, jobs) == (q + jobs).take(overflow(q.len() + jobs.len())),
    decreases jobs.len(),
{
    let all = q + jobs;
    let n = q.len() + jobs.len();
    if jobs.len() == 0 {
        assert(all =~= q);
        assert(all.skip(0) =~= q);
        assert(all.take(0) =~= Seq::<JobContext>::empty());
    } else {
        let rest = jobs.drop_last();
        serial_backlog_bounded(q, rest);
        let all0 = q + rest;
        assert(all0 =~= all.drop_last());
        let prev = queue_after(q, rest);
        let k0 = overflow((n - 1) as nat);
        assert(prev == all0.skip(k0));
        if prev.len() >= BLOCK_QUEUE_CAPACITY {
            assert(overflow(n) == k0 + 1);
            assert(prev.drop_first().push(jobs.last()) =~= all.skip(k0 + 1));
            assert(all0[k0] == all[k0]);
            assert(evictions(q, rest) + seq![prev[0]] =~= all.take(k0 + 1));
        } else {
            assert(k0 == 0);
            assert(overflow(n) == 0);
            assert(prev.push(jobs.last()) =~= all.skip(0));
            assert(evictions(q, rest) + Seq::<JobContext>::empty() =~= all.take(0));
        }
    }
}

/// A registration after `k` completions, each of its most recently
/// started run.
pub open spec fn completions(v: HandlerState, k: nat) -> HandlerState
    decreases k,
{
    if k == 0 {
        v
    } else {
        let w = completions(v, (k - 1) as nat);
        after_completion(w, w.last_run_id)
    }
}

/// A backlog drains in strict FIFO order: as each current run completes,
/// the next run started is of the oldest waiting trigger, so the
/// triggers queued as `[a, b, c]` run as `a`, then `b`, then `c`.
pub proof fn serial_drain_fifo(v: HandlerState, k: nat)
    requires
        k <= v.queue.len(),
    ensures
        completions(v, k).queue == v.queue.skip(k as int),
        k > 0 ==> completions(v, k).is_running && completions(v, k).last_run_id == v.queue[k - 1].log_id,
        k < v.queue.len() ==> completions(v, k).queue[0] == v.queue[k as int],
    decreases k,
{
    if k == 0 {
        assert(v.queue.skip(0) =~= v.queue);
    } else {
        serial_drain_fifo(v, (k - 1) as nat);
        let w = completions(v, (k - 1) as nat);
        assert(w.queue.len() > 0);
        assert(w.queue.drop_first() =~= v.queue.skip(k as int));
        assert(w.queue[0] == v.queue[k - 1]);
    }
}

/// Registering a name twice leaves only the second registration: future
/// triggers of that name dispatch to the second handler.
pub proof fn register_last_wins(
    m: Map<Seq<char>, HandlerState>,
    name: Seq<char>,
    first: HandlerState,
    second: HandlerState,
)
    ensures
        m.insert(name, first).insert(name, second) == m.insert(name, second),
        m.insert(name, first).insert(name, second)[name].handler == second.handler,
{
    assert(m.insert(name, first).insert(name, second) =~= m.insert(name, second));
}

/// A trigger refused under `DiscardLater` leaves the registration as it
/// was: it never enters the queue and never starts.
pub proof fn discard_later_never_queues(v: HandlerState, ctx: JobContext)
    requires
        v.is_running,
        ctx.block_strategy == ExecutorBlockStrategy::DiscardLater,
    ensures
        admitted(v, ctx) == v,
        blocks(v, ctx),
{
}

/// Two overlapping `CoverEarly` runs both start; the completion of the
/// earlier one leaves the handler running, and only the completion of the
/// most recently started one clears it.
pub proof fn cover_early_overlap(v: HandlerState, a: JobContext, b: JobContext)
    requires
        a.block_strategy == ExecutorBlockStrategy::CoverEarly,
        b.block_strategy == ExecutorBlockStrategy::CoverEarly,
        a.log_id != b.log_id,
    ensures
        !blocks(v, a),
        !blocks(admitted(v, a), b),
        admitted(admitted(v, a), b).is_running,
        admitted(admitted(v, a), b).last_run_id == b.log_id,
        finished(admitted(admitted(v, a), b), a.log_id).is_running,
        !finished(finished(admitted(admitted(v, a), b), a.log_id), b.log_id).is_running,
{
}

} // verus!
