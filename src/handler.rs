//! The trigger context handed to a handler, and the per-handler
//! registration with its bounded block queue.
use vstd::prelude::*;
use crate::enum_type::{
    ExecutorBlockStrategy, GlueType, glue_of_name, strategy_of_name,
};
use crate::model::{CallbackParam, JobRunParam, FAIL_CODE, SUCCESS_CODE};
use crate::admin::{callback, callback_success};
use crate::text::{decimal, decimal_string};

verus! {

/// How many triggers may wait behind a running handler.
pub const BLOCK_QUEUE_CAPACITY: usize = 10;

/// The text of an optional string, empty when absent.
pub open spec fn opt_text(o: Option<String>) -> Seq<char> {
    match o {
        Some(s) => s@,
        None => Seq::empty(),
    }
}

/// The code a failure report carries: the context's own code when it
/// already holds a failure, else the generic failure code.
pub open spec fn failure_code(handle_code: i32) -> i32 {
    if handle_code != SUCCESS_CODE {
        handle_code
    } else {
        FAIL_CODE
    }
}

/// The message of the failure report for a discarded trigger.
pub open spec fn discard_message(job_id: u64, log_id: u64) -> Seq<char> {
    "Discard the job; job_id:"@ + decimal(job_id as nat) + ", log_id:"@ + decimal(log_id as nat)
}

/// One trigger: what a handler invocation receives, and what its outcome
/// report is built from.
#[derive(Debug)]
pub struct JobContext {
    pub job_id: u64,
    pub job_param: Option<String>,
    pub job_log_file_name: Option<String>,
    pub log_id: u64,
    pub shard_index: u64,
    pub shard_total: u64,
    pub handle_code: i32,
    pub handle_msg: Option<String>,
    pub block_strategy: ExecutorBlockStrategy,
    pub glue_type: GlueType,
}

fn clone_opt_string(o: &Option<String>) -> (r: Option<String>)
    ensures
        r == *o,
{
    match o {
        Some(s) => Some(s.clone()),
        None => None,
    }
}

/// `r` is the context of a trigger that arrived as `run_param`: absent
/// shard fields mean shard 0 of 1, an unknown glue type means bean, an
/// unknown block strategy means `Other`, and it starts out successful.
pub open spec fn context_of(r: JobContext, run_param: JobRunParam) -> bool {
    &&& r.job_id == run_param.job_id
    &&& r.log_id == run_param.log_id
    &&& r.job_param == run_param.executor_params
    &&& r.job_log_file_name is None
    &&& r.shard_index == (match run_param.broadcast_index {
        Some(i) => i,
        None => 0,
    })
    &&& r.shard_total == (match run_param.broadcast_total {
        Some(t) => t,
        None => 1,
    })
    &&& r.glue_type == (match glue_of_name(opt_text(run_param.glue_type)) {
        Some(g) => g,
        None => GlueType::Bean,
    })
    &&& r.block_strategy == strategy_of_name(opt_text(run_param.executor_block_strategy))
    &&& r.handle_code == SUCCESS_CODE
    &&& r.handle_msg is None
}

impl JobContext {
    /// The context of a trigger that arrived as `run_param`.
    pub fn new(run_param: JobRunParam) -> (r: JobContext)
        ensures
            context_of(r, run_param),
    {
        proof {
            reveal_strlit("");
            assert(""@ =~= Seq::<char>::empty());
        }
        let shard_index: u64 = match run_param.broadcast_index {
            Some(i) => i,
            None => 0,
        };
        let shard_total: u64 = match run_param.broadcast_total {
            Some(t) => t,
            None => 1,
        };
        let glue_type = match &run_param.glue_type {
            Some(s) => match GlueType::from_str(s.as_str()) {
                Some(g) => g,
                None => GlueType::Bean,
            },
            None => match GlueType::from_str("") {
                Some(g) => g,
                None => GlueType::Bean,
            },
        };
        let block_strategy = match &run_param.executor_block_strategy {
            Some(s) => ExecutorBlockStrategy::from_str(s.as_str()),
            None => ExecutorBlockStrategy::from_str(""),
        };
        JobContext {
            job_id: run_param.job_id,
            job_param: run_param.executor_params,
            job_log_file_name: None,
            log_id: run_param.log_id,
            shard_index,
            shard_total,
            handle_code: SUCCESS_CODE,
            handle_msg: None,
            block_strategy,
            glue_type,
        }
    }

    /// The success report of this trigger.
    pub fn callback_success(&self, now_ms: i64) -> (r: CallbackParam)
        ensures
            r.log_id == self.log_id,
            r.log_date_tim == now_ms,
            r.handle_code == SUCCESS_CODE,
            r.handle_msg is None,
    {
        callback_success(self.log_id, now_ms)
    }

    /// The failure report of this trigger, keeping a failure code and
    /// message that the context already holds.
    pub fn callback_failed(&self, now_ms: i64) -> (r: CallbackParam)
        ensures
            r.log_id == self.log_id,
            r.log_date_tim == now_ms,
            r.handle_code == failure_code(self.handle_code),
            r.handle_msg == self.handle_msg,
    {
        let handle_code = if self.handle_code != SUCCESS_CODE {
            self.handle_code
        } else {
            FAIL_CODE
        };
        callback(self.log_id, handle_code, clone_opt_string(&self.handle_msg), now_ms)
    }

    /// A failure report of this trigger with the given message and code.
    pub fn callback_failed_with_info(&self, error_msg: String, handle_code: i32, now_ms: i64) -> (r: CallbackParam)
        ensures
            r.log_id == self.log_id,
            r.log_date_tim == now_ms,
            r.handle_code == handle_code,
            r.handle_msg == Some(error_msg),
    {
        callback(self.log_id, handle_code, Some(error_msg), now_ms)
    }

    /// The failure report given to a trigger refused under `DiscardLater`.
    pub fn callback_discarded(&self, now_ms: i64) -> (r: CallbackParam)
        ensures
            r.log_id == self.log_id,
            r.log_date_tim == now_ms,
            r.handle_code == FAIL_CODE,
            r.handle_msg is Some,
            r.handle_msg->0@ == discard_message(self.job_id, self.log_id),
    {
        let mut msg = String::from_str("Discard the job; job_id:");
        let job = decimal_string(self.job_id);
        msg.append(job.as_str());
        msg.append(", log_id:");
        let log = decimal_string(self.log_id);
        msg.append(log.as_str());
        proof {
            assert(msg@ =~= discard_message(self.job_id, self.log_id));
        }
        self.callback_failed_with_info(msg, FAIL_CODE, now_ms)
    }
}

/// What a dispatch needs of a registration: the handler and its name.
#[derive(Debug)]
pub struct JobHandlerRunParam {
    pub handler: u64,
    pub name: String,
}

/// The state of one registered handler name: which handler serves it,
/// whether a run is in flight, the log id of the most recently started
/// run, and the triggers waiting behind it, oldest first.
#[derive(Debug)]
pub struct JobHandlerValue {
    pub handler: u64,
    pub name: String,
    pub is_running: bool,
    pub last_run_id: u64,
    pub last_job_id: u64,
    pub block_jobs: Vec<JobContext>,
}

/// The queue after a trigger is admitted behind a running handler: at
/// capacity the oldest entry leaves to make room.
pub open spec fn queue_push(q: Seq<JobContext>, job: JobContext) -> Seq<JobContext> {
    if q.len() >= BLOCK_QUEUE_CAPACITY {
        q.drop_first().push(job)
    } else {
        q.push(job)
    }
}

/// The entry that `queue_push` evicts, if any.
pub open spec fn queue_evicted(q: Seq<JobContext>) -> Option<JobContext> {
    if q.len() >= BLOCK_QUEUE_CAPACITY {
        Some(q[0])
    } else {
        None
    }
}

impl JobHandlerValue {
    /// A registration holds no more than the queue's capacity.
    pub open spec fn wf(&self) -> bool {
        self.block_jobs@.len() <= BLOCK_QUEUE_CAPACITY
    }

    /// Every field but the block queue agrees.
    pub open spec fn same_but_queue(&self, other: &JobHandlerValue) -> bool {
        &&& self.handler == other.handler
        &&& self.name@ == other.name@
        &&& self.is_running == other.is_running
        &&& self.last_run_id == other.last_run_id
        &&& self.last_job_id == other.last_job_id
    }

    /// An idle registration with an empty queue.
    pub fn new(name: String, handler: u64) -> (r: JobHandlerValue)
        ensures
            r.wf(),
            r.name@ == name@,
            r.handler == handler,
            !r.is_running,
            r.last_run_id == 0,
            r.last_job_id == 0,
            r.block_jobs@.len() == 0,
    {
        JobHandlerValue {
            handler,
            name,
            is_running: false,
            last_run_id: 0,
            last_job_id: 0,
            block_jobs: Vec::with_capacity(2),
        }
    }

    /// Queues `job` behind the running handler and returns the evicted
    /// oldest entry when the queue was full. An idle registration queues
    /// nothing.
    pub fn push_block_job(&mut self, job: JobContext) -> (r: Option<JobContext>)
        requires
            old(self).wf(),
        ensures
            final(self).wf(),
            final(self).same_but_queue(old(self)),
            !old(self).is_running ==> r is None && final(self).block_jobs@ == old(self).block_jobs@,
            old(self).is_running ==> r == queue_evicted(old(self).block_jobs@)
                && final(self).block_jobs@ == queue_push(old(self).block_jobs@, job),
    {
        if !self.is_running {
            return None;
        }
        if self.block_jobs.len() >= BLOCK_QUEUE_CAPACITY {
            let remove = self.block_jobs.remove(0);
            self.block_jobs.push(job);
            proof {
                assert(self.block_jobs@ =~= old(self).block_jobs@.drop_first().push(job));
            }
            Some(remove)
        } else {
            self.block_jobs.push(job);
            None
        }
    }

    /// Takes the oldest queued trigger, if any.
    pub fn pop_block_job(&mut self) -> (r: Option<JobContext>)
        requires
            old(self).wf(),
        ensures
            final(self).wf(),
            final(self).same_but_queue(old(self)),
            old(self).block_jobs@.len() == 0 ==> r is None && final(self).block_jobs@ == old(self).block_jobs@,
            old(self).block_jobs@.len() > 0 ==> r == Some(old(self).block_jobs@[0])
                && final(self).block_jobs@ == old(self).block_jobs@.drop_first(),
    {
        if self.block_jobs.is_empty() {
            None
        } else {
            let job = self.block_jobs.remove(0);
            proof {
                assert(self.block_jobs@ =~= old(self).block_jobs@.drop_first());
            }
            Some(job)
        }
    }

    pub fn build_run_param(&self) -> (r: JobHandlerRunParam)
        ensures
            r.handler == self.handler,
            r.name@ == self.name@,
    {
        JobHandlerRunParam { handler: self.handler, name: self.name.clone() }
    }
}

} // verus!
