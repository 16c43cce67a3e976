//! The decisions of the inbound protocol: the access-token check, the
//! validation of a `run` request, and the envelopes of the answers.
use vstd::prelude::*;
use crate::handler::{context_of, opt_text, JobContext};
use crate::model::{JobRunParam, XxlApiResult, FAIL_CODE};
use crate::text::{decimal, push_decimal, str_eq};

verus! {

/// Message of the envelope that refuses a request with a wrong token.
pub const ACCESS_DENIED_MESSAGE: &'static str = "access-token is error";

/// Message of the envelope that answers `idleBeat` for a busy job.
pub const BUSY_MESSAGE: &'static str = "job is running or has trigger queue.";

/// The message that refuses a `run` request with no handler name.
pub open spec fn empty_handler_message(log_id: u64) -> Seq<char> {
    "executor_handler is empty,log_id:"@ + decimal(log_id as nat)
}

/// Whether a request that presented `presented` as its token may pass:
/// always when no token is configured, else only with that token.
pub fn access_token_accepted(configured: &str, presented: &str) -> (r: bool)
    ensures
        r == (configured@.len() == 0 || configured@ == presented@),
{
    configured.is_empty() || str_eq(configured, presented)
}

/// The envelope that refuses a request with a wrong or missing token.
pub fn access_denied() -> (r: XxlApiResult)
    ensures
        r.code == FAIL_CODE,
        r.msg matches Some(m) && m@ == ACCESS_DENIED_MESSAGE@,
{
    XxlApiResult::fail(Some(String::from_str(ACCESS_DENIED_MESSAGE)))
}

/// The answer to `idleBeat`: success when the job is idle.
pub fn idle_beat_response(idle: bool) -> (r: XxlApiResult)
    ensures
        idle ==> r.is_success_spec() && r.msg is None,
        !idle ==> r.code == FAIL_CODE && (r.msg matches Some(m) && m@ == BUSY_MESSAGE@),
{
    if idle {
        XxlApiResult::success()
    } else {
        XxlApiResult::fail(Some(String::from_str(BUSY_MESSAGE)))
    }
}

/// Validates a `run` request: without a handler name it is refused with a
/// failure envelope that names its log id; else it yields the handler
/// name and the trigger's context, to be submitted.
pub fn run_request(run_param: JobRunParam) -> (r: Result<(String, JobContext), XxlApiResult>)
    ensures
        opt_text(run_param.executor_handler).len() == 0 <==> r is Err,
        r matches Err(e) ==> e.code == FAIL_CODE && (e.msg matches Some(m) && m@ == empty_handler_message(
            run_param.log_id,
        )),
        r matches Ok(p) ==> p.0@ == opt_text(run_param.executor_handler) && context_of(p.1, run_param),
{
    let job_name = match &run_param.executor_handler {
        Some(h) => h.clone(),
        None => String::new(),
    };
    if job_name.as_str().is_empty() {
        let mut msg = String::from_str("executor_handler is empty,log_id:");
        push_decimal(&mut msg, run_param.log_id);
        return Err(XxlApiResult::fail(Some(msg)));
    }
    let ctx = JobContext::new(run_param);
    Ok((job_name, ctx))
}

} // verus!
