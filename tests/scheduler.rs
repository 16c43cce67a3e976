use xxljob_sdk_rs::admin::{callback, callback_success};
use xxljob_sdk_rs::executor::{verdict, Admission, ExecutorActor, ExecutorActorResult, JobTicket};
use xxljob_sdk_rs::handler::{JobContext, JobHandlerValue, BLOCK_QUEUE_CAPACITY};
use xxljob_sdk_rs::model::{XxlError, FAIL_CODE, SUCCESS_CODE};
use xxljob_sdk_rs::{ExecutorBlockStrategy, GlueType};

fn ctx(job_id: u64, log_id: u64, strategy: ExecutorBlockStrategy) -> JobContext {
    JobContext {
        job_id,
        job_param: None,
        job_log_file_name: None,
        log_id,
        shard_index: 0,
        shard_total: 1,
        handle_code: SUCCESS_CODE,
        handle_msg: None,
        block_strategy: strategy,
        glue_type: GlueType::Bean,
    }
}

fn registry_with(name: &str, handler: u64) -> ExecutorActor {
    let mut e = ExecutorActor::new();
    e.register_job_handler(JobHandlerValue::new(name.to_string(), handler));
    e
}

fn dispatched(r: Result<Admission, XxlError>) -> xxljob_sdk_rs::Dispatch {
    match r {
        Ok(Admission::Dispatched(d)) => d,
        other => panic!("expected a dispatch, got {:?}", other),
    }
}

#[test]
fn submit_to_unregistered_name_fails() {
    let mut e = registry_with("known", 1);
    for name in ["", "unknown", "Known", "known "] {
        let r = e.run_job(name, ctx(1, 1, ExecutorBlockStrategy::SerialExecution), 0);
        assert!(matches!(r, Err(XxlError::HandlerNotFound)));
    }
    assert!(!e.get("known").unwrap().is_running);
}

#[test]
fn idle_handler_dispatches_and_marks_running() {
    let mut e = registry_with("demo", 7);
    let d = dispatched(e.run_job("demo", ctx(3, 11, ExecutorBlockStrategy::SerialExecution), 5));
    assert_eq!(d.handler, 7);
    assert_eq!(d.name, "demo");
    assert_eq!(d.context.log_id, 11);
    let v = e.get("demo").unwrap();
    assert!(v.is_running);
    assert_eq!(v.last_run_id, 11);
    assert!(!e.is_idle(3));
    assert!(e.is_idle(4));
}

#[test]
fn serial_queue_evicts_oldest_at_capacity() {
    let mut e = registry_with("demo", 1);
    dispatched(e.run_job("demo", ctx(1, 100, ExecutorBlockStrategy::SerialExecution), 0));
    for i in 0..BLOCK_QUEUE_CAPACITY as u64 {
        match e.run_job("demo", ctx(1, 200 + i, ExecutorBlockStrategy::SerialExecution), 0) {
            Ok(Admission::Queued(None)) => {}
            other => panic!("expected queued without eviction, got {:?}", other),
        }
    }
    assert_eq!(e.get("demo").unwrap().block_jobs.len(), 10);
    match e.run_job("demo", ctx(1, 300, ExecutorBlockStrategy::SerialExecution), 42) {
        Ok(Admission::Queued(Some(cb))) => {
            assert_eq!(cb.log_id, 200);
            assert_eq!(cb.handle_code, FAIL_CODE);
            assert_eq!(cb.log_date_tim, 42);
        }
        other => panic!("expected an eviction, got {:?}", other),
    }
    let q = &e.get("demo").unwrap().block_jobs;
    assert_eq!(q.len(), 10);
    assert_eq!(q[0].log_id, 201);
    assert_eq!(q[9].log_id, 300);
}

#[test]
fn evicted_entry_keeps_its_failure_code() {
    let mut e = registry_with("demo", 1);
    dispatched(e.run_job("demo", ctx(1, 1, ExecutorBlockStrategy::SerialExecution), 0));
    let mut first = ctx(1, 2, ExecutorBlockStrategy::SerialExecution);
    first.handle_code = 502;
    first.handle_msg = Some("bad".to_string());
    e.run_job("demo", first, 0).unwrap();
    for i in 0..9u64 {
        e.run_job("demo", ctx(1, 10 + i, ExecutorBlockStrategy::SerialExecution), 0).unwrap();
    }
    match e.run_job("demo", ctx(1, 99, ExecutorBlockStrategy::SerialExecution), 0) {
        Ok(Admission::Queued(Some(cb))) => {
            assert_eq!(cb.log_id, 2);
            assert_eq!(cb.handle_code, 502);
            assert_eq!(cb.handle_msg.as_deref(), Some("bad"));
        }
        other => panic!("expected an eviction, got {:?}", other),
    }
}

#[test]
fn discard_later_while_busy_reports_and_never_queues() {
    let mut e = registry_with("demo", 1);
    dispatched(e.run_job("demo", ctx(5, 1, ExecutorBlockStrategy::DiscardLater), 0));
    let r = e.run_job("demo", ctx(5, 2, ExecutorBlockStrategy::DiscardLater), 9).unwrap();
    assert_eq!(r.result(), ExecutorActorResult::Discard);
    match r {
        Admission::Discarded(cb) => {
            assert_eq!(cb.log_id, 2);
            assert_eq!(cb.handle_code, FAIL_CODE);
            assert_eq!(cb.log_date_tim, 9);
            assert_eq!(cb.handle_msg.as_deref(), Some("Discard the job; job_id:5, log_id:2"));
        }
        other => panic!("expected a discard, got {:?}", other),
    }
    let v = e.get("demo").unwrap();
    assert!(v.block_jobs.is_empty());
    assert_eq!(v.last_run_id, 1);
}

#[test]
fn serial_backlog_drains_in_fifo_order() {
    let mut e = registry_with("demo", 1);
    let first = dispatched(e.run_job("demo", ctx(1, 1, ExecutorBlockStrategy::SerialExecution), 0));
    for log_id in [10u64, 20, 30] {
        e.run_job("demo", ctx(1, log_id, ExecutorBlockStrategy::SerialExecution), 0).unwrap();
    }
    let mut ticket = first.ticket();
    let mut order = Vec::new();
    loop {
        let (cb, next) = e.on_job_done(ticket, Err("boom".to_string()), 0);
        assert_eq!(cb.handle_code, FAIL_CODE);
        match next {
            Some(d) => {
                order.push(d.context.log_id);
                ticket = d.ticket();
            }
            None => break,
        }
    }
    assert_eq!(order, vec![10, 20, 30]);
    let v = e.get("demo").unwrap();
    assert!(!v.is_running);
    assert_eq!(v.last_run_id, 0);
    assert!(e.is_idle(1));
}

#[test]
fn success_report_uses_returned_context() {
    let mut e = registry_with("demo", 1);
    let d = dispatched(e.run_job("demo", ctx(1, 8, ExecutorBlockStrategy::SerialExecution), 0));
    let t = d.ticket();
    let (cb, next) = e.on_job_done(t, Ok(d.context), 77);
    assert_eq!(cb.log_id, 8);
    assert_eq!(cb.handle_code, SUCCESS_CODE);
    assert_eq!(cb.log_date_tim, 77);
    assert!(cb.handle_msg.is_none());
    assert!(next.is_none());
    assert!(!e.get("demo").unwrap().is_running);
}

#[test]
fn failed_run_with_prior_failure_code_keeps_it() {
    let mut e = ExecutorActor::new();
    let ticket = JobTicket { name: "gone".to_string(), log_id: 4, handle_code: 503 };
    let (cb, next) = e.on_job_done(ticket, Err("lost".to_string()), 1);
    assert_eq!(cb.log_id, 4);
    assert_eq!(cb.handle_code, 503);
    assert_eq!(cb.handle_msg.as_deref(), Some("lost"));
    assert!(next.is_none());
}

#[test]
fn second_registration_receives_dispatches() {
    let mut e = ExecutorActor::new();
    e.register_job_handler(JobHandlerValue::new("demo".to_string(), 1));
    e.register_job_handler(JobHandlerValue::new("other".to_string(), 3));
    e.register_job_handler(JobHandlerValue::new("demo".to_string(), 2));
    let d = dispatched(e.run_job("demo", ctx(1, 1, ExecutorBlockStrategy::CoverEarly), 0));
    assert_eq!(d.handler, 2);
    let d = dispatched(e.run_job("other", ctx(1, 2, ExecutorBlockStrategy::CoverEarly), 0));
    assert_eq!(d.handler, 3);
}

#[test]
fn cover_early_overlapping_runs_only_latest_clears() {
    let mut e = registry_with("demo", 1);
    let a = dispatched(e.run_job("demo", ctx(1, 1, ExecutorBlockStrategy::CoverEarly), 0));
    let b = dispatched(e.run_job("demo", ctx(1, 2, ExecutorBlockStrategy::CoverEarly), 0));
    assert_eq!(e.get("demo").unwrap().last_run_id, 2);
    let (cb_a, _) = e.on_job_done(a.ticket(), Ok(a.context), 0);
    assert_eq!(cb_a.log_id, 1);
    assert!(e.get("demo").unwrap().is_running);
    let (cb_b, _) = e.on_job_done(b.ticket(), Ok(b.context), 0);
    assert_eq!(cb_b.log_id, 2);
    assert!(!e.get("demo").unwrap().is_running);
}

#[test]
fn other_strategy_overlaps_like_cover_early() {
    let mut e = registry_with("demo", 1);
    dispatched(e.run_job("demo", ctx(1, 1, ExecutorBlockStrategy::Other), 0));
    let d = dispatched(e.run_job("demo", ctx(1, 2, ExecutorBlockStrategy::Other), 0));
    assert_eq!(d.context.log_id, 2);
    assert_eq!(e.get("demo").unwrap().last_run_id, 2);
}

#[test]
fn queued_job_makes_job_busy() {
    let mut e = registry_with("demo", 1);
    dispatched(e.run_job("demo", ctx(1, 1, ExecutorBlockStrategy::SerialExecution), 0));
    e.run_job("demo", ctx(2, 2, ExecutorBlockStrategy::SerialExecution), 0).unwrap();
    assert!(!e.is_idle(1));
    assert!(!e.is_idle(2));
    assert!(e.is_idle(3));
}

#[test]
fn push_and_pop_block_job_directly() {
    let mut v = JobHandlerValue::new("demo".to_string(), 1);
    assert!(v.push_block_job(ctx(1, 1, ExecutorBlockStrategy::SerialExecution)).is_none());
    assert!(v.block_jobs.is_empty());
    v.is_running = true;
    assert!(v.push_block_job(ctx(1, 2, ExecutorBlockStrategy::SerialExecution)).is_none());
    assert!(v.push_block_job(ctx(1, 3, ExecutorBlockStrategy::SerialExecution)).is_none());
    assert_eq!(v.pop_block_job().unwrap().log_id, 2);
    assert_eq!(v.pop_block_job().unwrap().log_id, 3);
    assert!(v.pop_block_job().is_none());
    let p = v.build_run_param();
    assert_eq!(p.handler, 1);
    assert_eq!(p.name, "demo");
}

#[test]
fn verdicts_of_admissions() {
    let mut e = registry_with("demo", 1);
    let missing = e.run_job("nope", ctx(1, 1, ExecutorBlockStrategy::SerialExecution), 0);
    assert_eq!(verdict(&missing), ExecutorActorResult::NotFoundJob);
    let first = e.run_job("demo", ctx(1, 2, ExecutorBlockStrategy::DiscardLater), 0);
    assert_eq!(verdict(&first), ExecutorActorResult::Accepted);
    let second = e.run_job("demo", ctx(1, 3, ExecutorBlockStrategy::DiscardLater), 0);
    assert_eq!(verdict(&second), ExecutorActorResult::Discard);
    let queued = e.run_job("demo", ctx(1, 4, ExecutorBlockStrategy::SerialExecution), 0);
    assert_eq!(verdict(&queued), ExecutorActorResult::Accepted);
}

#[test]
fn callback_records() {
    let s = callback_success(5, 100);
    assert_eq!((s.log_id, s.log_date_tim, s.handle_code), (5, 100, SUCCESS_CODE));
    assert!(s.handle_msg.is_none());
    let f = callback(6, 501, Some("x".to_string()), 200);
    assert_eq!((f.log_id, f.log_date_tim, f.handle_code), (6, 200, 501));
    assert_eq!(f.handle_msg.as_deref(), Some("x"));
    let c = ctx(1, 9, ExecutorBlockStrategy::SerialExecution);
    let failed = c.callback_failed(3);
    assert_eq!((failed.log_id, failed.handle_code), (9, FAIL_CODE));
    let info = c.callback_failed_with_info("why".to_string(), 418, 4);
    assert_eq!((info.handle_code, info.handle_msg.as_deref()), (418, Some("why")));
}
