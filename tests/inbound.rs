use xxljob_sdk_rs::api::{access_denied, access_token_accepted, idle_beat_response, run_request};
use xxljob_sdk_rs::model::{JobRunParam, FAIL_CODE, SUCCESS_CODE};
use xxljob_sdk_rs::{ExecutorBlockStrategy, GlueType, XxlApiResult};

#[test]
fn run_without_handler_names_log_id() {
    let p = JobRunParam { log_id: 42, executor_handler: Some(String::new()), ..Default::default() };
    let e = run_request(p).unwrap_err();
    assert_eq!(e.code, FAIL_CODE);
    assert!(!e.is_success());
    let msg = e.msg.unwrap();
    assert!(msg.contains("42"));
    assert_eq!(msg, "executor_handler is empty,log_id:42");
    let absent = JobRunParam { log_id: 7, ..Default::default() };
    assert_eq!(run_request(absent).unwrap_err().msg.unwrap(), "executor_handler is empty,log_id:7");
}

#[test]
fn run_builds_context_with_defaults() {
    let p = JobRunParam {
        job_id: 3,
        log_id: 9,
        executor_handler: Some("demo".to_string()),
        executor_params: Some("x=1".to_string()),
        ..Default::default()
    };
    let (name, ctx) = run_request(p).unwrap();
    assert_eq!(name, "demo");
    assert_eq!(ctx.job_id, 3);
    assert_eq!(ctx.log_id, 9);
    assert_eq!(ctx.job_param.as_deref(), Some("x=1"));
    assert_eq!(ctx.shard_index, 0);
    assert_eq!(ctx.shard_total, 1);
    assert_eq!(ctx.glue_type, GlueType::Bean);
    assert_eq!(ctx.block_strategy, ExecutorBlockStrategy::Other);
    assert_eq!(ctx.handle_code, SUCCESS_CODE);
}

#[test]
fn run_reads_strategy_glue_and_shards() {
    let p = JobRunParam {
        executor_handler: Some("demo".to_string()),
        executor_block_strategy: Some("DISCARD_LATER".to_string()),
        glue_type: Some("GLUE_SHELL".to_string()),
        broadcast_index: Some(2),
        broadcast_total: Some(4),
        ..Default::default()
    };
    let (_, ctx) = run_request(p).unwrap();
    assert_eq!(ctx.block_strategy, ExecutorBlockStrategy::DiscardLater);
    assert_eq!(ctx.glue_type, GlueType::GlueShell);
    assert_eq!(ctx.shard_index, 2);
    assert_eq!(ctx.shard_total, 4);
}

#[test]
fn access_token_check() {
    assert!(access_token_accepted("", ""));
    assert!(access_token_accepted("", "anything"));
    assert!(access_token_accepted("tok", "tok"));
    assert!(!access_token_accepted("tok", ""));
    assert!(!access_token_accepted("tok", "tok2"));
    let d = access_denied();
    assert_eq!(d.code, FAIL_CODE);
    assert_eq!(d.msg.as_deref(), Some("access-token is error"));
}

#[test]
fn idle_beat_envelopes() {
    assert!(idle_beat_response(true).is_success());
    let busy = idle_beat_response(false);
    assert_eq!(busy.code, FAIL_CODE);
    assert_eq!(busy.msg.as_deref(), Some("job is running or has trigger queue."));
    assert_eq!(XxlApiResult::success().code, 200);
}
