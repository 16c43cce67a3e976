//! Plain records exchanged with the coordinator, the response envelope,
//! and the library's error kinds.
use vstd::prelude::*;

verus! {

/// `handle_code` and envelope `code` of a success.
pub const SUCCESS_CODE: i32 = 200;

/// `handle_code` and envelope `code` of a generic failure.
pub const FAIL_CODE: i32 = 500;

/// Registration group under which executors announce themselves.
pub const EXECUTOR_GROUP: &'static str = "EXECUTOR";

/// The kinds of failure this runtime distinguishes.
#[derive(Clone, Copy, Debug, PartialEq, Eq, Structural)]
pub enum XxlError {
    /// The coordinator address list is empty.
    ConfigError,
    /// A trigger named a handler that was never registered.
    HandlerNotFound,
    /// No configured coordinator address accepted the call.
    TransportError,
    /// A payload could not be read.
    ProtocolError,
}

/// Announcement (or removal) of this executor at the coordinator.
#[derive(Debug)]
pub struct RegistryParam {
    pub registry_group: String,
    pub registry_key: String,
    pub registry_value: String,
}

/// Outcome report of one trigger, sent to the coordinator.
#[derive(Debug)]
pub struct CallbackParam {
    pub log_id: u64,
    pub log_date_tim: i64,
    pub handle_code: i32,
    pub handle_msg: Option<String>,
}

/// The body of an inbound `run` request.
#[derive(Debug, Default)]
pub struct JobRunParam {
    pub job_id: u64,
    pub log_id: u64,
    pub executor_handler: Option<String>,
    pub executor_params: Option<String>,
    pub executor_block_strategy: Option<String>,
    pub executor_timeout: Option<i32>,
    pub log_date_time: Option<u64>,
    pub glue_type: Option<String>,
    pub glue_source: Option<String>,
    pub glue_update_time: Option<u64>,
    pub broadcast_index: Option<u64>,
    pub broadcast_total: Option<u64>,
}

/// The body of inbound `idleBeat` and `kill` requests.
#[derive(Debug, Default)]
pub struct JobIdleBeatParam {
    pub job_id: u64,
}

/// The response envelope `{code, msg, data}` of every call.
#[derive(Debug)]
pub struct XxlApiResult {
    pub code: i32,
    pub msg: Option<String>,
    pub data: Option<String>,
}

impl XxlApiResult {
    pub open spec fn is_success_spec(&self) -> bool {
        self.code == SUCCESS_CODE
    }

    /// The success envelope with no message and no data.
    pub fn success() -> (r: XxlApiResult)
        ensures
            r.code == SUCCESS_CODE,
            r.msg is None,
            r.data is None,
    {
        XxlApiResult { code: SUCCESS_CODE, msg: None, data: None }
    }

    /// A failure envelope carrying `msg`.
    pub fn fail(msg: Option<String>) -> (r: XxlApiResult)
        ensures
            r.code == FAIL_CODE,
            r.msg == msg,
            r.data is None,
    {
        XxlApiResult { code: FAIL_CODE, msg, data: None }
    }

    /// `code == 200` signals success; any other value a failure.
    pub fn is_success(&self) -> (r: bool)
        ensures
            r == self.is_success_spec(),
    {
        self.code == SUCCESS_CODE
    }
}

} // verus!
