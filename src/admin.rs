//! The coordinator channel: the address list and headers of outbound
//! calls, the records they carry, the first-success fan-out over the
//! addresses, and the heartbeat and shutdown protocol.
//!
//! Nothing here touches the network. Each decision is a function from
//! state and outcome to the next step, which the caller performs.
use vstd::prelude::*;
use crate::client_config::{advertised_addr, ClientConfig};
use crate::model::{CallbackParam, RegistryParam, XxlError, EXECUTOR_GROUP, SUCCESS_CODE};
use crate::text::{address_list, split_addresses, texts};

verus! {

/// Header that carries the access token.
pub const ACCESS_TOKEN_HEADER: &'static str = "XXL-JOB-ACCESS-TOKEN";

/// `User-Agent` of outbound calls.
pub const USER_AGENT: &'static str = "xxljob-sdk-rs/0.1.0";

/// Time allowed to each outbound call to one address.
pub const REQUEST_TIMEOUT_MS: u64 = 3000;

/// Pause between the end of one heartbeat registration and the next.
pub const HEARTBEAT_INTERVAL_MS: u64 = 29500;

/// Path of the registration call, under `<address>/api/`.
pub const REGISTRY_PATH: &'static str = "registry";

/// Path of the deregistration call.
pub const REGISTRY_REMOVE_PATH: &'static str = "registryRemove";

/// Path of the result report call.
pub const CALLBACK_PATH: &'static str = "callback";

/// The texts of a header list.
pub open spec fn header_texts(h: Seq<(String, String)>) -> Seq<(Seq<char>, Seq<char>)> {
    h.map_values(|p: (String, String)| (p.0@, p.1@))
}

/// The headers of every outbound call: with a configured token, the token,
/// the JSON content type and the user agent; without one, none.
pub open spec fn outbound_headers(token: Seq<char>) -> Seq<(Seq<char>, Seq<char>)> {
    if token.len() == 0 {
        Seq::empty()
    } else {
        seq![
            ("XXL-JOB-ACCESS-TOKEN"@, token),
            ("Content-Type"@, "application/json"@),
            ("User-Agent"@, "xxljob-sdk-rs/0.1.0"@),
        ]
    }
}

/// The success report of the trigger with `log_id`, stamped `now_ms`.
pub fn callback_success(log_id: u64, now_ms: i64) -> (r: CallbackParam)
    ensures
        r == (CallbackParam { log_id, log_date_tim: now_ms, handle_code: SUCCESS_CODE, handle_msg: None }),
{
    CallbackParam { log_id, log_date_tim: now_ms, handle_code: SUCCESS_CODE, handle_msg: None }
}

/// The report of the trigger with `log_id` with the given code and
/// message, stamped `now_ms`.
pub fn callback(log_id: u64, handle_code: i32, handle_msg: Option<String>, now_ms: i64) -> (r: CallbackParam)
    ensures
        r == (CallbackParam { log_id, log_date_tim: now_ms, handle_code, handle_msg }),
{
    CallbackParam { log_id, log_date_tim: now_ms, handle_code, handle_msg }
}

/// The next step of one outbound call that fans out over the addresses.
#[derive(Debug)]
pub enum RequestStep {
    /// Post the body to the address at this index.
    Send(usize),
    /// The call is over with this outcome.
    Done(Result<(), XxlError>),
}

/// The coordinator addresses and headers, ready for outbound calls.
#[derive(Debug)]
pub struct AdminClient {
    client_config: ClientConfig,
    addrs: Vec<String>,
    headers: Vec<(String, String)>,
}

impl AdminClient {
    /// The coordinator addresses, in configured order.
    pub closed spec fn addresses(&self) -> Seq<Seq<char>> {
        texts(self.addrs@)
    }

    pub closed spec fn config(&self) -> ClientConfig {
        self.client_config
    }

    pub closed spec fn header_list(&self) -> Seq<(Seq<char>, Seq<char>)> {
        header_texts(self.headers@)
    }

    /// Reads the comma-separated address list of `client_config`; an empty
    /// list string is a configuration error.
    pub fn new(client_config: ClientConfig) -> (r: Result<AdminClient, XxlError>)
        ensures
            client_config.server_address@.len() == 0 <==> r is Err,
            r matches Err(e) ==> e == XxlError::ConfigError,
            r matches Ok(c) ==> {
                &&& c.addresses() == address_list(client_config.server_address@)
                &&& c.header_list() == outbound_headers(client_config.access_token@)
                &&& c.config() == client_config
            },
    {
        if client_config.server_address.as_str().is_empty() {
            return Err(XxlError::ConfigError);
        }
        let addrs = split_addresses(client_config.server_address.as_str());
        let mut headers: Vec<(String, String)> = Vec::new();
        if !client_config.access_token.as_str().is_empty() {
            headers.push((String::from_str(ACCESS_TOKEN_HEADER), client_config.access_token.clone()));
            headers.push((String::from_str("Content-Type"), String::from_str("application/json")));
            headers.push((String::from_str("User-Agent"), String::from_str(USER_AGENT)));
        }
        proof {
            assert(header_texts(headers@) =~= outbound_headers(client_config.access_token@));
        }
        Ok(AdminClient { client_config, addrs, headers })
    }

    pub fn client_config(&self) -> (r: &ClientConfig)
        ensures
            *r == self.config(),
    {
        &self.client_config
    }

    pub fn addrs(&self) -> (r: &Vec<String>)
        ensures
            texts(r@) == self.addresses(),
    {
        &self.addrs
    }

    pub fn headers(&self) -> (r: &Vec<(String, String)>)
        ensures
            header_texts(r@) == self.header_list(),
    {
        &self.headers
    }

    /// The record that announces (or removes) this executor: its app name
    /// in the executor group, at its advertised address.
    pub fn registry_param(&self) -> (r: RegistryParam)
        ensures
            r.registry_group@ == EXECUTOR_GROUP@,
            r.registry_key@ == self.config().app_name@,
            r.registry_value@ == advertised_addr(self.config().ip@, self.config().port),
    {
        RegistryParam {
            registry_group: String::from_str(EXECUTOR_GROUP),
            registry_key: self.client_config.app_name.clone(),
            registry_value: self.client_config.get_advertised_addr(),
        }
    }

    /// The URL of call `sub_url` at the address with index `i`.
    pub fn url(&self, i: usize, sub_url: &str) -> (r: String)
        requires
            i < self.addresses().len(),
        ensures
            r@ == self.addresses()[i as int] + "/api/"@ + sub_url@,
    {
        let mut u = self.addrs[i].clone();
        u.append("/api/");
        u.append(sub_url);
        u
    }

    /// The first step of a call: the first address, or failure when there
    /// is none.
    pub fn request_start(&self) -> (r: RequestStep)
        ensures
            self.addresses().len() > 0 ==> r == RequestStep::Send(0),
            self.addresses().len() == 0 ==> r == RequestStep::Done(Err(XxlError::TransportError)),
    {
        proof {
            assert(self.addrs@.len() == self.addresses().len());
        }
        if self.addrs.len() > 0 {
            RequestStep::Send(0)
        } else {
            RequestStep::Done(Err(XxlError::TransportError))
        }
    }

    /// The step after address `sent` answered (`accepted`: with a success
    /// envelope) or failed: stop at the first success, else go on to the
    /// next address, and fail once every address has failed. No address is
    /// tried twice within one call.
    pub fn request_next(&self, sent: usize, accepted: bool) -> (r: RequestStep)
        requires
            sent < self.addresses().len(),
        ensures
            accepted ==> r == RequestStep::Done(Ok(())),
            !accepted && sent + 1 < self.addresses().len() ==> r == RequestStep::Send((sent + 1) as usize),
            !accepted && sent + 1 >= self.addresses().len() ==> r == RequestStep::Done(
                Err(XxlError::TransportError),
            ),
    {
        proof {
            assert(self.addrs@.len() == self.addresses().len());
        }
        if accepted {
            RequestStep::Done(Ok(()))
        } else if sent < self.addrs.len() - 1 {
            RequestStep::Send(sent + 1)
        } else {
            RequestStep::Done(Err(XxlError::TransportError))
        }
    }
}

/// The lifecycle of the coordinator channel.
#[derive(Clone, Copy, Debug, PartialEq, Eq, Structural)]
pub enum AccessState {
    Created,
    /// Registered, with the heartbeat active.
    Running,
    /// Deregistration in flight; no more heartbeats.
    Draining,
    Stopped,
}

/// Requests to the coordinator channel.
#[derive(Debug)]
pub enum ServerAccessActorReq {
    Stop,
    CallBack(Vec<CallbackParam>),
}

/// The channel's answer to a request: it was taken.
#[derive(Clone, Copy, Debug, PartialEq, Eq, Structural)]
pub enum ServerAccessActorResult {
    Accepted,
}

/// What the channel asks its driver to do next.
#[derive(Debug)]
pub enum AccessAction {
    Idle,
    /// Register now; once that call resolves, tick again after this pause.
    Register(u64),
    /// Deregister now, and report back when the call resolves.
    Deregister,
    /// Send these reports.
    SendCallback(Vec<CallbackParam>),
    /// Let the channel's task end.
    Terminate,
}

/// The state machine of registration, heartbeat and shutdown.
#[derive(Debug)]
pub struct ServerAccessActor {
    state: AccessState,
}

impl View for ServerAccessActor {
    type V = AccessState;

    closed spec fn view(&self) -> AccessState {
        self.state
    }
}

impl ServerAccessActor {
    pub fn new() -> (r: ServerAccessActor)
        ensures
            r@ == AccessState::Created,
    {
        ServerAccessActor { state: AccessState::Created }
    }

    pub fn state(&self) -> (r: AccessState)
        ensures
            r == self@,
    {
        self.state
    }

    /// Start: register at once and begin the heartbeat.
    pub fn inject(&mut self) -> (r: AccessAction)
        ensures
            old(self)@ == AccessState::Created ==> final(self)@ == AccessState::Running
                && r == AccessAction::Register(HEARTBEAT_INTERVAL_MS),
            old(self)@ != AccessState::Created ==> final(self)@ == old(self)@ && r == AccessAction::Idle,
    {
        if self.state == AccessState::Created {
            self.state = AccessState::Running;
            AccessAction::Register(HEARTBEAT_INTERVAL_MS)
        } else {
            AccessAction::Idle
        }
    }

    /// A heartbeat tick: re-register while running; once draining has
    /// begun no heartbeat is scheduled again.
    pub fn registry_heartbeat(&mut self) -> (r: AccessAction)
        ensures
            final(self)@ == old(self)@,
            old(self)@ == AccessState::Running ==> r == AccessAction::Register(HEARTBEAT_INTERVAL_MS),
            old(self)@ != AccessState::Running ==> r == AccessAction::Idle,
    {
        if self.state == AccessState::Running {
            AccessAction::Register(HEARTBEAT_INTERVAL_MS)
        } else {
            AccessAction::Idle
        }
    }

    /// A request: `Stop` begins draining with a deregistration (once);
    /// `CallBack` forwards the reports in any state.
    pub fn handle(&mut self, msg: ServerAccessActorReq) -> (r: (ServerAccessActorResult, AccessAction))
        ensures
            r.0 == ServerAccessActorResult::Accepted,
            msg matches ServerAccessActorReq::CallBack(p) ==> final(self)@ == old(self)@
                && r.1 == AccessAction::SendCallback(p),
            msg is Stop && (old(self)@ == AccessState::Created || old(self)@ == AccessState::Running)
                ==> final(self)@ == AccessState::Draining && r.1 == AccessAction::Deregister,
            msg is Stop && (old(self)@ == AccessState::Draining || old(self)@ == AccessState::Stopped)
                ==> final(self)@ == old(self)@ && r.1 == AccessAction::Idle,
    {
        match msg {
            ServerAccessActorReq::CallBack(params) => {
                (ServerAccessActorResult::Accepted, AccessAction::SendCallback(params))
            },
            ServerAccessActorReq::Stop => {
                let action = self.stop();
                (ServerAccessActorResult::Accepted, action)
            },
        }
    }

    fn stop(&mut self) -> (r: AccessAction)
        ensures
            old(self)@ == AccessState::Created || old(self)@ == AccessState::Running ==> final(self)@
                == AccessState::Draining && r == AccessAction::Deregister,
            old(self)@ == AccessState::Draining || old(self)@ == AccessState::Stopped ==> final(self)@
                == old(self)@ && r == AccessAction::Idle,
    {
        match self.state {
            AccessState::Created | AccessState::Running => {
                self.state = AccessState::Draining;
                AccessAction::Deregister
            },
            _ => AccessAction::Idle,
        }
    }

    /// The deregistration resolved, with success or failure alike: the
    /// channel may now end.
    pub fn deregister_done(&mut self) -> (r: AccessAction)
        ensures
            old(self)@ == AccessState::Draining ==> final(self)@ == AccessState::Stopped
                && r == AccessAction::Terminate,
            old(self)@ != AccessState::Draining ==> final(self)@ == old(self)@ && r == AccessAction::Idle,
    {
        if self.state == AccessState::Draining {
            self.state = AccessState::Stopped;
            AccessAction::Terminate
        } else {
            AccessAction::Idle
        }
    }

    /// The channel's task is asked to end. While running it keeps going
    /// (`true`) and first deregisters; otherwise it may end (`false`).
    pub fn stopping(&mut self) -> (r: (bool, AccessAction))
        ensures
            old(self)@ == AccessState::Running ==> final(self)@ == AccessState::Draining && r.0
                && r.1 == AccessAction::Deregister,
            old(self)@ != AccessState::Running ==> final(self)@ == old(self)@ && !r.0 && r.1
                == AccessAction::Idle,
    {
        if self.state == AccessState::Running {
            let action = self.stop();
            (true, action)
        } else {
            (false, AccessAction::Idle)
        }
    }
}

} // verus!
