//! One tool invocation, end to end.
//!
//! An invocation passes through three states, each a type of its own:
//! [`PendingInjection`] until the capability object is known to be installed,
//! [`PendingDispatch`] until the wrapper script has been handed to the
//! surface, and [`Polling`] until the outcome has arrived or the wait is over.
//! The host does what lies between the states (it runs scripts, sleeps, locks
//! the store) and reports how each step went; what follows from each report
//! is decided here.

use serde_json::Value;
use vstd::prelude::*;

use crate::ids::{fresh_execution_id, is_execution_id};
use crate::json::{
    as_bool, as_str, duplicate, json_bool, json_member, json_quoted, json_string, json_text,
    member, quote, to_text,
};
use crate::store::{stored, ResultStore};
use crate::text::{bind_port, decimal, decimal_text, port_or_default};

verus! {

/// The number of polls after which an invocation gives up.
pub const MAX_ATTEMPTS: u32 = 50;

/// The pause between two polls, in milliseconds.
pub const POLL_INTERVAL_MS: u64 = 100;

/// The host of the gateway where none is configured.
pub const DEFAULT_API_HOST: &'static str = "127.0.0.1";

/// The capability object could not be installed.
pub const INSPECTOR_INJECTION_FAILED: &'static str = "INSPECTOR_INJECTION_FAILED";

/// The wrapper script could not be handed to the surface.
pub const EXECUTION_ERROR: &'static str = "EXECUTION_ERROR";

/// The tool ran and reported a failure.
pub const TOOL_ERROR: &'static str = "TOOL_ERROR";

/// No outcome arrived within the wait budget.
pub const TIMEOUT: &'static str = "TIMEOUT";

/// The message of the error that ends a wait without an outcome.
pub const TIMEOUT_MESSAGE: &'static str = "timeout";

/// What precedes the cause in the message of a failed injection.
pub const INJECTION_FAILED_PREFIX: &'static str = "Failed to inject inspector: ";

/// The wrapper script up to the execution id.
pub const SCRIPT_OPENING: &'static str = "\n\
\x20       (async function() {\n\
\x20           const executionId = ";

/// The wrapper script between the execution id and the callback address.
pub const SCRIPT_BEFORE_BASE_URL: &'static str = ";\n\
\x20           const apiBaseUrl = ";

/// The wrapper script between the callback address and the tool's name.
pub const SCRIPT_BEFORE_TOOL: &'static str = ";\n\
\x20           try {\n\
\x20               let result;\n\
\x20               try {\n\
\x20                   const data = await window.__TAURI_DEV_MCP.execute(";

/// The wrapper script between the tool's name and its parameters.
pub const SCRIPT_BEFORE_PARAMS: &'static str = ", ";

/// The wrapper script after the parameters. What the tool returned, or the
/// message of what it threw, becomes the outcome, and one callback posts it.
/// Whatever fails in the callback is swallowed and nothing is thrown again,
/// so that the script never rejects.
pub const SCRIPT_CLOSING: &'static str = ");\n\
\x20                   result = { success: true, data: data };\n\
\x20               } catch (error) {\n\
\x20                   result = {\n\
\x20                       success: false,\n\
\x20                       error: {\n\
\x20                           message: String((error && error.message) || 'Unknown error')\n\
\x20                       }\n\
\x20                   };\n\
\x20               }\n\
\x20               // Send the outcome back via HTTP\n\
\x20               await fetch(apiBaseUrl + '/api/results', {\n\
\x20                   method: 'POST',\n\
\x20                   headers: { 'Content-Type': 'application/json' },\n\
\x20                   body: JSON.stringify({\n\
\x20                       id: executionId,\n\
\x20                       result: result\n\
\x20                   })\n\
\x20               });\n\
\x20           } catch (ignored) {\n\
\x20               // The callback itself failed: there is nobody to tell\n\
\x20           }\n\
\x20       })();\n\
\x20       ";

/// A request to run the tool `tool` with the parameters `params`.
#[derive(Debug)]
pub struct ToolRequest {
    pub tool: String,
    pub params: Value,
}

/// What a tool returned.
#[derive(Debug)]
pub struct ToolResponse {
    pub data: Value,
}

/// Why an invocation produced no data: one of the four codes, and a message.
#[derive(Debug)]
pub struct ToolError {
    pub code: String,
    pub message: String,
}

/// The outcome of an invocation: the data of a success, or the code and
/// message of a failure.
pub enum Outcome {
    Success { data: Value },
    Failure { code: Seq<char>, message: Seq<char> },
}

/// The outcome that a result stands for.
pub open spec fn outcome_of(result: Result<ToolResponse, ToolError>) -> Outcome {
    match result {
        Ok(response) => Outcome::Success { data: response.data },
        Err(error) => Outcome::Failure { code: error.code@, message: error.message@ },
    }
}

/// The text of `configured`, or `fallback` where nothing is configured.
pub open spec fn text_or(configured: Option<String>, fallback: Seq<char>) -> Seq<char> {
    match configured {
        Some(text) => text@,
        None => fallback,
    }
}

/// The address that the gateway listens on: the host, a colon, the port in
/// decimal.
pub open spec fn listen_address_text(host: Seq<char>, port: u16) -> Seq<char> {
    host + ":"@ + decimal_text(port as nat)
}

/// The address that wrapper scripts call back to: `http://`, the host, a
/// colon, the port in decimal.
pub open spec fn api_base_url_text(host: Seq<char>, port: u16) -> Seq<char> {
    "http://"@ + host + ":"@ + decimal_text(port as nat)
}

/// The callback goes to the gateway: the address that wrapper scripts call
/// back to is `http://` and the address that the gateway listens on.
pub proof fn lemma_callback_reaches_gateway(host: Seq<char>, port: u16)
    ensures
        api_base_url_text(host, port) == "http://"@ + listen_address_text(host, port),
{
    assert(api_base_url_text(host, port) =~= "http://"@ + listen_address_text(host, port));
}

/// The callback address under the configured host and port. A missing host
/// gives way to the default one. The port is the one that the gateway
/// listens on: the configured one where it is a port number, and else the
/// default.
pub fn api_base_url(host: Option<String>, port: Option<String>) -> (url: String)
    ensures
        url@ == api_base_url_text(text_or(host, DEFAULT_API_HOST@), bind_port(port)),
{
    let mut url = String::from_str("http://");
    match host {
        Some(name) => url.append(name.as_str()),
        None => url.append(DEFAULT_API_HOST),
    }
    url.append(":");
    url.append(decimal(port_or_default(port)).as_str());
    url
}

/// The wrapper script of one invocation. It calls the capability object with
/// the tool's name and parameters, then posts the outcome (the data of a
/// success, or the message of a failure) under the execution id to the
/// result endpoint of the gateway at `api_base_url`. The id, the address and
/// the tool's name stand in it as JSON string literals, which are string
/// literals of JavaScript too, so that the script holds each of them as it
/// was given, whatever characters it has. `params` is the JSON text of the
/// parameters and stands in it as an expression.
pub open spec fn wrapper_script_text(
    execution_id: Seq<char>,
    api_base_url: Seq<char>,
    tool: Seq<char>,
    params: Seq<char>,
) -> Seq<char> {
    SCRIPT_OPENING@ + json_quoted(execution_id) + SCRIPT_BEFORE_BASE_URL@ + json_quoted(
        api_base_url,
    ) + SCRIPT_BEFORE_TOOL@ + json_quoted(tool) + SCRIPT_BEFORE_PARAMS@ + params + SCRIPT_CLOSING@
}

/// Builds the wrapper script. The id, the address and the tool's name are
/// written as string literals, with quotes, backslashes and control
/// characters escaped; `params` is inserted as it is.
pub fn wrapper_script(execution_id: &str, api_base_url: &str, tool: &str, params: &str) -> (script:
    String)
    ensures
        script@ == wrapper_script_text(execution_id@, api_base_url@, tool@, params@),
{
    let mut script = String::from_str(SCRIPT_OPENING);
    script.append(quote(execution_id).as_str());
    script.append(SCRIPT_BEFORE_BASE_URL);
    script.append(quote(api_base_url).as_str());
    script.append(SCRIPT_BEFORE_TOOL);
    script.append(quote(tool).as_str());
    script.append(SCRIPT_BEFORE_PARAMS);
    script.append(params);
    script.append(SCRIPT_CLOSING);
    script
}

/// Whether the payload of a callback says that the tool succeeded: the
/// boolean under `success`, where the payload is an object that has one.
pub open spec fn payload_success(payload: Value) -> Option<bool> {
    match json_member(payload, "success"@) {
        Some(flag) => json_bool(flag),
        None => None,
    }
}

/// The message of the failure that a payload reports: the string under
/// `message` of the object under `error`, where the payload has both.
pub open spec fn payload_error_message(payload: Value) -> Option<Seq<char>> {
    match json_member(payload, "error"@) {
        Some(error) => match json_member(error, "message"@) {
            Some(message) => json_string(message),
            None => None,
        },
        None => None,
    }
}

/// The outcome that a callback payload stands for, given what was read of it.
/// A success needs its data and a failure its message; a payload of any other
/// shape is itself handed on as the data of a success.
pub open spec fn classify_outcome(
    success: Option<bool>,
    data: Option<Value>,
    error_message: Option<Seq<char>>,
    raw: Value,
) -> Outcome {
    if success == Some(true) && data is Some {
        Outcome::Success { data: data->0 }
    } else if success == Some(false) && error_message is Some {
        Outcome::Failure { code: TOOL_ERROR@, message: error_message->0 }
    } else {
        Outcome::Success { data: raw }
    }
}

/// The outcome that the callback payload `payload` stands for.
pub open spec fn payload_outcome(payload: Value) -> Outcome {
    classify_outcome(
        payload_success(payload),
        json_member(payload, "data"@),
        payload_error_message(payload),
        payload,
    )
}

/// The outcome of a wait that ended without a callback.
pub open spec fn timeout_outcome() -> Outcome {
    Outcome::Failure { code: TIMEOUT@, message: TIMEOUT_MESSAGE@ }
}

/// Classifies a callback payload from what was read of it: `success` is its
/// success flag, `data` its data member, `error_message` the message of its
/// error, each absent where the payload has no such part, and `raw` is the
/// payload itself.
pub fn classify(
    success: Option<bool>,
    data: Option<Value>,
    error_message: Option<String>,
    raw: Value,
) -> (result: Result<ToolResponse, ToolError>)
    ensures
        outcome_of(result) == classify_outcome(
            success,
            data,
            match error_message {
                Some(message) => Some(message@),
                None => None,
            },
            raw,
        ),
{
    match success {
        Some(true) => match data {
            Some(value) => Ok(ToolResponse { data: value }),
            None => Ok(ToolResponse { data: raw }),
        },
        Some(false) => match error_message {
            Some(message) => Err(ToolError { code: String::from_str(TOOL_ERROR), message }),
            None => Ok(ToolResponse { data: raw }),
        },
        None => Ok(ToolResponse { data: raw }),
    }
}

/// Classifies the callback payload that was found in the result store.
pub fn interpret_payload(payload: Value) -> (result: Result<ToolResponse, ToolError>)
    ensures
        outcome_of(result) == payload_outcome(payload),
{
    let success = match member(&payload, "success") {
        Some(flag) => as_bool(flag),
        None => None,
    };
    let data = match success {
        Some(true) => match member(&payload, "data") {
            Some(value) => Some(duplicate(value)),
            None => None,
        },
        _ => None,
    };
    let error_message = match success {
        Some(false) => match member(&payload, "error") {
            Some(error) => match member(error, "message") {
                Some(message) => match as_str(message) {
                    Some(text) => Some(String::from_str(text)),
                    None => None,
                },
                None => None,
            },
            None => None,
        },
        _ => None,
    };
    classify(success, data, error_message, payload)
}

/// An invocation that waits for the capability object to be installed.
pub struct PendingInjection {
    request: ToolRequest,
    api_base_url: String,
}

/// An invocation that has its execution id and waits for its wrapper script
/// to be handed to the surface.
pub struct PendingDispatch {
    execution_id: String,
    script: String,
}

/// An invocation whose wrapper script is on its way, and which looks into the
/// result store until its outcome is there or its polls are used up.
pub struct Polling {
    execution_id: String,
    attempts: u32,
}

/// What follows from one poll.
pub enum PollStep {
    /// The invocation is over, with this result.
    Finished(Result<ToolResponse, ToolError>),
    /// Nothing was there: pause for `millis` milliseconds, then poll as `next`.
    Wait { next: Polling, millis: u64 },
}

/// A [`PollStep`] as the contracts speak of it.
pub enum PollStepView {
    Finished { outcome: Outcome },
    Wait { execution_id: Seq<char>, attempts: nat, millis: nat },
}

impl View for PollStep {
    type V = PollStepView;

    open spec fn view(&self) -> PollStepView {
        match self {
            PollStep::Finished(result) => PollStepView::Finished { outcome: outcome_of(*result) },
            PollStep::Wait { next, millis } => PollStepView::Wait {
                execution_id: next.id(),
                attempts: next.polls(),
                millis: *millis as nat,
            },
        }
    }
}

/// What follows from one poll of the invocation `execution_id` that has
/// missed `attempts` times before: the classified payload where one was
/// found; else the timeout where this was the last poll of the budget; else
/// a pause and one more poll.
pub open spec fn observe_spec(execution_id: Seq<char>, attempts: nat, found: Option<Value>) -> PollStepView {
    match found {
        Some(payload) => PollStepView::Finished { outcome: payload_outcome(payload) },
        None => if attempts + 1 >= MAX_ATTEMPTS {
            PollStepView::Finished { outcome: timeout_outcome() }
        } else {
            PollStepView::Wait {
                execution_id,
                attempts: attempts + 1,
                millis: POLL_INTERVAL_MS as nat,
            }
        },
    }
}

/// Begins an invocation of `request`. `api_host` and `api_port` are the
/// configured host and port of the gateway, where there are any; the wrapper
/// script will call back to the address that the gateway listens on. Nothing has
/// happened in the surface yet: the host now makes sure that the capability
/// object is installed and reports with [`PendingInjection::injected`].
pub fn execute_tool(request: ToolRequest, api_host: Option<String>, api_port: Option<String>) -> (pending:
    PendingInjection)
    ensures
        pending.tool() == request.tool@,
        pending.params() == request.params,
        pending.base_url() == api_base_url_text(
            text_or(api_host, DEFAULT_API_HOST@),
            bind_port(api_port),
        ),
{
    PendingInjection { request, api_base_url: api_base_url(api_host, api_port) }
}

impl PendingInjection {
    /// The name of the tool to run.
    pub closed spec fn tool(&self) -> Seq<char> {
        self.request.tool@
    }

    /// The parameters to run it with.
    pub closed spec fn params(&self) -> Value {
        self.request.params
    }

    /// The address that the wrapper script will call back to.
    pub closed spec fn base_url(&self) -> Seq<char> {
        self.api_base_url@
    }

    /// Gives the invocation the id `execution_id` and builds its wrapper
    /// script, around that id, the callback address, the tool's name and the
    /// compact JSON text of the parameters.
    pub fn with_execution_id(self, execution_id: String) -> (dispatch: PendingDispatch)
        ensures
            dispatch.id() == execution_id@,
            dispatch.script_text() == wrapper_script_text(
                execution_id@,
                self.base_url(),
                self.tool(),
                json_text(self.params()),
            ),
    {
        let params = to_text(&self.request.params);
        let script = wrapper_script(
            execution_id.as_str(),
            self.api_base_url.as_str(),
            self.request.tool.as_str(),
            params.as_str(),
        );
        PendingDispatch { execution_id, script }
    }

    /// Takes the report on the injection of the capability object. After a
    /// failure the invocation is over, with `INSPECTOR_INJECTION_FAILED` and
    /// the cause in the message, and no execution id has been drawn. After a
    /// success it has a fresh execution id and its wrapper script, which the
    /// host now dispatches.
    pub fn injected(self, outcome: Result<(), String>) -> (next: Result<PendingDispatch, ToolError>)
        ensures
            match outcome {
                Ok(_) => next matches Ok(dispatch) && is_execution_id(dispatch.id())
                    && dispatch.script_text() == wrapper_script_text(
                    dispatch.id(),
                    self.base_url(),
                    self.tool(),
                    json_text(self.params()),
                ),
                Err(cause) => next matches Err(error) && error.code@ == INSPECTOR_INJECTION_FAILED@
                    && error.message@ == INJECTION_FAILED_PREFIX@ + cause@,
            },
    {
        match outcome {
            Ok(_) => Ok(self.with_execution_id(fresh_execution_id())),
            Err(cause) => {
                let mut message = String::from_str(INJECTION_FAILED_PREFIX);
                message.append(cause.as_str());
                Err(ToolError { code: String::from_str(INSPECTOR_INJECTION_FAILED), message })
            },
        }
    }
}

impl PendingDispatch {
    /// The execution id of the invocation.
    pub closed spec fn id(&self) -> Seq<char> {
        self.execution_id@
    }

    /// The wrapper script of the invocation.
    pub closed spec fn script_text(&self) -> Seq<char> {
        self.script@
    }

    /// The execution id of the invocation.
    pub fn execution_id(&self) -> (id: &str)
        ensures
            id@ == self.id(),
    {
        self.execution_id.as_str()
    }

    /// The wrapper script, which the host hands to the surface without
    /// waiting for what it returns.
    pub fn script(&self) -> (script: &str)
        ensures
            script@ == self.script_text(),
    {
        self.script.as_str()
    }

    /// Takes the report on the dispatch of the wrapper script. After a
    /// failure the invocation is over, with `EXECUTION_ERROR` and the cause as
    /// the message, and nothing is polled. After a success the invocation
    /// polls under the same id, with no poll made yet and the first one due
    /// at once.
    pub fn dispatched(self, outcome: Result<(), String>) -> (next: Result<Polling, ToolError>)
        ensures
            match outcome {
                Ok(_) => next matches Ok(polling) && polling.id() == self.id() && polling.polls()
                    == 0,
                Err(cause) => next matches Err(error) && error.code@ == EXECUTION_ERROR@
                    && error.message@ == cause@,
            },
    {
        match outcome {
            Ok(_) => Ok(Polling { execution_id: self.execution_id, attempts: 0 }),
            Err(cause) => Err(ToolError { code: String::from_str(EXECUTION_ERROR), message: cause }),
        }
    }
}

impl Polling {
    #[verifier::type_invariant]
    spec fn within_budget(&self) -> bool {
        self.attempts < MAX_ATTEMPTS
    }

    /// The execution id of the invocation.
    pub closed spec fn id(&self) -> Seq<char> {
        self.execution_id@
    }

    /// The number of polls that found nothing so far.
    pub closed spec fn polls(&self) -> nat {
        self.attempts as nat
    }

    /// The execution id of the invocation.
    pub fn execution_id(&self) -> (id: &str)
        ensures
            id@ == self.id(),
    {
        self.execution_id.as_str()
    }

    /// The number of polls that found nothing so far, always below
    /// [`MAX_ATTEMPTS`].
    pub fn attempts(&self) -> (n: u32)
        ensures
            n == self.polls(),
            n < MAX_ATTEMPTS,
    {
        proof {
            use_type_invariant(self);
        }
        self.attempts
    }

    /// Takes what one look into the result store found under the execution
    /// id: `found` is the entry, or `None` where there was none or the store
    /// could not be read. An entry ends the invocation with the outcome it
    /// stands for. Without one, the poll that uses up the budget ends it with
    /// `TIMEOUT`, and every earlier one asks for a pause and one more poll.
    pub fn observe(self, found: Option<Value>) -> (step: PollStep)
        ensures
            step@ == observe_spec(self.id(), self.polls(), found),
    {
        proof {
            use_type_invariant(&self);
        }
        match found {
            Some(payload) => PollStep::Finished(interpret_payload(payload)),
            None => {
                let attempts = self.attempts + 1;
                if attempts >= MAX_ATTEMPTS {
                    PollStep::Finished(
                        Err(
                            ToolError {
                                code: String::from_str(TIMEOUT),
                                message: String::from_str(TIMEOUT_MESSAGE),
                            },
                        ),
                    )
                } else {
                    PollStep::Wait {
                        next: Polling { execution_id: self.execution_id, attempts },
                        millis: POLL_INTERVAL_MS,
                    }
                }
            },
        }
    }

    /// Looks into `store` for the outcome of this invocation and takes what
    /// follows, as [`Polling::observe`] does. An entry under the execution id
    /// is consumed; every other entry stays as it is.
    pub fn poll(self, store: &mut ResultStore) -> (step: PollStep)
        ensures
            step@ == observe_spec(self.id(), self.polls(), stored(old(store)@, self.id())),
            final(store)@ == old(store)@.remove(self.id()),
    {
        let found = store.take_if_present(self.execution_id.as_str());
        self.observe(found)
    }
}

/// Whether the invocation `execution_id` is still waiting after `misses`
/// polls in a row, from the first one on, have found nothing.
pub open spec fn waiting_after(execution_id: Seq<char>, misses: nat) -> bool
    decreases misses,
{
    if misses == 0 {
        true
    } else {
        waiting_after(execution_id, (misses - 1) as nat) && observe_spec(
            execution_id,
            (misses - 1) as nat,
            None,
        ) is Wait
    }
}

/// The wait is as long as the budget and no longer: where no callback ever
/// arrives, each of the first `MAX_ATTEMPTS - 1` polls asks for a pause of
/// `POLL_INTERVAL_MS` and one more poll, and the poll after those, the one
/// numbered `MAX_ATTEMPTS`, ends the invocation with `TIMEOUT`.
pub proof fn lemma_timeout_at_ceiling(execution_id: Seq<char>, misses: nat)
    ensures
        misses < MAX_ATTEMPTS ==> waiting_after(execution_id, misses),
        misses < MAX_ATTEMPTS - 1 ==> observe_spec(execution_id, misses, None)
            == (PollStepView::Wait {
            execution_id,
            attempts: misses + 1,
            millis: POLL_INTERVAL_MS as nat,
        }),
        observe_spec(execution_id, (MAX_ATTEMPTS - 1) as nat, None) == (PollStepView::Finished {
            outcome: timeout_outcome(),
        }),
        misses >= MAX_ATTEMPTS ==> !waiting_after(execution_id, misses),
    decreases misses,
{
    if misses > 0 {
        lemma_timeout_at_ceiling(execution_id, (misses - 1) as nat);
    }
}

/// Polls of different invocations do not meet: a poll for `other` leaves the
/// entry of `execution_id` in the store, so that the next poll for
/// `execution_id` decides as if the other poll had not happened.
pub proof fn lemma_polls_do_not_cross(
    entries: Map<Seq<char>, Value>,
    execution_id: Seq<char>,
    other: Seq<char>,
    attempts: nat,
)
    requires
        execution_id != other,
    ensures
        observe_spec(execution_id, attempts, stored(entries.remove(other), execution_id))
            == observe_spec(execution_id, attempts, stored(entries, execution_id)),
{
}


} // verus!
