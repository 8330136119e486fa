//! The gateway: the bodies of its requests and responses, and what each of
//! its endpoints decides. The host receives the requests and sends the
//! responses.

use serde_json::Value;
use vstd::prelude::*;

use crate::json::{empty_object, json_object, json_quoted, json_text, quote, to_text};
use crate::store::ResultStore;
use crate::text::{bind_port, decimal, port_or_default};
use crate::tools::{
    api_base_url_text, execute_tool, listen_address_text, outcome_of, text_or, Outcome,
    PendingInjection, ToolError, ToolRequest, ToolResponse, DEFAULT_API_HOST,
};

verus! {

/// The status that the health check reports while the process answers.
pub const HEALTHY: &'static str = "healthy";

/// The body of the health check's response.
#[derive(Debug)]
pub struct HealthResponse {
    pub status: String,
    pub webview_ready: bool,
}

/// The body of a request to run a tool.
#[derive(Debug)]
pub struct ExecuteRequest {
    pub tool: String,
    pub params: Value,
}

/// The envelope that every execution is answered with: the data of a
/// success, or the code and message of a failure.
#[derive(Debug)]
pub struct ExecuteResponse {
    pub success: bool,
    pub data: Option<Value>,
    pub error: Option<ErrorResponse>,
}

/// The error of an envelope.
#[derive(Debug)]
pub struct ErrorResponse {
    pub code: String,
    pub message: String,
}

/// The body of a callback: the outcome `result` of the invocation `id`.
#[derive(Debug)]
pub struct StoreResultRequest {
    pub id: String,
    pub result: Value,
}

/// The body of a request to invoke a named operation. The arguments may be
/// left out.
#[derive(Debug)]
pub struct InvokeRequest {
    pub command: String,
    pub args: Option<Value>,
}

/// `true` or `false`, as JSON writes them.
pub open spec fn bool_text(b: bool) -> Seq<char> {
    if b {
        "true"@
    } else {
        "false"@
    }
}

fn bool_str(b: bool) -> (text: &'static str)
    ensures
        text@ == bool_text(b),
{
    if b {
        "true"
    } else {
        "false"
    }
}

impl HealthResponse {
    /// The response as JSON text.
    pub open spec fn json(&self) -> Seq<char> {
        "{\"status\":"@ + json_quoted(self.status@) + ",\"webview_ready\":"@ + bool_text(
            self.webview_ready,
        ) + "}"@
    }

    /// Writes the response as JSON text, its members in the order `status`,
    /// `webview_ready`.
    pub fn to_json(&self) -> (text: String)
        ensures
            text@ == self.json(),
    {
        let mut text = String::from_str("{\"status\":");
        text.append(quote(self.status.as_str()).as_str());
        text.append(",\"webview_ready\":");
        text.append(bool_str(self.webview_ready));
        text.append("}");
        text
    }
}

impl ErrorResponse {
    /// The error as JSON text.
    pub open spec fn json(&self) -> Seq<char> {
        "{\"code\":"@ + json_quoted(self.code@) + ",\"message\":"@ + json_quoted(self.message@)
            + "}"@
    }

    /// Writes the error as JSON text, its members in the order `code`, `message`.
    pub fn to_json(&self) -> (text: String)
        ensures
            text@ == self.json(),
    {
        let mut text = String::from_str("{\"code\":");
        text.append(quote(self.code.as_str()).as_str());
        text.append(",\"message\":");
        text.append(quote(self.message.as_str()).as_str());
        text.append("}");
        text
    }
}

impl ExecuteResponse {
    /// Whether the envelope is the one for `outcome`: a success carries the
    /// data and no error, a failure the error and no data.
    pub open spec fn carries(&self, outcome: Outcome) -> bool {
        match outcome {
            Outcome::Success { data } => self.success && self.data == Some(data) && self.error
                is None,
            Outcome::Failure { code, message } => !self.success && self.data is None && (
            self.error matches Some(error) && error.code@ == code && error.message@ == message),
        }
    }

    /// The envelope as JSON text. A part that is missing is written as `null`.
    pub open spec fn json(&self) -> Seq<char> {
        "{\"success\":"@ + bool_text(self.success) + ",\"data\":"@ + (match self.data {
            Some(data) => json_text(data),
            None => "null"@,
        }) + ",\"error\":"@ + (match self.error {
            Some(error) => error.json(),
            None => "null"@,
        }) + "}"@
    }

    /// Writes the envelope as JSON text, its members in the order `success`,
    /// `data`, `error`.
    pub fn to_json(&self) -> (text: String)
        ensures
            text@ == self.json(),
    {
        let mut text = String::from_str("{\"success\":");
        text.append(bool_str(self.success));
        text.append(",\"data\":");
        match &self.data {
            Some(data) => text.append(to_text(data).as_str()),
            None => text.append("null"),
        }
        text.append(",\"error\":");
        match &self.error {
            Some(error) => text.append(error.to_json().as_str()),
            None => text.append("null"),
        }
        text.append("}");
        text
    }
}

/// The health check: the process answers, and `webview_ready` tells whether
/// a surface could be found.
pub fn health(webview_ready: bool) -> (response: HealthResponse)
    ensures
        response.status@ == HEALTHY@,
        response.webview_ready == webview_ready,
{
    HealthResponse { status: String::from_str(HEALTHY), webview_ready }
}

/// Begins the invocation that a request to run a tool asks for.
pub fn execute(request: ExecuteRequest, api_host: Option<String>, api_port: Option<String>) -> (pending:
    PendingInjection)
    ensures
        pending.tool() == request.tool@,
        pending.params() == request.params,
        pending.base_url() == api_base_url_text(
            text_or(api_host, DEFAULT_API_HOST@),
            bind_port(api_port),
        ),
{
    execute_tool(ToolRequest { tool: request.tool, params: request.params }, api_host, api_port)
}

/// The parameters that an invocation of a named operation runs with: the
/// arguments of the request, or the empty object where it has none.
pub open spec fn is_invoke_params(args: Option<Value>, params: Value) -> bool {
    match args {
        Some(given) => params == given,
        None => json_object(params) == Some(Map::<Seq<char>, Value>::empty()) && json_text(params)
            == "{}"@,
    }
}

/// Begins the invocation that a request to invoke a named operation asks for.
/// It takes the same path as a request to run a tool, with the command as
/// the tool's name.
pub fn invoke(request: InvokeRequest, api_host: Option<String>, api_port: Option<String>) -> (pending:
    PendingInjection)
    ensures
        pending.tool() == request.command@,
        is_invoke_params(request.args, pending.params()),
        pending.base_url() == api_base_url_text(
            text_or(api_host, DEFAULT_API_HOST@),
            bind_port(api_port),
        ),
{
    let params = match request.args {
        Some(given) => given,
        None => empty_object(),
    };
    execute_tool(ToolRequest { tool: request.command, params }, api_host, api_port)
}

/// The envelope for the result of an invocation.
pub fn respond(result: Result<ToolResponse, ToolError>) -> (response: ExecuteResponse)
    ensures
        response.carries(outcome_of(result)),
{
    match result {
        Ok(found) => ExecuteResponse { success: true, data: Some(found.data), error: None },
        Err(failure) => ExecuteResponse {
            success: false,
            data: None,
            error: Some(ErrorResponse { code: failure.code, message: failure.message }),
        },
    }
}

/// The callback endpoint: stores the outcome under its execution id, in
/// place of whatever was stored under that id before.
pub fn store_result(store: &mut ResultStore, request: StoreResultRequest)
    ensures
        final(store)@ == old(store)@.insert(request.id@, request.result),
{
    store.put(request.id, request.result);
}

/// The address that the gateway binds: the configured host, or the default
/// one; a colon; and the port of the configuration in decimal. Wrapper
/// scripts call back to this address.
pub fn bind_address(host: Option<String>, port: Option<String>) -> (address: String)
    ensures
        address@ == listen_address_text(text_or(host, DEFAULT_API_HOST@), bind_port(port)),
{
    let mut address = match host {
        Some(name) => name,
        None => String::from_str(DEFAULT_API_HOST),
    };
    address.append(":");
    address.append(decimal(port_or_default(port)).as_str());
    address
}

} // verus!
