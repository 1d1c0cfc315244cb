//! The REST adapter's logic: validate the decoded JSON body, build the
//! request's log event, and answer — 200 with the placeholder execution
//! result on a well-formed body, 400 with a structured error body when
//! the required tool name is missing. Reading the HTTP request and
//! sending the reply sit outside this crate.

use vstd::prelude::*;
use crate::correlate::{begin_request, log_event, resolved_id, LogEvent, LogLevel};
use crate::errors::{argument_error_text, ArgumentError, GatewayError};

verus! {

/// The REST request body with its fields already read from JSON; an
/// absent field arrives as `None`.
pub struct RestRequest {
    pub tool_name: Option<String>,
    pub code: Option<String>,
}

/// The REST reply's body: the placeholder execution result, or a
/// structured error.
pub enum RestBody {
    Success { tool_status: String, result: i32 },
    Error { error: String },
}

/// One REST reply: the HTTP status, the body, and the log event the
/// request produced on its way through.
pub struct RestReply {
    pub http_status: u16,
    pub body: RestBody,
    pub log: LogEvent,
}

/// A well-formed body names the tool to run.
pub open spec fn has_tool_name(r: RestRequest) -> bool {
    r.tool_name matches Some(n) && n@.len() > 0
}

/// The REST adapter's error mapping: argument errors are the client's
/// fault and become 400; dispatch failures are the server's and become
/// 500.
pub fn http_status_for(e: &GatewayError) -> (s: u16)
    ensures
        e is Argument ==> s == 400,
        e is Dispatch ==> s == 500,
{
    match e {
        GatewayError::Argument(_) => 400,
        GatewayError::Dispatch(_) => 500,
    }
}

/// `POST /api/v1/execute_tool`: derive the correlation context, validate
/// the body, log the request under its own id, and answer. A body that
/// names a tool gets 200 with the fixed placeholder result; a body whose
/// tool name is missing or empty gets 400 and never a placeholder result.
pub fn execute_tool(header_request_id: Option<String>, payload: RestRequest) -> (r: RestReply)
    ensures
        has_tool_name(payload) ==> (r.http_status == 200 && (r.body matches RestBody::Success {
            tool_status,
            result,
        } && tool_status@ == "executed"@ && result == 42)),
        !has_tool_name(payload) ==> (r.http_status == 400 && (r.body matches RestBody::Error {
            error,
        } && error@ == "missing required field: tool_name"@)),
        r.log.request_id@ == resolved_id(header_request_id),
        r.log.method@ == "POST"@,
        r.log.path@ == "/api/v1/execute_tool"@,
        has_tool_name(payload) ==> (r.log.level is Info && (payload.tool_name matches Some(n)
            && r.log.tool_name@ == n@) && r.log.message@ == "Simulating secure tool execution."@),
        !has_tool_name(payload) ==> (r.log.level is Error && r.log.tool_name@ == ""@
            && r.log.message@ == "Rejecting request without a tool name."@),
{
    let ctx = begin_request(header_request_id);
    let named: Option<String> = match payload.tool_name {
        Some(n) => if n.as_str().is_empty() {
            None
        } else {
            Some(n)
        },
        None => None,
    };
    match named {
        Some(name) => {
            let log = log_event(
                LogLevel::Info,
                &ctx,
                "POST",
                "/api/v1/execute_tool",
                name.as_str(),
                "Simulating secure tool execution.",
            );
            RestReply {
                http_status: 200,
                body: RestBody::Success { tool_status: "executed".to_owned(), result: 42 },
                log,
            }
        },
        None => {
            let err = ArgumentError::MissingField("tool_name".to_owned());
            let error = argument_error_text(&err);
            let http_status = http_status_for(&GatewayError::Argument(err));
            proof {
                reveal_strlit("missing required field: ");
                reveal_strlit("tool_name");
                reveal_strlit("missing required field: tool_name");
                assert(error@ =~= "missing required field: tool_name"@);
            }
            let log = log_event(
                LogLevel::Error,
                &ctx,
                "POST",
                "/api/v1/execute_tool",
                "",
                "Rejecting request without a tool name.",
            );
            RestReply { http_status, body: RestBody::Error { error }, log }
        },
    }
}

} // verus!
