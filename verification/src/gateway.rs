//! The RPC adapter's logic: decoding the `ExecuteTool` request into the
//! transport-agnostic invocation form, mapping failures onto RPC status
//! codes, and serializing the collaborator's result onto the response
//! message. The transport itself (the RPC server plumbing and the await
//! on the execution collaborator) sits outside this crate; it feeds these
//! functions plain values and carries their answers back out.

use vstd::prelude::*;
use vstd::string::StringExecFns;
use crate::codec::{blank, json_parse_diag, json_wf, decode_arguments, CanonicalArgs};
use crate::correlate::{begin_request, log_event, resolved_id, LogEvent, LogLevel};
use crate::errors::{ArgumentError, DispatchError, GatewayError};

verus! {

/// The transport-agnostic request: the tool's name and the canonical
/// argument value, constructed fresh per request and discarded after
/// dispatch.
pub struct ToolInvocationRequest {
    pub tool_name: String,
    pub arguments: CanonicalArgs,
}

/// What the execution collaborator reports back: a short status word and
/// the captured output streams.
pub struct ToolInvocationResult {
    pub status: String,
    pub stdout: String,
    pub stderr: String,
}

/// The RPC response message's fields.
pub struct ToolResponseMessage {
    pub status: String,
    pub stdout: String,
    pub stderr: String,
}

/// The RPC status codes the gateway maps failures onto: one for the
/// client's bad arguments, one for the server's own failures.
#[derive(Debug, PartialEq, Eq, Structural)]
pub enum RpcCode {
    InvalidArgument,
    Internal,
}

/// A failed RPC: the status code and the message sent with it.
#[derive(Debug)]
pub struct RpcFailure {
    pub code: RpcCode,
    pub message: String,
}

/// What decoding one RPC request produces: the decoded invocation or the
/// failure to send back, and the entry log event the request emits
/// either way.
pub struct RpcDecode {
    pub outcome: Result<ToolInvocationRequest, RpcFailure>,
    pub log: LogEvent,
}

/// The RPC service: stateless, so concurrent requests share nothing.
#[derive(Debug)]
pub struct SandboxToolService;

impl Default for SandboxToolService {
    fn default() -> (s: Self)
        ensures
            s == SandboxToolService,
    {
        SandboxToolService
    }
}

/// The RPC adapter's error mapping: argument errors are the client's
/// fault and become invalid-argument; dispatch failures are the server's
/// and become internal. The two never mix.
pub fn rpc_code_for(e: &GatewayError) -> (c: RpcCode)
    ensures
        c is InvalidArgument <==> e is Argument,
        c is Internal <==> e is Dispatch,
{
    match e {
        GatewayError::Argument(_) => RpcCode::InvalidArgument,
        GatewayError::Dispatch(_) => RpcCode::Internal,
    }
}

impl SandboxToolService {
    /// Decode an inbound `ExecuteTool` request: the tool name passes
    /// through unchanged, and `args_json` goes through the argument
    /// codec. Blank argument text is accepted as the empty map; malformed
    /// text fails with invalid-argument — never internal — and the
    /// failure message is a fixed prefix followed by the parse
    /// diagnostic. Either way the request gets an entry log event under
    /// its own correlation id, informational on success and elevated to
    /// error on rejection.
    pub fn decode_request(
        &self,
        metadata_request_id: Option<String>,
        tool_name: String,
        args_json: &str,
    ) -> (r: RpcDecode)
        ensures
            r.outcome matches Ok(req) ==> req.tool_name@ == tool_name@,
            blank(args_json@) ==> (r.outcome matches Ok(req) && req.arguments is EmptyMap),
            !blank(args_json@) ==> (r.outcome is Ok <==> json_wf(args_json@)),
            !blank(args_json@) ==> (r.outcome matches Ok(req) ==> req.arguments is Json),
            r.outcome matches Err(f) ==> (f.code is InvalidArgument && f.message@
                == "invalid args_json: "@ + json_parse_diag(args_json@)),
            r.log.request_id@ == resolved_id(metadata_request_id),
            r.log.method@ == "ExecuteTool"@,
            r.log.path@ == "ToolService"@,
            r.log.tool_name@ == tool_name@,
            r.outcome is Ok ==> (r.log.level is Info && r.log.message@
                == "Dispatching tool execution."@),
            r.outcome is Err ==> (r.log.level is Error && r.log.message@
                == "Rejecting malformed args_json."@),
    {
        let ctx = begin_request(metadata_request_id);
        match decode_arguments(args_json) {
            Ok(arguments) => {
                let log = log_event(
                    LogLevel::Info,
                    &ctx,
                    "ExecuteTool",
                    "ToolService",
                    tool_name.as_str(),
                    "Dispatching tool execution.",
                );
                RpcDecode { outcome: Ok(ToolInvocationRequest { tool_name, arguments }), log }
            },
            Err(e) => {
                let mut message = "invalid args_json: ".to_owned();
                match &e {
                    ArgumentError::Malformed(d) => message.append(d.as_str()),
                    ArgumentError::MissingField(f) => message.append(f.as_str()),
                }
                let code = rpc_code_for(&GatewayError::Argument(e));
                let log = log_event(
                    LogLevel::Error,
                    &ctx,
                    "ExecuteTool",
                    "ToolService",
                    tool_name.as_str(),
                    "Rejecting malformed args_json.",
                );
                RpcDecode { outcome: Err(RpcFailure { code, message }), log }
            },
        }
    }

    /// Serialize the collaborator's result onto the RPC response message,
    /// field for field, nothing added and nothing dropped.
    pub fn encode_response(&self, result: ToolInvocationResult) -> (m: ToolResponseMessage)
        ensures
            m.status@ == result.status@,
            m.stdout@ == result.stdout@,
            m.stderr@ == result.stderr@,
    {
        ToolResponseMessage {
            status: result.status,
            stdout: result.stdout,
            stderr: result.stderr,
        }
    }

    /// Surface a failure raised by the execution collaborator as-is: it
    /// becomes an internal RPC status carrying the collaborator's own
    /// message, kept apart from the client-caused invalid-argument case.
    pub fn dispatch_failure(&self, e: DispatchError) -> (f: RpcFailure)
        ensures
            f.code is Internal,
            f.message@ == e.message@,
    {
        let message = e.message.clone();
        let code = rpc_code_for(&GatewayError::Dispatch(e));
        RpcFailure { code, message }
    }

    /// The `ExecuteTool` method's step after the execution collaborator
    /// has answered: a result maps onto the response message field for
    /// field, and a collaborator failure surfaces as an internal status —
    /// never invalid-argument — so the handler always returns normally.
    pub fn respond(&self, outcome: Result<ToolInvocationResult, DispatchError>) -> (r: Result<
        ToolResponseMessage,
        RpcFailure,
    >)
        ensures
            outcome matches Ok(res) ==> (r matches Ok(m) && m.status@ == res.status@ && m.stdout@
                == res.stdout@ && m.stderr@ == res.stderr@),
            outcome matches Err(e) ==> (r matches Err(f) && f.code is Internal && f.message@
                == e.message@),
    {
        match outcome {
            Ok(res) => Ok(self.encode_response(res)),
            Err(e) => Err(self.dispatch_failure(e)),
        }
    }
}

/// Construct the RPC service ready to be mounted on a server.
pub fn tool_service_server() -> (s: SandboxToolService)
    ensures
        s == SandboxToolService,
{
    SandboxToolService::default()
}

} // verus!
