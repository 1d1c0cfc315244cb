//! The correlation and logging layer: a per-request correlation id, and
//! the structured log events that carry it. Events are pure values here;
//! emitting them is the caller's side effect and never alters a response.

use vstd::prelude::*;

verus! {

/// The per-request correlation context: the id attached to every log
/// event the request emits. Derived once per request, never shared.
pub struct CorrelationContext {
    pub request_id: String,
}

/// The id a request gets: the inbound header's text where the transport
/// had one readable as text, the fixed sentinel otherwise.
pub open spec fn resolved_id(header: Option<String>) -> Seq<char> {
    match header {
        Some(v) => v@,
        None => "none"@,
    }
}

/// Derive the correlation context from the inbound `x-request-id` header,
/// already read as text where the transport carried one.
pub fn begin_request(header: Option<String>) -> (c: CorrelationContext)
    ensures
        c.request_id@ == resolved_id(header),
{
    match header {
        Some(v) => CorrelationContext { request_id: v },
        None => CorrelationContext { request_id: "none".to_owned() },
    }
}

/// How serious a log event is: informational on success, elevated to
/// error on failure.
#[derive(PartialEq, Eq, Structural)]
pub enum LogLevel {
    Info,
    Error,
}

/// One structured, field-keyed log event: at least the correlation id,
/// the method, the path or service identifier, and a readable message.
pub struct LogEvent {
    pub level: LogLevel,
    pub request_id: String,
    pub method: String,
    pub path: String,
    pub tool_name: String,
    pub message: String,
}

/// Build a log event for one request: every field comes from that
/// request's own context and inputs, nothing else.
pub fn log_event(
    level: LogLevel,
    ctx: &CorrelationContext,
    method: &str,
    path: &str,
    tool_name: &str,
    message: &str,
) -> (e: LogEvent)
    ensures
        e.level == level,
        e.request_id@ == ctx.request_id@,
        e.method@ == method@,
        e.path@ == path@,
        e.tool_name@ == tool_name@,
        e.message@ == message@,
{
    LogEvent {
        level,
        request_id: ctx.request_id.clone(),
        method: method.to_owned(),
        path: path.to_owned(),
        tool_name: tool_name.to_owned(),
        message: message.to_owned(),
    }
}

/// Per-request context isolation: a log event carries exactly its own
/// request's correlation id, so two requests whose resolved ids differ
/// can never produce events whose correlation fields coincide.
pub proof fn lemma_correlation_isolation(
    e1: LogEvent,
    h1: Option<String>,
    e2: LogEvent,
    h2: Option<String>,
)
    requires
        e1.request_id@ == resolved_id(h1),
        e2.request_id@ == resolved_id(h2),
        resolved_id(h1) != resolved_id(h2),
    ensures
        e1.request_id@ != e2.request_id@,
{
}

} // verus!
