use backend_rust_sandbox::codec::{canonical_text, decode_arguments, is_blank, CanonicalArgs};
use backend_rust_sandbox::correlate::{begin_request, LogLevel};
use backend_rust_sandbox::errors::{argument_error_text, ArgumentError, DispatchError, GatewayError};
use backend_rust_sandbox::gateway::{
    rpc_code_for, tool_service_server, RpcCode, SandboxToolService, ToolInvocationResult,
};
use backend_rust_sandbox::health::health_check;
use backend_rust_sandbox::rest::{execute_tool, http_status_for, RestBody, RestRequest};

#[test]
fn round_trip_is_lossless_for_all_json_types() {
    let samples = [
        "null",
        "true",
        "false",
        "0",
        "-17",
        "3.5",
        "\"hello\"",
        "[1, 2, 3]",
        "{\"a\": 1, \"b\": [true, null], \"c\": {\"d\": \"x\"}}",
    ];
    for s in samples {
        let decoded = match decode_arguments(s) {
            Ok(a) => a,
            Err(_) => panic!("valid JSON must decode: {s}"),
        };
        let text = canonical_text(&decoded);
        let reparsed: serde_json::Value = serde_json::from_str(&text).unwrap();
        let original: serde_json::Value = serde_json::from_str(s).unwrap();
        assert_eq!(reparsed, original);
    }
}

#[test]
fn blank_args_decode_to_empty_map() {
    for s in ["", "   ", " \t\r\n", "\u{00A0}\u{3000}"] {
        assert!(matches!(decode_arguments(s), Ok(CanonicalArgs::EmptyMap)));
    }
    let t = canonical_text(&CanonicalArgs::EmptyMap);
    assert_eq!(t, "{}");
    let v: serde_json::Value = serde_json::from_str(&t).unwrap();
    assert!(v.as_object().map(|m| m.is_empty()).unwrap_or(false));
}

#[test]
fn malformed_args_map_to_invalid_argument() {
    let service = tool_service_server();
    let r = service.decode_request(Some("rid-7".to_string()), "echo".to_string(), "{not json");
    let f = match r.outcome {
        Err(f) => f,
        Ok(_) => panic!("malformed args_json must be rejected"),
    };
    assert!(matches!(f.code, RpcCode::InvalidArgument));
    let diag = serde_json::from_str::<serde_json::Value>("{not json")
        .unwrap_err()
        .to_string();
    assert_eq!(f.message, format!("invalid args_json: {diag}"));
    assert!(matches!(r.log.level, LogLevel::Error));
    assert_eq!(r.log.request_id, "rid-7");
    assert_eq!(r.log.method, "ExecuteTool");
    assert_eq!(r.log.path, "ToolService");
    assert_eq!(r.log.tool_name, "echo");
    assert_eq!(r.log.message, "Rejecting malformed args_json.");
}

#[test]
fn decode_request_passes_the_request_through() {
    let service = SandboxToolService;
    let r = service.decode_request(None, "run_query".to_string(), "{\"limit\": 10}");
    let req = match r.outcome {
        Ok(req) => req,
        Err(_) => panic!("valid args_json must decode"),
    };
    assert_eq!(req.tool_name, "run_query");
    match req.arguments {
        CanonicalArgs::Json(v) => {
            let expected: serde_json::Value = serde_json::from_str("{\"limit\": 10}").unwrap();
            assert_eq!(v, expected);
        }
        CanonicalArgs::EmptyMap => panic!("non-blank args_json must keep its value"),
    }
    assert!(matches!(r.log.level, LogLevel::Info));
    assert_eq!(r.log.request_id, "none");
    assert_eq!(r.log.method, "ExecuteTool");
    assert_eq!(r.log.path, "ToolService");
    assert_eq!(r.log.tool_name, "run_query");
    assert_eq!(r.log.message, "Dispatching tool execution.");

    let blank = service.decode_request(None, "run_query".to_string(), "  ");
    let blank_req = blank.outcome.unwrap();
    assert!(matches!(blank_req.arguments, CanonicalArgs::EmptyMap));
    assert_eq!(blank_req.tool_name, "run_query");
}

#[test]
fn respond_keeps_the_two_failure_domains_apart() {
    let service = SandboxToolService;
    let ok = service.respond(Ok(ToolInvocationResult {
        status: "ok".to_string(),
        stdout: "out".to_string(),
        stderr: String::new(),
    }));
    match ok {
        Ok(m) => {
            assert_eq!(m.status, "ok");
            assert_eq!(m.stdout, "out");
            assert_eq!(m.stderr, "");
        }
        Err(_) => panic!("a collaborator result must become a response"),
    }
    let failed = service.respond(Err(DispatchError { message: "timed out".to_string() }));
    match failed {
        Err(f) => {
            assert!(matches!(f.code, RpcCode::Internal));
            assert_eq!(f.message, "timed out");
        }
        Ok(_) => panic!("a collaborator failure must surface"),
    }
}

#[test]
fn rest_request_without_tool_name_is_400() {
    let r = execute_tool(None, RestRequest { tool_name: None, code: None });
    assert_eq!(r.http_status, 400);
    match r.body {
        RestBody::Error { error } => assert_eq!(error, "missing required field: tool_name"),
        RestBody::Success { .. } => panic!("a missing tool_name must never get a result"),
    }
    assert!(matches!(r.log.level, LogLevel::Error));
    assert_eq!(r.log.tool_name, "");

    let empty = execute_tool(
        None,
        RestRequest { tool_name: Some(String::new()), code: None },
    );
    assert_eq!(empty.http_status, 400);
    assert!(matches!(empty.body, RestBody::Error { .. }));
}

#[test]
fn health_is_the_fixed_identity() {
    let h = health_check();
    assert_eq!(h.http_status, 200);
    assert_eq!(h.body.service, "backend-rust-sandbox");
    assert_eq!(h.body.status, "ok");
    assert_eq!(h.body.version, "1.0.0");

    let _ = execute_tool(
        Some("prior".to_string()),
        RestRequest { tool_name: Some("alpha".to_string()), code: None },
    );
    let again = health_check();
    assert_eq!(again.http_status, 200);
    assert_eq!(again.body.service, "backend-rust-sandbox");
    assert_eq!(again.body.status, "ok");
    assert_eq!(again.body.version, "1.0.0");
}

#[test]
fn log_events_keep_their_own_correlation_ids() {
    let r1 = execute_tool(
        Some("req-a".to_string()),
        RestRequest { tool_name: Some("alpha".to_string()), code: None },
    );
    let r2 = execute_tool(
        Some("req-b".to_string()),
        RestRequest { tool_name: Some("beta".to_string()), code: None },
    );
    assert_eq!(r1.log.request_id, "req-a");
    assert_eq!(r2.log.request_id, "req-b");
    assert_eq!(r1.log.tool_name, "alpha");
    assert_eq!(r2.log.tool_name, "beta");
    assert_ne!(r1.log.request_id, r2.log.request_id);
}

#[test]
fn missing_correlation_header_gets_the_sentinel() {
    let none = begin_request(None);
    assert_eq!(none.request_id, "none");
    let given = begin_request(Some("abc-123".to_string()));
    assert_eq!(given.request_id, "abc-123");
}

#[test]
fn well_formed_rest_body_gets_the_placeholder_result() {
    let r = execute_tool(
        Some("rid-1".to_string()),
        RestRequest {
            tool_name: Some("echo".to_string()),
            code: Some("print(1)".to_string()),
        },
    );
    assert_eq!(r.http_status, 200);
    match r.body {
        RestBody::Success { tool_status, result } => {
            assert_eq!(tool_status, "executed");
            assert_eq!(result, 42);
        }
        RestBody::Error { .. } => panic!("a well-formed body must succeed"),
    }
    assert!(matches!(r.log.level, LogLevel::Info));
    assert_eq!(r.log.method, "POST");
    assert_eq!(r.log.path, "/api/v1/execute_tool");
    assert_eq!(r.log.message, "Simulating secure tool execution.");
}

#[test]
fn rpc_response_mirrors_the_result_fields() {
    let service = tool_service_server();
    let m = service.encode_response(ToolInvocationResult {
        status: "ok".to_string(),
        stdout: "out".to_string(),
        stderr: "err".to_string(),
    });
    assert_eq!(m.status, "ok");
    assert_eq!(m.stdout, "out");
    assert_eq!(m.stderr, "err");
}

#[test]
fn error_domains_map_apart() {
    let client = GatewayError::Argument(ArgumentError::Malformed("x".to_string()));
    let server = GatewayError::Dispatch(DispatchError { message: "boom".to_string() });
    assert!(matches!(rpc_code_for(&client), RpcCode::InvalidArgument));
    assert!(matches!(rpc_code_for(&server), RpcCode::Internal));
    assert_eq!(http_status_for(&client), 400);
    assert_eq!(http_status_for(&server), 500);

    let service = SandboxToolService;
    let f = service.dispatch_failure(DispatchError { message: "boom".to_string() });
    assert!(matches!(f.code, RpcCode::Internal));
    assert_eq!(f.message, "boom");
}

#[test]
fn argument_errors_render_their_diagnostics() {
    assert_eq!(
        argument_error_text(&ArgumentError::Malformed("expected value".to_string())),
        "malformed arguments: expected value"
    );
    assert_eq!(
        argument_error_text(&ArgumentError::MissingField("tool_name".to_string())),
        "missing required field: tool_name"
    );
}

#[test]
fn blankness_follows_unicode_whitespace() {
    assert!(is_blank(""));
    assert!(is_blank(" \t\r\n\u{000B}\u{000C}\u{0085}\u{00A0}\u{2007}\u{202F}\u{205F}\u{3000}"));
    assert!(!is_blank(" x "));
    assert!(!is_blank("{}"));
    for s in ["", "  ", "\u{1680}\u{2000}\u{200A}\u{2028}\u{2029}", "a", " {\"k\":1} "] {
        assert_eq!(is_blank(s), s.trim().is_empty());
    }
}
