use serde_json::Value;
use tauri_dev_mcp::bridge::WebViewBridge;
use tauri_dev_mcp::http::{
    bind_address, execute, health, invoke, respond, store_result, ErrorResponse, ExecuteRequest,
    ExecuteResponse, HealthResponse, InvokeRequest, StoreResultRequest,
};
use tauri_dev_mcp::store::ResultStore;
use tauri_dev_mcp::tools::{PendingInjection, PollStep, ToolError, ToolResponse};

fn json(text: &str) -> Value {
    serde_json::from_str(text).unwrap()
}

/// Runs an invocation whose injection and dispatch succeed and whose wrapper
/// script calls back with `payload` before the first poll.
fn answered(pending: PendingInjection, payload: &str) -> ExecuteResponse {
    let mut store = ResultStore::new();
    let dispatch = match pending.injected(Ok(())) {
        Ok(dispatch) => dispatch,
        Err(error) => return respond(Err(error)),
    };
    let id = dispatch.execution_id().to_string();
    let polling = match dispatch.dispatched(Ok(())) {
        Ok(polling) => polling,
        Err(error) => return respond(Err(error)),
    };
    store_result(&mut store, StoreResultRequest { id, result: json(payload) });
    match polling.poll(&mut store) {
        PollStep::Finished(result) => {
            assert_eq!(store.len(), 0);
            respond(result)
        }
        PollStep::Wait { .. } => panic!("the outcome was not found"),
    }
}

#[test]
fn execute_answers_with_the_data_of_a_success() {
    let request = ExecuteRequest { tool: "ping".to_string(), params: json("{}") };
    let response = answered(execute(request, None, None), r#"{"success":true,"data":{"ok":true}}"#);
    assert!(response.success);
    assert_eq!(response.data, Some(json(r#"{"ok":true}"#)));
    assert!(response.error.is_none());
    assert_eq!(response.to_json(), r#"{"success":true,"data":{"ok":true},"error":null}"#);
}

#[test]
fn execute_answers_with_the_error_of_a_failure() {
    let request = ExecuteRequest { tool: "boom".to_string(), params: json("{}") };
    let response =
        answered(execute(request, None, None), r#"{"success":false,"error":{"message":"nope"}}"#);
    assert!(!response.success);
    assert!(response.data.is_none());
    match &response.error {
        Some(error) => {
            assert_eq!(error.code, "TOOL_ERROR");
            assert_eq!(error.message, "nope");
        }
        None => panic!("no error in the envelope"),
    }
    assert_eq!(
        response.to_json(),
        r#"{"success":false,"data":null,"error":{"code":"TOOL_ERROR","message":"nope"}}"#
    );
}

#[test]
fn execute_answers_with_the_whole_payload_where_the_data_is_missing() {
    let request = ExecuteRequest { tool: "ping".to_string(), params: json("{}") };
    let response = answered(execute(request, None, None), r#"{"success":true}"#);
    assert!(response.success);
    assert_eq!(response.data, Some(json(r#"{"success":true}"#)));
    assert_eq!(response.to_json(), r#"{"success":true,"data":{"success":true},"error":null}"#);
}

#[test]
fn without_a_surface_health_is_not_ready_and_execute_fails_at_injection() {
    let mut bridge: WebViewBridge<u8> = WebViewBridge::new();
    let ready = bridge.is_ready(Vec::new());
    let response = health(ready);
    assert_eq!(response.status, "healthy");
    assert!(!response.webview_ready);
    assert_eq!(response.to_json(), r#"{"status":"healthy","webview_ready":false}"#);

    let attempt = match bridge.get_window(Vec::new()) {
        Some(_) => Some(Ok(())),
        None => None,
    };
    let injection = bridge.inject_inspector(attempt);
    let request = ExecuteRequest { tool: "ping".to_string(), params: json("{}") };
    let response = match execute(request, None, None).injected(injection) {
        Ok(_) => panic!("dispatch without a surface"),
        Err(error) => respond(Err(error)),
    };
    assert_eq!(
        response.to_json(),
        r#"{"success":false,"data":null,"error":{"code":"INSPECTOR_INJECTION_FAILED","message":"Failed to inject inspector: No WebView window available"}}"#
    );
}

#[test]
fn health_reports_a_surface_that_was_found() {
    let mut bridge: WebViewBridge<u8> = WebViewBridge::new();
    let ready = bridge.is_ready(vec![("main".to_string(), 1)]);
    assert_eq!(health(ready).to_json(), r#"{"status":"healthy","webview_ready":true}"#);
}

#[test]
fn execute_runs_the_tool_of_the_request_with_its_params() {
    let request = ExecuteRequest { tool: "dom.click".to_string(), params: json(r##"{"selector":"#go"}"##) };
    let dispatch = match execute(request, None, Some("4100".to_string())).injected(Ok(())) {
        Ok(dispatch) => dispatch,
        Err(error) => panic!("{}", error.code),
    };
    assert!(dispatch.script().contains(r#"const apiBaseUrl = "http://127.0.0.1:4100";"#));
    assert!(dispatch
        .script()
        .contains(r##"await window.__TAURI_DEV_MCP.execute("dom.click", {"selector":"#go"});"##));
}

#[test]
fn invoke_runs_the_command_with_its_args() {
    let request = InvokeRequest { command: "greet".to_string(), args: Some(json(r#"{"name":"Ada"}"#)) };
    let dispatch = match invoke(request, None, None).injected(Ok(())) {
        Ok(dispatch) => dispatch,
        Err(error) => panic!("{}", error.code),
    };
    assert!(dispatch
        .script()
        .contains(r#"await window.__TAURI_DEV_MCP.execute("greet", {"name":"Ada"});"#));
}

#[test]
fn invoke_without_args_runs_the_command_with_an_empty_object() {
    let request = InvokeRequest { command: "get_app_version".to_string(), args: None };
    let dispatch = match invoke(request, None, None).injected(Ok(())) {
        Ok(dispatch) => dispatch,
        Err(error) => panic!("{}", error.code),
    };
    assert!(dispatch
        .script()
        .contains(r#"await window.__TAURI_DEV_MCP.execute("get_app_version", {});"#));
}

#[test]
fn invoke_answers_as_execute_does() {
    let request = InvokeRequest { command: "get_app_version".to_string(), args: None };
    let response = answered(invoke(request, None, None), r#"{"success":true,"data":"1.0.0"}"#);
    assert_eq!(response.to_json(), r#"{"success":true,"data":"1.0.0","error":null}"#);
}

#[test]
fn respond_wraps_a_success() {
    let response = respond(Ok(ToolResponse { data: json("[1,2,3]") }));
    assert!(response.success);
    assert_eq!(response.data, Some(json("[1,2,3]")));
    assert!(response.error.is_none());
}

#[test]
fn respond_wraps_each_kind_of_failure() {
    for (code, message) in [
        ("INSPECTOR_INJECTION_FAILED", "Failed to inject inspector: x"),
        ("EXECUTION_ERROR", "JavaScript execution failed: y"),
        ("TOOL_ERROR", "z"),
        ("TIMEOUT", "timeout"),
    ] {
        let response =
            respond(Err(ToolError { code: code.to_string(), message: message.to_string() }));
        assert!(!response.success);
        assert!(response.data.is_none());
        match response.error {
            Some(error) => {
                assert_eq!(error.code, code);
                assert_eq!(error.message, message);
            }
            None => panic!("no error in the envelope"),
        }
    }
}

#[test]
fn envelope_text_escapes_what_json_escapes() {
    let error = ErrorResponse { code: "TOOL_ERROR".to_string(), message: "a \"b\"\n\\c\u{1}é".to_string() };
    let text = error.to_json();
    assert_eq!(text, "{\"code\":\"TOOL_ERROR\",\"message\":\"a \\\"b\\\"\\n\\\\c\\u0001é\"}");
    let read: Value = serde_json::from_str(&text).unwrap();
    assert_eq!(read.get("message").and_then(|m| m.as_str()), Some("a \"b\"\n\\c\u{1}é"));

    let health = HealthResponse { status: "up\t\"".to_string(), webview_ready: true };
    let read: Value = serde_json::from_str(&health.to_json()).unwrap();
    assert_eq!(read, json(r#"{"status":"up\t\"","webview_ready":true}"#));
}

#[test]
fn envelope_text_reads_back_as_the_envelope() {
    let response = ExecuteResponse {
        success: true,
        data: Some(json(r#"{"b":[1,{"c":null}],"a":"x\"y"}"#)),
        error: None,
    };
    let read: Value = serde_json::from_str(&response.to_json()).unwrap();
    assert_eq!(read, json(r#"{"success":true,"data":{"a":"x\"y","b":[1,{"c":null}]},"error":null}"#));
}

#[test]
fn store_result_writes_under_the_id_of_the_callback() {
    let mut store = ResultStore::new();
    store_result(&mut store, StoreResultRequest { id: "a".to_string(), result: json("1") });
    store_result(&mut store, StoreResultRequest { id: "b".to_string(), result: json("2") });
    store_result(&mut store, StoreResultRequest { id: "a".to_string(), result: json("3") });
    assert_eq!(store.len(), 2);
    assert_eq!(store.take_if_present("a"), Some(json("3")));
    assert_eq!(store.take_if_present("b"), Some(json("2")));
}

#[test]
fn the_script_calls_back_to_the_address_that_the_gateway_binds() {
    for port in [None, Some("4100"), Some("abc"), Some("70000"), Some("+9")] {
        let port = port.map(|p| p.to_string());
        let address = bind_address(Some("localhost".to_string()), port.clone());
        let request = ExecuteRequest { tool: "ping".to_string(), params: json("{}") };
        let pending = execute(request, Some("localhost".to_string()), port);
        let dispatch = match pending.injected(Ok(())) {
            Ok(dispatch) => dispatch,
            Err(error) => panic!("{}", error.code),
        };
        assert!(dispatch
            .script()
            .contains(&format!("const apiBaseUrl = \"http://{}\";", address)));
    }
    assert_eq!(bind_address(Some("localhost".to_string()), Some("abc".to_string())), "localhost:3001");
}

#[test]
fn bind_address_uses_the_defaults() {
    assert_eq!(bind_address(None, None), "127.0.0.1:3001");
}

#[test]
fn bind_address_uses_what_is_configured() {
    assert_eq!(bind_address(Some("0.0.0.0".to_string()), None), "0.0.0.0:3001");
    assert_eq!(bind_address(None, Some("8080".to_string())), "127.0.0.1:8080");
    assert_eq!(bind_address(Some("localhost".to_string()), Some("0".to_string())), "localhost:0");
    assert_eq!(bind_address(None, Some("65535".to_string())), "127.0.0.1:65535");
    assert_eq!(bind_address(None, Some("+0080".to_string())), "127.0.0.1:80");
}

#[test]
fn bind_address_falls_back_to_the_default_port() {
    assert_eq!(bind_address(None, Some("http".to_string())), "127.0.0.1:3001");
    assert_eq!(bind_address(None, Some(String::new())), "127.0.0.1:3001");
    assert_eq!(bind_address(None, Some("65536".to_string())), "127.0.0.1:3001");
    assert_eq!(bind_address(None, Some("-1".to_string())), "127.0.0.1:3001");
    assert_eq!(bind_address(Some("h".to_string()), Some(" 80".to_string())), "h:3001");
}
