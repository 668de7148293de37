use bareos_mcp::bareos::{judge_output, read_output, BareosClient, Invocation};
use bareos_mcp::error::ToolError;
use bareos_mcp::json::{member, Json};
use bareos_mcp::server::{
    handle_line, handle_parsed, handle_request, startup_message, tool_response, LineStep, Step,
};
use bareos_mcp::wire::{read_line, write_line};

fn json(text: &str) -> Json {
    read_line(text).unwrap()
}

fn client() -> BareosClient {
    BareosClient::new(None)
}

fn reply_to(request: &str) -> Json {
    match handle_request(&client(), &json(request)) {
        Step::Reply(reply) => reply,
        Step::Run { .. } => panic!("the request asks for a run"),
    }
}

fn run_for(request: &str) -> (Json, Invocation) {
    match handle_request(&client(), &json(request)) {
        Step::Reply(_) => panic!("the request is answered at once"),
        Step::Run { id, invocation } => (id, invocation),
    }
}

fn line_of(reply: &Json) -> String {
    write_line(reply).unwrap()
}

fn error_of(reply: &Json) -> (Json, String) {
    let error = reply.get("error").unwrap();
    let code = error.get("code").unwrap().clone();
    let message = error.get("message").unwrap().as_str().unwrap().to_string();
    (code, message)
}

#[test]
fn the_startup_message_has_no_id() {
    assert_eq!(
        line_of(&startup_message()),
        concat_line(&[
            r#"{"id":null,"jsonrpc":"2.0","result":{"capabilities":{"tools":{}},"#,
            r#""protocolVersion":"2024-11-05","#,
            r#""serverInfo":{"name":"bareos-mcp-server","version":"0.1.0"}}}"#,
        ])
    );
}

fn concat_line(parts: &[&str]) -> String {
    parts.iter().map(|part| part.to_string()).collect()
}

#[test]
fn initialize_is_answered_with_what_the_server_is() {
    let reply = reply_to(r#"{"jsonrpc":"2.0","id":1,"method":"initialize","params":{}}"#);
    assert_eq!(
        line_of(&reply),
        concat_line(&[
            r#"{"id":1,"jsonrpc":"2.0","result":{"capabilities":{"tools":{}},"#,
            r#""protocolVersion":"2024-11-05","#,
            r#""serverInfo":{"name":"bareos-mcp-server","version":"0.1.0"}}}"#,
        ])
    );
}

#[test]
fn tools_list_is_answered_with_the_eight_tools() {
    let reply = reply_to(r#"{"jsonrpc":"2.0","id":"a","method":"tools/list"}"#);
    assert_eq!(reply.get("id"), Some(&Json::text("a")));
    assert_eq!(reply.get("jsonrpc"), Some(&Json::text("2.0")));
    let tools = match reply.get("result").unwrap().get("tools").unwrap() {
        Json::Array(tools) => tools,
        _ => panic!("the tools are no array"),
    };
    let names: Vec<&str> =
        tools.iter().map(|tool| tool.get("name").unwrap().as_str().unwrap()).collect();
    assert_eq!(
        names,
        vec![
            "list_jobs",
            "get_job_status",
            "get_job_log",
            "list_clients",
            "list_filesets",
            "list_pools",
            "list_volumes",
            "list_files",
        ]
    );
}

#[test]
fn a_call_of_a_known_tool_asks_for_a_run() {
    let (id, invocation) = run_for(
        r#"{"jsonrpc":"2.0","id":3,"method":"tools/call",
        "params":{"name":"list_jobs","arguments":{"hours":24,"days":7}}}"#,
    );
    assert_eq!(id, Json::Number("3".to_string()));
    assert_eq!(invocation.program, "bconsole");
    assert_eq!(invocation.input, "list jobs days=7 hours=24\nquit\n");
}

#[test]
fn a_call_with_last_and_count_keeps_both() {
    let (_, invocation) = run_for(
        r#"{"id":3,"method":"tools/call",
        "params":{"name":"list_jobs","arguments":{"last":true,"count":true}}}"#,
    );
    assert!(invocation.input.contains(" last"));
    assert!(invocation.input.contains(" count"));
    assert_eq!(invocation.input, "list jobs last count\nquit\n");
}

#[test]
fn a_call_without_arguments_still_runs() {
    let (_, invocation) =
        run_for(r#"{"id":3,"method":"tools/call","params":{"name":"list_clients"}}"#);
    assert_eq!(invocation.input, "list clients\nquit\n");
    let (_, invocation) =
        run_for(r#"{"id":3,"method":"tools/call","params":{"name":"get_job_status"}}"#);
    assert_eq!(invocation.input, "list jobid=\nquit\n");
    let (_, invocation) = run_for(
        r#"{"id":3,"method":"tools/call","params":{"name":"list_volumes","arguments":null}}"#,
    );
    assert_eq!(invocation.input, "list volumes\nquit\n");
}

#[test]
fn the_reply_to_a_call_carries_the_id_of_the_request() {
    for id in ["7", "-7", "1.5", r#""abc""#, r#""""#, "null", "true", "[1,2]", r#"{"a":1}"#] {
        let request = format!(
            r#"{{"jsonrpc":"2.0","id":{},"method":"tools/call","params":{{"name":"list_pools"}}}}"#,
            id
        );
        let (kept, _) = run_for(&request);
        assert_eq!(kept, json(id));
        let reply = tool_response(kept.clone(), Ok("pools".to_string()));
        assert_eq!(reply.get("id"), Some(&json(id)));
        let reply = tool_response(kept, Err(ToolError::Spawn));
        assert_eq!(reply.get("id"), Some(&json(id)));
    }
}

#[test]
fn a_request_without_an_id_is_answered_with_a_null_id() {
    let (id, _) = run_for(r#"{"method":"tools/call","params":{"name":"list_pools"}}"#);
    assert_eq!(id, Json::Null);
    let reply = reply_to(r#"{"method":"initialize"}"#);
    assert_eq!(reply.get("id"), Some(&Json::Null));
    let reply = reply_to(r#"{"method":"nope"}"#);
    assert_eq!(reply.get("id"), Some(&Json::Null));
}

#[test]
fn every_reply_carries_the_id_of_its_request() {
    for method in ["initialize", "tools/list", "tools/call", "resources/list", ""] {
        let request = format!(r#"{{"id":"id-1","method":"{}","params":{{"name":"x"}}}}"#, method);
        let reply = reply_to(&request);
        assert_eq!(reply.get("id"), Some(&Json::text("id-1")));
    }
}

#[test]
fn an_unknown_method_is_an_error_of_the_protocol() {
    let reply = reply_to(r#"{"jsonrpc":"2.0","id":5,"method":"resources/list"}"#);
    assert_eq!(
        line_of(&reply),
        r#"{"error":{"code":-32601,"message":"Method not found: resources/list"},"id":5,"jsonrpc":"2.0"}"#
    );
    assert_eq!(reply.get("result"), None);
    let (code, message) = error_of(&reply);
    assert_eq!(code, Json::Number("-32601".to_string()));
    assert!(message.contains("resources/list"));
}

#[test]
fn a_method_is_matched_exactly() {
    for method in ["Initialize", "initialize ", "tools", "tools/", "tools/call/x", "tools/List"] {
        let request = format!(r#"{{"id":1,"method":"{}"}}"#, method);
        let (code, message) = error_of(&reply_to(&request));
        assert_eq!(code, Json::Number("-32601".to_string()));
        assert_eq!(message, format!("Method not found: {}", method));
    }
}

#[test]
fn a_request_without_a_method_asks_for_the_empty_method() {
    for request in [r#"{"id":1}"#, r#"{"id":1,"method":7}"#, r#"{"id":1,"method":null}"#, "[]", "7"]
    {
        let (code, message) = error_of(&reply_to(request));
        assert_eq!(code, Json::Number("-32601".to_string()));
        assert_eq!(message, "Method not found: ");
    }
}

#[test]
fn an_unknown_tool_is_an_error_of_the_call() {
    let reply = reply_to(
        r#"{"jsonrpc":"2.0","id":6,"method":"tools/call","params":{"name":"drop_jobs","arguments":{}}}"#,
    );
    assert_eq!(
        line_of(&reply),
        r#"{"error":{"code":-32000,"message":"Tool execution failed: Unknown tool: drop_jobs"},"id":6,"jsonrpc":"2.0"}"#
    );
    assert_eq!(reply.get("result"), None);
}

#[test]
fn a_call_that_names_no_tool_calls_the_empty_tool() {
    for request in [
        r#"{"id":6,"method":"tools/call"}"#,
        r#"{"id":6,"method":"tools/call","params":{}}"#,
        r#"{"id":6,"method":"tools/call","params":{"name":7}}"#,
        r#"{"id":6,"method":"tools/call","params":["list_jobs"]}"#,
    ] {
        let (code, message) = error_of(&reply_to(request));
        assert_eq!(code, Json::Number("-32000".to_string()));
        assert_eq!(message, "Tool execution failed: Unknown tool: ");
    }
}

#[test]
fn output_is_answered_as_text_content() {
    let reply = tool_response(Json::Number("3".to_string()), Ok("1 job\n".to_string()));
    assert_eq!(
        line_of(&reply),
        r#"{"id":3,"jsonrpc":"2.0","result":{"content":[{"text":"1 job\n","type":"text"}]}}"#
    );
    assert_eq!(reply.get("error"), None);
}

#[test]
fn a_failed_run_is_answered_with_what_it_wrote_to_standard_error() {
    let outcome = read_output(b"", b"director unreachable\n", false);
    let reply = tool_response(Json::Number("3".to_string()), outcome);
    let (code, message) = error_of(&reply);
    assert_eq!(code, Json::Number("-32000".to_string()));
    assert_eq!(
        message,
        "Tool execution failed: bconsole command failed: director unreachable\n"
    );
    assert!(message.contains("director unreachable"));
    assert_eq!(reply.get("result"), None);
}

#[test]
fn a_run_that_printed_something_is_a_success_despite_its_exit_status() {
    let outcome = judge_output("2 jobs".to_string(), "connecting...".to_string(), false);
    let reply = tool_response(Json::Number("3".to_string()), outcome);
    assert_eq!(reply.get("error"), None);
    assert_eq!(
        reply.get("result"),
        Some(&Json::Object(vec![member(
            "content",
            Json::Array(vec![Json::Object(vec![
                member("type", Json::text("text")),
                member("text", Json::text("2 jobs")),
            ])]),
        )]))
    );
}

#[test]
fn every_failure_of_a_run_is_an_error_of_the_call() {
    let cases = [
        (ToolError::Spawn, "Tool execution failed: Failed to spawn bconsole"),
        (ToolError::Stdin, "Tool execution failed: Failed to open stdin"),
        (ToolError::Write("Broken pipe (os error 32)".to_string()),
            "Tool execution failed: Broken pipe (os error 32)"),
        (ToolError::Output, "Tool execution failed: Failed to read bconsole output"),
        (ToolError::Failed(String::new()), "Tool execution failed: bconsole command failed: "),
    ];
    for (failure, expected) in cases {
        let (code, message) = error_of(&tool_response(Json::Null, Err(failure)));
        assert_eq!(code, Json::Number("-32000".to_string()));
        assert_eq!(message, expected);
    }
}

#[test]
fn a_blank_line_takes_no_reply() {
    assert_eq!(handle_line(&client(), ""), LineStep::Blank);
    assert_eq!(handle_line(&client(), "   \t"), LineStep::Blank);
    assert_eq!(handle_line(&client(), "\r"), LineStep::Blank);
}

#[test]
fn a_malformed_line_takes_no_reply_and_the_next_line_is_answered() {
    let client = client();
    assert_eq!(handle_line(&client, "this is not json"), LineStep::Malformed);
    assert_eq!(handle_line(&client, r#"{"id":1,"method":"#), LineStep::Malformed);
    let step = handle_line(&client, r#"{"jsonrpc":"2.0","id":2,"method":"initialize"}"#);
    let reply = match step {
        LineStep::Request(Step::Reply(reply)) => reply,
        _ => panic!("the line is a request that is answered at once"),
    };
    assert_eq!(reply, reply_to(r#"{"jsonrpc":"2.0","id":2,"method":"initialize"}"#));
    assert_eq!(reply.get("id"), Some(&Json::Number("2".to_string())));
}

#[test]
fn a_line_is_handled_as_the_request_that_it_holds() {
    let line = r#"  {"id":9,"method":"tools/call","params":{"name":"list_files","arguments":{"job_id":"12"}}}  "#;
    assert_eq!(
        handle_line(&client(), line),
        LineStep::Request(Step::Run {
            id: Json::Number("9".to_string()),
            invocation: Invocation {
                program: "bconsole".to_string(),
                input: "list files jobid=12\nquit\n".to_string(),
            },
        })
    );
}

#[test]
fn what_was_read_decides_how_a_line_is_handled() {
    assert_eq!(handle_parsed(&client(), None), LineStep::Malformed);
    let request = json(r#"{"id":1,"method":"ping"}"#);
    assert_eq!(
        handle_parsed(&client(), Some(request.clone())),
        LineStep::Request(handle_request(&client(), &request))
    );
}

#[test]
fn an_id_is_written_back_as_it_was_read() {
    for (id, written) in [
        ("7", "7"),
        ("-7", "-7"),
        ("1.0", "1.0"),
        ("1e2", "100.0"),
        ("18446744073709551615", "18446744073709551615"),
        (r#""seven""#, r#""seven""#),
        ("null", "null"),
        (r#"{"b":1,"a":[true]}"#, r#"{"a":[true],"b":1}"#),
    ] {
        let line = format!(r#"{{"method":"ping","id":{}}}"#, id);
        let reply = match handle_line(&client(), &line) {
            LineStep::Request(Step::Reply(reply)) => reply,
            _ => panic!("the line is a request that is answered at once"),
        };
        assert_eq!(
            line_of(&reply),
            format!(
                r#"{{"error":{{"code":-32601,"message":"Method not found: ping"}},"id":{},"jsonrpc":"2.0"}}"#,
                written
            )
        );
    }
}

#[test]
fn a_request_is_run_and_answered_line_by_line() {
    let client = BareosClient::new(Some("/usr/sbin/bconsole".to_string()));
    let line = r#"{"jsonrpc":"2.0","id":11,"method":"tools/call","params":{"name":"list_jobs","arguments":{"jobtype":"B","hours":24,"days":7,"last":true,"count":true}}}"#;
    let (id, invocation) = match handle_line(&client, line) {
        LineStep::Request(Step::Run { id, invocation }) => (id, invocation),
        _ => panic!("the line is a call that asks for a run"),
    };
    assert_eq!(invocation.program, "/usr/sbin/bconsole");
    assert_eq!(invocation.input, "list jobs jobtype=B days=7 hours=24 last count\nquit\n");
    let failed = tool_response(id.clone(), read_output(b"", b"Connection refused", false));
    assert_eq!(
        line_of(&failed),
        r#"{"error":{"code":-32000,"message":"Tool execution failed: bconsole command failed: Connection refused"},"id":11,"jsonrpc":"2.0"}"#
    );
    let printed = tool_response(id, read_output(b"jobs: 3", b"Connection refused", false));
    assert_eq!(
        line_of(&printed),
        r#"{"id":11,"jsonrpc":"2.0","result":{"content":[{"text":"jobs: 3","type":"text"}]}}"#
    );
}
