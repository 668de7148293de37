//! The server: what each request is answered with, or what has to be run
//! before it can be answered.

use vstd::prelude::*;
use vstd::string::*;
use crate::bareos::{judged, outcome_of, run_of, BareosClient, Invocation, Run};
use crate::error::{Failure, ToolError};
use crate::json::{Json, JsonValue};
use crate::protocol::{
    failure, failure_reply, lemma_error_codes, lemma_failure_shape, lemma_success_shape,
    server_metadata, server_metadata_json, success, success_reply, text_content,
    text_content_json, METHOD_NOT_FOUND, TOOL_FAILED,
};
use crate::text::{blank, is_blank, same_text};
use crate::tools::{
    command_of, field, find_tool, tool_named, tools_listing, tools_listing_json, value_of,
};
use crate::wire::{parsed, read_line};

verus! {

/// What handling a request comes to.
#[derive(Debug, PartialEq, Eq)]
pub enum Step {
    /// The reply is ready.
    Reply(Json),
    /// The console has to be run; what it gives, together with `id`, makes the
    /// reply (see [`tool_response`]).
    Run { id: Json, invocation: Invocation },
}

/// The mathematical value of a [`Step`].
pub enum StepValue {
    Reply(JsonValue),
    Run { id: JsonValue, run: Run },
}

impl View for Step {
    type V = StepValue;

    open spec fn view(&self) -> StepValue {
        match self {
            Step::Reply(reply) => StepValue::Reply(reply@),
            Step::Run { id, invocation } => StepValue::Run { id: id@, run: invocation@ },
        }
    }
}

/// The string under `key`, or the empty string where `value` has none there.
pub open spec fn text_at(value: JsonValue, key: Seq<char>) -> Seq<char> {
    match value.member(key).as_text() {
        Some(text) => text,
        None => Seq::empty(),
    }
}

/// The method that a request asks for: empty where it names none.
pub open spec fn method_of(request: JsonValue) -> Seq<char> {
    text_at(request, "method"@)
}

/// The id of a request: null where it has none.
pub open spec fn id_of(request: JsonValue) -> JsonValue {
    request.member("id"@)
}

/// The name of the tool that a request calls: empty where it names none.
pub open spec fn called_tool(request: JsonValue) -> Seq<char> {
    text_at(request.member("params"@), "name"@)
}

/// The arguments that a request hands to the tool: null where it has none.
pub open spec fn call_arguments(request: JsonValue) -> JsonValue {
    request.member("params"@).member("arguments"@)
}

/// The reply to a tool call: the output as text content, or an error that
/// carries the description of the failure.
pub open spec fn tool_reply(id: JsonValue, outcome: Result<Seq<char>, Failure>) -> JsonValue {
    match outcome {
        Ok(output) => success(id, text_content(output)),
        Err(error) => failure(id, TOOL_FAILED as int, "Tool execution failed: "@ + error.message()),
    }
}

/// What handling `request` comes to, for a client of the console at `path`.
pub open spec fn step_for(path: Seq<char>, request: JsonValue) -> StepValue {
    let method = method_of(request);
    let id = id_of(request);
    if method == "initialize"@ {
        StepValue::Reply(success(id, server_metadata()))
    } else if method == "tools/list"@ {
        StepValue::Reply(success(id, tools_listing()))
    } else if method == "tools/call"@ {
        match tool_named(called_tool(request)) {
            Some(tool) => StepValue::Run {
                id,
                run: run_of(path, command_of(tool, call_arguments(request))),
            },
            None => StepValue::Reply(
                tool_reply(id, Err(Failure::UnknownTool(called_tool(request)))),
            ),
        }
    } else {
        StepValue::Reply(failure(id, METHOD_NOT_FOUND as int, "Method not found: "@ + method))
    }
}

fn text_under<'a>(json: Option<&'a Json>, key: &str) -> (text: &'a str)
    ensures
        text@ == text_at(value_of(json), key@),
{
    let found = match field(json, key) {
        Some(value) => value.as_str(),
        None => None,
    };
    match found {
        Some(t) => t,
        None => {
            proof {
                reveal_strlit("");
            }
            assert(""@ =~= Seq::<char>::empty());
            ""
        },
    }
}

fn copy_of(json: Option<&Json>) -> (copy: Json)
    ensures
        copy@ == value_of(json),
{
    match json {
        Some(value) => value.clone(),
        None => Json::Null,
    }
}

/// The message that the server sends before it reads its first request: what
/// it says of itself, as a reply without an id.
pub fn startup_message() -> (message: Json)
    ensures
        message@ == success(JsonValue::Null, server_metadata()),
{
    success_reply(Json::Null, server_metadata_json())
}

/// Makes the reply to a tool call from what running the console gave.
pub fn tool_response(id: Json, outcome: Result<String, ToolError>) -> (reply: Json)
    ensures
        reply@ == tool_reply(id@, outcome_of(outcome)),
{
    match outcome {
        Ok(output) => success_reply(id, text_content_json(output)),
        Err(error) => {
            let mut message = String::from_str("Tool execution failed: ");
            message.append(error.message().as_str());
            failure_reply(id, TOOL_FAILED, message)
        },
    }
}

/// Handles one request: answers it, or says what has to be run first.
pub fn handle_request(client: &BareosClient, request: &Json) -> (step: Step)
    ensures
        step@ == step_for(client.path(), request@),
{
    let method = text_under(Some(request), "method");
    let id = copy_of(request.get("id"));
    if same_text(method, "initialize") {
        Step::Reply(success_reply(id, server_metadata_json()))
    } else if same_text(method, "tools/list") {
        Step::Reply(success_reply(id, tools_listing_json()))
    } else if same_text(method, "tools/call") {
        let params = request.get("params");
        let tool_name = text_under(params, "name");
        let arguments = field(params, "arguments");
        match find_tool(tool_name) {
            Some(tool) => Step::Run { id, invocation: tool.invoke(client, arguments) },
            None => Step::Reply(
                tool_response(id, Err(ToolError::UnknownTool(String::from_str(tool_name)))),
            ),
        }
    } else {
        let mut message = String::from_str("Method not found: ");
        message.append(method);
        Step::Reply(failure_reply(id, METHOD_NOT_FOUND, message))
    }
}

/// What reading one line comes to.
#[derive(Debug, PartialEq, Eq)]
pub enum LineStep {
    /// The line holds nothing but white space: there is nothing to answer.
    Blank,
    /// The line is no JSON: it is passed over without a reply.
    Malformed,
    /// The line is a request.
    Request(Step),
}

/// The mathematical value of a [`LineStep`].
pub enum LineStepValue {
    Blank,
    Malformed,
    Request(StepValue),
}

impl View for LineStep {
    type V = LineStepValue;

    open spec fn view(&self) -> LineStepValue {
        match self {
            LineStep::Blank => LineStepValue::Blank,
            LineStep::Malformed => LineStepValue::Malformed,
            LineStep::Request(step) => LineStepValue::Request(step@),
        }
    }
}

/// What a line that is not blank comes to, given what reading it as JSON
/// gave.
pub open spec fn read_step_for(path: Seq<char>, read: Option<JsonValue>) -> LineStepValue {
    match read {
        Some(request) => LineStepValue::Request(step_for(path, request)),
        None => LineStepValue::Malformed,
    }
}

/// What a line comes to, given what reading it as JSON gave.
pub open spec fn line_step_for(path: Seq<char>, line: Seq<char>, read: Option<JsonValue>)
    -> LineStepValue {
    if blank(line) {
        LineStepValue::Blank
    } else {
        read_step_for(path, read)
    }
}

/// Handles a line that is not blank, given what reading it as JSON gave.
pub fn handle_parsed(client: &BareosClient, read: Option<Json>) -> (step: LineStep)
    ensures
        step@ == read_step_for(
            client.path(),
            match read {
                Some(request) => Some(request@),
                None => None,
            },
        ),
{
    match read {
        Some(request) => LineStep::Request(handle_request(client, &request)),
        None => LineStep::Malformed,
    }
}

/// Handles one line of input. A line that is blank or no JSON takes no
/// reply and leaves nothing behind: the next line is handled as if it were
/// the first.
pub fn handle_line(client: &BareosClient, line: &str) -> (step: LineStep)
    ensures
        step@ == line_step_for(client.path(), line@, parsed(line@)),
{
    if is_blank(line) {
        LineStep::Blank
    } else {
        handle_parsed(client, read_line(line))
    }
}

/// A call of a tool that the server has is answered under the id of the
/// request, whatever running the console gives: the step hands the id on, and
/// the reply that is made of it carries that id.
pub proof fn lemma_call_keeps_id(
    path: Seq<char>,
    request: JsonValue,
    outcome: Result<Seq<char>, Failure>,
)
    requires
        method_of(request) == "tools/call"@,
        tool_named(called_tool(request)) is Some,
    ensures
        step_for(path, request) is Run,
        step_for(path, request)->id == id_of(request),
        tool_reply(step_for(path, request)->id, outcome).member("id"@) == id_of(request),
{
    lemma_method_names();
    lemma_tool_reply_shape(id_of(request), outcome);
}

/// Every reply carries the id of its request, null where the request has
/// none; a step that asks for a run hands the id on.
pub proof fn lemma_reply_keeps_id(path: Seq<char>, request: JsonValue)
    ensures
        match step_for(path, request) {
            StepValue::Reply(reply) => reply.member("id"@) == id_of(request),
            StepValue::Run { id, run } => id == id_of(request),
        },
{
    let id = id_of(request);
    lemma_success_shape(id, server_metadata());
    lemma_success_shape(id, tools_listing());
    lemma_tool_reply_shape(id, Err(Failure::UnknownTool(called_tool(request))));
    lemma_failure_shape(id, METHOD_NOT_FOUND as int, "Method not found: "@ + method_of(request));
}

/// A request for a method that the server does not have is answered with an
/// error of code -32601 whose message ends in the name of the method.
pub proof fn lemma_unknown_method(path: Seq<char>, request: JsonValue)
    requires
        method_of(request) != "initialize"@,
        method_of(request) != "tools/list"@,
        method_of(request) != "tools/call"@,
    ensures
        step_for(path, request) == StepValue::Reply(
            failure(id_of(request), -32601, "Method not found: "@ + method_of(request)),
        ),
        step_for(path, request)->Reply_0.lookup("result"@) is None,
        step_for(path, request)->Reply_0.member("error"@).member("code"@) == JsonValue::Number(
            "-32601"@,
        ),
        step_for(path, request)->Reply_0.member("error"@).member("message"@) == JsonValue::Text(
            "Method not found: "@ + method_of(request),
        ),
{
    lemma_failure_shape(id_of(request), -32601, "Method not found: "@ + method_of(request));
    lemma_error_codes();
}

/// A call of a tool that the server does not have is answered with an error
/// of code -32000 that names the tool: an error of the call, not of the
/// protocol.
pub proof fn lemma_unknown_tool(path: Seq<char>, request: JsonValue)
    requires
        method_of(request) == "tools/call"@,
        tool_named(called_tool(request)) is None,
    ensures
        step_for(path, request) == StepValue::Reply(
            failure(
                id_of(request),
                -32000,
                "Tool execution failed: "@ + ("Unknown tool: "@ + called_tool(request)),
            ),
        ),
        step_for(path, request)->Reply_0.lookup("result"@) is None,
        step_for(path, request)->Reply_0.member("error"@).member("code"@) == JsonValue::Number(
            "-32000"@,
        ),
{
    lemma_method_names();
    lemma_failure_shape(
        id_of(request),
        -32000,
        "Tool execution failed: "@ + ("Unknown tool: "@ + called_tool(request)),
    );
    lemma_error_codes();
}

/// A run that printed nothing and did not exit cleanly is answered with an
/// error of code -32000 whose message ends in what the run wrote to standard
/// error. Any other run is answered with what it printed, as text content:
/// output makes a success whatever the exit status was.
pub proof fn lemma_run_reply(id: JsonValue, stdout: Seq<char>, stderr: Seq<char>, exited_ok: bool)
    ensures
        stdout.len() == 0 && !exited_ok ==> tool_reply(id, judged(stdout, stderr, exited_ok))
            == failure(
            id,
            -32000,
            "Tool execution failed: "@ + ("bconsole command failed: "@ + stderr),
        ),
        stdout.len() > 0 || exited_ok ==> tool_reply(id, judged(stdout, stderr, exited_ok))
            == success(id, text_content(stdout)),
        stdout.len() > 0 || exited_ok ==> tool_reply(
            id,
            judged(stdout, stderr, exited_ok),
        ).member("result"@).member("content"@) == JsonValue::Array(
            seq![
                JsonValue::Object(
                    seq![("type"@, JsonValue::Text("text"@)), ("text"@, JsonValue::Text(stdout))],
                ),
            ],
        ),
{
    lemma_success_shape(id, text_content(stdout));
    assert(text_content(stdout).member("content"@) == JsonValue::Array(
        seq![
            JsonValue::Object(
                seq![("type"@, JsonValue::Text("text"@)), ("text"@, JsonValue::Text(stdout))],
            ),
        ],
    )) by {
        let members = text_content(stdout)->Object_0;
        assert(members.len() == 1);
        assert(members.last().0 == "content"@);
    }
}

/// The three methods of the server have three different names.
pub proof fn lemma_method_names()
    ensures
        "initialize"@ != "tools/list"@,
        "initialize"@ != "tools/call"@,
        "tools/list"@ != "tools/call"@,
{
    reveal_strlit("initialize");
    reveal_strlit("tools/list");
    reveal_strlit("tools/call");
    assert("initialize"@[0] == 'i');
    assert("tools/list"@[0] == 't');
    assert("tools/call"@[0] == 't');
    assert("tools/list"@[6] == 'l');
    assert("tools/call"@[6] == 'c');
}

/// The reply to a tool call carries the id that it was made with.
pub proof fn lemma_tool_reply_shape(id: JsonValue, outcome: Result<Seq<char>, Failure>)
    ensures
        tool_reply(id, outcome).member("id"@) == id,
        outcome is Ok <==> tool_reply(id, outcome).lookup("result"@) is Some,
        outcome is Err <==> tool_reply(id, outcome).lookup("error"@) is Some,
{
    match outcome {
        Ok(output) => lemma_success_shape(id, text_content(output)),
        Err(error) => lemma_failure_shape(
            id,
            TOOL_FAILED as int,
            "Tool execution failed: "@ + error.message(),
        ),
    }
}

} // verus!
