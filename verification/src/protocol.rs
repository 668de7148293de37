//! The JSON-RPC envelope of a reply, and what the server says of itself.

use vstd::prelude::*;
use vstd::string::*;
use crate::json::{find, items_of, member, members_of, Json, JsonValue};
use crate::text::{decimal, integer, integer_text};

verus! {

/// The version of JSON-RPC that every reply names.
pub const JSONRPC_VERSION: &'static str = "2.0";

/// The version of the tool protocol that the server speaks.
pub const PROTOCOL_VERSION: &'static str = "2024-11-05";

/// The name under which the server presents itself.
pub const SERVER_NAME: &'static str = "bareos-mcp-server";

/// The version under which the server presents itself.
pub const SERVER_VERSION: &'static str = "0.1.0";

/// The error code of a request for a method that the server does not have.
pub const METHOD_NOT_FOUND: i64 = -32601;

/// The error code of a tool call that failed.
pub const TOOL_FAILED: i64 = -32000;

/// The reply that carries `result` for the request with `id`.
pub open spec fn success(id: JsonValue, result: JsonValue) -> JsonValue {
    JsonValue::Object(
        seq![
            ("jsonrpc"@, JsonValue::Text(JSONRPC_VERSION@)),
            ("id"@, id),
            ("result"@, result),
        ],
    )
}

/// The reply that reports an error to the request with `id`.
pub open spec fn failure(id: JsonValue, code: int, message: Seq<char>) -> JsonValue {
    JsonValue::Object(
        seq![
            ("jsonrpc"@, JsonValue::Text(JSONRPC_VERSION@)),
            ("id"@, id),
            (
                "error"@,
                JsonValue::Object(
                    seq![
                        ("code"@, JsonValue::Number(integer(code))),
                        ("message"@, JsonValue::Text(message)),
                    ],
                ),
            ),
        ],
    )
}

/// What the server says of itself: the protocol version, its capabilities
/// (tools, with nothing more said of them), and its name and version.
pub open spec fn server_metadata() -> JsonValue {
    JsonValue::Object(
        seq![
            ("protocolVersion"@, JsonValue::Text(PROTOCOL_VERSION@)),
            (
                "capabilities"@,
                JsonValue::Object(seq![("tools"@, JsonValue::Object(Seq::empty()))]),
            ),
            (
                "serverInfo"@,
                JsonValue::Object(
                    seq![
                        ("name"@, JsonValue::Text(SERVER_NAME@)),
                        ("version"@, JsonValue::Text(SERVER_VERSION@)),
                    ],
                ),
            ),
        ],
    )
}

/// The result of a tool call that printed `text`: one piece of content, of
/// type text.
pub open spec fn text_content(text: Seq<char>) -> JsonValue {
    JsonValue::Object(
        seq![
            (
                "content"@,
                JsonValue::Array(
                    seq![
                        JsonValue::Object(
                            seq![("type"@, JsonValue::Text("text"@)), ("text"@, JsonValue::Text(text))],
                        ),
                    ],
                ),
            ),
        ],
    )
}

/// Builds the reply that carries `result` for the request with `id`.
pub fn success_reply(id: Json, result: Json) -> (reply: Json)
    ensures
        reply@ == success(id@, result@),
{
    let members = vec![
        member("jsonrpc", Json::text(JSONRPC_VERSION)),
        member("id", id),
        member("result", result),
    ];
    assert(members_of(members@) =~= seq![
        ("jsonrpc"@, JsonValue::Text(JSONRPC_VERSION@)),
        ("id"@, id@),
        ("result"@, result@),
    ]);
    Json::Object(members)
}

/// Builds the reply that reports an error to the request with `id`.
pub fn failure_reply(id: Json, code: i64, message: String) -> (reply: Json)
    ensures
        reply@ == failure(id@, code as int, message@),
{
    let detail = vec![
        member("code", Json::Number(integer_text(code))),
        member("message", Json::Text(message)),
    ];
    assert(members_of(detail@) =~= seq![
        ("code"@, JsonValue::Number(integer(code as int))),
        ("message"@, JsonValue::Text(message@)),
    ]);
    let members = vec![
        member("jsonrpc", Json::text(JSONRPC_VERSION)),
        member("id", id),
        member("error", Json::Object(detail)),
    ];
    assert(members_of(members@) =~= seq![
        ("jsonrpc"@, JsonValue::Text(JSONRPC_VERSION@)),
        ("id"@, id@),
        ("error"@, Json::Object(detail)@),
    ]);
    Json::Object(members)
}

/// Builds what the server says of itself.
pub fn server_metadata_json() -> (metadata: Json)
    ensures
        metadata@ == server_metadata(),
{
    let none: Vec<(String, Json)> = Vec::new();
    assert(members_of(none@) =~= Seq::empty());
    let capabilities = vec![member("tools", Json::Object(none))];
    assert(members_of(capabilities@) =~= seq![("tools"@, JsonValue::Object(Seq::empty()))]);
    let info = vec![
        member("name", Json::text(SERVER_NAME)),
        member("version", Json::text(SERVER_VERSION)),
    ];
    assert(members_of(info@) =~= seq![
        ("name"@, JsonValue::Text(SERVER_NAME@)),
        ("version"@, JsonValue::Text(SERVER_VERSION@)),
    ]);
    let members = vec![
        member("protocolVersion", Json::text(PROTOCOL_VERSION)),
        member("capabilities", Json::Object(capabilities)),
        member("serverInfo", Json::Object(info)),
    ];
    assert(members_of(members@) =~= seq![
        ("protocolVersion"@, JsonValue::Text(PROTOCOL_VERSION@)),
        ("capabilities"@, Json::Object(capabilities)@),
        ("serverInfo"@, Json::Object(info)@),
    ]);
    Json::Object(members)
}

/// Builds the result of a tool call that printed `text`.
pub fn text_content_json(text: String) -> (result: Json)
    ensures
        result@ == text_content(text@),
{
    let piece = vec![member("type", Json::text("text")), member("text", Json::Text(text))];
    assert(members_of(piece@) =~= seq![
        ("type"@, JsonValue::Text("text"@)),
        ("text"@, JsonValue::Text(text@)),
    ]);
    let pieces = vec![Json::Object(piece)];
    assert(items_of(pieces@) =~= seq![Json::Object(piece)@]);
    let members = vec![member("content", Json::Array(pieces))];
    assert(members_of(members@) =~= seq![("content"@, Json::Array(pieces)@)]);
    Json::Object(members)
}

/// A reply with a result has the three members of its envelope and no error.
pub proof fn lemma_success_shape(id: JsonValue, result: JsonValue)
    ensures
        success(id, result).member("jsonrpc"@) == JsonValue::Text(JSONRPC_VERSION@),
        success(id, result).member("id"@) == id,
        success(id, result).lookup("result"@) == Some(result),
        success(id, result).lookup("error"@) is None,
{
    reveal_strlit("jsonrpc");
    reveal_strlit("id");
    reveal_strlit("result");
    reveal_strlit("error");
    let members = success(id, result)->Object_0;
    let two = members.drop_last();
    let one = two.drop_last();
    assert(members.last() == (("result"@, result)));
    assert(two.last() == (("id"@, id)));
    assert(one.last() == (("jsonrpc"@, JsonValue::Text(JSONRPC_VERSION@))));
    assert(one.drop_last().len() == 0);
    assert("jsonrpc"@.len() == 7 && "id"@.len() == 2 && "result"@.len() == 6 && "error"@.len()
        == 5);
    reveal_with_fuel(find, 4);
}

/// A reply with an error has the three members of its envelope and no
/// result; its error holds the code as a number and the message as a string.
pub proof fn lemma_failure_shape(id: JsonValue, code: int, message: Seq<char>)
    ensures
        failure(id, code, message).member("jsonrpc"@) == JsonValue::Text(JSONRPC_VERSION@),
        failure(id, code, message).member("id"@) == id,
        failure(id, code, message).lookup("result"@) is None,
        failure(id, code, message).lookup("error"@) is Some,
        failure(id, code, message).member("error"@).member("code"@) == JsonValue::Number(
            integer(code),
        ),
        failure(id, code, message).member("error"@).member("message"@) == JsonValue::Text(
            message,
        ),
{
    reveal_strlit("jsonrpc");
    reveal_strlit("id");
    reveal_strlit("result");
    reveal_strlit("error");
    reveal_strlit("code");
    reveal_strlit("message");
    let members = failure(id, code, message)->Object_0;
    let two = members.drop_last();
    let one = two.drop_last();
    assert(members.last().0 == "error"@);
    assert(two.last() == (("id"@, id)));
    assert(one.last() == (("jsonrpc"@, JsonValue::Text(JSONRPC_VERSION@))));
    assert(one.drop_last().len() == 0);
    let detail = members.last().1->Object_0;
    assert(detail.last() == (("message"@, JsonValue::Text(message))));
    assert(detail.drop_last().last() == (("code"@, JsonValue::Number(integer(code)))));
    assert(detail.drop_last().drop_last().len() == 0);
    assert("jsonrpc"@.len() == 7 && "id"@.len() == 2 && "result"@.len() == 6 && "error"@.len()
        == 5 && "code"@.len() == 4 && "message"@.len() == 7);
    reveal_with_fuel(find, 4);
}

/// The two error codes, as they are written in a reply.
pub proof fn lemma_error_codes()
    ensures
        integer(METHOD_NOT_FOUND as int) == "-32601"@,
        integer(TOOL_FAILED as int) == "-32000"@,
{
    reveal_strlit("-");
    reveal_strlit("-32601");
    reveal_strlit("-32000");
    reveal_with_fuel(decimal, 6);
    assert(integer(-32601) =~= "-32601"@);
    assert(integer(-32000) =~= "-32000"@);
}

} // verus!
