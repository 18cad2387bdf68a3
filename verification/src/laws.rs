//! Properties of the registry and of request routing that hold across calls.
use vstd::prelude::*;
use crate::error::{Error, ToolError, TransportError};
use crate::mcp::{answers_alike, answers_not_found, answers_outcome, routed_tool};
use crate::message::Response;

verus! {

/// A request for a name is routed to the tool registered last under that name.
pub proof fn law_registered_tool_is_routed<H>(tools: Map<Seq<char>, H>, name: Seq<char>, tool: H)
    ensures
        routed_tool(tools.insert(name, tool), name) == Some(tool),
{
}

/// Registering a tool under one name leaves the routing of every other name
/// as it was.
pub proof fn law_registration_leaves_other_names<H>(
    tools: Map<Seq<char>, H>,
    name: Seq<char>,
    tool: H,
    other: Seq<char>,
)
    requires
        other != name,
    ensures
        routed_tool(tools.insert(name, tool), other) == routed_tool(tools, other),
{
}

/// Registering twice under the same name is the same as registering the
/// second tool alone: the later registration replaces the earlier one.
pub proof fn law_later_registration_replaces<H>(
    tools: Map<Seq<char>, H>,
    name: Seq<char>,
    first: H,
    second: H,
)
    ensures
        tools.insert(name, first).insert(name, second) == tools.insert(name, second),
{
    assert(tools.insert(name, first).insert(name, second) =~= tools.insert(name, second));
}

/// A registration under a new name adds one tool to the count; one under a
/// name already taken leaves the count as it was.
pub proof fn law_registration_count<H>(tools: Map<Seq<char>, H>, name: Seq<char>, tool: H)
    requires
        tools.dom().finite(),
    ensures
        tools.insert(name, tool).len() == if tools.contains_key(name) {
            tools.len()
        } else {
            tools.len() + 1
        },
{
    if tools.contains_key(name) {
        assert(tools.insert(name, tool).dom() =~= tools.dom());
    }
}

/// A manager built without tools routes no request to a tool: every request
/// is answered that its tool was not found.
pub proof fn law_no_tools_routes_nothing<H>(name: Seq<char>)
    ensures
        routed_tool(Map::<Seq<char>, H>::empty(), name) is None,
{
}

/// Processing the same request twice on the same manager gives the same
/// answer, provided the routed tool ends both times with the same outcome.
pub proof fn law_same_request_same_answer<H>(
    tools: Map<Seq<char>, H>,
    id: Seq<char>,
    tool_name: Seq<char>,
    outcome: Result<serde_json::Value, ToolError>,
    first: Response,
    second: Response,
)
    requires
        routed_tool(tools, tool_name) is None ==> answers_not_found(first, id, tool_name)
            && answers_not_found(second, id, tool_name),
        routed_tool(tools, tool_name) is Some ==> answers_outcome(first, id, outcome)
            && answers_outcome(second, id, outcome),
    ensures
        answers_alike(first, second),
{
}

/// A domain error renders as the label of its kind followed by its whole
/// message; the label depends on the kind alone, never on the message.
pub proof fn law_error_renders_label_and_message(m: String)
    ensures
        Error::ToolError(m).text() == "Tool Error: "@ + m@,
        Error::ToolNotFound(m).text() == "Tool Not Found: "@ + m@,
        Error::InvalidParams(m).text() == "Invalid Parameters: "@ + m@,
        Error::InternalError(m).text() == "Internal Error: "@ + m@,
{
}

/// A transport error renders as the label of its kind followed by its whole
/// message, and a generic one as its message alone; the label depends on the
/// kind alone, never on the message.
pub proof fn law_transport_error_renders_label_and_message(m: String)
    ensures
        TransportError::ReadError(m).text() == "Read Error: "@ + m@,
        TransportError::WriteError(m).text() == "Write Error: "@ + m@,
        TransportError::ConnectionError(m).text() == "Connection Error: "@ + m@,
        TransportError::JsonError(m).text() == "JSON Error: "@ + m@,
        TransportError::Other(m).text() == m@,
{
}

/// A tool error renders as the label of its kind followed by its whole
/// message, and a generic one as its message alone; the label depends on the
/// kind alone, never on the message.
pub proof fn law_tool_error_renders_label_and_message(m: String)
    ensures
        ToolError::InvalidParams(m).text() == "Invalid Parameters: "@ + m@,
        ToolError::ExecutionError(m).text() == "Execution Error: "@ + m@,
        ToolError::ToolNotFound(m).text() == "Tool Not Found: "@ + m@,
        ToolError::JsonError(m).text() == "JSON Error: "@ + m@,
        ToolError::Other(m).text() == m@,
{
}

/// A request whose tool failed is answered, under the request's id, with a
/// tool error whose text is the failure's label followed by the failure's
/// whole message, whatever its kind.
pub proof fn law_tool_failure_answer_carries_whole_message(
    response: Response,
    id: Seq<char>,
    m: String,
)
    ensures
        answers_outcome(response, id, Err(ToolError::ExecutionError(m))) ==> (response.id@ == id && (
        response.result matches Err(Error::ToolError(t)) && t@ == "Execution Error: "@ + m@)),
        answers_outcome(response, id, Err(ToolError::InvalidParams(m))) ==> (response.id@ == id && (
        response.result matches Err(Error::ToolError(t)) && t@ == "Invalid Parameters: "@ + m@)),
        answers_outcome(response, id, Err(ToolError::ToolNotFound(m))) ==> (response.id@ == id && (
        response.result matches Err(Error::ToolError(t)) && t@ == "Tool Not Found: "@ + m@)),
        answers_outcome(response, id, Err(ToolError::JsonError(m))) ==> (response.id@ == id && (
        response.result matches Err(Error::ToolError(t)) && t@ == "JSON Error: "@ + m@)),
        answers_outcome(response, id, Err(ToolError::Other(m))) ==> (response.id@ == id && (
        response.result matches Err(Error::ToolError(t)) && t@ == m@)),
{
}

} // verus!
