//! The MCP manager and its builder: tools are registered by name, and each
//! request is routed to the tool registered under the name it asks for.
//!
//! Running a tool is work of the application (tools are asynchronous), so the
//! handling of a request is split in two decisions around that work:
//! [`MCP::start_request`] decides whether a tool runs or what is answered at
//! once, and [`MCP::finish_request`] turns the tool's outcome into the answer.
use vstd::prelude::*;
use crate::error::{Error, ToolError, TransportError};
use crate::message::{Request, Response};
use crate::registry::ToolRegistry;

verus! {

/// The tool that handles requests for `tool_name`, if one is registered.
pub open spec fn routed_tool<H>(tools: Map<Seq<char>, H>, tool_name: Seq<char>) -> Option<H> {
    if tools.contains_key(tool_name) {
        Some(tools[tool_name])
    } else {
        None
    }
}

/// The answer to a request whose tool ended with `outcome`, where a tool
/// error is answered by a [`Error::ToolError`] that carries the error's text.
pub open spec fn answers_outcome(
    response: Response,
    id: Seq<char>,
    outcome: Result<serde_json::Value, ToolError>,
) -> bool {
    &&& response.id@ == id
    &&& match outcome {
        Ok(v) => response.result == Ok::<serde_json::Value, Error>(v),
        Err(e) => response.result matches Err(Error::ToolError(text)) && text@ == e.text(),
    }
}

/// The answer to a request for a tool that is not registered.
pub open spec fn answers_not_found(response: Response, id: Seq<char>, tool_name: Seq<char>) -> bool {
    &&& response.id@ == id
    &&& response.result matches Err(Error::ToolNotFound(name)) && name@ == tool_name
}

/// Whether two answers say the same: the same request id, and the same
/// result (the same JSON value, or the same kind of error with the same text).
pub open spec fn answers_alike(a: Response, b: Response) -> bool {
    &&& a.id@ == b.id@
    &&& match (a.result, b.result) {
        (Ok(x), Ok(y)) => x == y,
        (Err(Error::ToolError(x)), Err(Error::ToolError(y))) => x@ == y@,
        (Err(Error::ToolNotFound(x)), Err(Error::ToolNotFound(y))) => x@ == y@,
        (Err(Error::InvalidParams(x)), Err(Error::InvalidParams(y))) => x@ == y@,
        (Err(Error::InternalError(x)), Err(Error::InternalError(y))) => x@ == y@,
        _ => false,
    }
}

/// MCP manager builder
pub struct MCPBuilder<H> {
    tools: ToolRegistry<H>,
}

impl<H> View for MCPBuilder<H> {
    type V = Map<Seq<char>, H>;

    /// The tools registered so far, by name.
    closed spec fn view(&self) -> Map<Seq<char>, H> {
        self.tools@
    }
}

impl<H> MCPBuilder<H> {
    /// Creates a new MCP builder without tools
    pub fn new() -> (b: Self)
        ensures
            b@ == Map::<Seq<char>, H>::empty(),
    {
        MCPBuilder { tools: ToolRegistry::new() }
    }

    /// Registers a tool in the manager; a tool registered earlier under the
    /// same name is replaced.
    pub fn with_tool(self, name: &str, tool: H) -> (b: Self)
        ensures
            b@ == self@.insert(name@, tool),
    {
        let mut tools = self.tools;
        let _ = tools.insert(String::from_str(name), tool);
        MCPBuilder { tools }
    }

    /// Builds an MCP manager with the specified transport
    pub fn build<T>(self, transport: T) -> (m: MCP<T, H>)
        ensures
            m.tool_map() == self@,
            m.transport_value() == transport,
    {
        MCP { transport, tools: self.tools }
    }
}

impl<H> Default for MCPBuilder<H> {
    fn default() -> (b: Self)
        ensures
            b@ == Map::<Seq<char>, H>::empty(),
    {
        Self::new()
    }
}

/// What handling a request asks for next.
pub enum RequestStep<'a, H> {
    /// Run `tool` on `params`, then answer request `id` with
    /// [`MCP::finish_request`].
    Execute { id: String, tool: &'a H, params: serde_json::Value },
    /// Answer at once.
    Respond(Response),
}

/// MCP protocol manager
pub struct MCP<T, H> {
    transport: T,
    tools: ToolRegistry<H>,
}

impl<T, H> MCP<T, H> {
    /// The registered tools, by name.
    pub closed spec fn tool_map(&self) -> Map<Seq<char>, H> {
        self.tools@
    }

    /// The underlying transport.
    pub closed spec fn transport_value(&self) -> T {
        self.transport
    }

    /// Starts processing MCP messages. Nothing is read from the transport
    /// yet: the manager is left as it is and the run succeeds.
    pub fn run(&mut self) -> (r: Result<(), TransportError>)
        ensures
            r is Ok,
            *final(self) == *old(self),
    {
        Ok(())
    }

    /// First half of processing a request: the request for a registered tool
    /// runs that tool on the request's parameters; any other request is
    /// answered at once that the tool was not found.
    pub fn start_request(&self, request: Request) -> (step: RequestStep<'_, H>)
        ensures
            match step {
                RequestStep::Execute { id, tool, params } => {
                    &&& routed_tool(self.tool_map(), request.tool_name@) == Some(*tool)
                    &&& id@ == request.id@
                    &&& params == request.params
                },
                RequestStep::Respond(response) => {
                    &&& routed_tool(self.tool_map(), request.tool_name@) is None
                    &&& answers_not_found(response, request.id@, request.tool_name@)
                },
            },
    {
        let Request { id, tool_name, params } = request;
        match self.tools.get(tool_name.as_str()) {
            Some(tool) => RequestStep::Execute { id, tool, params },
            None => RequestStep::Respond(Response { id, result: Err(Error::ToolNotFound(tool_name)) }),
        }
    }

    /// Second half of processing a request: the tool's result is the answer;
    /// a tool error is answered as a tool error carrying its text.
    pub fn finish_request(&self, id: String, outcome: Result<serde_json::Value, ToolError>) -> (response:
        Response)
        ensures
            answers_outcome(response, id@, outcome),
    {
        let result = match outcome {
            Ok(v) => Ok(v),
            Err(e) => Err(Error::ToolError(e.to_string())),
        };
        Response { id, result }
    }

    /// Accesses the underlying transport
    pub fn transport(&mut self) -> (t: &mut T)
        ensures
            *t == old(self).transport_value(),
            final(self).transport_value() == *final(t),
            final(self).tool_map() == old(self).tool_map(),
    {
        &mut self.transport
    }

    /// Accesses the tool registry
    pub fn tools(&self) -> (r: &ToolRegistry<H>)
        ensures
            r@ == self.tool_map(),
    {
        &self.tools
    }
}

} // verus!
