//! The dispatch engine: routing by method name, planning of the three
//! handler-invoking operations, and settlement of handler outcomes into
//! response envelopes.
//!
//! One request/response cycle is split at its suspension points. The
//! caller feeds one `RequestEnvelope` to `handle_request` and receives a
//! `Step`: either a finished response, or a handler to invoke together
//! with its decoded request and the pending identifier. After awaiting the
//! handler, the caller settles the outcome with the matching `settle`
//! function. Every step and every settled response carries the identifier
//! of the request it answers, so a caller that completes one cycle before
//! receiving the next request emits responses in request order.

use crate::protocol::{
    CallToolParams, CallToolResult, ErrorCode, ErrorObject, GetPromptParams, GetPromptResult,
    ListPromptsResult, ListResourcesResult, ListToolsResult, InitializeResult, ReadResourceParams,
    ReadResourceResult, RequestEnvelope, RequestId, ResponseBody, ResponseEnvelope, ResultPayload,
    clone_implementation, clone_prompts, clone_resources, clone_tools,
};
use crate::registry::Registry;
use crate::server::Server;
use crate::text::str_eq;
use serde_json::Value;
use vstd::prelude::*;

verus! {

/// The protocol version this engine speaks.
pub open spec fn spec_protocol_version() -> Seq<char> {
    "2024-11-05"@
}

/// The protocol version string advertised by initialize.
pub fn protocol_version() -> (s: String)
    ensures
        s@ == spec_protocol_version(),
{
    String::from_str("2024-11-05")
}

/// The seven protocol operations, and `Unknown` for everything else.
#[derive(Debug, Clone, Copy, PartialEq, Eq, Structural)]
pub enum Operation {
    Initialize,
    ListTools,
    CallTool,
    ListResources,
    ReadResource,
    ListPrompts,
    GetPrompt,
    Unknown,
}

/// The fixed, exhaustive routing table from method name to operation.
pub open spec fn spec_route(m: Seq<char>) -> Operation {
    if m == "initialize"@ {
        Operation::Initialize
    } else if m == "tools/list"@ {
        Operation::ListTools
    } else if m == "tools/call"@ {
        Operation::CallTool
    } else if m == "resources/list"@ {
        Operation::ListResources
    } else if m == "resources/read"@ {
        Operation::ReadResource
    } else if m == "prompts/list"@ {
        Operation::ListPrompts
    } else if m == "prompts/get"@ {
        Operation::GetPrompt
    } else {
        Operation::Unknown
    }
}

/// Routes a method name to its operation.
pub fn route(method: &str) -> (op: Operation)
    ensures
        op == spec_route(method@),
{
    if str_eq(method, "initialize") {
        Operation::Initialize
    } else if str_eq(method, "tools/list") {
        Operation::ListTools
    } else if str_eq(method, "tools/call") {
        Operation::CallTool
    } else if str_eq(method, "resources/list") {
        Operation::ListResources
    } else if str_eq(method, "resources/read") {
        Operation::ReadResource
    } else if str_eq(method, "prompts/list") {
        Operation::ListPrompts
    } else if str_eq(method, "prompts/get") {
        Operation::GetPrompt
    } else {
        Operation::Unknown
    }
}

/// What the engine decides for one handler-invoking operation: reject the
/// params, reject an unregistered key (with the message detail naming what
/// is missing), or use a handler on the decoded request.
pub enum Decision<H, P> {
    RejectParams,
    RejectUnknown(Seq<char>),
    Use(H, P),
}

/// The decision for a tool call: undecodable params are rejected; a
/// decoded call uses the handler registered under the tool's name, and is
/// rejected when there is none.
pub open spec fn spec_tool_decision<TH>(
    m: Map<Seq<char>, TH>,
    d: Option<CallToolParams>,
) -> Decision<TH, CallToolParams> {
    match d {
        None => Decision::RejectParams,
        Some(p) => if m.contains_key(p.name@) {
            Decision::Use(m[p.name@], p)
        } else {
            Decision::RejectUnknown("Tool not found: "@ + p.name@)
        },
    }
}

/// The decision for a resource read: undecodable params are rejected; a
/// decoded read uses the single handler under the fixed key, and is
/// rejected when none is configured.
pub open spec fn spec_resource_decision<RH>(
    m: Map<Seq<char>, RH>,
    d: Option<ReadResourceParams>,
) -> Decision<RH, ReadResourceParams> {
    match d {
        None => Decision::RejectParams,
        Some(p) => if m.contains_key("default"@) {
            Decision::Use(m["default"@], p)
        } else {
            Decision::RejectUnknown("No resource handler configured"@)
        },
    }
}

/// The decision for a prompt get: undecodable params are rejected; a
/// decoded get uses the handler registered under the prompt's name, and is
/// rejected when there is none.
pub open spec fn spec_prompt_decision<PH>(
    m: Map<Seq<char>, PH>,
    d: Option<GetPromptParams>,
) -> Decision<PH, GetPromptParams> {
    match d {
        None => Decision::RejectParams,
        Some(p) => if m.contains_key(p.name@) {
            Decision::Use(m[p.name@], p)
        } else {
            Decision::RejectUnknown("Prompt not found: "@ + p.name@)
        },
    }
}

/// The body is a failure with this code, this message, and no data.
pub open spec fn is_failure_with(b: ResponseBody, code: ErrorCode, msg: Seq<char>) -> bool {
    match b {
        ResponseBody::Failure(e) => e.code == code && e.message@ == msg && e.data is None,
        _ => false,
    }
}

/// What a handler-invoking operation hands back: a finished response, or
/// the handler to invoke with the decoded request and the pending
/// identifier.
pub enum Plan<'a, H, P> {
    Respond(ResponseEnvelope),
    Invoke(&'a H, P, RequestId),
}

/// The plan realizes the decision, answering under `id`: a rejection is a
/// finished failure response with the decision's code and message, and a
/// `Use` decision invokes exactly the decided handler on the decoded
/// request.
pub open spec fn plan_matches<'a, H, P>(
    plan: Plan<'a, H, P>,
    id: RequestId,
    invalid_msg: Seq<char>,
    dec: Decision<H, P>,
) -> bool {
    match dec {
        Decision::RejectParams => match plan {
            Plan::Respond(resp) => resp.id == id && is_failure_with(
                resp.body,
                ErrorCode::InvalidParams,
                invalid_msg,
            ),
            _ => false,
        },
        Decision::RejectUnknown(detail) => match plan {
            Plan::Respond(resp) => resp.id == id && is_failure_with(
                resp.body,
                ErrorCode::MethodNotFound,
                "Method not found: "@ + detail,
            ),
            _ => false,
        },
        Decision::Use(h, p) => match plan {
            Plan::Invoke(h2, p2, id2) => *h2 == h && p2 == p && id2 == id,
            _ => false,
        },
    }
}

/// Plans a tool call from the decoded params: reject undecodable params,
/// look the tool's handler up, and hand it out for invocation.
pub fn plan_tool_call<'a, TH>(
    reg: &'a Registry<TH>,
    id: RequestId,
    decoded: Option<CallToolParams>,
) -> (plan: Plan<'a, TH, CallToolParams>)
    requires
        reg.wf(),
    ensures
        plan_matches(
            plan,
            id,
            "Invalid tool request"@,
            spec_tool_decision(reg@, decoded),
        ),
{
    match decoded {
        None => Plan::Respond(
            ResponseEnvelope {
                id,
                body: ResponseBody::Failure(ErrorObject::invalid_params("Invalid tool request")),
            },
        ),
        Some(p) => match reg.get(p.name.as_str()) {
            Some(h) => Plan::Invoke(h, p, id),
            None => {
                let detail = String::from_str("Tool not found: ").concat(p.name.as_str());
                Plan::Respond(
                    ResponseEnvelope {
                        id,
                        body: ResponseBody::Failure(
                            ErrorObject::method_not_found(detail.as_str()),
                        ),
                    },
                )
            },
        },
    }
}

/// Plans a resource read from the decoded params: reject undecodable
/// params, and hand the single configured handler out for invocation.
pub fn plan_resource_read<'a, RH>(
    reg: &'a Registry<RH>,
    id: RequestId,
    decoded: Option<ReadResourceParams>,
) -> (plan: Plan<'a, RH, ReadResourceParams>)
    requires
        reg.wf(),
    ensures
        plan_matches(
            plan,
            id,
            "Invalid resource request"@,
            spec_resource_decision(reg@, decoded),
        ),
{
    match decoded {
        None => Plan::Respond(
            ResponseEnvelope {
                id,
                body: ResponseBody::Failure(
                    ErrorObject::invalid_params("Invalid resource request"),
                ),
            },
        ),
        Some(p) => match reg.get("default") {
            Some(h) => Plan::Invoke(h, p, id),
            None => Plan::Respond(
                ResponseEnvelope {
                    id,
                    body: ResponseBody::Failure(
                        ErrorObject::method_not_found("No resource handler configured"),
                    ),
                },
            ),
        },
    }
}

/// Plans a prompt get from the decoded params: reject undecodable params,
/// look the prompt's handler up, and hand it out for invocation.
pub fn plan_prompt_get<'a, PH>(
    reg: &'a Registry<PH>,
    id: RequestId,
    decoded: Option<GetPromptParams>,
) -> (plan: Plan<'a, PH, GetPromptParams>)
    requires
        reg.wf(),
    ensures
        plan_matches(
            plan,
            id,
            "Invalid prompt request"@,
            spec_prompt_decision(reg@, decoded),
        ),
{
    match decoded {
        None => Plan::Respond(
            ResponseEnvelope {
                id,
                body: ResponseBody::Failure(ErrorObject::invalid_params("Invalid prompt request")),
            },
        ),
        Some(p) => match reg.get(p.name.as_str()) {
            Some(h) => Plan::Invoke(h, p, id),
            None => {
                let detail = String::from_str("Prompt not found: ").concat(p.name.as_str());
                Plan::Respond(
                    ResponseEnvelope {
                        id,
                        body: ResponseBody::Failure(
                            ErrorObject::method_not_found(detail.as_str()),
                        ),
                    },
                )
            },
        },
    }
}

/// Settles a tool handler's outcome under the pending identifier: success
/// becomes the success payload, a handler error is propagated verbatim.
pub fn settle_tool_call(id: RequestId, outcome: Result<CallToolResult, ErrorObject>) -> (resp:
    ResponseEnvelope)
    ensures
        resp.id == id,
        (outcome matches Ok(v) ==> resp.body == ResponseBody::Success(ResultPayload::ToolCall(v))),
        (outcome matches Err(e) ==> resp.body == ResponseBody::Failure(e)),
{
    match outcome {
        Ok(v) => ResponseEnvelope { id, body: ResponseBody::Success(ResultPayload::ToolCall(v)) },
        Err(e) => ResponseEnvelope { id, body: ResponseBody::Failure(e) },
    }
}

/// Settles a resource handler's outcome; a handler error is propagated
/// verbatim.
pub fn settle_resource_read(id: RequestId, outcome: Result<ReadResourceResult, ErrorObject>) -> (
    resp: ResponseEnvelope)
    ensures
        resp.id == id,
        (outcome matches Ok(v) ==> resp.body == ResponseBody::Success(
            ResultPayload::ResourceRead(v),
        )),
        (outcome matches Err(e) ==> resp.body == ResponseBody::Failure(e)),
{
    match outcome {
        Ok(v) => ResponseEnvelope {
            id,
            body: ResponseBody::Success(ResultPayload::ResourceRead(v)),
        },
        Err(e) => ResponseEnvelope { id, body: ResponseBody::Failure(e) },
    }
}

/// Settles a prompt handler's outcome; a handler error is propagated
/// verbatim.
pub fn settle_prompt_get(id: RequestId, outcome: Result<GetPromptResult, ErrorObject>) -> (resp:
    ResponseEnvelope)
    ensures
        resp.id == id,
        (outcome matches Ok(v) ==> resp.body == ResponseBody::Success(
            ResultPayload::PromptGet(v),
        )),
        (outcome matches Err(e) ==> resp.body == ResponseBody::Failure(e)),
{
    match outcome {
        Ok(v) => ResponseEnvelope { id, body: ResponseBody::Success(ResultPayload::PromptGet(v)) },
        Err(e) => ResponseEnvelope { id, body: ResponseBody::Failure(e) },
    }
}

/// One step of the dispatch loop: either the response is finished, or a
/// handler must be invoked and its outcome settled.
pub enum Step<'a, TH, RH, PH> {
    Done(ResponseEnvelope),
    CallTool(&'a TH, CallToolParams, RequestId),
    ReadResource(&'a RH, ReadResourceParams, RequestId),
    GetPrompt(&'a PH, GetPromptParams, RequestId),
}

/// The identifier a step answers: the finished response's, or the pending
/// one carried beside the handler.
pub open spec fn spec_step_id<'a, TH, RH, PH>(step: Step<'a, TH, RH, PH>) -> RequestId {
    match step {
        Step::Done(resp) => resp.id,
        Step::CallTool(_, _, id) => id,
        Step::ReadResource(_, _, id) => id,
        Step::GetPrompt(_, _, id) => id,
    }
}

/// Relies on `serde_json::Value`'s accessors: when the params value has a
/// string field `name`, yields it together with the optional `arguments`
/// field; otherwise yields nothing.
#[verifier::external_body]
fn decode_call_params(params: Option<&Value>) -> Option<CallToolParams> {
    let v = params?;
    let name = v.get("name")?.as_str()?.to_string();
    let arguments = v.get("arguments").cloned();
    Some(CallToolParams { name, arguments })
}

/// Relies on `serde_json::Value`'s accessors: when the params value has a
/// string field `uri`, yields it; otherwise yields nothing.
#[verifier::external_body]
fn decode_read_params(params: Option<&Value>) -> Option<ReadResourceParams> {
    let v = params?;
    let uri = v.get("uri")?.as_str()?.to_string();
    Some(ReadResourceParams { uri })
}

/// Relies on `serde_json::Value`'s accessors: when the params value has a
/// string field `name`, yields it together with the optional `arguments`
/// field; otherwise yields nothing.
#[verifier::external_body]
fn decode_prompt_params(params: Option<&Value>) -> Option<GetPromptParams> {
    let v = params?;
    let name = v.get("name")?.as_str()?.to_string();
    let arguments = v.get("arguments").cloned();
    Some(GetPromptParams { name, arguments })
}

/// The response initialize owes: the protocol version, the capability set
/// derived at build time, the server's identity, and no instructions.
pub open spec fn is_initialize_response<TH, RH, PH>(
    s: &Server<TH, RH, PH>,
    id: RequestId,
    resp: ResponseEnvelope,
) -> bool {
    &&& resp.id == id
    &&& match resp.body {
        ResponseBody::Success(ResultPayload::Initialize(r)) => {
            &&& r.protocol_version@ == spec_protocol_version()
            &&& r.capabilities == s.capabilities
            &&& r.server_info.deep_view() == s.info.deep_view()
            &&& r.instructions is None
        },
        _ => false,
    }
}

/// The response tools/list owes: the full, unfiltered tool list and no
/// cursor.
pub open spec fn is_tool_list_response<TH, RH, PH>(
    s: &Server<TH, RH, PH>,
    id: RequestId,
    resp: ResponseEnvelope,
) -> bool {
    &&& resp.id == id
    &&& match resp.body {
        ResponseBody::Success(ResultPayload::ToolList(r)) => {
            &&& r.tools.deep_view() == s.tools.deep_view()
            &&& r.next_cursor is None
        },
        _ => false,
    }
}

/// The response resources/list owes: the full, unfiltered resource list
/// and no cursor.
pub open spec fn is_resource_list_response<TH, RH, PH>(
    s: &Server<TH, RH, PH>,
    id: RequestId,
    resp: ResponseEnvelope,
) -> bool {
    &&& resp.id == id
    &&& match resp.body {
        ResponseBody::Success(ResultPayload::ResourceList(r)) => {
            &&& r.resources.deep_view() == s.resources.deep_view()
            &&& r.next_cursor is None
        },
        _ => false,
    }
}

/// The response prompts/list owes: the full, unfiltered prompt list and no
/// cursor.
pub open spec fn is_prompt_list_response<TH, RH, PH>(
    s: &Server<TH, RH, PH>,
    id: RequestId,
    resp: ResponseEnvelope,
) -> bool {
    &&& resp.id == id
    &&& match resp.body {
        ResponseBody::Success(ResultPayload::PromptList(r)) => {
            &&& r.prompts.deep_view() == s.prompts.deep_view()
            &&& r.next_cursor is None
        },
        _ => false,
    }
}

/// A finished rejection of a tools/call: the invalid-params answer for
/// params that did not decode, or method-not-found naming a tool that has
/// no registered handler.
pub open spec fn is_tool_call_rejection<TH>(
    m: Map<Seq<char>, TH>,
    id: RequestId,
    resp: ResponseEnvelope,
) -> bool {
    &&& resp.id == id
    &&& (is_failure_with(resp.body, ErrorCode::InvalidParams, "Invalid tool request"@) || exists|
        n: Seq<char>,
    |
        !(#[trigger] m.contains_key(n)) && is_failure_with(
            resp.body,
            ErrorCode::MethodNotFound,
            "Method not found: "@ + ("Tool not found: "@ + n),
        ))
}

/// A finished rejection of a resources/read: the invalid-params answer for
/// params that did not decode, or method-not-found when no resource
/// handler is configured.
pub open spec fn is_resource_read_rejection<RH>(
    m: Map<Seq<char>, RH>,
    id: RequestId,
    resp: ResponseEnvelope,
) -> bool {
    &&& resp.id == id
    &&& (is_failure_with(resp.body, ErrorCode::InvalidParams, "Invalid resource request"@) || (
    !m.contains_key("default"@) && is_failure_with(
        resp.body,
        ErrorCode::MethodNotFound,
        "Method not found: "@ + "No resource handler configured"@,
    )))
}

/// A finished rejection of a prompts/get: the invalid-params answer for
/// params that did not decode, or method-not-found naming a prompt that
/// has no registered handler.
pub open spec fn is_prompt_get_rejection<PH>(
    m: Map<Seq<char>, PH>,
    id: RequestId,
    resp: ResponseEnvelope,
) -> bool {
    &&& resp.id == id
    &&& (is_failure_with(resp.body, ErrorCode::InvalidParams, "Invalid prompt request"@) || exists|
        n: Seq<char>,
    |
        !(#[trigger] m.contains_key(n)) && is_failure_with(
            resp.body,
            ErrorCode::MethodNotFound,
            "Method not found: "@ + ("Prompt not found: "@ + n),
        ))
}

impl<TH, RH, PH> Server<TH, RH, PH> {
    /// Answers initialize: protocol version, capability set, identity.
    pub fn handle_initialize(&self, id: RequestId) -> (resp: ResponseEnvelope)
        ensures
            is_initialize_response(self, id, resp),
    {
        ResponseEnvelope {
            id,
            body: ResponseBody::Success(
                ResultPayload::Initialize(
                    InitializeResult {
                        protocol_version: protocol_version(),
                        capabilities: self.capabilities,
                        server_info: clone_implementation(&self.info),
                        instructions: None,
                    },
                ),
            ),
        }
    }

    /// Answers tools/list with the full tool descriptor list.
    pub fn handle_list_tools(&self, id: RequestId) -> (resp: ResponseEnvelope)
        ensures
            is_tool_list_response(self, id, resp),
    {
        ResponseEnvelope {
            id,
            body: ResponseBody::Success(
                ResultPayload::ToolList(
                    ListToolsResult { tools: clone_tools(&self.tools), next_cursor: None },
                ),
            ),
        }
    }

    /// Answers resources/list with the full resource descriptor list.
    pub fn handle_list_resources(&self, id: RequestId) -> (resp: ResponseEnvelope)
        ensures
            is_resource_list_response(self, id, resp),
    {
        ResponseEnvelope {
            id,
            body: ResponseBody::Success(
                ResultPayload::ResourceList(
                    ListResourcesResult {
                        resources: clone_resources(&self.resources),
                        next_cursor: None,
                    },
                ),
            ),
        }
    }

    /// Answers prompts/list with the full prompt descriptor list.
    pub fn handle_list_prompts(&self, id: RequestId) -> (resp: ResponseEnvelope)
        ensures
            is_prompt_list_response(self, id, resp),
    {
        ResponseEnvelope {
            id,
            body: ResponseBody::Success(
                ResultPayload::PromptList(
                    ListPromptsResult { prompts: clone_prompts(&self.prompts), next_cursor: None },
                ),
            ),
        }
    }

    /// One request in, one step out: routes by method name, answers the
    /// immediate operations in full, and hands a handler out for the three
    /// invoking operations. Every step carries the request's identifier.
    pub fn handle_request<'a>(&'a self, req: RequestEnvelope) -> (step: Step<'a, TH, RH, PH>)
        requires
            self.wf(),
        ensures
            spec_step_id(step) == req.id,
            spec_route(req.method@) == Operation::Initialize ==> (step matches Step::Done(resp)
                && is_initialize_response(self, req.id, resp)),
            spec_route(req.method@) == Operation::ListTools ==> (step matches Step::Done(resp)
                && is_tool_list_response(self, req.id, resp)),
            spec_route(req.method@) == Operation::ListResources ==> (step matches Step::Done(resp)
                && is_resource_list_response(self, req.id, resp)),
            spec_route(req.method@) == Operation::ListPrompts ==> (step matches Step::Done(resp)
                && is_prompt_list_response(self, req.id, resp)),
            spec_route(req.method@) == Operation::Unknown ==> (step matches Step::Done(resp)
                && resp.id == req.id && is_failure_with(
                resp.body,
                ErrorCode::MethodNotFound,
                "Method not found: "@ + req.method@,
            )),
            spec_route(req.method@) == Operation::CallTool ==> match step {
                Step::Done(resp) => is_tool_call_rejection(self.tool_handlers@, req.id, resp),
                Step::CallTool(h, p, id) => id == req.id && self.tool_handlers@.contains_key(
                    p.name@,
                ) && *h == self.tool_handlers@[p.name@],
                _ => false,
            },
            spec_route(req.method@) == Operation::ReadResource ==> match step {
                Step::Done(resp) => is_resource_read_rejection(
                    self.resource_handlers@,
                    req.id,
                    resp,
                ),
                Step::ReadResource(h, p, id) => id == req.id
                    && self.resource_handlers@.contains_key("default"@) && *h
                    == self.resource_handlers@["default"@],
                _ => false,
            },
            spec_route(req.method@) == Operation::GetPrompt ==> match step {
                Step::Done(resp) => is_prompt_get_rejection(self.prompt_handlers@, req.id, resp),
                Step::GetPrompt(h, p, id) => id == req.id && self.prompt_handlers@.contains_key(
                    p.name@,
                ) && *h == self.prompt_handlers@[p.name@],
                _ => false,
            },
    {
        let RequestEnvelope { id, method, params } = req;
        match route(method.as_str()) {
            Operation::Initialize => Step::Done(self.handle_initialize(id)),
            Operation::ListTools => Step::Done(self.handle_list_tools(id)),
            Operation::CallTool => {
                let decoded = decode_call_params(params.as_ref());
                let ghost gd = decoded;
                match plan_tool_call(&self.tool_handlers, id, decoded) {
                    Plan::Respond(resp) => {
                        proof {
                            if let Some(p) = gd {
                                assert(!self.tool_handlers@.contains_key(p.name@));
                            }
                        }
                        Step::Done(resp)
                    },
                    Plan::Invoke(h, p, pending) => Step::CallTool(h, p, pending),
                }
            },
            Operation::ListResources => Step::Done(self.handle_list_resources(id)),
            Operation::ReadResource => {
                let decoded = decode_read_params(params.as_ref());
                let ghost gd = decoded;
                match plan_resource_read(&self.resource_handlers, id, decoded) {
                    Plan::Respond(resp) => {
                        proof {
                            if gd is Some {
                                assert(!self.resource_handlers@.contains_key("default"@));
                            }
                        }
                        Step::Done(resp)
                    },
                    Plan::Invoke(h, p, pending) => Step::ReadResource(h, p, pending),
                }
            },
            Operation::ListPrompts => Step::Done(self.handle_list_prompts(id)),
            Operation::GetPrompt => {
                let decoded = decode_prompt_params(params.as_ref());
                let ghost gd = decoded;
                match plan_prompt_get(&self.prompt_handlers, id, decoded) {
                    Plan::Respond(resp) => {
                        proof {
                            if let Some(p) = gd {
                                assert(!self.prompt_handlers@.contains_key(p.name@));
                            }
                        }
                        Step::Done(resp)
                    },
                    Plan::Invoke(h, p, pending) => Step::GetPrompt(h, p, pending),
                }
            },
            Operation::Unknown => Step::Done(
                ResponseEnvelope {
                    id,
                    body: ResponseBody::Failure(ErrorObject::method_not_found(method.as_str())),
                },
            ),
        }
    }
}

/// A tools/call that names a registered tool uses exactly the most
/// recently registered handler for that name, and one that names an
/// unregistered tool is rejected as not found.
pub proof fn lemma_tool_call_uses_latest<TH>(
    m: Map<Seq<char>, TH>,
    name: Seq<char>,
    h: TH,
    p: CallToolParams,
    q: CallToolParams,
)
    requires
        p.name@ == name,
        q.name@ != name,
        !m.contains_key(q.name@),
    ensures
        spec_tool_decision(m.insert(name, h), Some(p)) == Decision::<TH, CallToolParams>::Use(
            h,
            p,
        ),
        spec_tool_decision(m.insert(name, h), Some(q)) == Decision::<
            TH,
            CallToolParams,
        >::RejectUnknown("Tool not found: "@ + q.name@),
{
}

/// Registering a handler for an already-registered tool name replaces it:
/// a call planned after the replacement decides for the new handler alone.
/// A decision taken before the replacement is a value and is unaffected by
/// it.
pub proof fn lemma_replacement_uses_new_handler<TH>(
    m: Map<Seq<char>, TH>,
    name: Seq<char>,
    h1: TH,
    h2: TH,
    p: CallToolParams,
)
    requires
        p.name@ == name,
    ensures
        spec_tool_decision(m.insert(name, h1).insert(name, h2), Some(p)) == Decision::<
            TH,
            CallToolParams,
        >::Use(h2, p),
{
}

/// Response ordering: in a run where the engine answers each received
/// request before taking the next, the step produced at each position
/// carries that position's request identifier, and the settled response
/// carries its step's identifier; so the responses correlate positionally
/// with the requests, whatever each handler returned and however long it
/// took.
pub proof fn lemma_response_ordering(
    ids: Seq<RequestId>,
    step_ids: Seq<RequestId>,
    resps: Seq<ResponseEnvelope>,
)
    requires
        step_ids.len() == ids.len(),
        resps.len() == ids.len(),
        forall|i: int| 0 <= i < ids.len() ==> step_ids[i] == ids[i],
        forall|i: int| 0 <= i < ids.len() ==> resps[i].id == step_ids[i],
    ensures
        forall|i: int| 0 <= i < ids.len() ==> resps[i].id == ids[i],
{
}

} // verus!
