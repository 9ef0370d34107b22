//! Server construction and registration.
//!
//! The builder collects the server's identity and its descriptor lists;
//! `build` derives the capability set once and couples the immutable
//! descriptor part with three empty handler registries. Handlers may be
//! registered at any later time; each registration is one atomic registry
//! operation.

use crate::capabilities::{build_capabilities, spec_capabilities, ServerCapabilities};
use crate::protocol::{Implementation, Prompt, Resource, Tool};
use crate::registry::Registry;
use vstd::prelude::*;

verus! {

/// Collects identity, optional description and instructions, and the
/// advertised descriptor lists before the server is built.
pub struct ServerBuilder {
    pub name: String,
    pub version: String,
    pub description: Option<String>,
    pub instructions: Option<String>,
    pub tools: Vec<Tool>,
    pub resources: Vec<Resource>,
    pub prompts: Vec<Prompt>,
}

/// A server: immutable identity, capability set and descriptor lists, and
/// the three handler registries. The handler types are chosen by the
/// caller; the dispatch engine never looks inside a handler.
pub struct Server<TH, RH, PH> {
    pub info: Implementation,
    pub capabilities: ServerCapabilities,
    pub tools: Vec<Tool>,
    pub resources: Vec<Resource>,
    pub prompts: Vec<Prompt>,
    pub tool_handlers: Registry<TH>,
    pub resource_handlers: Registry<RH>,
    pub prompt_handlers: Registry<PH>,
}

impl ServerBuilder {
    /// A builder with the given identity and no descriptors.
    pub fn new(name: String, version: String) -> (b: ServerBuilder)
        ensures
            b.name == name,
            b.version == version,
            b.description is None,
            b.instructions is None,
            b.tools@.len() == 0,
            b.resources@.len() == 0,
            b.prompts@.len() == 0,
    {
        ServerBuilder {
            name,
            version,
            description: None,
            instructions: None,
            tools: Vec::new(),
            resources: Vec::new(),
            prompts: Vec::new(),
        }
    }

    /// Sets the description.
    pub fn with_description(self, description: String) -> (b: ServerBuilder)
        ensures
            b.description == Some(description),
            b.name == self.name,
            b.version == self.version,
            b.instructions == self.instructions,
            b.tools == self.tools,
            b.resources == self.resources,
            b.prompts == self.prompts,
    {
        ServerBuilder { description: Some(description), ..self }
    }

    /// Sets the instructions.
    pub fn with_instructions(self, instructions: String) -> (b: ServerBuilder)
        ensures
            b.instructions == Some(instructions),
            b.name == self.name,
            b.version == self.version,
            b.description == self.description,
            b.tools == self.tools,
            b.resources == self.resources,
            b.prompts == self.prompts,
    {
        ServerBuilder { instructions: Some(instructions), ..self }
    }

    /// Appends a tool descriptor.
    pub fn with_tool(self, tool: Tool) -> (b: ServerBuilder)
        ensures
            b.tools@ == self.tools@.push(tool),
            b.name == self.name,
            b.version == self.version,
            b.description == self.description,
            b.instructions == self.instructions,
            b.resources == self.resources,
            b.prompts == self.prompts,
    {
        let mut b = self;
        b.tools.push(tool);
        b
    }

    /// Appends a resource descriptor.
    pub fn with_resource(self, resource: Resource) -> (b: ServerBuilder)
        ensures
            b.resources@ == self.resources@.push(resource),
            b.name == self.name,
            b.version == self.version,
            b.description == self.description,
            b.instructions == self.instructions,
            b.tools == self.tools,
            b.prompts == self.prompts,
    {
        let mut b = self;
        b.resources.push(resource);
        b
    }

    /// Appends a prompt descriptor.
    pub fn with_prompt(self, prompt: Prompt) -> (b: ServerBuilder)
        ensures
            b.prompts@ == self.prompts@.push(prompt),
            b.name == self.name,
            b.version == self.version,
            b.description == self.description,
            b.instructions == self.instructions,
            b.tools == self.tools,
            b.resources == self.resources,
    {
        let mut b = self;
        b.prompts.push(prompt);
        b
    }

    /// Builds the server: the capability set is derived here, once, from
    /// which descriptor lists are populated; the registries start empty.
    pub fn build<TH, RH, PH>(self) -> (s: Server<TH, RH, PH>)
        ensures
            s.wf(),
            s.info.name == self.name,
            s.info.version == self.version,
            s.capabilities == spec_capabilities(
                self.tools@.len() > 0,
                self.resources@.len() > 0,
                self.prompts@.len() > 0,
            ),
            s.tools == self.tools,
            s.resources == self.resources,
            s.prompts == self.prompts,
            s.tool_handlers@ == Map::<Seq<char>, TH>::empty(),
            s.resource_handlers@ == Map::<Seq<char>, RH>::empty(),
            s.prompt_handlers@ == Map::<Seq<char>, PH>::empty(),
    {
        let capabilities = build_capabilities(&self.tools, &self.resources, &self.prompts);
        Server {
            info: Implementation { name: self.name, version: self.version },
            capabilities,
            tools: self.tools,
            resources: self.resources,
            prompts: self.prompts,
            tool_handlers: Registry::new(),
            resource_handlers: Registry::new(),
            prompt_handlers: Registry::new(),
        }
    }
}

impl<TH, RH, PH> Server<TH, RH, PH> {
    /// The three registries are well-formed.
    pub open spec fn wf(&self) -> bool {
        &&& self.tool_handlers.wf()
        &&& self.resource_handlers.wf()
        &&& self.prompt_handlers.wf()
    }

    /// Everything outside the tool registry is as it was.
    pub open spec fn unchanged_but_tools(&self, other: &Self) -> bool {
        &&& self.info == other.info
        &&& self.capabilities == other.capabilities
        &&& self.tools == other.tools
        &&& self.resources == other.resources
        &&& self.prompts == other.prompts
        &&& self.resource_handlers == other.resource_handlers
        &&& self.prompt_handlers == other.prompt_handlers
    }

    /// Everything outside the resource registry is as it was.
    pub open spec fn unchanged_but_resources(&self, other: &Self) -> bool {
        &&& self.info == other.info
        &&& self.capabilities == other.capabilities
        &&& self.tools == other.tools
        &&& self.resources == other.resources
        &&& self.prompts == other.prompts
        &&& self.tool_handlers == other.tool_handlers
        &&& self.prompt_handlers == other.prompt_handlers
    }

    /// Everything outside the prompt registry is as it was.
    pub open spec fn unchanged_but_prompts(&self, other: &Self) -> bool {
        &&& self.info == other.info
        &&& self.capabilities == other.capabilities
        &&& self.tools == other.tools
        &&& self.resources == other.resources
        &&& self.prompts == other.prompts
        &&& self.tool_handlers == other.tool_handlers
        &&& self.resource_handlers == other.resource_handlers
    }

    /// Installs or replaces the tool handler registered under `name`.
    pub fn set_tool_handler(&mut self, name: String, handler: TH)
        requires
            old(self).wf(),
        ensures
            final(self).wf(),
            final(self).tool_handlers@ == old(self).tool_handlers@.insert(name@, handler),
            final(self).unchanged_but_tools(old(self)),
    {
        self.tool_handlers.register(name, handler);
    }

    /// Installs or replaces the single resource handler; it lives under one
    /// fixed, well-known key.
    pub fn set_resource_handler(&mut self, handler: RH)
        requires
            old(self).wf(),
        ensures
            final(self).wf(),
            final(self).resource_handlers@ == old(self).resource_handlers@.insert(
                "default"@,
                handler,
            ),
            final(self).unchanged_but_resources(old(self)),
    {
        self.resource_handlers.register(String::from_str("default"), handler);
    }

    /// Installs or replaces the prompt handler registered under `name`.
    pub fn set_prompt_handler(&mut self, name: String, handler: PH)
        requires
            old(self).wf(),
        ensures
            final(self).wf(),
            final(self).prompt_handlers@ == old(self).prompt_handlers@.insert(name@, handler),
            final(self).unchanged_but_prompts(old(self)),
    {
        self.prompt_handlers.register(name, handler);
    }
}

} // verus!
