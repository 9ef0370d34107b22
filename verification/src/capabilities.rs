//! Capability derivation: which of tools, resources, prompts and logging
//! the server advertises, computed once at build time from the registered
//! descriptor lists.

use crate::protocol::{Prompt, Resource, Tool};
use vstd::prelude::*;

verus! {

/// Tool capability flags; list-change notification support is unset by
/// default.
#[derive(Debug, Clone, Copy, PartialEq, Eq)]
pub struct ToolsCapability {
    pub list_changed: Option<bool>,
}

/// Resource capability flags; subscription and list-change support are
/// unset by default.
#[derive(Debug, Clone, Copy, PartialEq, Eq)]
pub struct ResourcesCapability {
    pub subscribe: Option<bool>,
    pub list_changed: Option<bool>,
}

/// Prompt capability flags; list-change notification support is unset by
/// default.
#[derive(Debug, Clone, Copy, PartialEq, Eq)]
pub struct PromptsCapability {
    pub list_changed: Option<bool>,
}

/// Logging capability; it carries no flags.
#[derive(Debug, Clone, Copy, PartialEq, Eq)]
pub struct LoggingCapability {}

/// The capability set a server advertises during initialization.
#[derive(Debug, Clone, Copy, PartialEq, Eq)]
pub struct ServerCapabilities {
    pub tools: Option<ToolsCapability>,
    pub resources: Option<ResourcesCapability>,
    pub prompts: Option<PromptsCapability>,
    pub logging: Option<LoggingCapability>,
}

/// The capability set derived from which categories are populated: a
/// category is advertised exactly when it has at least one descriptor,
/// with its sub-flags unset; logging is always advertised.
pub open spec fn spec_capabilities(
    has_tools: bool,
    has_resources: bool,
    has_prompts: bool,
) -> ServerCapabilities {
    ServerCapabilities {
        tools: if has_tools {
            Some(ToolsCapability { list_changed: None })
        } else {
            None
        },
        resources: if has_resources {
            Some(ResourcesCapability { subscribe: None, list_changed: None })
        } else {
            None
        },
        prompts: if has_prompts {
            Some(PromptsCapability { list_changed: None })
        } else {
            None
        },
        logging: Some(LoggingCapability {}),
    }
}

/// Derives the advertised capability set from the three descriptor lists.
/// Pure: the result depends only on whether each list is empty.
pub fn build_capabilities(tools: &Vec<Tool>, resources: &Vec<Resource>, prompts: &Vec<Prompt>) -> (c:
    ServerCapabilities)
    ensures
        c == spec_capabilities(tools@.len() > 0, resources@.len() > 0, prompts@.len() > 0),
{
    ServerCapabilities {
        tools: if tools.len() > 0 {
            Some(ToolsCapability { list_changed: None })
        } else {
            None
        },
        resources: if resources.len() > 0 {
            Some(ResourcesCapability { subscribe: None, list_changed: None })
        } else {
            None
        },
        prompts: if prompts.len() > 0 {
            Some(PromptsCapability { list_changed: None })
        } else {
            None
        },
        logging: Some(LoggingCapability {}),
    }
}

/// Deriving the capability set is deterministic: two derivations from
/// lists that are populated alike yield the same set.
pub proof fn lemma_capabilities_deterministic(
    t1: bool,
    r1: bool,
    p1: bool,
    t2: bool,
    r2: bool,
    p2: bool,
)
    requires
        t1 == t2,
        r1 == r2,
        p1 == p2,
    ensures
        spec_capabilities(t1, r1, p1) == spec_capabilities(t2, r2, p2),
{
}

} // verus!
