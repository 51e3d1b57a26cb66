//! The capability descriptor and its fluent builder: which feature
//! categories a router advertises during session negotiation.

use vstd::prelude::*;

verus! {

/// Sub-options of the resource capability.
#[derive(Clone, Copy, Debug, PartialEq, Eq)]
pub struct ResourceOptions {
    /// Whether clients may subscribe to resource updates.
    pub subscribe: bool,
    /// Whether the server announces list changes.
    pub list_changed: bool,
}

/// Declares which feature categories are active and their sub-options.
/// Built once at startup and immutable thereafter.
#[derive(Clone, Copy, Debug, PartialEq, Eq)]
pub struct CapabilityDescriptor {
    /// Whether the tool registry is advertised.
    pub tools_enabled: bool,
    /// Advertised resource sub-options; `None` leaves the category
    /// disabled.
    pub resources_enabled: Option<ResourceOptions>,
    /// Whether the prompt registry is advertised.
    pub prompts_enabled: bool,
}

impl CapabilityDescriptor {
    /// Whether the resource category is active.
    pub open spec fn spec_resources_active(&self) -> bool {
        self.resources_enabled is Some
    }

    /// Whether the resource category is active.
    pub fn resources_active(&self) -> (r: bool)
        ensures
            r == self.spec_resources_active(),
    {
        self.resources_enabled.is_some()
    }
}

/// The descriptor in which every category is disabled.
pub open spec fn all_disabled() -> CapabilityDescriptor {
    CapabilityDescriptor { tools_enabled: false, resources_enabled: None, prompts_enabled: false }
}

/// Fluent configuration for a `CapabilityDescriptor`. Every category
/// starts disabled; each `with_...` call independently toggles one
/// category.
#[derive(Clone, Copy, Debug)]
pub struct CapabilitiesBuilder {
    configured: CapabilityDescriptor,
}

impl CapabilitiesBuilder {
    /// The descriptor the builder would currently produce.
    pub closed spec fn spec_configured(&self) -> CapabilityDescriptor {
        self.configured
    }

    /// Starts from a descriptor with every category disabled.
    pub fn new() -> (b: CapabilitiesBuilder)
        ensures
            b.spec_configured() == all_disabled(),
    {
        CapabilitiesBuilder {
            configured: CapabilityDescriptor {
                tools_enabled: false,
                resources_enabled: None,
                prompts_enabled: false,
            },
        }
    }

    /// Toggles whether the tool registry is advertised.
    pub fn with_tools(self, enabled: bool) -> (b: CapabilitiesBuilder)
        ensures
            b.spec_configured() == (CapabilityDescriptor {
                tools_enabled: enabled,
                ..self.spec_configured()
            }),
    {
        CapabilitiesBuilder {
            configured: CapabilityDescriptor { tools_enabled: enabled, ..self.configured },
        }
    }

    /// Enables the resource category with the given sub-options.
    pub fn with_resources(self, subscribe: bool, list_changed: bool) -> (b: CapabilitiesBuilder)
        ensures
            b.spec_configured() == (CapabilityDescriptor {
                resources_enabled: Some(ResourceOptions { subscribe, list_changed }),
                ..self.spec_configured()
            }),
    {
        CapabilitiesBuilder {
            configured: CapabilityDescriptor {
                resources_enabled: Some(ResourceOptions { subscribe, list_changed }),
                ..self.configured
            },
        }
    }

    /// Toggles whether the prompt registry is advertised.
    pub fn with_prompts(self, enabled: bool) -> (b: CapabilitiesBuilder)
        ensures
            b.spec_configured() == (CapabilityDescriptor {
                prompts_enabled: enabled,
                ..self.spec_configured()
            }),
    {
        CapabilitiesBuilder {
            configured: CapabilityDescriptor { prompts_enabled: enabled, ..self.configured },
        }
    }

    /// Produces the immutable descriptor.
    pub fn build(self) -> (d: CapabilityDescriptor)
        ensures
            d == self.spec_configured(),
    {
        self.configured
    }
}

} // verus!
