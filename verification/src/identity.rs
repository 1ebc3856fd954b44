//! The driver's identity endpoint: plugin name, capabilities,
//! readiness.

use vstd::prelude::*;
use vstd::string::StringExecFns;

verus! {

/// What the plugin reports about itself.
#[derive(Clone, Debug)]
pub struct PluginInfo {
    pub name: String,
    pub vendor_version: String,
}

/// A capability class the plugin advertises.
#[derive(Clone, Copy, Debug, PartialEq, Eq, Structural)]
pub enum PluginCapability {
    /// Volume placement is constrained by topology.
    VolumeAccessibilityConstraints,
    /// A controller service is offered.
    ControllerService,
}

/// The identity service of the driver.
pub struct LbOperatorIdentity;

impl LbOperatorIdentity {
    /// The plugin's name, and the vendor version the build was stamped
    /// with.
    pub fn get_plugin_info(&self, vendor_version: String) -> (r: PluginInfo)
        ensures
            r.name@ == "lb.stackable.tech"@,
            r.vendor_version == vendor_version,
    {
        PluginInfo { name: String::from_str("lb.stackable.tech"), vendor_version }
    }

    /// The plugin constrains volume placement by topology and offers a
    /// controller service.
    pub fn get_plugin_capabilities(&self) -> (r: Vec<PluginCapability>)
        ensures
            r@ == seq![
                PluginCapability::VolumeAccessibilityConstraints,
                PluginCapability::ControllerService,
            ],
    {
        let mut r: Vec<PluginCapability> = Vec::new();
        r.push(PluginCapability::VolumeAccessibilityConstraints);
        r.push(PluginCapability::ControllerService);
        proof {
            assert(r@ =~= seq![
                PluginCapability::VolumeAccessibilityConstraints,
                PluginCapability::ControllerService,
            ]);
        }
        r
    }

    /// The plugin is ready as soon as it serves.
    pub fn probe(&self) -> (ready: bool)
        ensures
            ready,
    {
        true
    }
}

} // verus!
