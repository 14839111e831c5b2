//! The user-supplied creation request for an instance.

use vstd::prelude::*;

verus! {

/// A creation request. The name is raw and untrusted until the orchestrator
/// sanitizes it; the identifier is attached by the orchestrator before the
/// config is used any further.
#[derive(Clone, Debug)]
pub struct InstanceConfig {
    pub name: String,
    pub version: String,
    pub flavour: String,
    pub url: String,
    pub uuid: Option<String>,
    pub min_ram: u64,
    pub max_ram: u64,
}

} // verus!
