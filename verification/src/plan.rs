//! The side-effect plans that the orchestrator hands to its runner: what to
//! place on disk for a creation, what to tear down for a deletion.

use vstd::prelude::*;

use crate::config::InstanceConfig;

verus! {

/// The fixed body of the license-acceptance file, written into every
/// instance directory: a generator comment line, then the acceptance flag.
pub open spec fn eula_text() -> Seq<char> {
    "#generated by Lodestone\neula=true\n"@
}

/// The exact content of the license-acceptance file.
pub fn eula_content() -> (r: String)
    ensures
        r@ == eula_text(),
{
    ("#generated by Lodestone\neula=true\n").to_owned()
}

/// Everything the runner needs to materialize a new instance on disk and in
/// the metadata store: the fresh identifier, the sanitized name, the
/// instance directory, and the completed creation request.
#[derive(Clone, Debug)]
pub struct CreatePlan {
    /// The freshly generated identifier of the instance.
    pub uuid: String,
    /// The sanitized name, unique among live instances when the plan was made.
    pub name: String,
    /// The instance's directory: the root path, the name, and a separator.
    pub instance_path: String,
    /// The creation request with the name sanitized and the identifier
    /// attached.
    pub config: InstanceConfig,
}

impl CreatePlan {
    /// The path of the server binary artifact inside the instance directory.
    pub fn jar_path(&self) -> (r: String)
        ensures
            r@ == self.instance_path@ + "server.jar"@,
    {
        self.instance_path.clone().concat("server.jar")
    }

    /// The path of the license-acceptance file inside the instance
    /// directory.
    pub fn eula_path(&self) -> (r: String)
        ensures
            r@ == self.instance_path@ + "eula.txt"@,
    {
        self.instance_path.clone().concat("eula.txt")
    }
}

/// What remains to tear down after an instance left the registry: its
/// metadata-store entry (keyed by the identifier) and its directory tree.
#[derive(Clone, Debug)]
pub struct DeletePlan {
    /// The identifier of the removed instance, the metadata-store key.
    pub uuid: String,
    /// The directory tree of the removed instance.
    pub directory_path: String,
}

} // verus!
