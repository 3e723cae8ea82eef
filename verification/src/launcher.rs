//! The launch orchestrator: from a configuration and a decoded manifest to
//! the runtime executable and the final, ordered argument vector.
//!
//! Reading the manifest, locating Java on the machine, and spawning the
//! process are the caller's concern; everything between is verified here.

use vstd::prelude::*;
use crate::argument::{spec_collected_arguments, Arguments};
use crate::classpath::{spec_classpath, spec_libs_wf, ClassPathCollector};
use crate::client::ClientFile;
use crate::configuration::MinecraftConfiguration;
use crate::datamap::{generate_data_map, spec_data_map};
use crate::java::{spec_executable_path, spec_javaw_name, Java};
use crate::rules::OsKind;

verus! {

/// What a launch runs: the windowed runtime executable and the argument
/// vector, in final order.
#[derive(Debug, Clone)]
pub struct LaunchPlan {
    /// The path of the runtime executable to start.
    pub executable: String,
    /// The arguments to hand it, JVM arguments first, then game arguments.
    pub arguments: Vec<String>,
}

/// The argument vector of a launch: classpath built from the manifest's
/// libraries, placeholder map built over it, and the templates collected
/// and substituted.
pub open spec fn spec_launch_arguments(
    config: MinecraftConfiguration,
    client: ClientFile,
    os: OsKind,
) -> Seq<Seq<char>> {
    spec_collected_arguments(
        config,
        client.arguments,
        spec_data_map(config, client, spec_classpath(config, client.libraries@, os), os),
        os,
    )
}

/// Orchestrates a launch for one configuration.
#[derive(Debug, Clone)]
pub struct MinecraftLauncher(pub MinecraftConfiguration);

impl MinecraftLauncher {
    /// Wraps the configuration.
    pub fn new(config: MinecraftConfiguration) -> (r: Self)
        ensures
            r.0 == config,
    {
        Self(config)
    }

    /// Computes the launch plan: builds the classpath from the manifest's
    /// libraries, derives the placeholder map, collects and substitutes
    /// the argument templates, and pairs the result with the runtime's
    /// windowed executable path. The caller reads the manifest, resolves
    /// `java`, and spawns the process from the returned plan.
    pub fn prepare(&self, client_file: &ClientFile, java: &Java, os: OsKind) -> (r: LaunchPlan)
        requires
            spec_libs_wf(client_file.libraries@, os),
        ensures
            r.executable@ == spec_executable_path(java.spec_base_path(), spec_javaw_name(os), os),
            r.arguments.deep_view() == spec_launch_arguments(self.0, *client_file, os),
    {
        let class_path = ClassPathCollector::collect(&self.0, client_file, os);
        let data_map = generate_data_map(&self.0, client_file, class_path, os);
        let arguments = client_file.arguments.collect(&self.0, &data_map, os);
        let executable = java.javaw_path(os);
        LaunchPlan { executable, arguments }
    }
}

} // verus!
