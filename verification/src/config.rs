//! Orchestrator configuration.
//!
//! The container name, image tag, host working directory and in-container
//! mount path are explicit configuration handed to the orchestrator at
//! construction, so that distinct names and paths can be injected per run.
//! The command lines and file paths that the orchestrator's actions refer to
//! are built here, with exact contracts.

use vstd::prelude::*;
use vstd::string::*;

use crate::msgs::{
    CommandView, ContainerSpec, ContainerSpecView, ExecCommand, ListFilter, ListFilterView,
};

verus! {

/// Fixed configuration of one orchestrator instance.
#[derive(Debug, Clone)]
pub struct OrchConfig {
    /// The process-wide name of the single sandbox container.
    pub container_name: String,
    /// The image tag the container is created from.
    pub image: String,
    /// The host directory holding the code and manifest files, bind-mounted
    /// into the container.
    pub host_dir: String,
    /// The in-container path the host directory is mounted at.
    pub mount_dir: String,
    /// The grace period, in seconds, granted when stopping the container at
    /// shutdown.
    pub stop_timeout_secs: u64,
}

/// Spec-level view of an `OrchConfig`.
#[verifier::ext_equal]
pub struct ConfigView {
    pub container_name: Seq<char>,
    pub image: Seq<char>,
    pub host_dir: Seq<char>,
    pub mount_dir: Seq<char>,
    pub stop_timeout_secs: u64,
}

impl View for OrchConfig {
    type V = ConfigView;

    open spec fn view(&self) -> ConfigView {
        ConfigView {
            container_name: self.container_name@,
            image: self.image@,
            host_dir: self.host_dir@,
            mount_dir: self.mount_dir@,
            stop_timeout_secs: self.stop_timeout_secs,
        }
    }
}

/// The name of the code file inside the working directory.
pub open spec fn code_file_name() -> Seq<char> {
    "/main.js"@
}

/// The name of the dependency-manifest file inside the working directory.
pub open spec fn manifest_file_name() -> Seq<char> {
    "/package.json"@
}

/// The host path of the code file.
pub open spec fn code_file_path_view(cfg: ConfigView) -> Seq<char> {
    cfg.host_dir + code_file_name()
}

/// The host path of the dependency-manifest file.
pub open spec fn manifest_file_path_view(cfg: ConfigView) -> Seq<char> {
    cfg.host_dir + manifest_file_name()
}

/// The listing the provisioner issues: filtered by the configured
/// container name, with stopped containers included, so an existing but
/// stopped sandbox is found and restarted rather than recreated.
pub open spec fn list_filter_view(cfg: ConfigView) -> ListFilterView {
    ListFilterView { name: cfg.container_name, all: true }
}

/// The one container creation: the configured name and image, the host
/// working directory bind-mounted at the configured in-container path, a
/// terminal allocated and stdin, stdout and stderr attached with stdin
/// kept open.
pub open spec fn container_spec_view(cfg: ConfigView) -> ContainerSpecView {
    ContainerSpecView {
        name: cfg.container_name,
        image: cfg.image,
        mount_source: cfg.host_dir,
        mount_target: cfg.mount_dir,
        tty: true,
        attach_stdin: true,
        attach_stdout: true,
        attach_stderr: true,
        open_stdin: true,
    }
}

/// The command line that runs the current code file inside the container.
pub open spec fn code_command_view(cfg: ConfigView) -> CommandView {
    CommandView { argv: seq!["node"@, cfg.mount_dir + code_file_name()], workdir: None }
}

/// The command line that installs the current manifest's dependencies,
/// scoped to the mounted working directory.
pub open spec fn install_command_view(cfg: ConfigView) -> CommandView {
    CommandView { argv: seq!["npm"@, "i"@], workdir: Some(cfg.mount_dir) }
}

impl OrchConfig {
    /// The parameters of the container listing.
    pub fn list_filter(&self) -> (f: ListFilter)
        ensures
            f@ == list_filter_view(self@),
    {
        let f = ListFilter { name: self.container_name.clone(), all: true };
        proof {
            assert(f@ =~= list_filter_view(self@));
        }
        f
    }

    /// The parameters of the container creation.
    pub fn container_spec(&self) -> (s: ContainerSpec)
        ensures
            s@ == container_spec_view(self@),
    {
        let s = ContainerSpec {
            name: self.container_name.clone(),
            image: self.image.clone(),
            mount_source: self.host_dir.clone(),
            mount_target: self.mount_dir.clone(),
            tty: true,
            attach_stdin: true,
            attach_stdout: true,
            attach_stderr: true,
            open_stdin: true,
        };
        proof {
            assert(s@ =~= container_spec_view(self@));
        }
        s
    }

    /// The host path of the code file, for the shell performing file writes.
    pub fn code_file_path(&self) -> (r: String)
        ensures
            r@ == code_file_path_view(self@),
    {
        let mut p = self.host_dir.clone();
        p.append("/main.js");
        p
    }

    /// The host path of the dependency-manifest file.
    pub fn manifest_file_path(&self) -> (r: String)
        ensures
            r@ == manifest_file_path_view(self@),
    {
        let mut p = self.host_dir.clone();
        p.append("/package.json");
        p
    }

    /// The exec command line for running the code file.
    pub fn code_command(&self) -> (c: ExecCommand)
        ensures
            c@ == code_command_view(self@),
    {
        let mut script = self.mount_dir.clone();
        script.append("/main.js");
        let mut argv: Vec<String> = Vec::new();
        argv.push(String::from_str("node"));
        argv.push(script);
        let c = ExecCommand { argv, workdir: None };
        proof {
            assert(c@.argv =~~= code_command_view(self@).argv);
            assert(c@ =~~= code_command_view(self@));
        }
        c
    }

    /// The exec command line for installing dependencies.
    pub fn install_command(&self) -> (c: ExecCommand)
        ensures
            c@ == install_command_view(self@),
    {
        let mut argv: Vec<String> = Vec::new();
        argv.push(String::from_str("npm"));
        argv.push(String::from_str("i"));
        let c = ExecCommand { argv, workdir: Some(self.mount_dir.clone()) };
        proof {
            assert(c@.argv =~~= install_command_view(self@).argv);
            assert(c@ =~~= install_command_view(self@));
        }
        c
    }
}

} // verus!
