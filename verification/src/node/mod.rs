//! Running the runtime node: containers, images and public ingress.
pub mod docker;
pub mod ingress;
pub mod image;
pub mod inspect;
pub mod lifecycle;
pub mod status;

use crate::expose::{ExposeCloseArgs, ExposeListArgs};
use vstd::prelude::*;

verus! {

pub const AGENT_CONTAINER_NAME: &'static str = "d1v-runtime-agent-platform";

pub const OPCODE_API_CONTAINER_NAME: &'static str = "d1v-opcode-api";

/// `d1v node` subcommands.
#[derive(Debug)]
pub enum NodeCommand {
    /// Start runtime-agent and opcode-api containers
    Start(StartArgs),
    /// Stop running node containers
    Stop(StopArgs),
    /// Show node status and resource usage
    Status(StatusArgs),
    /// View node logs
    Logs(LogsArgs),
    /// Manage node-backed public ingress bindings
    Expose(NodeExposeArgs),
    /// Detect public IP address of this node
    Ip(IpArgs),
    /// Manage node container images
    Image { command: ImageCommand },
    /// Upgrade runtime-agent using the current container configuration
    Upgrade(UpgradeArgs),
    /// Detect or configure reverse-proxy ingress
    Ingress { command: IngressCommand },
}

/// Arguments of `d1v node start`.
#[derive(Debug, Clone)]
pub struct StartArgs {
    /// Platform node key (or use D1V_PLATFORM_NODE_KEY env var)
    pub key: Option<String>,
    /// Control plane URL
    pub control_plane: String,
    /// Node ID (defaults to hostname)
    pub node_id: Option<String>,
    /// Maximum number of opcode-api containers
    pub max_opcode_containers: u32,
    /// Runtime agent HTTP port
    pub agent_port: u16,
    /// Runtime agent control origin
    pub control_origin: Option<String>,
    /// Auto-detect an existing reverse-proxy public ingress for the runtime agent
    pub auto_detect_public_ingress: bool,
    /// Restrict auto-detection to a specific provider (caddy|nginx|traefik|npm)
    pub ingress_provider: Option<String>,
    /// Hint the detector to prefer a specific public hostname
    pub public_hostname: Option<String>,
    /// Opcode-API port
    pub opcode_api_port: u16,
    /// Workspace root directory
    pub workspace_root: String,
    /// Override runtime-agent Docker image
    pub runtime_agent_image: Option<String>,
    /// Override opcode Docker image passed to runtime-agent
    pub opcode_image: Option<String>,
    /// Skip image pull (use locally cached images)
    pub skip_pull: bool,
    /// Skip Docker installation check
    pub skip_docker_check: bool,
    /// Skip resource usage confirmation
    pub yes: bool,
}

/// Arguments of `d1v node stop`.
#[derive(Debug, Clone)]
pub struct StopArgs {
    /// Stop runtime-agent container
    pub agent: bool,
    /// Stop opcode-api container
    pub opcode_api: bool,
    /// Force stop (docker kill)
    pub force: bool,
    /// Remove containers after stopping
    pub remove: bool,
}

/// Which containers `node stop` stops: both when neither is named.
pub fn containers_to_stop(args: &StopArgs) -> (r: (bool, bool))
    ensures
        r == (if !args.agent && !args.opcode_api {
            (true, true)
        } else {
            (args.agent, args.opcode_api)
        }),
{
    if !args.agent && !args.opcode_api {
        (true, true)
    } else {
        (args.agent, args.opcode_api)
    }
}

/// Arguments of `d1v node status`.
#[derive(Debug, Clone)]
pub struct StatusArgs {
    /// Output in JSON format
    pub json: bool,
    /// Watch mode (auto refresh every N seconds)
    pub watch: Option<u64>,
}

/// Arguments of `d1v node logs`.
#[derive(Debug, Clone)]
pub struct LogsArgs {
    /// Container to show logs for (agent|opcode-api|all)
    pub container: String,
    /// Follow log output
    pub follow: bool,
    /// Number of lines to show
    pub tail: u32,
    /// Show logs since timestamp (e.g., "1h", "30m")
    pub since: Option<String>,
}

/// Arguments of `d1v node expose`.
#[derive(Debug)]
pub struct NodeExposeArgs {
    /// Expose a local port through the active runtime agent
    pub port: Option<u16>,
    pub command: Option<NodeExposeSubcommand>,
    pub project_id: Option<String>,
    pub hostname: Option<String>,
    pub node_id: Option<String>,
    pub host_port: Option<u16>,
}

/// `d1v node expose` subcommands.
#[derive(Debug)]
pub enum NodeExposeSubcommand {
    /// List active node expose bindings
    List(ExposeListArgs),
    /// Close a node expose binding
    Close(ExposeCloseArgs),
}

/// Arguments of `d1v node ip`.
#[derive(Debug, Clone)]
pub struct IpArgs {
    /// Output in JSON format
    pub json: bool,
}

/// `d1v node image` subcommands.
#[derive(Debug)]
pub enum ImageCommand {
    /// Show local and running image details
    Status(ImageStatusArgs),
    /// Check whether a newer runtime-agent image is available
    Check(ImageCheckArgs),
    /// Pull the configured image when it is missing or explicitly requested
    Pull(ImagePullArgs),
    /// Remove old images that are not in use by any container
    Prune(ImagePruneArgs),
}

#[derive(Debug, Clone)]
pub struct ImageStatusArgs {
    pub json: bool,
    pub runtime_agent_image: Option<String>,
}

#[derive(Debug, Clone)]
pub struct ImageCheckArgs {
    pub json: bool,
    pub runtime_agent_image: Option<String>,
}

#[derive(Debug, Clone)]
pub struct ImagePullArgs {
    pub json: bool,
    pub runtime_agent_image: Option<String>,
    /// Pull even when a local copy already exists
    pub force: bool,
}

#[derive(Debug, Clone)]
pub struct ImagePruneArgs {
    pub json: bool,
    pub runtime_agent_image: Option<String>,
}

/// Arguments of `d1v node upgrade`.
#[derive(Debug, Clone)]
pub struct UpgradeArgs {
    pub json: bool,
    /// Only check whether an upgrade is needed
    pub check: bool,
    /// Print the plan without changing the container
    pub dry_run: bool,
    /// Skip confirmation prompt
    pub yes: bool,
    pub runtime_agent_image: Option<String>,
    pub opcode_image: Option<String>,
    /// Keep old images instead of pruning them after a successful upgrade
    pub keep_old_images: bool,
}

/// `d1v node ingress` subcommands.
#[derive(Debug)]
pub enum IngressCommand {
    /// Detect existing reverse-proxy ingress configuration
    Detect(IngressDetectArgs),
    /// Configure a new reverse-proxy ingress for the given hostname
    Configure(IngressConfigureArgs),
}

#[derive(Debug, Clone)]
pub struct IngressDetectArgs {
    /// Runtime agent HTTP port to look for in proxy configs
    pub agent_port: u16,
    /// Restrict detection to a specific provider (caddy|nginx|traefik|npm)
    pub provider: Option<String>,
    /// Prefer a specific public hostname from detected candidates
    pub hostname: Option<String>,
    /// Output in JSON format
    pub json: bool,
}

#[derive(Debug, Clone)]
pub struct IngressConfigureArgs {
    /// Public hostname to bind (e.g. node.example.com)
    pub hostname: String,
    /// Runtime agent HTTP port to proxy to
    pub agent_port: u16,
    /// Ingress provider to use (nginx|npm); auto-detected if omitted
    pub provider: Option<String>,
    /// Output in JSON format
    pub json: bool,
}

/// Whose logs `node logs` shows.
#[derive(Debug, Clone, Copy, PartialEq, Eq)]
pub enum LogsTarget {
    /// The runtime agent's.
    Agent,
    /// The opcode API's.
    OpcodeApi,
    /// The agent's, then the opcode API's.
    All,
}

/// The container named on the command line: `agent`, `opcode-api` (or
/// `opcode_api`) or `all`; any other name is refused with a message.
pub open spec fn logs_target_spec(container: Seq<char>) -> Result<LogsTarget, Seq<char>> {
    if container == "agent"@ {
        Ok(LogsTarget::Agent)
    } else if container == "opcode-api"@ || container == "opcode_api"@ {
        Ok(LogsTarget::OpcodeApi)
    } else if container == "all"@ {
        Ok(LogsTarget::All)
    } else {
        Err("Invalid container '"@ + container + "'. Use 'agent', 'opcode-api', or 'all'"@)
    }
}

pub fn logs_target(container: &str) -> (r: Result<LogsTarget, String>)
    ensures
        match (r, logs_target_spec(container@)) {
            (Ok(a), Ok(b)) => a == b,
            (Err(m), Err(n)) => m@ == n,
            _ => false,
        },
{
    if crate::strs::str_eq(container, "agent") {
        Ok(LogsTarget::Agent)
    } else if crate::strs::str_eq(container, "opcode-api") || crate::strs::str_eq(container, "opcode_api") {
        Ok(LogsTarget::OpcodeApi)
    } else if crate::strs::str_eq(container, "all") {
        Ok(LogsTarget::All)
    } else {
        let mut v: Vec<char> = Vec::new();
        crate::strs::push_str(&mut v, "Invalid container '");
        crate::strs::push_str(&mut v, container);
        crate::strs::push_str(&mut v, "'. Use 'agent', 'opcode-api', or 'all'");
        Err(crate::strs::string_of(v.as_slice()))
    }
}

} // verus!
