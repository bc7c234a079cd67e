//! Command-line arguments of the node binary, as plain values.

use vstd::prelude::*;
use vstd::string::StringExecFns;

verus! {

/// Arguments for the `serve` command.
#[derive(Debug, PartialEq, Eq)]
pub struct ServeArgs {
    /// Address to bind.
    pub host: String,
    /// Port to bind.
    pub port: u16,
    /// Broadcast channel capacity for the live event subscription.
    pub event_capacity: usize,
}

impl Default for ServeArgs {
    fn default() -> (a: ServeArgs)
        ensures
            a.host@ == "127.0.0.1"@,
            a.port == 8080,
            a.event_capacity == 1024,
    {
        ServeArgs { host: String::from_str("127.0.0.1"), port: 8080, event_capacity: 1024 }
    }
}

/// The deployment kind to render a plan for.
#[derive(Debug, Clone, Copy, PartialEq, Eq, Structural)]
pub enum PlanKind {
    /// Stand up a brand-new validator host.
    Provision,
    /// Zero-downtime version upgrade.
    Upgrade,
    /// Hot-spare failover.
    Failover,
    /// Tear a node down.
    Decommission,
}

/// Arguments for the `plan` command.
#[derive(Debug, PartialEq, Eq)]
pub struct PlanArgs {
    /// The deployment kind to render.
    pub kind: PlanKind,
    /// Node id to render the plan for.
    pub id: String,
    /// Logical cluster name.
    pub cluster_name: String,
    /// Host address for the node.
    pub host: String,
    /// Validator version (current, or the upgrade target).
    pub version: String,
    /// Hot-spare node id (only used by `failover`).
    pub spare: String,
}

impl Default for PlanArgs {
    fn default() -> (a: PlanArgs)
        ensures
            a.kind == PlanKind::Provision,
            a.id@ == "val-01"@,
            a.cluster_name@ == "eu-fiber"@,
            a.host@ == "val01.internal"@,
            a.version@ == "2.0.14"@,
            a.spare@ == "spare-01"@,
    {
        PlanArgs {
            kind: PlanKind::Provision,
            id: String::from_str("val-01"),
            cluster_name: String::from_str("eu-fiber"),
            host: String::from_str("val01.internal"),
            version: String::from_str("2.0.14"),
            spare: String::from_str("spare-01"),
        }
    }
}

/// Top-level node commands.
#[derive(Debug, PartialEq, Eq)]
pub enum Command {
    /// Serve the operations API.
    Serve(ServeArgs),
    /// Render the Terraform + Ansible plan for a deployment kind.
    Plan(PlanArgs),
}

/// The parsed command line.
#[derive(Debug, PartialEq, Eq)]
pub struct Cli {
    /// Emit logs as JSON instead of human-readable text.
    pub log_json: bool,
    /// Subcommand to run.
    pub command: Command,
}

} // verus!
