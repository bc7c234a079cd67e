//! Infrastructure-as-Code renderer: Terraform and Ansible snippets for a
//! bare-metal validator host, derived from the domain model so an operator can
//! review the exact plan a deployment will run.

use vstd::prelude::*;

use crate::node::{cluster_text, role_text, NodeView, ValidatorNode};
use crate::ops::{action_text, deployment_kind_text, DeploymentKind, OpsActionKind};
use crate::text::contains_seq;

verus! {

/// The Terraform snippet for `node` and deployment `kind`.
pub open spec fn terraform_text(node: NodeView, kind: DeploymentKind) -> Seq<char> {
    "# Terraform plan for "@ + node.id + " ("@ + cluster_text(node.cluster)@ + ") — "@
        + deployment_kind_text(kind)@ + "\nresource \"metal_device\" \""@ + node.id
        + "\" {\n  hostname         = \""@ + node.host
        + "\"\n  plan             = \"m3.large.x86\"\n  metro            = \"fr\"\n  operating_system = \"ubuntu_22_04\"\n  billing_cycle    = \"hourly\"\n  tags             = [\"solana\", \""@
        + cluster_text(node.cluster)@ + "\", \""@ + role_text(node.role)@ + "\"]\n}\n"@
}

/// The task description of the Ansible play for `action`.
pub open spec fn ansible_task(action: OpsActionKind) -> &'static str {
    match action {
        OpsActionKind::ApplyInfra => "base bootstrap (users, firewall, fail2ban)",
        OpsActionKind::TuneHost => "performance tuning (sysctl, hugepages, CPU governor=performance, NIC rings)",
        OpsActionKind::StartValidator => "install + start agave-validator systemd unit",
        OpsActionKind::AwaitCatchup => "poll catchup via agave-validator monitor",
        OpsActionKind::Drain => "set identity to junk keypair, wait for restart window",
        OpsActionKind::SwapIdentity => "copy staked identity keypair and hot-swap",
        OpsActionKind::DestroyInfra => "stop services, wipe ledger, deprovision",
    }
}

/// The Ansible play for `node` and saga step `action`.
pub open spec fn ansible_text(node: NodeView, action: OpsActionKind) -> Seq<char> {
    "- name: "@ + ansible_task(action)@ + "\n  hosts: "@ + node.host
        + "\n  become: true\n  vars:\n    validator_version: \""@ + node.version
        + "\"\n    cluster: \""@ + cluster_text(node.cluster)@ + "\"\n"@
}

/// Renders opinionated Terraform/Ansible for a bare-metal validator host.
#[derive(Debug, Clone, Copy, Default)]
pub struct DefaultIacRenderer;

impl DefaultIacRenderer {
    /// Construct the renderer.
    pub fn new() -> DefaultIacRenderer {
        DefaultIacRenderer
    }

    /// Render a Terraform plan snippet for the given node + deployment kind.
    pub fn render_terraform(&self, node: &ValidatorNode, kind: &DeploymentKind) -> (s: String)
        ensures
            s@ == terraform_text(node@, *kind),
    {
        let mut out = String::new();
        out.append("# Terraform plan for ");
        out.append(node.id().as_str());
        out.append(" (");
        out.append(node.cluster().as_str());
        out.append(") — ");
        out.append(kind.as_str());
        out.append("\nresource \"metal_device\" \"");
        out.append(node.id().as_str());
        out.append("\" {\n  hostname         = \"");
        out.append(node.host().as_str());
        out.append(
            "\"\n  plan             = \"m3.large.x86\"\n  metro            = \"fr\"\n  operating_system = \"ubuntu_22_04\"\n  billing_cycle    = \"hourly\"\n  tags             = [\"solana\", \"",
        );
        out.append(node.cluster().as_str());
        out.append("\", \"");
        out.append(node.role().as_str());
        out.append("\"]\n}\n");
        proof {
            assert(out@ =~= terraform_text(node@, *kind));
        }
        out
    }

    /// Render an Ansible playbook snippet for the given saga step.
    pub fn render_ansible(&self, node: &ValidatorNode, action: OpsActionKind) -> (s: String)
        ensures
            s@ == ansible_text(node@, action),
    {
        let task: &'static str = match action {
            OpsActionKind::ApplyInfra => "base bootstrap (users, firewall, fail2ban)",
            OpsActionKind::TuneHost => "performance tuning (sysctl, hugepages, CPU governor=performance, NIC rings)",
            OpsActionKind::StartValidator => "install + start agave-validator systemd unit",
            OpsActionKind::AwaitCatchup => "poll catchup via agave-validator monitor",
            OpsActionKind::Drain => "set identity to junk keypair, wait for restart window",
            OpsActionKind::SwapIdentity => "copy staked identity keypair and hot-swap",
            OpsActionKind::DestroyInfra => "stop services, wipe ledger, deprovision",
        };
        let mut out = String::new();
        out.append("- name: ");
        out.append(task);
        out.append("\n  hosts: ");
        out.append(node.host().as_str());
        out.append("\n  become: true\n  vars:\n    validator_version: \"");
        out.append(node.version().as_str());
        out.append("\"\n    cluster: \"");
        out.append(node.cluster().as_str());
        out.append("\"\n");
        proof {
            assert(out@ =~= ansible_text(node@, action));
        }
        out
    }
}

/// Each saga step renders its own Ansible task, and no two steps render the
/// same one: infrastructure is bootstrapped, the host tuned, the validator
/// unit installed and started, catch-up polled, the identity set to a junk
/// keypair to drain, the staked identity keypair copied and hot-swapped, and
/// the host deprovisioned.
pub proof fn lemma_ansible_tasks_distinct(a: OpsActionKind, b: OpsActionKind)
    ensures
        a != b ==> ansible_task(a)@ != ansible_task(b)@,
        contains_seq(ansible_task(OpsActionKind::ApplyInfra)@, "bootstrap"@),
        contains_seq(ansible_task(OpsActionKind::TuneHost)@, "performance tuning"@),
        contains_seq(ansible_task(OpsActionKind::StartValidator)@, "start agave-validator"@),
        contains_seq(ansible_task(OpsActionKind::AwaitCatchup)@, "catchup"@),
        contains_seq(ansible_task(OpsActionKind::Drain)@, "junk keypair"@),
        contains_seq(ansible_task(OpsActionKind::SwapIdentity)@, "staked identity keypair"@),
        contains_seq(ansible_task(OpsActionKind::SwapIdentity)@, "hot-swap"@),
        contains_seq(ansible_task(OpsActionKind::DestroyInfra)@, "deprovision"@),
{
    reveal_strlit("base bootstrap (users, firewall, fail2ban)");
    reveal_strlit("performance tuning (sysctl, hugepages, CPU governor=performance, NIC rings)");
    reveal_strlit("install + start agave-validator systemd unit");
    reveal_strlit("poll catchup via agave-validator monitor");
    reveal_strlit("set identity to junk keypair, wait for restart window");
    reveal_strlit("copy staked identity keypair and hot-swap");
    reveal_strlit("stop services, wipe ledger, deprovision");
    reveal_strlit("bootstrap");
    reveal_strlit("performance tuning");
    reveal_strlit("start agave-validator");
    reveal_strlit("catchup");
    reveal_strlit("junk keypair");
    reveal_strlit("staked identity keypair");
    reveal_strlit("hot-swap");
    reveal_strlit("deprovision");
    assert(ansible_task(OpsActionKind::ApplyInfra)@.subrange(5, 5int + "bootstrap"@.len()) =~= "bootstrap"@);
    assert(ansible_task(OpsActionKind::TuneHost)@.subrange(0, 0int + "performance tuning"@.len()) =~= "performance tuning"@);
    assert(ansible_task(OpsActionKind::StartValidator)@.subrange(10, 10int + "start agave-validator"@.len()) =~= "start agave-validator"@);
    assert(ansible_task(OpsActionKind::AwaitCatchup)@.subrange(5, 5int + "catchup"@.len()) =~= "catchup"@);
    assert(ansible_task(OpsActionKind::Drain)@.subrange(16, 16int + "junk keypair"@.len()) =~= "junk keypair"@);
    assert(ansible_task(OpsActionKind::SwapIdentity)@.subrange(5, 5int + "staked identity keypair"@.len()) =~= "staked identity keypair"@);
    assert(ansible_task(OpsActionKind::SwapIdentity)@.subrange(33, 33int + "hot-swap"@.len()) =~= "hot-swap"@);
    assert(ansible_task(OpsActionKind::DestroyInfra)@.subrange(28, 28int + "deprovision"@.len()) =~= "deprovision"@);
    if a != b {
        let x = ansible_task(a)@;
        let y = ansible_task(b)@;
        assert(x.len() != y.len() || x[0] != y[0] || x[1] != y[1]);
    }
}

} // verus!
