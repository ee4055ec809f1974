//! The canonical text of a fleet snapshot: one fixed-width line per instance.

use vstd::prelude::*;
use crate::fleet::{HealthStatus, LifecycleState, ServerStatus, name_of};
use crate::text::{join_with, joined, padded, push_padded, views};

verus! {

/// Width of the name, lifecycle and instance-status columns.
pub const COLUMN_WIDTH: usize = 20;

pub open spec fn state_label(s: LifecycleState) -> Seq<char> {
    match s {
        LifecycleState::Pending => "Pending"@,
        LifecycleState::Running => "Running"@,
        LifecycleState::Stopping => "Stopping"@,
        LifecycleState::Stopped => "Stopped"@,
        LifecycleState::ShuttingDown => "ShuttingDown"@,
        LifecycleState::Terminated => "Terminated"@,
    }
}

pub open spec fn health_label(s: HealthStatus) -> Seq<char> {
    match s {
        HealthStatus::Healthy => "Ok"@,
        HealthStatus::Impaired => "Impaired"@,
        HealthStatus::InsufficientData => "InsufficientData"@,
        HealthStatus::NotApplicable => "NotApplicable"@,
        HealthStatus::Initializing => "Initializing"@,
    }
}

impl LifecycleState {
    pub fn label(&self) -> (r: &'static str)
        ensures
            r@ == state_label(*self),
    {
        match self {
            LifecycleState::Pending => "Pending",
            LifecycleState::Running => "Running",
            LifecycleState::Stopping => "Stopping",
            LifecycleState::Stopped => "Stopped",
            LifecycleState::ShuttingDown => "ShuttingDown",
            LifecycleState::Terminated => "Terminated",
        }
    }
}

impl HealthStatus {
    pub fn label(&self) -> (r: &'static str)
        ensures
            r@ == health_label(*self),
    {
        match self {
            HealthStatus::Healthy => "Ok",
            HealthStatus::Impaired => "Impaired",
            HealthStatus::InsufficientData => "InsufficientData",
            HealthStatus::NotApplicable => "NotApplicable",
            HealthStatus::Initializing => "Initializing",
        }
    }
}

/// The line of one instance: id, then name, lifecycle state and instance
/// status each padded to the column width, then system status; fields are
/// separated by one space.
pub open spec fn line_of(s: ServerStatus) -> Seq<char> {
    s.id@ + " "@ + padded(name_of(s.tags@), COLUMN_WIDTH as nat) + " "@ + padded(
        state_label(s.state),
        COLUMN_WIDTH as nat,
    ) + " "@ + padded(health_label(s.summary), COLUMN_WIDTH as nat) + " "@ + health_label(
        s.system_summary,
    )
}

/// The rendering of a snapshot: its lines in order, joined by newlines.
pub open spec fn fleet_text(servers: Seq<ServerStatus>) -> Seq<char> {
    joined(servers.map_values(|s: ServerStatus| line_of(s)), "\n"@)
}

/// Renders the line of one instance.
pub fn render_line(s: &ServerStatus) -> (r: String)
    ensures
        r@ == line_of(*s),
{
    let mut line = s.id.clone();
    line.append(" ");
    push_padded(&mut line, s.name(), COLUMN_WIDTH);
    line.append(" ");
    push_padded(&mut line, s.state.label(), COLUMN_WIDTH);
    line.append(" ");
    push_padded(&mut line, s.summary.label(), COLUMN_WIDTH);
    line.append(" ");
    line.append(s.system_summary.label());
    line
}

/// Renders a snapshot as its canonical text.
pub fn render_fleet(servers: &Vec<ServerStatus>) -> (r: String)
    ensures
        r@ == fleet_text(servers@),
{
    let mut lines: Vec<String> = Vec::new();
    let mut i: usize = 0;
    while i < servers.len()
        invariant
            0 <= i <= servers@.len(),
            views(lines@) =~= servers@.subrange(0, i as int).map_values(
                |s: ServerStatus| line_of(s),
            ),
        decreases servers@.len() - i,
    {
        let line = render_line(&servers[i]);
        let ghost prev = lines@;
        lines.push(line);
        proof {
            assert(views(lines@) =~= views(prev).push(line@));
            assert(servers@.subrange(0, i + 1).map_values(|s: ServerStatus| line_of(s))
                =~= servers@.subrange(0, i as int).map_values(|s: ServerStatus| line_of(s)).push(
                line_of(servers@[i as int]),
            ));
        }
        i += 1;
        proof {
            assert(views(lines@) =~= servers@.subrange(0, i as int).map_values(
                |s: ServerStatus| line_of(s),
            ));
        }
    }
    proof {
        assert(servers@.subrange(0, i as int) =~= servers@);
    }
    join_with(&lines, "\n")
}

/// Rendering depends on the snapshot alone: equal snapshots render to the
/// same text, so rendering one snapshot twice gives identical text.
pub proof fn rendering_is_deterministic(a: Seq<ServerStatus>, b: Seq<ServerStatus>)
    requires
        a == b,
    ensures
        fleet_text(a) == fleet_text(b),
{
}

} // verus!
