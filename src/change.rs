//! Change detection against the last stored rendering, and what a fleet
//! check does with its verdict.

use vstd::prelude::*;
use crate::fleet::ServerStatus;
use crate::render::{fleet_text, render_fleet};
use crate::text::opt_view;

verus! {

/// A rendering has changed unless a previous one exists and is the same text.
pub open spec fn is_changed(previous: Option<Seq<char>>, current: Seq<char>) -> bool {
    match previous {
        None => true,
        Some(p) => p != current,
    }
}

/// Compares the current rendering with the stored one, if any: any
/// difference, or no stored rendering at all, is a change.
pub fn has_changed(previous: &Option<String>, current: &String) -> (r: bool)
    ensures
        r == is_changed(opt_view(*previous), current@),
        previous is None ==> r,
        previous matches Some(p) ==> (r <==> p@ != current@),
{
    match previous {
        None => true,
        Some(p) => !(*p == *current),
    }
}

/// The outcome of change detection.
#[derive(Clone, Copy, Debug, PartialEq, Eq, Structural)]
pub enum Verdict {
    /// Change tracking is off: nothing was compared.
    Disabled,
    Changed,
    Unchanged,
}

/// What a fleet check decided: its verdict, the rendering to store as the
/// new baseline (if any), and the fleet paragraph to notify (if any).
#[derive(Clone, Debug)]
pub struct FleetStep {
    pub verdict: Verdict,
    pub save: Option<String>,
    pub message: Option<String>,
}

pub open spec fn verdict_of(previous: Option<Seq<char>>, current: Seq<char>, track: bool) -> Verdict {
    if !track {
        Verdict::Disabled
    } else if is_changed(previous, current) {
        Verdict::Changed
    } else {
        Verdict::Unchanged
    }
}

/// Whether the fleet paragraph goes into the notification: always when email
/// is asked for without change tracking; with tracking, only on a change.
pub open spec fn notifies(verdict: Verdict, email: bool, track: bool) -> bool {
    email && (!track || verdict == Verdict::Changed)
}

/// Decides a fleet check. `previous` is the stored rendering, read only when
/// `only_changes` tracks changes; the new rendering is to be stored exactly
/// when tracking finds a change.
pub fn check_fleet(
    servers: &Vec<ServerStatus>,
    previous: &Option<String>,
    email: bool,
    only_changes: bool,
) -> (r: FleetStep)
    ensures
        r.verdict == verdict_of(opt_view(*previous), fleet_text(servers@), only_changes),
        r.save is Some <==> r.verdict == Verdict::Changed,
        r.save matches Some(s) ==> s@ == fleet_text(servers@),
        r.message is Some <==> notifies(r.verdict, email, only_changes),
        r.message matches Some(m) ==> m@ == fleet_text(servers@),
{
    let paragraph = render_fleet(servers);
    let verdict = if !only_changes {
        Verdict::Disabled
    } else if has_changed(previous, &paragraph) {
        Verdict::Changed
    } else {
        Verdict::Unchanged
    };
    let save = if verdict == Verdict::Changed {
        Some(paragraph.clone())
    } else {
        None
    };
    let message = if email && (!only_changes || verdict == Verdict::Changed) {
        Some(paragraph)
    } else {
        None
    };
    FleetStep { verdict, save, message }
}

} // verus!
