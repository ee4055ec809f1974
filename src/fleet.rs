//! Instances, their status records, and the correlation of the two into a
//! fleet snapshot.

use vstd::prelude::*;

verus! {

/// Coarse power / boot state of an instance.
#[derive(Clone, Copy, Debug, PartialEq, Eq, Structural)]
pub enum LifecycleState {
    Pending,
    Running,
    Stopping,
    Stopped,
    ShuttingDown,
    Terminated,
}

/// Health classification reported for an instance or for its host.
#[derive(Clone, Copy, Debug, PartialEq, Eq, Structural)]
pub enum HealthStatus {
    Healthy,
    Impaired,
    InsufficientData,
    NotApplicable,
    Initializing,
}

/// A key/value tag attached to an instance.
#[derive(Clone, Debug)]
pub struct Tag {
    pub key: String,
    pub value: String,
}

/// The descriptive record of one instance, as listed upstream.
#[derive(Clone, Debug)]
pub struct InstanceDescription {
    pub id: String,
    pub tags: Vec<Tag>,
}

/// The status record of one instance. Any field may be missing upstream.
#[derive(Clone, Debug)]
pub struct StatusRecord {
    pub id: String,
    pub state: Option<LifecycleState>,
    pub instance_status: Option<HealthStatus>,
    pub system_status: Option<HealthStatus>,
}

/// One correlated instance of a fleet snapshot.
#[derive(Clone, Debug)]
pub struct ServerStatus {
    pub id: String,
    pub tags: Vec<Tag>,
    pub state: LifecycleState,
    pub summary: HealthStatus,
    pub system_summary: HealthStatus,
}

/// Why a snapshot could not be built.
#[derive(Clone, Copy, Debug, PartialEq, Eq, Structural)]
pub enum FleetError {
    /// A correlated status record lacks one of its three status values.
    MissingStatusField,
}

/// The name shown for an instance without a `Name` tag.
pub open spec fn unnamed() -> Seq<char> {
    "UNNAMED"@
}

/// The value of the first tag whose key is exactly `Name`, from index `i` on.
pub open spec fn name_from(tags: Seq<Tag>, i: int) -> Seq<char>
    decreases tags.len() - i,
{
    if i < 0 || i >= tags.len() {
        unnamed()
    } else if tags[i].key@ == "Name"@ {
        tags[i].value@
    } else {
        name_from(tags, i + 1)
    }
}

/// The display name of an instance with these tags.
pub open spec fn name_of(tags: Seq<Tag>) -> Seq<char> {
    name_from(tags, 0)
}

/// The first status record with this id, scanning from index `j` on.
pub open spec fn status_from(statuses: Seq<StatusRecord>, id: Seq<char>, j: int) -> Option<
    StatusRecord,
>
    decreases statuses.len() - j,
{
    if j < 0 || j >= statuses.len() {
        None
    } else if statuses[j].id@ == id {
        Some(statuses[j])
    } else {
        status_from(statuses, id, j + 1)
    }
}

/// The status record that an instance id correlates with: the first one
/// that carries the id; later duplicates are ignored.
pub open spec fn first_status(statuses: Seq<StatusRecord>, id: Seq<char>) -> Option<StatusRecord> {
    status_from(statuses, id, 0)
}

pub open spec fn is_complete(r: StatusRecord) -> bool {
    &&& r.state is Some
    &&& r.instance_status is Some
    &&& r.system_status is Some
}

pub open spec fn has_complete_status(statuses: Seq<StatusRecord>, id: Seq<char>) -> bool {
    first_status(statuses, id) matches Some(r) && is_complete(r)
}

pub open spec fn summary_of(d: InstanceDescription, r: StatusRecord) -> ServerStatus {
    ServerStatus {
        id: d.id,
        tags: d.tags,
        state: r.state.unwrap(),
        summary: r.instance_status.unwrap(),
        system_summary: r.system_status.unwrap(),
    }
}

/// The snapshot of a fleet: one summary per described instance that has a
/// status record, in listing order; `None` when a correlated record is
/// incomplete.
pub open spec fn fleet_of(descs: Seq<InstanceDescription>, statuses: Seq<StatusRecord>) -> Option<
    Seq<ServerStatus>,
>
    decreases descs.len(),
{
    if descs.len() == 0 {
        Some(Seq::empty())
    } else {
        match fleet_of(descs.drop_last(), statuses) {
            None => None,
            Some(done) => match first_status(statuses, descs.last().id@) {
                None => Some(done),
                Some(r) => if is_complete(r) {
                    Some(done.push(summary_of(descs.last(), r)))
                } else {
                    None
                },
            },
        }
    }
}

impl ServerStatus {
    /// The value of the instance's first `Name` tag, or `UNNAMED`.
    pub fn name(&self) -> (r: &str)
        ensures
            r@ == name_of(self.tags@),
    {
        let key = String::from_str("Name");
        let mut i: usize = 0;
        while i < self.tags.len()
            invariant
                0 <= i <= self.tags@.len(),
                key@ == "Name"@,
                name_of(self.tags@) == name_from(self.tags@, i as int),
            decreases self.tags@.len() - i,
        {
            if self.tags[i].key == key {
                return self.tags[i].value.as_str();
            }
            i += 1;
        }
        "UNNAMED"
    }
}

/// Index of the first status record that carries `id`.
fn find_status(statuses: &Vec<StatusRecord>, id: &String) -> (r: Option<usize>)
    ensures
        match r {
            None => first_status(statuses@, id@) is None,
            Some(j) => j < statuses@.len() && first_status(statuses@, id@) == Some(statuses@[j as int]),
        },
{
    let mut j: usize = 0;
    while j < statuses.len()
        invariant
            0 <= j <= statuses@.len(),
            first_status(statuses@, id@) == status_from(statuses@, id@, j as int),
        decreases statuses@.len() - j,
    {
        if statuses[j].id == *id {
            return Some(j);
        }
        j += 1;
    }
    None
}

proof fn lemma_failure_persists(
    descs: Seq<InstanceDescription>,
    statuses: Seq<StatusRecord>,
    k: int,
)
    requires
        0 <= k <= descs.len(),
        fleet_of(descs.subrange(0, k), statuses) is None,
    ensures
        fleet_of(descs, statuses) is None,
    decreases descs.len() - k,
{
    if k < descs.len() {
        assert(descs.subrange(0, k + 1).drop_last() =~= descs.subrange(0, k));
        lemma_failure_persists(descs, statuses, k + 1);
    } else {
        assert(descs.subrange(0, k) =~= descs);
    }
}

/// When every described instance has a complete status record, the snapshot
/// holds exactly one summary per instance, in listing order.
pub proof fn every_matched_instance_is_summarized(
    descs: Seq<InstanceDescription>,
    statuses: Seq<StatusRecord>,
)
    requires
        forall|i: int|
            0 <= i < descs.len() ==> #[trigger] has_complete_status(statuses, descs[i].id@),
    ensures
        fleet_of(descs, statuses) is Some,
        fleet_of(descs, statuses).unwrap().len() == descs.len(),
        forall|i: int|
            0 <= i < descs.len() ==> #[trigger] fleet_of(descs, statuses).unwrap()[i]
                == summary_of(descs[i], first_status(statuses, descs[i].id@).unwrap()),
    decreases descs.len(),
{
    if descs.len() > 0 {
        let front = descs.drop_last();
        assert forall|i: int| 0 <= i < front.len() implies #[trigger] has_complete_status(
            statuses,
            front[i].id@,
        ) by {
            assert(front[i] == descs[i]);
        }
        every_matched_instance_is_summarized(front, statuses);
        let last = descs.len() - 1;
        assert(has_complete_status(statuses, descs[last].id@));
    }
}

/// Every summary of a snapshot stems from a described instance whose id has
/// a status record.
proof fn lemma_summaries_are_correlated(
    descs: Seq<InstanceDescription>,
    statuses: Seq<StatusRecord>,
    k: int,
)
    requires
        fleet_of(descs, statuses) is Some,
        0 <= k < fleet_of(descs, statuses).unwrap().len(),
    ensures
        exists|i: int|
            0 <= i < descs.len() && #[trigger] descs[i].id@ == fleet_of(descs, statuses).unwrap()[k].id@
                && first_status(statuses, descs[i].id@) is Some,
    decreases descs.len(),
{
    let front = descs.drop_last();
    let done = fleet_of(front, statuses).unwrap();
    if k < done.len() {
        lemma_summaries_are_correlated(front, statuses, k);
        let i = choose|i: int|
            0 <= i < front.len() && #[trigger] front[i].id@ == done[k].id@ && first_status(
                statuses,
                front[i].id@,
            ) is Some;
        assert(descs[i] == front[i]);
    } else {
        let last = descs.len() - 1;
        assert(descs[last].id@ == fleet_of(descs, statuses).unwrap()[k].id@);
    }
}

/// An id that is described but has no status record, or has a status record
/// but is not described, gives no summary.
pub proof fn unmatched_ids_are_dropped(
    descs: Seq<InstanceDescription>,
    statuses: Seq<StatusRecord>,
    id: Seq<char>,
)
    requires
        first_status(statuses, id) is None || forall|i: int|
            0 <= i < descs.len() ==> #[trigger] descs[i].id@ != id,
    ensures
        fleet_of(descs, statuses) matches Some(out) ==> forall|k: int|
            0 <= k < out.len() ==> #[trigger] out[k].id@ != id,
{
    if fleet_of(descs, statuses) is Some {
        let out = fleet_of(descs, statuses).unwrap();
        assert forall|k: int| 0 <= k < out.len() implies #[trigger] out[k].id@ != id by {
            lemma_summaries_are_correlated(descs, statuses, k);
        }
    }
}

/// Correlates instance descriptions with status records by id, keeping the
/// listing order of the descriptions. An instance without a status record is
/// left out; a correlated record that lacks a status value fails the whole
/// snapshot.
pub fn build_fleet(descs: Vec<InstanceDescription>, statuses: &Vec<StatusRecord>) -> (r: Result<
    Vec<ServerStatus>,
    FleetError,
>)
    ensures
        r is Err <==> fleet_of(descs@, statuses@) is None,
        r matches Ok(out) ==> fleet_of(descs@, statuses@) == Some(out@),
        r matches Err(e) ==> e == FleetError::MissingStatusField,
{
    let ghost all = descs@;
    let n = descs.len();
    let mut rest = descs;
    let mut out: Vec<ServerStatus> = Vec::new();
    let mut i: usize = 0;
    proof {
        assert(all.subrange(0, 0) =~= Seq::<InstanceDescription>::empty());
    }
    while rest.len() > 0
        invariant
            0 <= i <= all.len(),
            all.len() == n,
            all == descs@,
            rest@ == all.subrange(i as int, all.len() as int),
            fleet_of(all.subrange(0, i as int), statuses@) == Some(out@),
        decreases rest@.len(),
    {
        let d = rest.remove(0);
        proof {
            assert(all.subrange(0, i + 1).drop_last() =~= all.subrange(0, i as int));
            assert(all.subrange(0, i + 1).last() == d);
        }
        match find_status(statuses, &d.id) {
            None => {},
            Some(j) => {
                let rec = &statuses[j];
                match (rec.state, rec.instance_status, rec.system_status) {
                    (Some(state), Some(summary), Some(system_summary)) => {
                        out.push(
                            ServerStatus { id: d.id, tags: d.tags, state, summary, system_summary },
                        );
                    },
                    _ => {
                        proof {
                            assert(first_status(statuses@, d.id@) == Some(*rec));
                            assert(!is_complete(*rec));
                            assert(fleet_of(all.subrange(0, i + 1), statuses@) is None);
                            lemma_failure_persists(all, statuses@, i + 1);
                            assert(fleet_of(all, statuses@) is None);
                        }
                        return Err(FleetError::MissingStatusField);
                    },
                }
            },
        }
        i += 1;
        proof {
            assert(rest@ =~= all.subrange(i as int, all.len() as int));
        }
    }
    proof {
        assert(all.subrange(0, i as int) =~= all);
    }
    Ok(out)
}

} // verus!
