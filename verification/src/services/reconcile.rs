//! The reconciler: the known records take over what the engine reports.

use vstd::prelude::*;

use crate::services::docker::DockerService;
use crate::services::listing::{ObservedContainer, ObservedContainerView};
use crate::text::same_text;
use crate::types::database::{DatabaseContainerView, DatabaseStore};

verus! {

/// The text of the status of a record whose container runs.
pub open spec fn running_status() -> Seq<char> {
    "running"@
}

/// The text of the status of a record whose container does not run.
pub open spec fn stopped_status() -> Seq<char> {
    "stopped"@
}

/// The container called `name` among those observed. Where the engine lists
/// a name twice, the later line counts.
pub open spec fn observed_named(observed: Seq<ObservedContainerView>, name: Seq<char>) -> Option<
    ObservedContainerView,
>
    decreases observed.len(),
{
    if observed.len() == 0 {
        None
    } else if observed.last().name == name {
        Some(observed.last())
    } else {
        observed_named(observed.drop_last(), name)
    }
}

/// The record after it took over what the engine reports. It is matched by
/// its name. With a container of that name, the record has that container's
/// identifier and runs or not as the container does. Without one, the record
/// is stopped and has no container.
pub open spec fn reconciled(
    record: DatabaseContainerView,
    observed: Seq<ObservedContainerView>,
) -> DatabaseContainerView {
    match observed_named(observed, record.name) {
        Some(found) => DatabaseContainerView {
            container_id: Some(found.id),
            status: if found.running {
                running_status()
            } else {
                stopped_status()
            },
            ..record
        },
        None => DatabaseContainerView { container_id: None, status: stopped_status(), ..record },
    }
}

/// All records after they took over what the engine reports.
pub open spec fn reconciled_all(
    records: Seq<DatabaseContainerView>,
    observed: Seq<ObservedContainerView>,
) -> Seq<DatabaseContainerView> {
    Seq::new(records.len(), |at: int| reconciled(records[at], observed))
}

/// A record without a container of its name is stopped and has no
/// container after it was reconciled, whatever it held before.
pub proof fn lemma_unobserved_record_is_stopped(
    record: DatabaseContainerView,
    observed: Seq<ObservedContainerView>,
)
    requires
        forall|at: int| 0 <= at < observed.len() ==> observed[at].name != record.name,
    ensures
        reconciled(record, observed).status == stopped_status(),
        reconciled(record, observed).container_id is None,
    decreases observed.len(),
{
    lemma_unobserved_name(observed, record.name);
}

/// A name that no observed container has is not found.
pub proof fn lemma_unobserved_name(observed: Seq<ObservedContainerView>, name: Seq<char>)
    requires
        forall|at: int| 0 <= at < observed.len() ==> observed[at].name != name,
    ensures
        observed_named(observed, name) is None,
    decreases observed.len(),
{
    if observed.len() > 0 {
        lemma_unobserved_name(observed.drop_last(), name);
    }
}

/// Reconciling changes nothing but the status and the container: identity,
/// name, port, credentials and the other fields stay as they are.
pub proof fn lemma_reconciled_keeps_identity(
    record: DatabaseContainerView,
    observed: Seq<ObservedContainerView>,
)
    ensures
        reconciled(record, observed) == (DatabaseContainerView {
            status: reconciled(record, observed).status,
            container_id: reconciled(record, observed).container_id,
            ..record
        }),
{
}

/// Reconciling twice against the same observation changes nothing more.
pub proof fn lemma_reconciled_twice(
    record: DatabaseContainerView,
    observed: Seq<ObservedContainerView>,
)
    ensures
        reconciled(reconciled(record, observed), observed) == reconciled(record, observed),
{
}

/// The container called `name` among those observed.
pub fn find_observed<'a>(observed: &'a Vec<ObservedContainer>, name: &str) -> (r: Option<
    &'a ObservedContainer,
>)
    ensures
        r.deep_view() == observed_named(observed.deep_view(), name@),
{
    let mut at: usize = observed.len();
    assert(observed.deep_view().take(at as int) =~= observed.deep_view());
    while at > 0
        invariant
            at <= observed.len(),
            observed_named(observed.deep_view(), name@) == observed_named(
                observed.deep_view().take(at as int),
                name@,
            ),
        decreases at,
    {
        let ghost upto = observed.deep_view().take(at as int);
        assert(upto.last() == observed[at - 1]@);
        assert(upto.drop_last() =~= observed.deep_view().take(at - 1));
        if same_text(observed[at - 1].name.as_str(), name) {
            return Some(&observed[at - 1]);
        }
        at -= 1;
    }
    None
}

impl DockerService {
    /// Brings the records of `container_map` in step with the containers
    /// that the engine lists: each record is matched by its name and takes
    /// over the container's identifier and whether it runs; a record without
    /// a container of its name is stopped and has no container.
    pub fn sync_containers_with_docker(
        &self,
        observed: &Vec<ObservedContainer>,
        container_map: &mut DatabaseStore,
    )
        ensures
            final(container_map)@ == reconciled_all(old(container_map)@, observed.deep_view()),
    {
        let ghost before = container_map@;
        let count: usize = container_map.len();
        let mut at: usize = 0;
        while at < count
            invariant
                at <= count,
                count == before.len(),
                container_map@.len() == before.len(),
                forall|k: int|
                    0 <= k < at ==> container_map@[k] == reconciled(
                        before[k],
                        observed.deep_view(),
                    ),
                forall|k: int| at <= k < count ==> container_map@[k] == before[k],
            decreases count - at,
        {
            let found = find_observed(observed, container_map.record(at).name.as_str());
            match found {
                Some(container) => {
                    let status = if container.running {
                        String::from_str("running")
                    } else {
                        String::from_str("stopped")
                    };
                    container_map.set_engine_state(at, status, Some(container.id.clone()));
                },
                None => {
                    container_map.set_engine_state(at, String::from_str("stopped"), None);
                },
            }
            at += 1;
        }
        assert(container_map@ =~= reconciled_all(before, observed.deep_view()));
    }
}

} // verus!
