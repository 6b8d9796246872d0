//! The walk over dependent services during logout. Nothing is kept between
//! two requests of a cascade but the id of the service just signed out of.

use crate::auth::helpers::{proxy_ids, Oauth2ProxyService};
use crate::auth::probe::ProbeResult;
use crate::text::str_eq;
use vstd::prelude::*;
use vstd::string::*;

verus! {

/// Index of the first service named `id`, if there is one.
pub open spec fn position_of(ids: Seq<Seq<char>>, id: Seq<char>) -> Option<int>
    decreases ids.len(),
{
    if ids.len() == 0 {
        None
    } else if ids[0] == id {
        Some(0)
    } else {
        match position_of(ids.skip(1), id) {
            Some(p) => Some(p + 1),
            None => None,
        }
    }
}

/// Where the walk starts: at the beginning on the first request, behind the
/// service just signed out of on a later one, and at the beginning again
/// where that service is not in the list.
pub open spec fn start_index(ids: Seq<Seq<char>>, last_id: Option<Seq<char>>) -> int {
    match last_id {
        Some(id) => match position_of(ids, id) {
            Some(p) => p + 1,
            None => 0,
        },
        None => 0,
    }
}

/// `position_of` finds an index that holds `id`, the first such, and finds
/// one whenever `id` is in the list.
pub proof fn lemma_position_of(ids: Seq<Seq<char>>, id: Seq<char>)
    ensures
        match position_of(ids, id) {
            Some(p) => 0 <= p < ids.len() && ids[p] == id && forall|j: int|
                0 <= j < p ==> ids[j] != id,
            None => forall|j: int| 0 <= j < ids.len() ==> ids[j] != id,
        },
    decreases ids.len(),
{
    if ids.len() > 0 && ids[0] != id {
        let rest = ids.skip(1);
        lemma_position_of(rest, id);
        match position_of(rest, id) {
            Some(p) => {
                assert(rest[p] == ids[p + 1]);
                assert forall|j: int| 0 <= j < p + 1 implies ids[j] != id by {
                    if j > 0 {
                        assert(rest[j - 1] == ids[j]);
                    }
                }
            },
            None => {
                assert forall|j: int| 0 <= j < ids.len() implies ids[j] != id by {
                    if j > 0 {
                        assert(rest[j - 1] == ids[j]);
                    }
                }
            },
        }
    }
}

/// An id that names no service of the list restarts the walk at the first
/// service.
pub proof fn lemma_unknown_id_restarts(ids: Seq<Seq<char>>, id: Seq<char>)
    requires
        !ids.contains(id),
    ensures
        start_index(ids, Some(id)) == 0,
{
    lemma_position_of(ids, id);
    if let Some(p) = position_of(ids, id) {
        assert(ids.contains(ids[p]));
    }
}

/// An id that names a service continues the walk right behind the first
/// service of that id.
pub proof fn lemma_known_id_continues(ids: Seq<Seq<char>>, p: int)
    requires
        0 <= p < ids.len(),
        forall|j: int| 0 <= j < p ==> ids[j] != ids[p],
    ensures
        start_index(ids, Some(ids[p])) == p + 1,
{
    lemma_position_of(ids, ids[p]);
}

/// Computes where the walk starts.
pub fn cascade_start_index(services: &[Oauth2ProxyService], last_service_id: Option<&str>) -> (index:
    usize)
    ensures
        index == start_index(
            proxy_ids(services@),
            match last_service_id {
                Some(id) => Some(id@),
                None => None,
            },
        ),
        index <= services@.len(),
{
    match last_service_id {
        None => 0,
        Some(last_id) => {
            let ghost ids = proxy_ids(services@);
            let mut i: usize = 0;
            while i < services.len()
                invariant
                    i <= services.len(),
                    ids == proxy_ids(services@),
                    last_service_id == Some(last_id),
                    forall|j: int| 0 <= j < i ==> ids[j] != last_id@,
                decreases services.len() - i,
            {
                if str_eq(services[i].id.as_str(), last_id) {
                    proof {
                        assert(ids[i as int] == last_id@);
                        lemma_position_of(ids, last_id@);
                    }
                    return i + 1;
                }
                i += 1;
            }
            proof {
                lemma_position_of(ids, last_id@);
            }
            0
        },
    }
}

// ---------------------------------------------------------------------------
// The walk
// ---------------------------------------------------------------------------

/// Where the walk ended: at a reachable service, or nowhere.
#[derive(Debug)]
pub struct FindReachableResult<'a> {
    /// The next reachable service, if any.
    pub service: Option<&'a Oauth2ProxyService>,
}

/// What the walk asks for next.
#[derive(Debug)]
pub enum FindStep<'a> {
    /// Probe the service at `index` and come back with the result.
    Probe { index: usize, service: &'a Oauth2ProxyService },
    /// The walk is over.
    Done(FindReachableResult<'a>),
}

/// A step of the walk over indices.
pub ghost enum FindStepView {
    Probe(int),
    Done(Option<int>),
}

/// Probe the service at `index` if there is one, else the walk is over.
pub open spec fn probe_or_done(len: int, index: int) -> FindStepView {
    if 0 <= index < len {
        FindStepView::Probe(index)
    } else {
        FindStepView::Done(None)
    }
}

/// The next step of the walk over `len` services. With `probed` absent the
/// walk stands in front of `index`; with `probed` present the service at
/// `index` has just been probed with that result. A reachable service ends
/// the walk; an unreachable one is skipped.
pub open spec fn next_step(len: int, index: int, probed: Option<ProbeResult>) -> FindStepView {
    match probed {
        None => probe_or_done(len, index),
        Some(result) => if !(0 <= index < len) {
            FindStepView::Done(None)
        } else if result.is_reachable() {
            FindStepView::Done(Some(index))
        } else {
            probe_or_done(len, index + 1)
        },
    }
}

/// Advances the walk by one step.
pub fn find_next_reachable_service<'a>(
    services: &'a [Oauth2ProxyService],
    index: usize,
    probed: Option<ProbeResult>,
) -> (step: FindStep<'a>)
    ensures
        match step {
            FindStep::Probe { index: i, service } => {
                &&& next_step(services@.len() as int, index as int, probed) == FindStepView::Probe(
                    i as int,
                )
                &&& i < services@.len()
                &&& *service == services@[i as int]
            },
            FindStep::Done(result) => match result.service {
                Some(s) => {
                    &&& next_step(services@.len() as int, index as int, probed)
                        == FindStepView::Done(Some(index as int))
                    &&& index < services@.len()
                    &&& *s == services@[index as int]
                },
                None => next_step(services@.len() as int, index as int, probed)
                    == FindStepView::Done(None),
            },
        },
{
    match probed {
        None => {
            if index < services.len() {
                FindStep::Probe { index, service: &services[index] }
            } else {
                FindStep::Done(FindReachableResult { service: None })
            }
        },
        Some(result) => {
            if index >= services.len() {
                FindStep::Done(FindReachableResult { service: None })
            } else if result.is_reachable() {
                FindStep::Done(FindReachableResult { service: Some(&services[index]) })
            } else if index + 1 < services.len() {
                FindStep::Probe { index: index + 1, service: &services[index + 1] }
            } else {
                FindStep::Done(FindReachableResult { service: None })
            }
        },
    }
}

/// The first index at or behind `from` whose probe says reachable.
pub open spec fn first_reachable(results: Seq<ProbeResult>, from: int) -> Option<int>
    decreases results.len() - from,
{
    if from < 0 || from >= results.len() {
        None
    } else if results[from].is_reachable() {
        Some(from)
    } else {
        first_reachable(results, from + 1)
    }
}

/// Where a walk ends that stands at `step` and gets `results[i]` whenever it
/// probes service `i`.
pub open spec fn walk_end(step: FindStepView, results: Seq<ProbeResult>) -> Option<int>
    decreases
            match step {
                FindStepView::Probe(i) => results.len() - i,
                FindStepView::Done(_) => 0,
            },
{
    match step {
        FindStepView::Done(end) => end,
        FindStepView::Probe(i) => if 0 <= i < results.len() {
            walk_end(next_step(results.len() as int, i, Some(results[i])), results)
        } else {
            None
        },
    }
}

/// The indices that a walk probes, in order.
pub open spec fn walk_probes(step: FindStepView, results: Seq<ProbeResult>) -> Seq<int>
    decreases
            match step {
                FindStepView::Probe(i) => results.len() - i,
                FindStepView::Done(_) => 0,
            },
{
    match step {
        FindStepView::Done(end) => Seq::empty(),
        FindStepView::Probe(i) => if 0 <= i < results.len() {
            seq![i] + walk_probes(next_step(results.len() as int, i, Some(results[i])), results)
        } else {
            Seq::empty()
        },
    }
}

/// A walk that starts at `start` ends at the first reachable service at or
/// behind `start`, and nowhere if there is none. It probes the services from
/// `start` up to the one it ends at, each once and in order, and no other.
pub proof fn lemma_walk_finds_first_reachable(results: Seq<ProbeResult>, start: int)
    requires
        0 <= start,
    ensures
        walk_end(next_step(results.len() as int, start, None), results) == first_reachable(
            results,
            start,
        ),
        walk_probes(next_step(results.len() as int, start, None), results) == Seq::new(
            match first_reachable(results, start) {
                Some(end) => (end - start + 1) as nat,
                None => if start <= results.len() {
                    (results.len() - start) as nat
                } else {
                    0nat
                },
            },
            |j: int| start + j,
        ),
        first_reachable(results, start) matches Some(end) ==> start <= end < results.len()
            && results[end].is_reachable() && forall|j: int|
            start <= j < end ==> !results[j].is_reachable(),
        first_reachable(results, start) is None ==> forall|j: int|
            start <= j < results.len() ==> !results[j].is_reachable(),
    decreases results.len() - start,
{
    let len = results.len() as int;
    reveal_with_fuel(walk_end, 3);
    reveal_with_fuel(walk_probes, 3);
    if start < len {
        if !results[start].is_reachable() {
            lemma_walk_finds_first_reachable(results, start + 1);
            assert(next_step(len, start, Some(results[start])) == next_step(len, start + 1, None));
            let rest = walk_probes(next_step(len, start + 1, None), results);
            let n = match first_reachable(results, start) {
                Some(end) => (end - start + 1) as nat,
                None => (len - start) as nat,
            };
            assert(seq![start] + rest =~= Seq::new(n, |j: int| start + j));
        } else {
            assert(walk_probes(next_step(len, start, None), results) =~= seq![start]);
            assert(seq![start] =~= Seq::new(1, |j: int| start + j));
        }
    } else {
        assert(walk_probes(next_step(len, start, None), results) =~= Seq::<int>::empty());
    }
}

} // verus!
