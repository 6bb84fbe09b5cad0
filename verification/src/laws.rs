//! Session-level laws.
//!
//! The engine's methods mirror the spec transitions in `engine`; the proofs
//! here state what whole sequences of those transitions guarantee: a new
//! dispatch replaces the old result set and stale completions can never
//! resurrect it, an exclusive plugin is the only one that can contribute
//! rows, and selection handling moves the arbiter exactly as specified.

use vstd::prelude::*;

use crate::aggregate::lemma_rows_index;
use crate::aggregate::lemma_rows_shape;
use crate::aggregate::lemma_total_up_to_monotone;
use crate::aggregate::lemma_rows_up_to_len;
use crate::aggregate::total_up_to;
use crate::aggregate::total_len;
use crate::engine::EngineView;
use crate::engine::bump;
use crate::engine::refresh_targets;
use crate::engine::step_async;
use crate::engine::step_query_changed;
use crate::engine::step_refresh;
use crate::engine::step_selection;
use crate::types::HandleResult;
use crate::types::PollResult;
use crate::types::PollVerdict;

verus! {

/// One invocation of a polling task, as the engine sees it: which plugin,
/// the generation the task was created under, and what `poll_matches`
/// returned.
pub struct PollEvent {
    pub plugin: int,
    pub generation: u64,
    pub poll: PollResult,
}

/// The engine state after a sequence of polling-task invocations, in the
/// order the cooperative loop happened to run them.
pub open spec fn apply_polls(v: EngineView, events: Seq<PollEvent>) -> EngineView
    decreases events.len(),
{
    if events.len() == 0 {
        v
    } else {
        apply_polls(
            step_async(v, events[0].plugin, events[0].generation, events[0].poll).0,
            events.drop_first(),
        )
    }
}

/// A fresh generation never equals the one it replaces, so every task of
/// the superseded dispatch is recognisably stale.
pub proof fn lemma_bump_changes(g: u64)
    ensures
        bump(g) != g,
{
}

/// Law (generation safety, one step): a polling task whose generation is no
/// longer the plugin's current one changes nothing, whatever payload it
/// carries, and retires.
pub proof fn lemma_stale_poll_ignored(v: EngineView, plugin: int, generation: u64, poll: PollResult)
    requires
        0 <= plugin < v.generations.len(),
        generation != v.generations[plugin],
    ensures
        step_async(v, plugin, generation, poll).0 == v,
        step_async(v, plugin, generation, poll).1 == PollVerdict::Stop,
{
}

/// Law (generation safety): dispatch plugin `p` — its task carries the
/// post-dispatch generation — then re-dispatch before that task completes.
/// When the first task finally completes, with any payload, the engine is
/// left exactly as the second dispatch built it.
pub proof fn lemma_generation_safety(v: EngineView, p: int, poll: PollResult)
    requires
        0 <= p < v.generations.len(),
    ensures
        step_async(
            step_refresh(step_refresh(v)),
            p,
            step_refresh(v).generations[p],
            poll,
        ).0 == step_refresh(step_refresh(v)),
        step_async(
            step_refresh(step_refresh(v)),
            p,
            step_refresh(v).generations[p],
            poll,
        ).1 == PollVerdict::Stop,
{
    lemma_bump_changes(step_refresh(v).generations[p]);
}

/// Law (replace semantics): a new dispatch clears every row before any new
/// result can be appended, and no schedule of leftover tasks from the
/// superseded query — each carries a generation that the dispatch moved
/// past — can ever put a row back. At no instant does the row list mix two
/// queries.
pub proof fn lemma_replace_semantics(v: EngineView, events: Seq<PollEvent>)
    requires
        forall|k: int|
            0 <= k < events.len() ==> 0 <= #[trigger] events[k].plugin < v.generations.len()
                && events[k].generation == v.generations[events[k].plugin],
    ensures
        step_refresh(v).rows().len() == 0,
        apply_polls(step_refresh(v), events) == step_refresh(v),
    decreases events.len(),
{
    let v1 = step_refresh(v);
    crate::aggregate::lemma_all_rows_empty(v1.batches);
    if events.len() > 0 {
        let e = events[0];
        lemma_bump_changes(v.generations[e.plugin]);
        lemma_stale_poll_ignored(v1, e.plugin, e.generation, e.poll);
        assert(forall|k: int|
            0 <= k < events.drop_first().len() ==> events.drop_first()[k] == events[k + 1]);
        lemma_replace_semantics(v, events.drop_first());
    }
}

/// After `apply_polls`, generations and the cap are untouched and only
/// plugins that appeared in a current-generation `Ready` event have a
/// batch. Helper shape for the exclusivity law.
proof fn lemma_polls_keep_others_empty(v: EngineView, p: int, events: Seq<PollEvent>)
    requires
        v.generations.len() == v.batches.len(),
        0 <= p < v.batches.len(),
        forall|q: int| 0 <= q < v.batches.len() && q != p ==> v.batches[q].len() == 0,
        forall|k: int|
            0 <= k < events.len() ==> 0 <= #[trigger] events[k].plugin < v.generations.len() && (
            events[k].plugin == p || events[k].generation != v.generations[events[k].plugin]),
    ensures
        apply_polls(v, events).generations == v.generations,
        apply_polls(v, events).batches.len() == v.batches.len(),
        apply_polls(v, events).max_entries == v.max_entries,
        forall|q: int|
            0 <= q < v.batches.len() && q != p ==> apply_polls(v, events).batches[q].len() == 0,
    decreases events.len(),
{
    if events.len() > 0 {
        let e = events[0];
        let w = step_async(v, e.plugin, e.generation, e.poll).0;
        assert(w.generations == v.generations);
        assert(forall|q: int| 0 <= q < w.batches.len() && q != p ==> w.batches[q].len() == 0);
        assert(forall|k: int|
            0 <= k < events.drop_first().len() ==> events.drop_first()[k] == events[k + 1]);
        lemma_polls_keep_others_empty(w, p, events.drop_first());
    }
}

/// Law (exclusivity suppression): while the arbiter is `Exclusive(p)`, a
/// dispatch targets `p` alone, and whatever interleaving of polling tasks
/// follows — the new task for `p`, plus any stale leftovers — every visible
/// row belongs to `p`. Typing in the query field reopens the arbiter before
/// the next dispatch, which then targets every plugin again.
pub proof fn lemma_exclusivity_suppression(v: EngineView, p: usize, events: Seq<PollEvent>)
    requires
        v.wf(),
        v.batches.len() <= u64::MAX,
        v.exclusive == Some(p),
        forall|k: int|
            0 <= k < events.len() ==> 0 <= #[trigger] events[k].plugin < v.generations.len() && (
            events[k].plugin == p as int || events[k].generation != step_refresh(
                v,
            ).generations[events[k].plugin]),
    ensures
        refresh_targets(v) == seq![(p, bump(v.generations[p as int]))],
        forall|k: int|
            0 <= k < apply_polls(step_refresh(v), events).rows().len() ==> apply_polls(
                step_refresh(v),
                events,
            ).rows()[k].plugin_id == p as u64,
        step_query_changed(v).exclusive is None,
        refresh_targets(step_query_changed(v)).len() == v.batches.len(),
{
    let v1 = step_refresh(v);
    lemma_polls_keep_others_empty(v1, p as int, events);
    let w = apply_polls(v1, events);
    lemma_rows_shape(w.batches, w.batches.len() as int);
    assert forall|k: int| 0 <= k < w.rows().len() implies w.rows()[k].plugin_id == p as u64 by {
        assert(w.rows()[k] == crate::aggregate::all_rows(w.batches)[k]);
        assert(w.batches[w.rows()[k].plugin_id as int].len() > 0);
    }
}

/// Law (selection round trip): the row at the global index that counts all
/// matches of the plugins registered before `p`, plus `j`, resolves to
/// exactly plugin `p`'s `j`-th match of this query — the activation path
/// hands the very match the plugin produced back to the plugin that
/// produced it.
pub proof fn lemma_selection_round_trip(v: EngineView, p: int, j: int)
    requires
        v.batches.len() <= u64::MAX,
        0 <= p < v.batches.len(),
        0 <= j < v.batches[p].len(),
        match v.max_entries {
            Some(cap) => total_up_to(v.batches, p) + j < cap,
            None => true,
        },
    ensures
        0 <= total_up_to(v.batches, p) + j < v.rows().len(),
        v.rows()[total_up_to(v.batches, p) + j].spec_to_match() == v.batches[p][j],
        v.rows()[total_up_to(v.batches, p) + j].plugin_id == p as u64,
        v.rows()[total_up_to(v.batches, p) + j].first <==> j == 0,
{
    let idx = total_up_to(v.batches, p) + j;
    lemma_rows_index(v.batches, v.batches.len() as int, p, j);
    lemma_rows_up_to_len(v.batches, v.batches.len() as int);
    lemma_total_up_to_monotone(v.batches, p + 1, v.batches.len() as int);
    assert(idx < total_len(v.batches));
}

/// Law (arbiter moves): a plugin's selection handler returning
/// `Refresh(false)` releases exclusivity whoever held it; `Refresh(true)`
/// hands it to the handling plugin; every other outcome leaves the arbiter
/// alone.
pub proof fn lemma_selection_moves_arbiter(v: EngineView, p: int, result: HandleResult)
    ensures
        step_selection(v, p, HandleResult::Refresh(false)).0.exclusive is None,
        step_selection(v, p, HandleResult::Refresh(true)).0.exclusive == Some(p as usize),
        !(result is Refresh) ==> step_selection(v, p, result).0.exclusive == v.exclusive,
{
}

} // verus!
