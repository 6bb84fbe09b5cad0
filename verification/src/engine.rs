//! The orchestration engine.
//!
//! One `Engine` value holds the whole mutable session state: the per-plugin
//! generation counters of the request scheduler, the exclusivity arbiter,
//! the aggregated row list with its default selection, and the pending
//! post-run action. Every operation is a pure state transition, mirrored by
//! a spec function over the engine's view, so that laws about sequences of
//! operations can be stated and proved.
//!
//! The host drives the engine: it calls the plugins' `get_matches`,
//! `poll_matches` and `handle_selection` entry points and feeds their
//! results in as plain values. The engine decides everything else.

use vstd::prelude::*;

use crate::aggregate::composed;
use crate::aggregate::lemma_all_rows_empty;
use crate::aggregate::lemma_rows_shape;
use crate::aggregate::batch_rows;
use crate::aggregate::row_of;
use crate::aggregate::rows_up_to;
use crate::config::PostRunAction;
use crate::types::EngineAction;
use crate::types::HandleResult;
use crate::types::Match;
use crate::types::MatchRow;
use crate::types::PollResult;
use crate::types::PollVerdict;
use crate::types::SelectionError;
use vstd::pervasive::VecAdditionalExecFns;

verus! {

/// The mathematical content of an engine: what every contract and law is
/// stated over. The visible row list is not a field — it is determined by
/// the batches and the cap through `composed`.
#[verifier::ext_equal]
pub struct EngineView {
    /// Per plugin, the generation its newest dispatch carries.
    pub generations: Seq<u64>,
    /// Arbiter state: `Some(p)` while plugin `p` holds exclusivity.
    pub exclusive: Option<usize>,
    /// Per plugin, the matches of its most recent `Ready` batch this query;
    /// empty until one arrives.
    pub batches: Seq<Seq<Match>>,
    /// The optional cap on the aggregate row count.
    pub max_entries: Option<usize>,
    /// The row the renderer should treat as selected.
    pub selected: Option<usize>,
    /// What the host must keep doing after the session closes.
    pub post_run_action: PostRunAction,
}

impl EngineView {
    /// Number of registered plugins.
    pub open spec fn n_plugins(self) -> nat {
        self.batches.len()
    }

    /// The visible row list this state composes to.
    pub open spec fn rows(self) -> Seq<MatchRow> {
        composed(self.batches, self.max_entries)
    }

    /// Well-formedness: one generation per plugin, an exclusivity holder
    /// that exists, and a selection that is a valid index and absent exactly
    /// when the row list is empty.
    pub open spec fn wf(self) -> bool {
        &&& self.generations.len() == self.batches.len()
        &&& match self.exclusive {
            Some(p) => (p as int) < self.batches.len(),
            None => true,
        }
        &&& selection_ok(self.selected, self.rows().len())
    }
}

/// A selection is valid when it indexes the row list, and only an empty row
/// list carries no selection.
pub open spec fn selection_ok(selected: Option<usize>, n_rows: nat) -> bool {
    match selected {
        Some(i) => (i as nat) < n_rows,
        None => n_rows == 0,
    }
}

/// The default selection after a row-set change: the first row, when any.
pub open spec fn default_selection(n_rows: nat) -> Option<usize> {
    if n_rows == 0 {
        None
    } else {
        Some(0usize)
    }
}

/// How a row-set change adjusts the selection: a still-valid selection is
/// kept; otherwise the default takes over, so a non-empty list is never left
/// without a selected row.
pub open spec fn adjust_selection(selected: Option<usize>, n_rows: nat) -> Option<usize> {
    match selected {
        Some(i) => if (i as nat) < n_rows {
            Some(i)
        } else {
            default_selection(n_rows)
        },
        None => default_selection(n_rows),
    }
}

/// The generation a fresh dispatch for a plugin carries: always distinct
/// from the one before it.
pub open spec fn bump(g: u64) -> u64 {
    if g == u64::MAX {
        0
    } else {
        (g + 1) as u64
    }
}

/// A user edit of the query text releases exclusivity — typing always
/// escapes a drilled-down plugin — and changes nothing else.
pub open spec fn step_query_changed(v: EngineView) -> EngineView {
    EngineView { exclusive: None, ..v }
}

/// A new dispatch: every plugin's generation moves on, so every request
/// still in flight goes stale; every batch and the row list are cleared
/// before any new result can arrive; the selection empties with the rows.
pub open spec fn step_refresh(v: EngineView) -> EngineView {
    EngineView {
        generations: Seq::new(v.generations.len(), |i: int| bump(v.generations[i])),
        batches: Seq::new(v.batches.len(), |i: int| Seq::<Match>::empty()),
        selected: None,
        ..v
    }
}

/// Which plugins a dispatch queries, already tagged with the generation
/// their polling tasks will carry: the exclusivity holder alone while the
/// arbiter is closed, else every plugin in registration order.
pub open spec fn refresh_targets(v: EngineView) -> Seq<(usize, u64)> {
    match v.exclusive {
        Some(p) => seq![(p, bump(v.generations[p as int]))],
        None => Seq::new(v.batches.len(), |i: int| (i as usize, bump(v.generations[i]))),
    }
}

/// A `Ready` batch from plugin `p` lands: its batch is replaced, the row
/// list recomposes, and the selection is adjusted.
pub open spec fn step_handle_matches(v: EngineView, p: int, matches: Seq<Match>) -> EngineView {
    let batches = v.batches.update(p, matches);
    EngineView {
        batches: batches,
        selected: adjust_selection(v.selected, composed(batches, v.max_entries).len()),
        ..v
    }
}

/// One invocation of the polling task for `(plugin, generation)`, given
/// what `poll_matches` returned. A stale task — its generation no longer
/// current — changes nothing and retires, whatever it carried. A current
/// task hands a `Ready` batch to the aggregator and retires, reschedules
/// itself on `Pending`, and retires without rows on `Cancelled`.
pub open spec fn step_async(v: EngineView, plugin: int, generation: u64, poll: PollResult) -> (
    EngineView,
    PollVerdict,
) {
    if generation != v.generations[plugin] {
        (v, PollVerdict::Stop)
    } else {
        match poll {
            PollResult::Ready(matches) => (
                step_handle_matches(v, plugin, matches@),
                PollVerdict::Stop,
            ),
            PollResult::Pending => (v, PollVerdict::Continue),
            PollResult::Cancelled => (v, PollVerdict::Stop),
        }
    }
}

/// How the result of a plugin's `handle_selection` changes the session.
/// `Refresh` moves the arbiter — claimed by the handling plugin or released
/// for everyone — and asks the host to re-dispatch; `Copy` stores the
/// payload that must outlive the session; `Close` and `Stdout` only tell
/// the host how to end.
pub open spec fn step_selection(v: EngineView, plugin: int, result: HandleResult) -> (
    EngineView,
    EngineAction,
) {
    match result {
        HandleResult::Close => (v, EngineAction::Close),
        HandleResult::Refresh(exclusive) => (
            EngineView {
                exclusive: if exclusive {
                    Some(plugin as usize)
                } else {
                    None
                },
                ..v
            },
            EngineAction::Refresh,
        ),
        HandleResult::Copy(bytes) => (
            EngineView { post_run_action: PostRunAction::Copy(bytes), ..v },
            EngineAction::CopyAndClose,
        ),
        HandleResult::Stdout(bytes) => (v, EngineAction::StdoutAndClose(bytes)),
    }
}

/// The state a fresh session starts in: generation zero everywhere, the
/// arbiter open, nothing aggregated, nothing selected, nothing pending.
pub open spec fn initial_view(n_plugins: nat, max_entries: Option<usize>) -> EngineView {
    EngineView {
        generations: Seq::new(n_plugins, |i: int| 0u64),
        exclusive: None,
        batches: Seq::new(n_plugins, |i: int| Seq::<Match>::empty()),
        max_entries: max_entries,
        selected: None,
        post_run_action: PostRunAction::Nothing,
    }
}

/// The whole mutable state of one launcher session.
pub struct Engine {
    /// Per plugin, the generation of its newest dispatch.
    generations: Vec<u64>,
    /// Arbiter state: `Some(p)` while plugin `p` holds exclusivity.
    exclusive: Option<usize>,
    /// Per plugin, its most recent `Ready` batch this query.
    batches: Vec<Vec<Match>>,
    /// The optional cap on the aggregate row count.
    max_entries: Option<usize>,
    /// The composed row list, kept equal to what the batches compose to.
    rows: Vec<MatchRow>,
    /// The row the renderer should treat as selected.
    selected: Option<usize>,
    /// What the host must keep doing after the session closes.
    post_run_action: PostRunAction,
}

/// The batches a vector of exec batches stands for.
pub open spec fn vec_batches_view(batches: Seq<Vec<Match>>) -> Seq<Seq<Match>> {
    Seq::new(batches.len(), |i: int| batches[i]@)
}

impl View for Engine {
    type V = EngineView;

    closed spec fn view(&self) -> EngineView {
        EngineView {
            generations: self.generations@,
            exclusive: self.exclusive,
            batches: vec_batches_view(self.batches@),
            max_entries: self.max_entries,
            selected: self.selected,
            post_run_action: self.post_run_action,
        }
    }
}

impl Engine {
    /// A well-formed engine is one whose view is well-formed and whose
    /// stored row list is exactly what its batches compose to.
    pub closed spec fn wf(self) -> bool {
        &&& self@.wf()
        &&& self.rows@ == self@.rows()
    }

    /// Starts a session over `n_plugins` registered plugins with an
    /// optional cap on the aggregate result count.
    pub fn new(n_plugins: usize, max_entries: Option<usize>) -> (e: Engine)
        ensures
            e.wf(),
            e@ == initial_view(n_plugins as nat, max_entries),
    {
        let mut generations: Vec<u64> = Vec::new();
        let mut batches: Vec<Vec<Match>> = Vec::new();
        let mut i: usize = 0;
        while i < n_plugins
            invariant
                i <= n_plugins,
                generations@ =~= Seq::new(i as nat, |k: int| 0u64),
                batches@.len() == i,
                forall|k: int| 0 <= k < i ==> batches@[k]@ =~= Seq::<Match>::empty(),
            decreases n_plugins - i,
        {
            generations.push(0);
            batches.push(Vec::new());
            i = i + 1;
        }
        let e = Engine {
            generations,
            exclusive: None,
            batches,
            max_entries,
            rows: Vec::new(),
            selected: None,
            post_run_action: PostRunAction::Nothing,
        };
        proof {
            assert(e@.batches =~= initial_view(n_plugins as nat, max_entries).batches);
            assert(e@ =~= initial_view(n_plugins as nat, max_entries));
            lemma_all_rows_empty(e@.batches);
        }
        e
    }

    /// Number of registered plugins.
    pub fn n_plugins(&self) -> (n: usize)
        requires
            self.wf(),
        ensures
            n as nat == self@.n_plugins(),
    {
        self.batches.len()
    }

    /// The arbiter's current holder, if any.
    pub fn exclusive(&self) -> (r: Option<usize>)
        ensures
            r == self@.exclusive,
    {
        self.exclusive
    }

    /// The pending post-run action. The host reads it once its main loop
    /// has ended.
    pub fn post_run_action(&self) -> (r: &PostRunAction)
        ensures
            *r == self@.post_run_action,
    {
        &self.post_run_action
    }

    /// How many rows are visible.
    pub fn row_count(&self) -> (n: usize)
        requires
            self.wf(),
        ensures
            n as nat == self@.rows().len(),
    {
        self.rows.len()
    }

    /// Read access by sequential index across the full aggregated list,
    /// for the renderer and keyboard navigation.
    pub fn get_row(&self, index: usize) -> (r: &MatchRow)
        requires
            self.wf(),
            (index as nat) < self@.rows().len(),
        ensures
            *r == self@.rows()[index as int],
    {
        &self.rows[index]
    }

    /// The row the renderer should show as selected.
    pub fn selected_row(&self) -> (r: Option<usize>)
        ensures
            r == self@.selected,
    {
        self.selected
    }

    /// The renderer reports the user moved the selection.
    pub fn select_row(&mut self, index: usize)
        requires
            old(self).wf(),
            (index as nat) < old(self)@.rows().len(),
        ensures
            final(self).wf(),
            final(self)@ == (EngineView { selected: Some(index), ..old(self)@ }),
    {
        self.selected = Some(index);
    }

    /// The user edited the query text: the arbiter opens again, whatever
    /// held it. Call before the re-dispatch that the edit triggers.
    pub fn on_query_changed(&mut self)
        ensures
            old(self).wf() ==> final(self).wf(),
            final(self)@ == step_query_changed(old(self)@),
    {
        self.exclusive = None;
    }

    /// Starts a new round of match requests for the current query text.
    ///
    /// All previous rows and batches are cleared before any new result can
    /// be appended, and every plugin's generation moves on, so that every
    /// poll task still in flight goes stale. Returns the dispatch list: for
    /// each plugin to query — all of them, or only the exclusivity holder —
    /// its index and the generation its new polling task must carry into
    /// `async_match`.
    pub fn refresh_matches(&mut self) -> (targets: Vec<(usize, u64)>)
        requires
            old(self).wf(),
        ensures
            final(self).wf(),
            final(self)@ == step_refresh(old(self)@),
            targets@ == refresh_targets(old(self)@),
    {
        let ghost v0 = self@;
        let mut i: usize = 0;
        while i < self.generations.len()
            invariant
                self.generations@.len() == v0.generations.len(),
                i <= self.generations@.len(),
                forall|k: int| 0 <= k < i ==> self.generations@[k] == bump(v0.generations[k]),
                forall|k: int|
                    i <= k < self.generations@.len() ==> self.generations@[k]
                        == v0.generations[k],
                self.exclusive == v0.exclusive,
                self.batches == old(self).batches,
                self.max_entries == v0.max_entries,
                self.rows == old(self).rows,
                self.selected == v0.selected,
                self.post_run_action == v0.post_run_action,
            decreases self.generations@.len() - i,
        {
            let g = self.generations[i];
            let g2: u64 = if g == u64::MAX {
                0
            } else {
                g + 1
            };
            self.generations.set(i, g2);
            i = i + 1;
        }
        let mut j: usize = 0;
        while j < self.batches.len()
            invariant
                self.batches@.len() == v0.batches.len(),
                j <= self.batches@.len(),
                forall|k: int| 0 <= k < j ==> self.batches@[k]@ =~= Seq::<Match>::empty(),
                self.generations@ =~= Seq::new(v0.generations.len(), |k: int| bump(v0.generations[k])),
                self.exclusive == v0.exclusive,
                self.max_entries == v0.max_entries,
                self.rows == old(self).rows,
                self.selected == v0.selected,
                self.post_run_action == v0.post_run_action,
            decreases self.batches@.len() - j,
        {
            self.batches.set(j, Vec::new());
            j = j + 1;
        }
        self.rows = Vec::new();
        self.selected = None;
        proof {
            assert(self@.batches =~= step_refresh(v0).batches);
            assert(self@ =~= step_refresh(v0));
            lemma_all_rows_empty(self@.batches);
        }
        let targets = self.dispatch_targets();
        proof {
            assert(refresh_targets(v0) =~= targets@);
        }
        targets
    }

    /// The dispatch list for the current state: each target plugin paired
    /// with its current generation.
    fn dispatch_targets(&self) -> (targets: Vec<(usize, u64)>)
        requires
            self@.wf(),
        ensures
            targets@.len() == match self@.exclusive {
                Some(p) => 1int,
                None => self@.n_plugins() as int,
            },
            forall|k: int|
                0 <= k < targets@.len() ==> targets@[k] == match self@.exclusive {
                    Some(p) => (p, self@.generations[p as int]),
                    None => (k as usize, self@.generations[k]),
                },
    {
        match self.exclusive {
            Some(p) => {
                let mut targets: Vec<(usize, u64)> = Vec::new();
                targets.push((p, self.generations[p]));
                targets
            },
            None => {
                let mut targets: Vec<(usize, u64)> = Vec::new();
                let mut i: usize = 0;
                while i < self.generations.len()
                    invariant
                        self@.wf(),
                        self.exclusive is None,
                        i <= self.generations@.len(),
                        targets@.len() == i,
                        forall|k: int|
                            0 <= k < i ==> targets@[k] == (k as usize, self.generations@[k]),
                    decreases self.generations@.len() - i,
                {
                    targets.push((i, self.generations[i]));
                    i = i + 1;
                }
                targets
            },
        }
    }

    /// A `Ready` batch from `plugin` reaches the aggregator: the batch is
    /// recorded, the first match of the batch heads the plugin's group, the
    /// row list recomposes in plugin order under the cap, and the selection
    /// is adjusted so a non-empty list always has one.
    pub fn handle_matches(&mut self, plugin: usize, matches: Vec<Match>)
        requires
            old(self).wf(),
            (plugin as nat) < old(self)@.n_plugins(),
        ensures
            final(self).wf(),
            final(self)@ == step_handle_matches(old(self)@, plugin as int, matches@),
    {
        let ghost v0 = self@;
        self.batches.set(plugin, matches);
        proof {
            assert(self@.batches =~= v0.batches.update(plugin as int, matches@));
        }
        self.rebuild_rows();
        self.fix_selection();
        proof {
            assert(self@ =~= step_handle_matches(v0, plugin as int, matches@));
        }
    }

    /// Recomposes the stored row list from the batches: all rows in plugin
    /// order, cut to the cap.
    fn rebuild_rows(&mut self)
        ensures
            final(self).generations == old(self).generations,
            final(self).exclusive == old(self).exclusive,
            final(self).batches == old(self).batches,
            final(self).max_entries == old(self).max_entries,
            final(self).selected == old(self).selected,
            final(self).post_run_action == old(self).post_run_action,
            final(self).rows@ == final(self)@.rows(),
    {
        let ghost bv = vec_batches_view(self.batches@);
        let mut rows: Vec<MatchRow> = Vec::new();
        let mut p: usize = 0;
        while p < self.batches.len()
            invariant
                self == old(self),
                bv == vec_batches_view(self.batches@),
                p <= self.batches@.len(),
                rows@ == rows_up_to(bv, p as int),
            decreases self.batches@.len() - p,
        {
            let mut j: usize = 0;
            while j < self.batches[p].len()
                invariant
                    self == old(self),
                    bv == vec_batches_view(self.batches@),
                    p < self.batches@.len(),
                    j <= self.batches@[p as int]@.len(),
                    rows@ == rows_up_to(bv, p as int) + batch_rows(
                        bv[p as int].take(j as int),
                        p as int,
                    ),
                decreases self.batches@[p as int]@.len() - j,
            {
                let m = self.batches[p][j].clone();
                let row = MatchRow {
                    title: m.title,
                    description: m.description,
                    use_pango: m.use_pango,
                    icon: m.icon,
                    id: m.id,
                    plugin_id: p as u64,
                    first: j == 0,
                };
                rows.push(row);
                proof {
                    assert(batch_rows(bv[p as int].take(j + 1), p as int) =~= batch_rows(
                        bv[p as int].take(j as int),
                        p as int,
                    ).push(row_of(bv[p as int][j as int], p as int, j == 0)));
                }
                j = j + 1;
            }
            proof {
                assert(bv[p as int].take(self.batches@[p as int]@.len() as int) =~= bv[p as int]);
            }
            p = p + 1;
        }
        if let Some(cap) = self.max_entries {
            if rows.len() > cap {
                rows.truncate(cap);
            }
        }
        self.rows = rows;
    }

    /// Re-establishes the default-selection rule after a row-set change.
    fn fix_selection(&mut self)
        ensures
            final(self).generations == old(self).generations,
            final(self).exclusive == old(self).exclusive,
            final(self).batches == old(self).batches,
            final(self).max_entries == old(self).max_entries,
            final(self).rows == old(self).rows,
            final(self).post_run_action == old(self).post_run_action,
            final(self).selected == adjust_selection(old(self).selected, old(self).rows@.len()),
    {
        let n = self.rows.len();
        let keep = match self.selected {
            Some(i) => i < n,
            None => false,
        };
        if !keep {
            self.selected = if n > 0 {
                Some(0)
            } else {
                None
            };
        }
    }

    /// One invocation of the polling task for `(plugin, generation)`: the
    /// host polled the plugin and hands in the result; the verdict says
    /// whether to reschedule the task. A stale task changes nothing — a
    /// late `Ready` from a superseded request can never touch the rows.
    pub fn async_match(&mut self, plugin: usize, generation: u64, poll: PollResult) -> (verdict:
        PollVerdict)
        requires
            old(self).wf(),
            (plugin as nat) < old(self)@.n_plugins(),
        ensures
            final(self).wf(),
            final(self)@ == step_async(old(self)@, plugin as int, generation, poll).0,
            verdict == step_async(old(self)@, plugin as int, generation, poll).1,
    {
        if self.generations[plugin] != generation {
            return PollVerdict::Stop;
        }
        match poll {
            PollResult::Ready(matches) => {
                self.handle_matches(plugin, matches);
                PollVerdict::Stop
            },
            PollResult::Pending => PollVerdict::Continue,
            PollResult::Cancelled => PollVerdict::Stop,
        }
    }

    /// Resolves a row index the user activated to the match to hand to the
    /// owning plugin's `handle_selection`, and that plugin's index. Fails
    /// exactly when the index is stale — the result set changed since the
    /// index was captured.
    pub fn activate(&self, row_index: usize) -> (r: Result<(Match, usize), SelectionError>)
        requires
            self.wf(),
        ensures
            match r {
                Ok(pair) => (row_index as nat) < self@.rows().len() && pair.0
                    == self@.rows()[row_index as int].spec_to_match() && pair.1 as u64
                    == self@.rows()[row_index as int].plugin_id && (pair.1 as nat)
                    < self@.n_plugins(),
                Err(e) => e == SelectionError::OutOfRange && (row_index as nat)
                    >= self@.rows().len(),
            },
    {
        if row_index >= self.rows.len() {
            return Err(SelectionError::OutOfRange);
        }
        let n = self.batches.len();
        proof {
            assert(n as int <= u64::MAX as int);
            lemma_rows_shape(self@.batches, n as int);
        }
        let row = &self.rows[row_index];
        proof {
            assert((row.plugin_id as int) < n as int);
        }
        let owner = row.plugin_id as usize;
        Ok((row.to_match(), owner))
    }

    /// Interprets what the owning plugin's `handle_selection` returned for
    /// an activated match and updates the arbiter and the post-run action;
    /// the returned action tells the host how to go on. `Refresh(false)`
    /// releases exclusivity whoever held it; `Refresh(true)` hands it to
    /// the handling plugin.
    pub fn handle_selection_activation(&mut self, plugin: usize, result: HandleResult) -> (act:
        EngineAction)
        requires
            old(self).wf(),
            (plugin as nat) < old(self)@.n_plugins(),
        ensures
            final(self).wf(),
            final(self)@ == step_selection(old(self)@, plugin as int, result).0,
            act == step_selection(old(self)@, plugin as int, result).1,
    {
        match result {
            HandleResult::Close => EngineAction::Close,
            HandleResult::Refresh(exclusive) => {
                self.exclusive = if exclusive {
                    Some(plugin)
                } else {
                    None
                };
                EngineAction::Refresh
            },
            HandleResult::Copy(bytes) => {
                self.post_run_action = PostRunAction::Copy(bytes);
                EngineAction::CopyAndClose
            },
            HandleResult::Stdout(bytes) => EngineAction::StdoutAndClose(bytes),
        }
    }
}

} // verus!
