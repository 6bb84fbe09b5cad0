//! Result aggregation.
//!
//! Each plugin that finishes a query hands the engine one batch of matches.
//! The aggregate row list is the concatenation of those batches in plugin
//! registration order — never in arrival order — with the first row of every
//! non-empty batch flagged as the head of its group, truncated to the
//! configured result cap. The spec functions here define that composition;
//! the lemmas state its shape.

use vstd::prelude::*;

use crate::types::Match;
use crate::types::MatchRow;

verus! {

/// The row that match `m`, sitting at the head (`first`) or body of plugin
/// `plugin`'s batch, contributes to the aggregate list.
pub open spec fn row_of(m: Match, plugin: int, first: bool) -> MatchRow {
    MatchRow {
        title: m.title,
        description: m.description,
        use_pango: m.use_pango,
        icon: m.icon,
        id: m.id,
        plugin_id: plugin as u64,
        first: first,
    }
}

/// The rows of one plugin's batch, in the order the plugin returned them,
/// with exactly the leading row flagged.
pub open spec fn batch_rows(batch: Seq<Match>, plugin: int) -> Seq<MatchRow> {
    Seq::new(batch.len(), |j: int| row_of(batch[j], plugin, j == 0))
}

/// The rows contributed by the first `n` plugins, grouped in plugin order.
pub open spec fn rows_up_to(batches: Seq<Seq<Match>>, n: int) -> Seq<MatchRow>
    decreases n,
{
    if n <= 0 {
        Seq::empty()
    } else {
        rows_up_to(batches, n - 1) + batch_rows(batches[n - 1], n - 1)
    }
}

/// Every row of every batch, grouped contiguously by plugin in plugin order.
pub open spec fn all_rows(batches: Seq<Seq<Match>>) -> Seq<MatchRow> {
    rows_up_to(batches, batches.len() as int)
}

/// How many matches the first `n` plugins produced together.
pub open spec fn total_up_to(batches: Seq<Seq<Match>>, n: int) -> int
    decreases n,
{
    if n <= 0 {
        0
    } else {
        total_up_to(batches, n - 1) + batches[n - 1].len()
    }
}

/// How many matches all plugins produced together.
pub open spec fn total_len(batches: Seq<Seq<Match>>) -> int {
    total_up_to(batches, batches.len() as int)
}

/// The visible row list: all rows, cut to the result cap when one is set.
/// The cap counts across the whole aggregate list, not per plugin.
pub open spec fn composed(batches: Seq<Seq<Match>>, cap: Option<usize>) -> Seq<MatchRow> {
    match cap {
        Some(n) => if all_rows(batches).len() <= n {
            all_rows(batches)
        } else {
            all_rows(batches).take(n as int)
        },
        None => all_rows(batches),
    }
}

/// The first `n` plugins produce exactly as many rows as matches.
pub proof fn lemma_rows_up_to_len(batches: Seq<Seq<Match>>, n: int)
    ensures
        rows_up_to(batches, n).len() == if n <= 0 {
            0int
        } else {
            total_up_to(batches, n)
        },
    decreases n,
{
    if n > 0 {
        lemma_rows_up_to_len(batches, n - 1);
    }
}

/// Row totals only grow as more plugins are counted.
pub proof fn lemma_total_up_to_monotone(batches: Seq<Seq<Match>>, m: int, n: int)
    requires
        m <= n,
    ensures
        total_up_to(batches, m) <= total_up_to(batches, n),
    decreases n - m,
{
    if m < n {
        lemma_total_up_to_monotone(batches, m, n - 1);
    }
}

/// Shape of the aggregate list built from the first `n` plugins: every row
/// is tagged with the plugin that produced it, that plugin's batch is
/// non-empty, tags never decrease along the list, and a row carries the
/// group flag exactly when it opens a new group.
pub proof fn lemma_rows_shape(batches: Seq<Seq<Match>>, n: int)
    requires
        0 <= n <= u64::MAX,
    ensures
        forall|k: int|
            0 <= k < rows_up_to(batches, n).len() ==> (rows_up_to(batches, n)[k].plugin_id as int)
                < n,
        forall|k: int|
            0 <= k < rows_up_to(batches, n).len() ==> batches[rows_up_to(
                batches,
                n,
            )[k].plugin_id as int].len() > 0,
        forall|k: int, l: int|
            0 <= k < l < rows_up_to(batches, n).len() ==> rows_up_to(batches, n)[k].plugin_id
                <= rows_up_to(batches, n)[l].plugin_id,
        forall|k: int|
            0 <= k < rows_up_to(batches, n).len() ==> (rows_up_to(batches, n)[k].first <==> (k == 0
                || rows_up_to(batches, n)[k - 1].plugin_id != rows_up_to(batches, n)[k].plugin_id)),
    decreases n,
{
    if n > 0 {
        lemma_rows_shape(batches, n - 1);
        let prev = rows_up_to(batches, n - 1);
        let seg = batch_rows(batches[n - 1], n - 1);
        let s = rows_up_to(batches, n);
        assert(s == prev + seg);
        assert forall|k: int| 0 <= k < s.len() implies (s[k].plugin_id as int) < n && batches[s[k].plugin_id as int].len() > 0 by {
            if k < prev.len() {
                assert(s[k] == prev[k]);
            } else {
                assert(s[k] == seg[k - prev.len()]);
                assert(s[k].plugin_id == (n - 1) as u64);
            }
        }
        assert forall|k: int, l: int| 0 <= k < l < s.len() implies s[k].plugin_id
            <= s[l].plugin_id by {
            if k < prev.len() && l >= prev.len() {
                assert(s[k] == prev[k]);
                assert(s[l] == seg[l - prev.len()]);
                assert((s[k].plugin_id as int) < n - 1);
                assert(s[l].plugin_id == (n - 1) as u64);
            } else if l < prev.len() {
                assert(s[k] == prev[k] && s[l] == prev[l]);
            } else {
                assert(s[k] == seg[k - prev.len()] && s[l] == seg[l - prev.len()]);
            }
        }
        assert forall|k: int| 0 <= k < s.len() implies (s[k].first <==> (k == 0 || s[k - 1].plugin_id
            != s[k].plugin_id)) by {
            if k < prev.len() {
                assert(s[k] == prev[k]);
                if k > 0 {
                    assert(s[k - 1] == prev[k - 1]);
                }
            } else if k == prev.len() {
                assert(s[k] == seg[0]);
                assert(s[k].first);
                if k > 0 {
                    assert(s[k - 1] == prev[k - 1]);
                    assert((s[k - 1].plugin_id as int) < n - 1);
                    assert(s[k].plugin_id == (n - 1) as u64);
                }
            } else {
                assert(s[k] == seg[k - prev.len()]);
                assert(s[k - 1] == seg[k - 1 - prev.len()]);
                assert(!s[k].first);
                assert(s[k - 1].plugin_id == (n - 1) as u64);
                assert(s[k].plugin_id == (n - 1) as u64);
            }
        }
    }
}

/// If the first `n` plugins all produced empty batches, they count no rows.
pub proof fn lemma_total_up_to_empty(batches: Seq<Seq<Match>>, n: int)
    requires
        forall|i: int| 0 <= i < n ==> batches[i].len() == 0,
    ensures
        total_up_to(batches, n) == 0,
    decreases n,
{
    if n > 0 {
        lemma_total_up_to_empty(batches, n - 1);
    }
}

/// A round of all-empty batches composes to no rows at all.
pub proof fn lemma_all_rows_empty(batches: Seq<Seq<Match>>)
    requires
        forall|i: int| 0 <= i < batches.len() ==> batches[i].len() == 0,
    ensures
        all_rows(batches) == Seq::<MatchRow>::empty(),
{
    lemma_total_up_to_empty(batches, batches.len() as int);
    lemma_rows_up_to_len(batches, batches.len() as int);
    assert(all_rows(batches) =~= Seq::<MatchRow>::empty());
}

/// Law: for any per-plugin batches and any cap, the visible row list groups
/// rows contiguously by plugin in plugin-registration order, and exactly one
/// row per non-empty group — its first — carries the group flag.
pub proof fn lemma_aggregation_grouping(batches: Seq<Seq<Match>>, cap: Option<usize>)
    requires
        batches.len() <= u64::MAX,
    ensures
        forall|k: int, l: int|
            0 <= k < l < composed(batches, cap).len() ==> composed(batches, cap)[k].plugin_id
                <= composed(batches, cap)[l].plugin_id,
        forall|k: int|
            0 <= k < composed(batches, cap).len() ==> (composed(batches, cap)[k].plugin_id as int)
                < batches.len() && batches[composed(batches, cap)[k].plugin_id as int].len() > 0,
        forall|k: int|
            0 <= k < composed(batches, cap).len() ==> (composed(batches, cap)[k].first <==> (k == 0
                || composed(batches, cap)[k - 1].plugin_id != composed(batches, cap)[k].plugin_id)),
        forall|k: int|
            0 <= k < composed(batches, cap).len() ==> (composed(batches, cap)[k].first
                <==> (forall|j: int|
                0 <= j < k ==> composed(batches, cap)[j].plugin_id != composed(
                    batches,
                    cap,
                )[k].plugin_id)),
{
    lemma_rows_shape(batches, batches.len() as int);
    let s = composed(batches, cap);
    let full = all_rows(batches);
    assert(forall|k: int| 0 <= k < s.len() ==> s[k] == full[k]);
    assert forall|k: int| 0 <= k < s.len() implies (s[k].first <==> (forall|j: int|
        0 <= j < k ==> s[j].plugin_id != s[k].plugin_id)) by {
        if s[k].first {
            // A flagged row opens its group: any earlier row with the same
            // tag would, by monotonicity, force the immediate predecessor to
            // share the tag, contradicting the boundary characterisation.
            assert forall|j: int| 0 <= j < k implies s[j].plugin_id != s[k].plugin_id by {
                if s[j].plugin_id == s[k].plugin_id {
                    assert(s[j].plugin_id <= s[k - 1].plugin_id);
                    assert(s[k - 1].plugin_id <= s[k].plugin_id);
                }
            }
        } else {
            assert(k > 0 && s[k - 1].plugin_id == s[k].plugin_id);
        }
    }
}

/// Law: with `max_results = n` and `m` produced matches in all, exactly
/// `min(n, m)` rows remain, and they are the aggregate list's first rows in
/// aggregate order — so a plugin whose rows are all cut contributes nothing,
/// its group head included.
pub proof fn lemma_cap_enforcement(batches: Seq<Seq<Match>>, n: usize)
    ensures
        all_rows(batches).len() == total_len(batches),
        total_len(batches) > n ==> composed(batches, Some(n)).len() == n,
        total_len(batches) <= n ==> composed(batches, Some(n)) == all_rows(batches),
        forall|k: int|
            0 <= k < composed(batches, Some(n)).len() ==> composed(batches, Some(n))[k]
                == all_rows(batches)[k],
{
    lemma_rows_up_to_len(batches, batches.len() as int);
}

/// Where one match lands in the aggregate list: plugin `p`'s match at batch
/// position `j` becomes the row at the global index that counts all matches
/// of the plugins before `p`, plus `j`.
pub proof fn lemma_rows_index(batches: Seq<Seq<Match>>, n: int, p: int, j: int)
    requires
        0 <= p < n,
        0 <= j < batches[p].len(),
    ensures
        0 <= total_up_to(batches, p) + j < rows_up_to(batches, n).len(),
        rows_up_to(batches, n)[total_up_to(batches, p) + j] == row_of(batches[p][j], p, j == 0),
    decreases n,
{
    lemma_total_up_to_monotone(batches, 0, p);
    lemma_rows_up_to_len(batches, n);
    lemma_rows_up_to_len(batches, n - 1);
    let prev = rows_up_to(batches, n - 1);
    let seg = batch_rows(batches[n - 1], n - 1);
    if p == n - 1 {
        assert(rows_up_to(batches, n)[total_up_to(batches, p) + j] == seg[j]);
    } else {
        lemma_rows_index(batches, n - 1, p, j);
        lemma_total_up_to_monotone(batches, p + 1, n - 1);
        assert(total_up_to(batches, p) + j < total_up_to(batches, p + 1));
        assert(rows_up_to(batches, n)[total_up_to(batches, p) + j] == prev[total_up_to(batches, p)
            + j]);
    }
}

} // verus!
