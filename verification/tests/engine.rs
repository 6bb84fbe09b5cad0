use anyrun::engine::Engine;
use anyrun::types::EngineAction;
use anyrun::types::HandleResult;
use anyrun::types::Match;
use anyrun::types::PollResult;
use anyrun::types::PollVerdict;
use anyrun::types::SelectionError;
use anyrun::config::PostRunAction;

fn m(title: &str) -> Match {
    Match {
        title: title.to_string(),
        description: None,
        use_pango: false,
        icon: None,
        id: None,
    }
}

fn ready(engine: &mut Engine, plugin: usize, generation: u64, titles: &[&str]) -> PollVerdict {
    let batch: Vec<Match> = titles.iter().map(|t| m(t)).collect();
    engine.async_match(plugin, generation, PollResult::Ready(batch))
}

/// Two plugins, A producing ["alpha", "apple"] and B producing ["beta"],
/// dispatched for one query: the aggregate is alpha/apple under A's group
/// head, then beta under B's, and row 0 is selected by default.
#[test]
fn end_to_end_two_plugins() {
    let mut engine = Engine::new(2, None);
    let targets = engine.refresh_matches();
    assert_eq!(targets.len(), 2);
    let (pa, ga) = targets[0];
    let (pb, gb) = targets[1];
    assert_eq!((pa, pb), (0, 1));

    assert_eq!(ready(&mut engine, pa, ga, &["alpha", "apple"]), PollVerdict::Stop);
    assert_eq!(ready(&mut engine, pb, gb, &["beta"]), PollVerdict::Stop);

    assert_eq!(engine.row_count(), 3);
    let expected = [("alpha", 0u64, true), ("apple", 0, false), ("beta", 1, true)];
    for (i, (title, plugin, first)) in expected.iter().enumerate() {
        let row = engine.get_row(i);
        assert_eq!(row.title.as_str(), *title);
        assert_eq!(row.plugin_id, *plugin);
        assert_eq!(row.first, *first);
    }
    assert_eq!(engine.selected_row(), Some(0));
}

/// Batches land in arrival order B-then-A, but the rows stay grouped in
/// plugin-registration order with exactly one group head per group.
#[test]
fn grouping_ignores_arrival_order() {
    let mut engine = Engine::new(2, None);
    let targets = engine.refresh_matches();
    let (pb, gb) = targets[1];
    let (pa, ga) = targets[0];
    ready(&mut engine, pb, gb, &["beta"]);
    ready(&mut engine, pa, ga, &["alpha", "apple"]);

    let titles: Vec<String> = (0..engine.row_count())
        .map(|i| engine.get_row(i).title.clone())
        .collect();
    assert_eq!(titles, vec!["alpha", "apple", "beta"]);
    let firsts: Vec<bool> = (0..engine.row_count()).map(|i| engine.get_row(i).first).collect();
    assert_eq!(firsts, vec![true, false, true]);
    let plugins: Vec<u64> = (0..engine.row_count())
        .map(|i| engine.get_row(i).plugin_id)
        .collect();
    assert_eq!(plugins, vec![0, 0, 1]);
}

/// A new dispatch clears the previous query's rows before any new row can
/// arrive: right after the dispatch the list is empty, and after the new
/// batches it holds only the new query's rows.
#[test]
fn replace_clears_old_rows() {
    let mut engine = Engine::new(1, None);
    let t1 = engine.refresh_matches();
    ready(&mut engine, t1[0].0, t1[0].1, &["old-one", "old-two"]);
    assert_eq!(engine.row_count(), 2);

    let t2 = engine.refresh_matches();
    assert_eq!(engine.row_count(), 0);
    assert_eq!(engine.selected_row(), None);

    ready(&mut engine, t2[0].0, t2[0].1, &["new-one"]);
    assert_eq!(engine.row_count(), 1);
    assert_eq!(engine.get_row(0).title.as_str(), "new-one");
}

/// With max_results = 2 and three produced matches, exactly two rows stay,
/// in aggregate order, and the fully cut plugin loses its group head too.
#[test]
fn cap_cuts_across_plugins() {
    let mut engine = Engine::new(2, Some(2));
    let targets = engine.refresh_matches();
    ready(&mut engine, targets[0].0, targets[0].1, &["alpha", "apple"]);
    ready(&mut engine, targets[1].0, targets[1].1, &["beta"]);

    assert_eq!(engine.row_count(), 2);
    assert_eq!(engine.get_row(0).title.as_str(), "alpha");
    assert_eq!(engine.get_row(1).title.as_str(), "apple");
    for i in 0..engine.row_count() {
        assert_eq!(engine.get_row(i).plugin_id, 0);
    }
}

/// A cap equal to the produced count cuts nothing.
#[test]
fn cap_at_exact_count_keeps_all() {
    let mut engine = Engine::new(2, Some(3));
    let targets = engine.refresh_matches();
    ready(&mut engine, targets[0].0, targets[0].1, &["alpha", "apple"]);
    ready(&mut engine, targets[1].0, targets[1].1, &["beta"]);
    assert_eq!(engine.row_count(), 3);
    assert_eq!(engine.get_row(2).title.as_str(), "beta");
    assert!(engine.get_row(2).first);
}

/// Once a plugin holds exclusivity, a dispatch targets it alone and the
/// rows of every other plugin are gone; editing the query text reopens the
/// arbiter before the next dispatch.
#[test]
fn exclusivity_suppresses_other_plugins() {
    let mut engine = Engine::new(2, None);
    let targets = engine.refresh_matches();
    ready(&mut engine, targets[0].0, targets[0].1, &["alpha"]);
    ready(&mut engine, targets[1].0, targets[1].1, &["beta"]);
    assert_eq!(engine.row_count(), 2);

    let act = engine.handle_selection_activation(1, HandleResult::Refresh(true));
    assert_eq!(act, EngineAction::Refresh);
    assert_eq!(engine.exclusive(), Some(1));

    let targets = engine.refresh_matches();
    assert_eq!(targets.len(), 1);
    assert_eq!(targets[0].0, 1);
    ready(&mut engine, targets[0].0, targets[0].1, &["drill-down"]);
    assert_eq!(engine.row_count(), 1);
    assert_eq!(engine.get_row(0).plugin_id, 1);

    engine.on_query_changed();
    assert_eq!(engine.exclusive(), None);
    let targets = engine.refresh_matches();
    assert_eq!(targets.len(), 2);
}

/// A task of a superseded dispatch resolves late: its payload is dropped,
/// and only the newest dispatch's result reaches the rows.
#[test]
fn stale_generation_cannot_write() {
    let mut engine = Engine::new(1, None);
    let t1 = engine.refresh_matches();
    let (p, g1) = t1[0];
    let t2 = engine.refresh_matches();
    let (_, g2) = t2[0];
    assert_ne!(g1, g2);

    // The older task completes after the newer dispatch.
    assert_eq!(ready(&mut engine, p, g1, &["stale"]), PollVerdict::Stop);
    assert_eq!(engine.row_count(), 0);

    assert_eq!(ready(&mut engine, p, g2, &["fresh"]), PollVerdict::Stop);
    assert_eq!(engine.row_count(), 1);
    assert_eq!(engine.get_row(0).title.as_str(), "fresh");
}

/// Pending reschedules the task; Cancelled retires it with no rows.
#[test]
fn pending_continues_cancelled_stops() {
    let mut engine = Engine::new(1, None);
    let targets = engine.refresh_matches();
    let (p, g) = targets[0];
    assert_eq!(engine.async_match(p, g, PollResult::Pending), PollVerdict::Continue);
    assert_eq!(engine.async_match(p, g, PollResult::Cancelled), PollVerdict::Stop);
    assert_eq!(engine.row_count(), 0);
}

/// Activating a row resolves to the exact match and plugin that produced
/// it, and a handler returning Refresh(false) releases exclusivity even
/// when another plugin held it.
#[test]
fn selection_round_trip() {
    let mut engine = Engine::new(2, None);
    let targets = engine.refresh_matches();
    ready(&mut engine, targets[0].0, targets[0].1, &["alpha", "apple"]);
    ready(&mut engine, targets[1].0, targets[1].1, &["beta"]);

    let (selected, owner) = engine.activate(2).expect("index 2 is visible");
    assert_eq!(selected.title.as_str(), "beta");
    assert_eq!(owner, 1);

    engine.handle_selection_activation(0, HandleResult::Refresh(true));
    assert_eq!(engine.exclusive(), Some(0));
    let act = engine.handle_selection_activation(1, HandleResult::Refresh(false));
    assert_eq!(act, EngineAction::Refresh);
    assert_eq!(engine.exclusive(), None);
}

/// A stale row index is rejected, not resolved.
#[test]
fn activate_out_of_range() {
    let mut engine = Engine::new(1, None);
    let targets = engine.refresh_matches();
    ready(&mut engine, targets[0].0, targets[0].1, &["only"]);
    assert_eq!(engine.row_count(), 1);
    assert_eq!(engine.activate(1), Err(SelectionError::OutOfRange));
    assert_eq!(engine.activate(7), Err(SelectionError::OutOfRange));
    assert!(engine.activate(0).is_ok());
}

/// Close, Copy and Stdout map to the host actions the session ends with;
/// Copy parks its payload in the post-run action.
#[test]
fn selection_actions() {
    let mut engine = Engine::new(1, None);
    assert_eq!(
        engine.handle_selection_activation(0, HandleResult::Close),
        EngineAction::Close
    );
    assert_eq!(
        engine.handle_selection_activation(0, HandleResult::Stdout(b"out\n".to_vec())),
        EngineAction::StdoutAndClose(b"out\n".to_vec())
    );
    assert_eq!(*engine.post_run_action(), PostRunAction::Nothing);
    assert_eq!(
        engine.handle_selection_activation(0, HandleResult::Copy(b"payload".to_vec())),
        EngineAction::CopyAndClose
    );
    assert_eq!(
        *engine.post_run_action(),
        PostRunAction::Copy(b"payload".to_vec())
    );
    assert!(engine.post_run_action().is_copy());
}

/// A row-set change never leaves a non-empty list without a selection: a
/// kept valid selection stays, an invalidated one falls back to row 0.
#[test]
fn default_selection_rules() {
    let mut engine = Engine::new(2, None);
    let targets = engine.refresh_matches();
    assert_eq!(engine.selected_row(), None);
    ready(&mut engine, targets[0].0, targets[0].1, &["alpha", "apple"]);
    assert_eq!(engine.selected_row(), Some(0));

    engine.select_row(1);
    assert_eq!(engine.selected_row(), Some(1));
    // Another plugin's batch arrives: the selection is still valid and kept.
    ready(&mut engine, targets[1].0, targets[1].1, &["beta"]);
    assert_eq!(engine.selected_row(), Some(1));

    // A new dispatch empties the rows and the selection with them.
    let targets = engine.refresh_matches();
    assert_eq!(engine.selected_row(), None);
    ready(&mut engine, targets[0].0, targets[0].1, &["fresh"]);
    assert_eq!(engine.selected_row(), Some(0));
}

/// An empty batch produces no rows and no group head for its plugin.
#[test]
fn empty_batch_has_no_group() {
    let mut engine = Engine::new(2, None);
    let targets = engine.refresh_matches();
    ready(&mut engine, targets[0].0, targets[0].1, &[]);
    ready(&mut engine, targets[1].0, targets[1].1, &["beta"]);
    assert_eq!(engine.row_count(), 1);
    assert_eq!(engine.get_row(0).plugin_id, 1);
    assert!(engine.get_row(0).first);
}

/// A session with no plugins dispatches nothing and shows nothing.
#[test]
fn no_plugins_at_all() {
    let mut engine = Engine::new(0, None);
    let targets = engine.refresh_matches();
    assert!(targets.is_empty());
    assert_eq!(engine.row_count(), 0);
    assert_eq!(engine.selected_row(), None);
}
