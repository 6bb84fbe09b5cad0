use anyrun::config::Edge;
use anyrun::config::Layer;
use anyrun::loader::LoadError;
use anyrun::loader::PluginSource;
use anyrun::loader::resolve_plugin_path;
use anyrun::types::Match;
use anyrun::types::MatchRow;

fn sample_match() -> Match {
    Match {
        title: "Files".to_string(),
        description: Some("Open the file manager".to_string()),
        use_pango: true,
        icon: Some("system-file-manager".to_string()),
        id: Some(42),
    }
}

#[test]
fn match_row_accessors() {
    let mut row = MatchRow::new();
    assert_eq!(row.get_title(), "");
    assert_eq!(row.get_description(), None);
    assert!(!row.get_use_pango());
    assert_eq!(row.get_icon(), None);
    assert_eq!(row.get_id(), None);
    assert_eq!(row.get_plugin_id(), 0);
    assert!(!row.get_first());

    row.set_title("Calculator".to_string());
    row.set_description(Some("6 * 7 = 42".to_string()));
    row.set_use_pango(true);
    row.set_icon(Some("accessories-calculator".to_string()));
    row.set_id(Some(7));
    row.set_plugin_id(3);
    row.set_first(true);

    assert_eq!(row.get_title(), "Calculator");
    assert_eq!(row.get_description(), Some("6 * 7 = 42".to_string()));
    assert!(row.get_use_pango());
    assert_eq!(row.get_icon(), Some("accessories-calculator".to_string()));
    assert_eq!(row.get_id(), Some(7));
    assert_eq!(row.get_plugin_id(), 3);
    assert!(row.get_first());

    row.set_id(None);
    assert_eq!(row.get_id(), None);
}

#[test]
fn match_row_default_is_new() {
    let a = MatchRow::new();
    let b = MatchRow::default();
    assert_eq!(a, b);
}

#[test]
fn match_into_row_and_back() {
    let m = sample_match();
    let row = MatchRow::from(m);
    assert_eq!(row.get_title(), "Files");
    assert_eq!(row.get_description(), Some("Open the file manager".to_string()));
    assert!(row.get_use_pango());
    assert_eq!(row.get_icon(), Some("system-file-manager".to_string()));
    assert_eq!(row.get_id(), Some(42));
    assert_eq!(row.get_plugin_id(), 0);
    assert!(row.get_first());

    let back = Match::from(row);
    assert_eq!(back, sample_match());
}

#[test]
fn match_clone_is_equal() {
    let m = sample_match();
    let copy = m.clone();
    assert_eq!(copy, m);
}

#[test]
fn row_to_match_strips_tags() {
    let mut row = MatchRow::from(sample_match());
    row.set_plugin_id(5);
    row.set_first(false);
    assert_eq!(row.to_match(), sample_match());
}

#[test]
fn layer_default_is_top() {
    assert!(matches!(Layer::default(), Layer::Top));
    assert_eq!(Edge::Top, Edge::Top);
    assert_ne!(Edge::Left, Edge::Right);
}

#[test]
fn resolve_absolute_path_is_direct() {
    let r = resolve_plugin_path(true, &vec![false, false]);
    assert_eq!(r, Ok(PluginSource::Direct));
}

#[test]
fn resolve_picks_first_existing_candidate() {
    let r = resolve_plugin_path(false, &vec![false, true, true]);
    assert_eq!(r, Ok(PluginSource::Candidate(1)));
    let r = resolve_plugin_path(false, &vec![true]);
    assert_eq!(r, Ok(PluginSource::Candidate(0)));
}

#[test]
fn resolve_without_candidate_is_not_found() {
    assert_eq!(resolve_plugin_path(false, &vec![false, false]), Err(LoadError::NotFound));
    assert_eq!(resolve_plugin_path(false, &vec![]), Err(LoadError::NotFound));
}
