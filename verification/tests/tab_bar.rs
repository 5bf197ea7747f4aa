use iced_tabs::tab::TabStatus;
use iced_tabs::{Position, Status, TabBar, TabLabel};

fn text(s: &str) -> TabLabel {
    TabLabel::Text(s.to_string())
}

fn label_text(label: &TabLabel) -> String {
    match label {
        TabLabel::Text(s) => s.clone(),
        TabLabel::IconText(_, s) => s.clone(),
        TabLabel::Icon(c) => c.to_string(),
    }
}

#[test]
fn new_tab_bar_is_empty() {
    let bar: TabBar<usize> = TabBar::new();
    assert_eq!(bar.size(), 0);
    assert_eq!(bar.get_active_tab_idx(), 0);
    assert_eq!(bar.get_active_tab_id(), None);
    assert_eq!(bar.position(), Position::Left);
    assert_eq!(bar.displayed_active_tab(), 0);
}

#[test]
fn push_appends_tabs_in_order() {
    let bar = TabBar::new().push(0usize, text("Home")).push(1, text("Settings"));
    assert_eq!(bar.size(), 2);
    assert_eq!(bar.tab_ids(), &vec![0, 1]);
    assert_eq!(label_text(&bar.tab_labels()[1]), "Settings");
    assert_eq!(bar.tab_tooltips(), &vec![None, None]);
    assert_eq!(bar.tab_statuses(), &vec![(None, None), (None, None)]);
}

#[test]
fn push_with_tooltip_records_the_tooltip() {
    let bar = TabBar::new()
        .push(0usize, text("Home"))
        .push_with_tooltip(2, text("Help"), "Open help".to_string());
    assert_eq!(bar.size(), 2);
    assert_eq!(bar.tab_tooltips(), &vec![None, Some("Open help".to_string())]);
}

#[test]
fn quick_start_scenario() {
    let active = 1usize;
    let bar = TabBar::new()
        .push(0usize, text("Home"))
        .push(1, text("Settings"))
        .push_with_tooltip(2, text("Help"), "Open help".to_string())
        .set_active_tab(&active);
    assert_eq!(bar.size(), 3);
    assert_eq!(bar.get_active_tab_idx(), 1);
    assert_eq!(bar.get_active_tab_id(), Some(&1));
}

#[test]
fn set_active_tab_picks_the_first_matching_id() {
    let bar = TabBar::new()
        .push(7usize, text("a"))
        .push(9, text("b"))
        .push(9, text("c"))
        .set_active_tab(&9);
    assert_eq!(bar.get_active_tab_idx(), 1);
    assert_eq!(bar.get_active_tab_id(), Some(&9));
}

#[test]
fn set_active_tab_with_unknown_id_keeps_the_active_tab() {
    let bar = TabBar::new()
        .push(7usize, text("a"))
        .push(9, text("b"))
        .set_active_tab(&9)
        .set_active_tab(&42);
    assert_eq!(bar.get_active_tab_idx(), 1);
}

#[test]
fn active_index_past_the_tabs_has_no_id() {
    let bar: TabBar<usize> = TabBar::new().set_active_tab(&3);
    assert_eq!(bar.get_active_tab_id(), None);
    let bar = bar.push(3, text("x"));
    assert_eq!(bar.get_active_tab_id(), Some(&3));
}

#[test]
fn with_tab_labels_splits_pairs() {
    let bar = TabBar::with_tab_labels(vec![(10usize, text("One")), (20, TabLabel::Icon('x')), (30, text("Three"))]);
    assert_eq!(bar.size(), 3);
    assert_eq!(bar.tab_ids(), &vec![10, 20, 30]);
    assert_eq!(label_text(&bar.tab_labels()[0]), "One");
    assert_eq!(label_text(&bar.tab_labels()[1]), "x");
    assert_eq!(bar.tab_tooltips(), &vec![None, None, None]);
    assert_eq!(bar.get_active_tab_idx(), 0);
    assert_eq!(bar.get_active_tab_id(), Some(&10));
}

#[test]
fn set_position_changes_only_the_position() {
    let bar = TabBar::new().push(1usize, text("a")).set_position(Position::Top);
    assert_eq!(bar.position(), Position::Top);
    assert_eq!(bar.size(), 1);
}

#[test]
fn displayed_active_tab_is_clamped_to_the_last_tab() {
    let bar = TabBar::with_tab_labels(vec![(0usize, text("a")), (1, text("b")), (5, text("c"))]).set_active_tab(&5);
    assert_eq!(bar.displayed_active_tab(), 2);
    let bar = TabBar::with_tab_labels(vec![(0usize, text("a"))]);
    assert_eq!(bar.displayed_active_tab(), 0);
}

#[test]
fn store_tab_statuses_replaces_statuses() {
    let mut bar = TabBar::new().push(0usize, text("a")).push(1, text("b"));
    let statuses: Vec<TabStatus> = vec![(Some(Status::Active), Some(false)), (Some(Status::Hovered), Some(true))];
    bar.store_tab_statuses(statuses.clone());
    assert_eq!(bar.tab_statuses(), &statuses);
    assert_eq!(bar.size(), 2);
}

#[test]
fn position_orders_icon_and_text() {
    assert!(Position::Top.is_vertical());
    assert!(Position::Bottom.is_vertical());
    assert!(!Position::Left.is_vertical());
    assert!(!Position::Right.is_vertical());
    assert!(Position::Top.is_icon_first());
    assert!(Position::Left.is_icon_first());
    assert!(!Position::Right.is_icon_first());
    assert!(!Position::Bottom.is_icon_first());
    assert_eq!(Position::default(), Position::Left);
}

#[test]
fn tab_label_conversions() {
    match TabLabel::from('\u{eb51}') {
        TabLabel::Icon(c) => assert_eq!(c, '\u{eb51}'),
        _ => panic!("expected an icon label"),
    }
    match TabLabel::from("Settings") {
        TabLabel::Text(s) => assert_eq!(s, "Settings"),
        _ => panic!("expected a text label"),
    }
    match TabLabel::from(String::from("Home")) {
        TabLabel::Text(s) => assert_eq!(s, "Home"),
        _ => panic!("expected a text label"),
    }
    match TabLabel::from(('\u{eb06}', "Home")) {
        TabLabel::IconText(c, s) => {
            assert_eq!(c, '\u{eb06}');
            assert_eq!(s, "Home");
        }
        _ => panic!("expected an icon-text label"),
    }
    match TabLabel::from(('a', String::from("b"))) {
        TabLabel::IconText(c, s) => {
            assert_eq!(c, 'a');
            assert_eq!(s, "b");
        }
        _ => panic!("expected an icon-text label"),
    }
    let label: TabLabel = "Settings".into();
    assert_eq!(label_text(&label), "Settings");
}

#[test]
fn push_keeps_the_active_tab() {
    let bar = TabBar::new().push(1usize, text("a")).push(2, text("b")).set_active_tab(&2);
    assert_eq!(bar.get_active_tab_id(), Some(&2));
    let bar = bar.push(3, text("c"));
    assert_eq!(bar.size(), 3);
    assert_eq!(bar.get_active_tab_id(), Some(&2));
    assert_eq!(bar.tab_ids().last(), Some(&3));
}

#[test]
fn active_tab_always_names_a_tab_once_there_is_one() {
    let bar: TabBar<usize> = TabBar::new().set_active_tab(&4);
    assert_eq!(bar.get_active_tab_idx(), 0);
    assert_eq!(bar.get_active_tab_id(), None);
    let bar = bar.push(9, text("a"));
    assert_eq!(bar.get_active_tab_id(), Some(&9));
    let bar = bar.push(4, text("b")).set_active_tab(&4).set_active_tab(&100);
    assert_eq!(bar.get_active_tab_idx(), 1);
    assert!(bar.get_active_tab_idx() < bar.size());
}
