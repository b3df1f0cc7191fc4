use kdash::command::Command;
use kdash::config::{validate_intervals, ConfigError};
use kdash::event::{window_event, Event, Key};
use kdash::render::{nw_loading_indicator, tab_content, TabContent};
use kdash::selectable_list::SelectableList;
use kdash::state::{SharedAppState, TermSize, UiAction};

#[test]
fn config_rejects_non_multiple() {
    assert_eq!(validate_intervals(200, 250), Err(ConfigError::PollNotMultiple));
}

#[test]
fn config_accepts_exact_multiple() {
    assert_eq!(validate_intervals(250, 1000), Ok(4));
}

#[test]
fn config_rejects_tick_out_of_range() {
    assert_eq!(validate_intervals(1000, 4000), Err(ConfigError::TickOutOfRange));
    assert_eq!(validate_intervals(0, 0), Err(ConfigError::TickOutOfRange));
}

#[test]
fn config_rejects_poll_shorter_than_tick() {
    assert_eq!(validate_intervals(500, 0), Err(ConfigError::PollTooShort));
}

#[test]
fn config_accepts_equal_intervals() {
    assert_eq!(validate_intervals(500, 500), Ok(1));
}

#[test]
fn cursor_wraps_forward_at_end() {
    let mut l: SelectableList<u64> = SelectableList::new();
    l.set_items(vec![10, 20, 30]);
    assert_eq!(l.selected_index(), Some(0));
    l.select_next();
    l.select_next();
    assert_eq!(l.selected_index(), Some(2));
    l.select_next();
    assert_eq!(l.selected_index(), Some(0));
}

#[test]
fn cursor_wraps_backward_at_start() {
    let mut l: SelectableList<u64> = SelectableList::new();
    l.set_items(vec![10, 20, 30]);
    l.select_previous();
    assert_eq!(l.selected_index(), Some(2));
    l.select_previous();
    assert_eq!(l.selected_index(), Some(1));
}

#[test]
fn empty_list_has_no_selection_and_ignores_navigation() {
    let mut l: SelectableList<u64> = SelectableList::new();
    assert_eq!(l.selected(), None);
    l.select_next();
    assert_eq!(l.selected_index(), None);
    l.select_previous();
    assert_eq!(l.selected_index(), None);
}

#[test]
fn selected_returns_item_under_cursor() {
    let mut l: SelectableList<&str> = SelectableList::new();
    l.set_items(vec!["alpha", "beta"]);
    l.select_next();
    assert_eq!(l.selected(), Some(&"beta"));
}

#[test]
fn set_items_clamps_cursor_to_shorter_list() {
    let mut l: SelectableList<u64> = SelectableList::new();
    l.set_items(vec![1, 2, 3, 4]);
    l.select_next();
    l.select_next();
    l.select_next();
    assert_eq!(l.selected_index(), Some(3));
    l.set_items(vec![7, 8]);
    assert_eq!(l.selected_index(), Some(1));
    l.set_items(vec![]);
    assert_eq!(l.selected_index(), None);
    l.set_items(vec![5]);
    assert_eq!(l.selected_index(), Some(0));
}

#[test]
fn resize_recomputes_help_menu_lines() {
    let mut s = SharedAppState::new(4);
    s.help_menu_offset = 9;
    s.help_menu_page = 2;
    s.handle_resize(TermSize { width: 80, height: 30 });
    assert_eq!(s.help_menu_max_lines, 22);
    assert_eq!(s.help_menu_offset, 0);
    assert_eq!(s.help_menu_page, 0);
    assert_eq!(s.size, TermSize { width: 80, height: 30 });
}

#[test]
fn resize_to_short_terminal_gives_zero_lines() {
    let mut s = SharedAppState::new(4);
    s.handle_resize(TermSize { width: 80, height: 8 });
    assert_eq!(s.help_menu_max_lines, 0);
    s.handle_resize(TermSize { width: 80, height: 5 });
    assert_eq!(s.help_menu_max_lines, 0);
    s.handle_resize(TermSize { width: 80, height: 9 });
    assert_eq!(s.help_menu_max_lines, 1);
}

#[test]
fn unchanged_size_leaves_pagination_alone() {
    let mut s = SharedAppState::new(4);
    s.handle_resize(TermSize { width: 80, height: 30 });
    s.help_menu_offset = 3;
    s.handle_resize(TermSize { width: 80, height: 30 });
    assert_eq!(s.help_menu_offset, 3);
}

#[test]
fn refresh_fires_exactly_every_ratio_ticks() {
    let mut s = SharedAppState::new(4);
    let mut fired = Vec::new();
    for _ in 0..12 {
        if let UiAction::Refresh(_) = s.ui_step(Event::Tick) {
            fired.push(s.tick_count);
        }
    }
    assert_eq!(fired, vec![4, 8, 12]);
}

#[test]
fn ratio_one_refreshes_every_tick() {
    let mut s = SharedAppState::new(1);
    for t in 1..=3 {
        match s.ui_step(Event::Tick) {
            UiAction::Refresh(_) => assert_eq!(s.tick_count, t),
            other => panic!("tick {} gave {:?} instead of a refresh", t, other),
        }
    }
}

#[test]
fn refresh_command_follows_active_tab_and_namespace() {
    let mut s = SharedAppState::new(1);
    s.selected_ns = Some(String::from("kube-system"));
    match s.ui_step(Event::Tick) {
        UiAction::Refresh(Command::ListPods { namespace }) => {
            assert_eq!(namespace.as_deref(), Some("kube-system"));
        }
        other => panic!("pods tab gave {:?}", other),
    }
    s.active_tab = 2;
    match s.ui_step(Event::Tick) {
        UiAction::Refresh(Command::ListNodes) => {}
        other => panic!("nodes tab gave {:?}", other),
    }
    s.active_tab = 5;
    assert_eq!(s.ui_step(Event::Tick), UiAction::Idle);
}

#[test]
fn quit_key_sets_flag_and_exits() {
    let mut s = SharedAppState::new(4);
    assert_eq!(s.ui_step(Event::Input(Key::Ctrl('c'))), UiAction::Quit);
    assert!(s.should_quit);
}

#[test]
fn other_keys_are_routed_untouched() {
    let mut s = SharedAppState::new(4);
    assert_eq!(s.ui_step(Event::Input(Key::Down)), UiAction::Route(Key::Down));
    assert!(!s.should_quit);
    assert_eq!(s.tick_count, 0);
}

#[test]
fn input_takes_precedence_over_tick_in_a_window() {
    assert_eq!(window_event(Some(Key::Char('n'))), Event::Input(Key::Char('n')));
    assert_eq!(window_event(None), Event::Tick);
}

#[test]
fn tab_indices_map_to_tagged_content() {
    assert_eq!(tab_content(0), TabContent::Pods);
    assert_eq!(tab_content(1), TabContent::Services);
    assert_eq!(tab_content(2), TabContent::Nodes);
    assert_eq!(tab_content(3), TabContent::Placeholder);
    assert_eq!(tab_content(7), TabContent::Placeholder);
    assert_eq!(tab_content(8), TabContent::Blank);
}

#[test]
fn loading_indicator_text() {
    assert_eq!(nw_loading_indicator(true), "...");
    assert_eq!(nw_loading_indicator(false), "");
}
