use std::collections::BTreeSet;

use dtvmgr::tui::state::{ActivePane, ChannelEntry, ChannelGroup, ChannelSelectorState};

fn make_test_state() -> ChannelSelectorState {
    let groups = vec![
        ChannelGroup {
            ch_gid: 1,
            name: String::from("テレビ 関東"),
            channels: vec![
                ChannelEntry {
                    ch_id: 3,
                    ch_name: String::from("フジテレビ"),
                },
                ChannelEntry {
                    ch_id: 4,
                    ch_name: String::from("日本テレビ"),
                },
            ],
        },
        ChannelGroup {
            ch_gid: 2,
            name: String::from("BSデジタル"),
            channels: vec![ChannelEntry {
                ch_id: 10,
                ch_name: String::from("BS11"),
            }],
        },
    ];
    let selected = BTreeSet::from([3]);
    ChannelSelectorState::new(groups, selected)
}

#[test]
fn state_test_initial_state() {
    let state = make_test_state();

    assert_eq!(state.total_channels(), 3);
    assert_eq!(state.selected_count(), 1);
    assert_eq!(state.active_pane, ActivePane::Groups);
    assert_eq!(state.group_cursor, 0);
    assert_eq!(state.channel_cursor, 0);
}

#[test]
fn test_toggle_channel() {
    let mut state = make_test_state();
    state.active_pane = ActivePane::Channels;

    state.toggle_current();

    assert!(!state.selected.contains(&3));
}

#[test]
fn test_toggle_group() {
    let mut state = make_test_state();

    state.toggle_current();

    assert!(state.selected.contains(&3));
    assert!(state.selected.contains(&4));
}

#[test]
fn test_toggle_group_deselect() {
    let mut state = make_test_state();
    state.selected.insert(4);

    state.toggle_current();

    assert!(!state.selected.contains(&3));
    assert!(!state.selected.contains(&4));
}

#[test]
fn test_move_down_up() {
    let mut state = make_test_state();

    state.move_down();
    assert_eq!(state.group_cursor, 1);

    state.move_down();
    assert_eq!(state.group_cursor, 1);

    state.move_up();
    assert_eq!(state.group_cursor, 0);

    state.move_up();
    assert_eq!(state.group_cursor, 0);
}

#[test]
fn test_switch_pane() {
    let mut state = make_test_state();

    state.switch_pane();
    assert_eq!(state.active_pane, ActivePane::Channels);

    state.switch_pane();
    assert_eq!(state.active_pane, ActivePane::Groups);
}

#[test]
fn state_test_filter() {
    let mut state = make_test_state();

    state.set_filter(String::from("BS"));

    assert_eq!(state.filtered_groups().len(), 1);
    let group_idx = state.filtered_groups()[0];
    assert_eq!(state.groups[group_idx].name, "BSデジタル");
}

#[test]
fn test_filter_by_channel_name() {
    let mut state = make_test_state();

    state.set_filter(String::from("フジ"));

    assert_eq!(state.filtered_groups().len(), 1);
    let group_idx = state.filtered_groups()[0];
    assert_eq!(state.groups[group_idx].name, "テレビ 関東");
    let ch_indices = state.filtered_channels_for_group(group_idx);
    assert_eq!(ch_indices.len(), 1);
}

#[test]
fn test_selected_in_group() {
    let state = make_test_state();

    assert_eq!(state.selected_in_group(0), 1);
    assert_eq!(state.selected_in_group(1), 0);
}

#[test]
fn test_select_all_in_group() {
    let mut state = make_test_state();

    state.select_all_in_group();

    assert!(state.selected.contains(&3));
    assert!(state.selected.contains(&4));
}

#[test]
fn test_deselect_all_in_group() {
    let mut state = make_test_state();
    state.selected.insert(4);

    state.deselect_all_in_group();

    assert!(!state.selected.contains(&3));
    assert!(!state.selected.contains(&4));
}
