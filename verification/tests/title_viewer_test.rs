use std::collections::HashMap;

use dtvmgr::db::{CachedChannel, CachedProgram, CachedTitle};
use dtvmgr::tui::keys::{
    handle_filter_input, handle_normal_input, handle_viewer_filter_input,
    handle_viewer_normal_input, Key, ViewerAction,
};
use dtvmgr::tui::state::{
    ActivePane as SelectorPane, ChannelEntry, ChannelGroup, ChannelSelectorState,
    InputMode as SelectorMode, SelectorResult,
};
use dtvmgr::tui::title_viewer::state::{
    ActivePane, InputMode, ProgramRow, TitleRow, TitleViewerState, ViewerStats,
};
use dtvmgr::tui::title_viewer::ui::{
    flag_label, fmt_num, header_lines, program_row_cells, title_row_cells,
};
use dtvmgr::tui::title_viewer::{build_viewer_state, syoboi_page_url};

fn make_state() -> TitleViewerState {
    let titles = vec![
        TitleRow {
            tid: 1,
            title: String::from("SPY×FAMILY"),
            first_year: Some(2022),
            tmdb_series_id: Some(12345),
            tmdb_season_number: Some(1),
            program_count: 2,
        },
        TitleRow {
            tid: 2,
            title: String::from("Bocchi the Rock!"),
            first_year: Some(2022),
            tmdb_series_id: None,
            tmdb_season_number: None,
            program_count: 1,
        },
    ];

    let mut programs_by_tid = HashMap::new();
    programs_by_tid.insert(
        1,
        vec![
            ProgramRow {
                pid: 100,
                count: Some(1),
                st_time: String::from("2022-04-09 23:00:00"),
                ch_name: String::from("テレビ東京"),
                flag: None,
                duration_min: Some(30),
                sub_title: Some(String::from("オペレーション〈梟〉")),
            },
            ProgramRow {
                pid: 101,
                count: Some(2),
                st_time: String::from("2022-04-16 23:00:00"),
                ch_name: String::from("テレビ東京"),
                flag: Some(2),
                duration_min: Some(30),
                sub_title: Some(String::from("妻役を確保せよ")),
            },
        ],
    );
    programs_by_tid.insert(
        2,
        vec![ProgramRow {
            pid: 200,
            count: Some(1),
            st_time: String::from("2022-10-08 23:30:00"),
            ch_name: String::from("TOKYO MX"),
            flag: None,
            duration_min: Some(30),
            sub_title: Some(String::from("転がるぼっち")),
        }],
    );

    let stats = ViewerStats {
        total_titles: 2,
        total_programs: 3,
        unique_channels: 2,
        oldest_st_time: Some(String::from("2022-04-09 23:00:00")),
        newest_st_time: Some(String::from("2022-10-08 23:30:00")),
    };

    TitleViewerState::new(titles, programs_by_tid, stats)
}

#[test]
fn test_initial_state() {
    let state = make_state();

    assert_eq!(state.filtered_titles().len(), 2);
    assert_eq!(state.active_pane, ActivePane::Titles);
    assert_eq!(state.title_cursor(), 0);
}

#[test]
fn test_move_down_and_up() {
    let mut state = make_state();

    state.move_down();
    assert_eq!(state.title_cursor(), 1);

    state.move_down();
    assert_eq!(state.title_cursor(), 1);

    state.move_up();
    assert_eq!(state.title_cursor(), 0);

    state.move_up();
    assert_eq!(state.title_cursor(), 0);
}

#[test]
fn test_focus_programs_and_titles() {
    let mut state = make_state();

    state.focus_programs();

    assert_eq!(state.active_pane, ActivePane::Programs);
    assert_eq!(state.program_cursor(), 0);
    assert_eq!(state.current_programs().len(), 2);

    state.move_down();
    assert_eq!(state.program_cursor(), 1);

    state.focus_titles();
    assert_eq!(state.active_pane, ActivePane::Titles);
}

#[test]
fn test_page_up_and_page_down() {
    let mut state = make_state();

    state.page_down(10);
    assert_eq!(state.title_cursor(), 1);

    state.page_up(10);
    assert_eq!(state.title_cursor(), 0);

    state.focus_programs();
    state.page_down(10);
    assert_eq!(state.program_cursor(), 1);

    state.page_up(10);
    assert_eq!(state.program_cursor(), 0);
}

#[test]
fn test_filter() {
    let mut state = make_state();

    state.set_filter(String::from("spy"));

    assert_eq!(state.filtered_titles().len(), 1);
    assert_eq!(state.current_title().unwrap().tid, 1);
}

#[test]
fn test_filter_by_sub_title() {
    let mut state = make_state();

    state.set_filter(String::from("梟"));

    assert_eq!(state.filtered_titles().len(), 1);
    assert_eq!(state.current_title().unwrap().tid, 1);
}

#[test]
fn test_filter_by_st_time() {
    let mut state = make_state();

    state.set_filter(String::from("2022-10"));

    assert_eq!(state.filtered_titles().len(), 1);
    assert_eq!(state.current_title().unwrap().tid, 2);
}

#[test]
fn test_filter_no_match() {
    let mut state = make_state();

    state.set_filter(String::from("nonexistent"));

    assert!(state.filtered_titles().is_empty());
    assert!(state.current_title().is_none());
    assert_eq!(state.title_selected, None);
    assert!(state.current_programs().is_empty());
}

#[test]
fn the_filter_is_edited_character_by_character() {
    let mut state = make_state();

    state.filter_push('B');
    state.filter_push('O');
    assert_eq!(state.filter, "BO");
    assert_eq!(state.filtered_titles(), &[1]);

    state.filter_pop();
    state.filter_pop();
    state.filter_pop();
    assert_eq!(state.filter, "");
    assert_eq!(state.filtered_titles(), &[0, 1]);
    assert_eq!(state.title_selected, Some(0));
}

#[test]
fn paging_stops_at_the_ends() {
    let mut state = make_state();

    state.page_down(usize::MAX);
    assert_eq!(state.title_cursor(), 1);
    state.page_down(1);
    assert_eq!(state.title_cursor(), 1);
    state.page_up(1);
    assert_eq!(state.title_cursor(), 0);
    state.page_down(0);
    assert_eq!(state.title_cursor(), 0);

    state.set_filter(String::from("nonexistent"));
    state.page_down(3);
    assert_eq!(state.title_selected, Some(0));
}

#[test]
fn test_fmt_num() {
    assert_eq!(fmt_num(0), "0");
    assert_eq!(fmt_num(999), "999");
    assert_eq!(fmt_num(1000), "1,000");
    assert_eq!(fmt_num(169_940), "169,940");
    assert_eq!(fmt_num(1_234_567), "1,234,567");
    assert_eq!(fmt_num(12_345_678), "12,345,678");
}

#[test]
fn test_flag_label() {
    assert_eq!(flag_label(None), "");
    assert_eq!(flag_label(Some(0)), "");
    assert_eq!(flag_label(Some(1)), "[注]");
    assert_eq!(flag_label(Some(2)), "[新]");
    assert_eq!(flag_label(Some(4)), "[終]");
    assert_eq!(flag_label(Some(8)), "[再]");
    assert_eq!(flag_label(Some(6)), "[新][終]");
    assert_eq!(flag_label(Some(15)), "[注][新][終][再]");
    assert_eq!(flag_label(Some(16)), "");
}

#[test]
fn rows_are_written_cell_by_cell() {
    let state = make_state();

    assert_eq!(
        title_row_cells(&state.titles[0]),
        vec!["1", "SPY×FAMILY", "2022", "12345", "1", "2"]
    );
    assert_eq!(
        title_row_cells(&state.titles[1]),
        vec!["2", "Bocchi the Rock!", "2022", "--", "--", "1"]
    );
    let programs = state.current_programs();
    assert_eq!(
        program_row_cells(&programs[1]),
        vec![
            "101",
            "2",
            "2022-04-16 23:00:00",
            "30",
            "テレビ東京",
            "[新]",
            "妻役を確保せよ"
        ]
    );
    let bare = ProgramRow {
        pid: 5,
        count: None,
        st_time: String::new(),
        ch_name: String::new(),
        flag: None,
        duration_min: None,
        sub_title: None,
    };
    assert_eq!(program_row_cells(&bare), vec!["5", "-", "", "-", "", "", ""]);
    let lines = header_lines(&state.stats, 1);
    assert_eq!(lines.0, "2 titles  3 progs  2ch  (filtered: 1)");
    assert_eq!(lines.1, "2022-04-09 23:00:00 ~ 2022-10-08 23:30:00");
}

fn cached_title(tid: u32, name: &str) -> CachedTitle {
    CachedTitle {
        tid,
        tmdb_series_id: Some(u64::from(tid) * 10),
        tmdb_season_number: None,
        title: String::from(name),
        short_title: None,
        title_yomi: None,
        title_en: None,
        cat: None,
        title_flag: None,
        first_year: Some(2022),
        first_month: None,
        keywords: None,
        sub_titles: None,
        last_update: String::from("1"),
    }
}

fn cached_program(pid: u32, tid: u32, ch_id: u32, st_time: &str) -> CachedProgram {
    CachedProgram {
        pid,
        tid,
        ch_id,
        tmdb_episode_id: None,
        st_time: String::from(st_time),
        st_offset: None,
        ed_time: String::new(),
        count: Some(pid),
        sub_title: Some(String::from("own")),
        flag: Some(8),
        deleted: None,
        warn: None,
        revision: None,
        last_update: None,
        st_sub_title: if pid % 2 == 0 {
            Some(String::from("joined"))
        } else {
            None
        },
        duration_min: Some(24),
    }
}

#[test]
fn the_viewer_is_built_from_the_cached_tables() {
    let titles = vec![cached_title(1, "one"), cached_title(2, "two"), cached_title(3, "three")];
    let programs = vec![
        cached_program(10, 1, 7, "2022-04-09 23:00:00"),
        cached_program(11, 2, 8, "2022-01-01 00:00:00"),
        cached_program(12, 1, 7, "2023-01-01 00:00:00"),
        cached_program(13, 9, 19, "2022-06-01 00:00:00"),
    ];
    let channels = vec![
        CachedChannel {
            ch_id: 7,
            ch_gid: None,
            ch_name: String::from("old name"),
        },
        CachedChannel {
            ch_id: 7,
            ch_gid: None,
            ch_name: String::from("テレビ東京"),
        },
    ];

    let state = build_viewer_state(&titles, &programs, &channels);

    assert_eq!(state.titles.len(), 3);
    assert_eq!(state.titles[0].program_count, 2);
    assert_eq!(state.titles[0].tmdb_series_id, Some(10));
    assert_eq!(state.titles[1].program_count, 1);
    assert_eq!(state.titles[2].program_count, 0);
    assert_eq!(state.programs_by_tid.len(), 3);
    let first = &state.programs_by_tid[&1];
    assert_eq!(first.iter().map(|p| p.pid).collect::<Vec<_>>(), vec![10, 12]);
    assert_eq!(first[0].ch_name, "テレビ東京");
    assert_eq!(first[0].sub_title.as_deref(), Some("joined"));
    assert_eq!(first[0].duration_min, Some(24));
    assert_eq!(state.programs_by_tid[&2][0].ch_name, "8");
    assert_eq!(state.programs_by_tid[&2][0].sub_title.as_deref(), Some("own"));
    assert_eq!(state.stats.total_titles, 3);
    assert_eq!(state.stats.total_programs, 4);
    assert_eq!(state.stats.unique_channels, 3);
    assert_eq!(
        state.stats.oldest_st_time.as_deref(),
        Some("2022-01-01 00:00:00")
    );
    assert_eq!(
        state.stats.newest_st_time.as_deref(),
        Some("2023-01-01 00:00:00")
    );
    assert_eq!(state.title_selected, Some(0));
    assert_eq!(state.filtered_titles(), &[0, 1, 2]);

    let empty = build_viewer_state(&[], &[], &[]);
    assert_eq!(empty.title_selected, None);
    assert_eq!(empty.stats.oldest_st_time, None);
    assert_eq!(empty.stats.unique_channels, 0);
}

#[test]
fn the_page_of_what_is_under_the_cursor() {
    let mut state = make_state();

    assert_eq!(
        syoboi_page_url(&state).as_deref(),
        Some("https://cal.syoboi.jp/tid/1")
    );
    state.focus_programs();
    state.move_down();
    assert_eq!(
        syoboi_page_url(&state).as_deref(),
        Some("https://cal.syoboi.jp/tid/1/summary/202204")
    );
    state.program_selected = Some(5);
    assert_eq!(syoboi_page_url(&state), None);
    state.program_selected = Some(0);
    state.programs_by_tid.get_mut(&1).unwrap()[0].st_time = String::from("2022-");
    assert_eq!(syoboi_page_url(&state), None);
    state.set_filter(String::from("nonexistent"));
    assert_eq!(syoboi_page_url(&state), None);
}

#[test]
fn keys_of_the_viewer() {
    let mut state = make_state();

    assert!(matches!(
        handle_viewer_normal_input(&mut state, Key::Char('j'), false, 5),
        ViewerAction::Continue
    ));
    assert_eq!(state.title_cursor(), 1);
    handle_viewer_normal_input(&mut state, Key::Up, false, 5);
    assert_eq!(state.title_cursor(), 0);
    handle_viewer_normal_input(&mut state, Key::PageDown, false, 5);
    assert_eq!(state.title_cursor(), 1);
    handle_viewer_normal_input(&mut state, Key::PageUp, false, 5);
    assert_eq!(state.title_cursor(), 0);
    match handle_viewer_normal_input(&mut state, Key::Char('o'), false, 5) {
        ViewerAction::Open { url } => assert_eq!(url, "https://cal.syoboi.jp/tid/1"),
        _ => panic!("expected a page to open"),
    }
    handle_viewer_normal_input(&mut state, Key::Right, false, 5);
    assert_eq!(state.active_pane, ActivePane::Programs);
    handle_viewer_normal_input(&mut state, Key::Char('/'), false, 5);
    assert_eq!(state.input_mode, InputMode::Normal);
    handle_viewer_normal_input(&mut state, Key::Left, false, 5);
    handle_viewer_normal_input(&mut state, Key::Char('/'), false, 5);
    assert_eq!(state.input_mode, InputMode::Filter);

    assert!(!handle_viewer_filter_input(&mut state, Key::Char('b')));
    assert_eq!(state.filtered_titles(), &[1]);
    handle_viewer_filter_input(&mut state, Key::Backspace);
    assert_eq!(state.filtered_titles(), &[0, 1]);
    handle_viewer_filter_input(&mut state, Key::Char('s'));
    handle_viewer_filter_input(&mut state, Key::Enter);
    assert_eq!(state.input_mode, InputMode::Normal);
    assert_eq!(state.filter, "s");
    state.input_mode = InputMode::Filter;
    handle_viewer_filter_input(&mut state, Key::Esc);
    assert_eq!(state.input_mode, InputMode::Normal);
    assert_eq!(state.filter, "");

    assert!(matches!(
        handle_viewer_normal_input(&mut state, Key::Char('c'), false, 5),
        ViewerAction::Continue
    ));
    assert!(matches!(
        handle_viewer_normal_input(&mut state, Key::Char('c'), true, 5),
        ViewerAction::Quit
    ));
    assert!(matches!(
        handle_viewer_normal_input(&mut state, Key::Char('q'), false, 5),
        ViewerAction::Quit
    ));
}

#[test]
fn keys_of_the_selector() {
    let groups = vec![
        ChannelGroup {
            ch_gid: 1,
            name: String::from("Kanto"),
            channels: vec![
                ChannelEntry {
                    ch_id: 3,
                    ch_name: String::from("Fuji"),
                },
                ChannelEntry {
                    ch_id: 4,
                    ch_name: String::from("NTV"),
                },
            ],
        },
        ChannelGroup {
            ch_gid: 2,
            name: String::from("BS"),
            channels: vec![ChannelEntry {
                ch_id: 10,
                ch_name: String::from("BS11"),
            }],
        },
    ];
    let mut state = ChannelSelectorState::new(groups, std::collections::BTreeSet::new());

    assert_eq!(handle_normal_input(&mut state, Key::Char('a'), false), None);
    assert_eq!(state.selected.iter().copied().collect::<Vec<_>>(), vec![3, 4]);
    handle_normal_input(&mut state, Key::Tab, false);
    assert_eq!(state.active_pane, SelectorPane::Channels);
    handle_normal_input(&mut state, Key::Char('j'), false);
    assert_eq!(state.channel_cursor, 1);
    handle_normal_input(&mut state, Key::Char(' '), false);
    assert_eq!(state.selected.iter().copied().collect::<Vec<_>>(), vec![3]);
    handle_normal_input(&mut state, Key::Char('k'), false);
    assert_eq!(state.channel_cursor, 0);
    handle_normal_input(&mut state, Key::BackTab, false);
    handle_normal_input(&mut state, Key::Down, false);
    assert_eq!(state.group_cursor, 1);
    handle_normal_input(&mut state, Key::Up, false);
    handle_normal_input(&mut state, Key::Char('A'), false);
    assert!(state.selected.is_empty());

    handle_normal_input(&mut state, Key::Char('/'), false);
    assert_eq!(state.input_mode, SelectorMode::Filter);
    assert_eq!(handle_filter_input(&mut state, Key::Char('b')), None);
    assert_eq!(state.filtered_groups(), &[1]);
    handle_filter_input(&mut state, Key::Char('x'));
    assert!(state.filtered_groups().is_empty());
    handle_filter_input(&mut state, Key::Backspace);
    assert_eq!(state.filtered_groups(), &[1]);
    handle_filter_input(&mut state, Key::Enter);
    assert_eq!(state.input_mode, SelectorMode::Normal);
    assert_eq!(state.filter, "b");
    state.input_mode = SelectorMode::Filter;
    handle_filter_input(&mut state, Key::Esc);
    assert_eq!(state.filter, "");
    assert_eq!(state.filtered_groups(), &[0, 1]);

    assert_eq!(
        handle_normal_input(&mut state, Key::Enter, false),
        Some(SelectorResult::Confirmed)
    );
    assert_eq!(
        handle_normal_input(&mut state, Key::Esc, false),
        Some(SelectorResult::Cancelled)
    );
    assert_eq!(
        handle_normal_input(&mut state, Key::Char('q'), false),
        Some(SelectorResult::Cancelled)
    );
    assert_eq!(
        handle_normal_input(&mut state, Key::Char('c'), true),
        Some(SelectorResult::Cancelled)
    );
    assert_eq!(handle_normal_input(&mut state, Key::Char('c'), false), None);
    assert_eq!(handle_normal_input(&mut state, Key::Other, false), None);
}
