use dtvmgr::db::{CachedChannel, CachedChannelGroup};
use dtvmgr::text::{join_numbers, join_strs, join_texts};
use dtvmgr::tui::build_tui_groups;

fn group(ch_gid: u32, name: &str, order: u32) -> CachedChannelGroup {
    CachedChannelGroup {
        ch_gid,
        ch_group_name: String::from(name),
        ch_group_order: order,
    }
}

fn channel(ch_id: u32, ch_gid: Option<u32>, name: &str) -> CachedChannel {
    CachedChannel {
        ch_id,
        ch_gid,
        ch_name: String::from(name),
    }
}

#[test]
fn groups_are_listed_by_position_with_their_channels_by_key() {
    let groups = vec![
        group(1, "テレビ 関東", 1200),
        group(2, "BSデジタル", 100),
        group(3, "empty", 100),
    ];
    let channels = vec![
        channel(4, Some(1), "日本テレビ"),
        channel(10, Some(2), "BS11"),
        channel(3, Some(1), "フジテレビ"),
        channel(99, None, "no group"),
        channel(98, Some(7), "unknown group"),
    ];

    let listed = build_tui_groups(&groups, &channels);

    assert_eq!(
        listed.iter().map(|g| g.ch_gid).collect::<Vec<_>>(),
        vec![2, 3, 1]
    );
    assert_eq!(listed[0].name, "BSデジタル");
    assert_eq!(listed[0].channels.len(), 1);
    assert!(listed[1].channels.is_empty());
    assert_eq!(
        listed[2]
            .channels
            .iter()
            .map(|c| (c.ch_id, c.ch_name.as_str()))
            .collect::<Vec<_>>(),
        vec![(3, "フジテレビ"), (4, "日本テレビ")]
    );
    assert!(build_tui_groups(&[], &channels).is_empty());
}

#[test]
fn of_two_groups_with_one_key_the_first_listed_has_the_channels() {
    let groups = vec![group(5, "later", 9), group(5, "same key", 1)];
    let channels = vec![channel(1, Some(5), "a")];

    let listed = build_tui_groups(&groups, &channels);

    assert_eq!(listed.len(), 2);
    assert_eq!(listed[0].name, "later");
    assert_eq!(listed[0].channels.len(), 1);
    assert!(listed[1].channels.is_empty());
}

#[test]
fn lists_are_joined_with_the_separator_between() {
    assert_eq!(join_numbers(&[], ","), "");
    assert_eq!(join_numbers(&[7], ","), "7");
    assert_eq!(join_numbers(&[1, 20, 300], ", "), "1, 20, 300");
    assert_eq!(join_strs(&["TID", "Title"], ","), "TID,Title");
    assert_eq!(join_strs(&[], ","), "");
    assert_eq!(
        join_texts(&vec![String::from("a"), String::new(), String::from("c")], "-"),
        "a--c"
    );
}
