use dtvmgr::config::{resolve_ch_ids, AppConfig, ChannelsConfig};
use dtvmgr::db::{load_programs, load_titles, update_tmdb_mapping, ProgramTable, TitleTable};
use dtvmgr::sync::{
    backoff_secs, programs_with_titles, store_fetched, to_cached_program, to_cached_title,
    unique_tids, ChunkStep, ChunkedLookup, TITLE_CHUNK_MAX_RETRIES, TITLE_LOOKUP_CHUNK_SIZE,
};
use dtvmgr::syoboi::client::ApiError;
use dtvmgr::syoboi::{SyoboiProgram, SyoboiTitle};

fn title(tid: u32, last_update: &str) -> SyoboiTitle {
    SyoboiTitle {
        tid,
        last_update: String::from(last_update),
        title: format!("title {tid}"),
        short_title: Some(String::from("short")),
        title_yomi: None,
        title_en: Some(String::from("en")),
        comment: Some(String::from("not cached")),
        cat: Some(10),
        title_flag: Some(1),
        first_year: Some(2022),
        first_month: Some(4),
        first_end_year: Some(2022),
        first_end_month: Some(6),
        first_ch: Some(String::from("ch")),
        keywords: Some(String::from("kw")),
        user_point: Some(-3),
        user_point_rank: Some(9),
        sub_titles: Some(String::from("*01*one")),
    }
}

fn program(pid: u32, tid: u32) -> SyoboiProgram {
    SyoboiProgram {
        pid,
        tid,
        st_time: String::from("2022-04-09 23:00:00"),
        st_offset: Some(-30),
        ed_time: String::from("2022-04-09 23:30:00"),
        count: Some(1),
        sub_title: None,
        prog_comment: Some(String::from("not cached")),
        flag: Some(2),
        deleted: Some(0),
        warn: Some(1),
        ch_id: 7,
        revision: Some(3),
        last_update: Some(String::from("2022-04-01 00:00:00")),
        st_sub_title: Some(String::from("sub")),
    }
}

fn titles_for(keys: &[u32]) -> Vec<SyoboiTitle> {
    keys.iter().map(|k| title(*k, "1")).collect()
}

#[test]
fn chunked_lookup_of_120_keys_with_one_empty_answer() {
    let tids: Vec<u32> = (1..=120).collect();
    let mut lookup = ChunkedLookup::new(tids.clone());
    assert_eq!(lookup.chunk_count(), 3);

    let first = lookup.current_chunk().unwrap();
    assert_eq!(first, tids[..50].to_vec());
    assert_eq!(lookup.record(titles_for(&first)), ChunkStep::Next);

    let second = lookup.current_chunk().unwrap();
    assert_eq!(second, tids[50..100].to_vec());
    assert_eq!(lookup.record(vec![]), ChunkStep::Retry { secs: 10 });
    assert_eq!(lookup.current_chunk().unwrap(), second);
    assert_eq!(lookup.record(titles_for(&second[..12])), ChunkStep::Next);

    let third = lookup.current_chunk().unwrap();
    assert_eq!(third, tids[100..].to_vec());
    assert_eq!(third.len(), 20);
    assert_eq!(lookup.record(titles_for(&third)), ChunkStep::Done);
    assert_eq!(lookup.current_chunk(), None);

    let titles = lookup.into_titles();
    assert_eq!(titles.len(), 50 + 12 + 20);
    let keys: Vec<u32> = titles.iter().map(|t| t.tid).collect();
    let mut expected: Vec<u32> = (1..=50).collect();
    expected.extend(51..=62);
    expected.extend(101..=120);
    assert_eq!(keys, expected);
}

#[test]
fn a_chunk_that_stays_empty_is_passed_over_after_five_retries() {
    let mut lookup = ChunkedLookup::new((1..=60).collect());
    let mut pauses = Vec::new();

    loop {
        match lookup.record(vec![]) {
            ChunkStep::Retry { secs } => pauses.push(secs),
            step => {
                assert_eq!(step, ChunkStep::Next);
                break;
            }
        }
    }
    let rest = lookup.current_chunk().unwrap();
    let last = lookup.record(titles_for(&rest));

    assert_eq!(pauses, vec![10, 20, 40, 80, 160]);
    assert_eq!(pauses.len() as u32, TITLE_CHUNK_MAX_RETRIES);
    assert_eq!(rest, (51..=60).collect::<Vec<u32>>());
    assert_eq!(last, ChunkStep::Done);
    assert_eq!(lookup.into_titles().len(), 10);
}

#[test]
fn the_retries_of_one_chunk_do_not_count_for_the_next() {
    let mut lookup = ChunkedLookup::new((1..=100).collect());
    assert_eq!(lookup.record(vec![]), ChunkStep::Retry { secs: 10 });
    assert_eq!(lookup.record(vec![]), ChunkStep::Retry { secs: 20 });
    assert_eq!(lookup.record(titles_for(&[1])), ChunkStep::Next);

    assert_eq!(lookup.record(vec![]), ChunkStep::Retry { secs: 10 });
}

#[test]
fn a_failed_lookup_ends_the_run_at_once() {
    let mut lookup = ChunkedLookup::new((1..=120).collect());
    let first = lookup.current_chunk().unwrap();
    assert!(matches!(
        lookup.step(Ok(titles_for(&first))),
        Ok(ChunkStep::Next)
    ));
    assert!(matches!(
        lookup.step(Ok(vec![])),
        Ok(ChunkStep::Retry { secs: 10 })
    ));
    assert!(!lookup.has_failed());

    let failure = lookup
        .step(Err(ApiError::RateLimited {
            command: String::from("TitleLookup"),
            status: 429,
        }))
        .unwrap_err();

    assert_eq!(failure.requested, 50);
    assert_eq!(
        failure.to_string(),
        "failed to fetch titles for chunk of 50 TIDs"
    );
    assert_eq!(
        failure.source.to_string(),
        "TitleLookup rate limited (HTTP 429)"
    );
    assert!(lookup.has_failed());
    assert_eq!(lookup.current_chunk(), None);
    assert_eq!(lookup.record(titles_for(&[77])), ChunkStep::Done);
    let keys: Vec<u32> = lookup.into_titles().iter().map(|t| t.tid).collect();
    assert_eq!(keys, (1..=50).collect::<Vec<u32>>());
}

#[test]
fn a_failure_in_the_last_chunk_counts_the_keys_that_are_left() {
    let mut lookup = ChunkedLookup::new((1..=60).collect());
    assert_eq!(lookup.record(titles_for(&[1, 2])), ChunkStep::Next);

    let failure = lookup.fail(ApiError::RetriesExhausted {
        command: String::from("TitleLookup"),
    });

    assert_eq!(failure.requested, 10);
    assert_eq!(
        failure.to_string(),
        "failed to fetch titles for chunk of 10 TIDs"
    );
    assert!(matches!(failure.source, ApiError::RetriesExhausted { .. }));
    assert!(lookup.has_failed());
    assert_eq!(lookup.chunk_count(), 2);
    assert_eq!(lookup.into_titles().len(), 2);
}

#[test]
fn a_lookup_of_no_keys_is_done_at_once() {
    let mut lookup = ChunkedLookup::new(Vec::new());

    assert_eq!(lookup.chunk_count(), 0);
    assert_eq!(lookup.current_chunk(), None);
    assert_eq!(lookup.record(titles_for(&[1])), ChunkStep::Done);
    assert!(lookup.into_titles().is_empty());
}

#[test]
fn chunks_are_of_fifty_keys() {
    assert_eq!(TITLE_LOOKUP_CHUNK_SIZE, 50);
    assert_eq!(ChunkedLookup::new((0..50).collect()).chunk_count(), 1);
    assert_eq!(ChunkedLookup::new((0..51).collect()).chunk_count(), 2);
    assert_eq!(
        ChunkedLookup::new((0..50).collect())
            .current_chunk()
            .unwrap()
            .len(),
        50
    );
    assert_eq!(backoff_secs(0), 10);
    assert_eq!(backoff_secs(4), 160);
}

#[test]
fn cached_forms_keep_the_columns_and_carry_no_mapping() {
    let cached_title = to_cached_title(&title(6309, "2022-06-30 01:56:20"));
    let cached_program = to_cached_program(&program(574_823, 6309));

    assert_eq!(cached_title.tid, 6309);
    assert_eq!(cached_title.tmdb_series_id, None);
    assert_eq!(cached_title.tmdb_season_number, None);
    assert_eq!(cached_title.title, "title 6309");
    assert_eq!(cached_title.short_title.as_deref(), Some("short"));
    assert_eq!(cached_title.title_en.as_deref(), Some("en"));
    assert_eq!(cached_title.cat, Some(10));
    assert_eq!(cached_title.first_year, Some(2022));
    assert_eq!(cached_title.first_month, Some(4));
    assert_eq!(cached_title.keywords.as_deref(), Some("kw"));
    assert_eq!(cached_title.sub_titles.as_deref(), Some("*01*one"));
    assert_eq!(cached_title.last_update, "2022-06-30 01:56:20");
    assert_eq!(cached_program.pid, 574_823);
    assert_eq!(cached_program.tid, 6309);
    assert_eq!(cached_program.ch_id, 7);
    assert_eq!(cached_program.tmdb_episode_id, None);
    assert_eq!(cached_program.st_offset, Some(-30));
    assert_eq!(cached_program.flag, Some(2));
    assert_eq!(cached_program.revision, Some(3));
    assert_eq!(cached_program.st_sub_title.as_deref(), Some("sub"));
    assert_eq!(cached_program.duration_min, None);
}

#[test]
fn title_keys_are_collected_once_each_in_the_order_they_occur() {
    let programs = vec![
        program(1, 30),
        program(2, 10),
        program(3, 30),
        program(4, 20),
        program(5, 10),
    ];

    assert_eq!(unique_tids(&programs), vec![30, 10, 20]);
    assert!(unique_tids(&[]).is_empty());
}

#[test]
fn programs_of_unknown_titles_are_dropped() {
    let titles = vec![to_cached_title(&title(10, "1"))];
    let programs = vec![program(1, 10), program(2, 99), program(3, 10)];

    let kept = programs_with_titles(&programs, &titles);

    assert_eq!(kept.iter().map(|p| p.pid).collect::<Vec<_>>(), vec![1, 3]);
}

#[test]
fn a_run_stores_titles_then_the_programs_that_refer_to_them() {
    let mut titles = TitleTable::new();
    let mut programs = ProgramTable::new();
    let fetched_titles = vec![title(10, "1"), title(20, "1")];
    let fetched_programs = vec![program(1, 10), program(2, 30), program(3, 20)];

    let report = store_fetched(&mut titles, &mut programs, &fetched_titles, &fetched_programs);

    assert_eq!(report.titles, 2);
    assert_eq!(report.titles_changed, 2);
    assert_eq!(report.programs, 2);
    assert_eq!(report.programs_changed, 2);
    assert_eq!(report.skipped, 1);
    assert_eq!(load_titles(&titles).len(), 2);
    let stored = load_programs(&programs);
    assert_eq!(stored.iter().map(|p| p.pid).collect::<Vec<_>>(), vec![1, 3]);
    assert_eq!(stored[0].duration_min, Some(30));

    update_tmdb_mapping(&mut titles, 10, Some(120_089), Some(1));
    let again = store_fetched(&mut titles, &mut programs, &fetched_titles, &fetched_programs);

    assert_eq!(again.titles_changed, 0);
    assert_eq!(again.programs_changed, 0);
    assert_eq!(again.skipped, 1);
    assert_eq!(load_titles(&titles)[0].tmdb_series_id, Some(120_089));
}

#[test]
fn test_default_config() {
    let config = AppConfig::default();

    assert!(config.channels.selected.is_empty());
    assert_eq!(
        config,
        AppConfig {
            channels: ChannelsConfig::default()
        }
    );
}

#[test]
fn channel_keys_come_from_the_command_line_before_the_settings() {
    assert_eq!(resolve_ch_ids(Some(vec![1, 7]), vec![3]), Some(vec![1, 7]));
    assert_eq!(resolve_ch_ids(Some(vec![]), vec![3]), Some(vec![]));
    assert_eq!(resolve_ch_ids(None, vec![3, 4]), Some(vec![3, 4]));
    assert_eq!(resolve_ch_ids(None, vec![]), None);
}
