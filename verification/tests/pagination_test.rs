use std::collections::HashSet;

use dtvmgr::syoboi::client::ApiError;
use dtvmgr::syoboi::util::{
    latest_start_time, PageOutcome, ProgramPager, PROG_LOOKUP_LIMIT,
};
use dtvmgr::syoboi::{
    fetch_all_programs, lookup_all_programs, CalendarTime, LocalSyoboiApi, LookupError, ProgLookupParams,
    SyoboiChannel, SyoboiChannelGroup, SyoboiProgram, SyoboiTitle, TimeRange,
};

/// Answers program lookups with batches in order, and records the window
/// of each request.
struct MockSyoboiApi {
    batches: Vec<Vec<SyoboiProgram>>,
    call_count: u32,
    ranges: Vec<String>,
    fail_on: Option<u32>,
}

impl MockSyoboiApi {
    fn new(batches: Vec<Vec<SyoboiProgram>>) -> Self {
        Self {
            batches,
            call_count: 0,
            ranges: Vec::new(),
            fail_on: None,
        }
    }
}

impl LocalSyoboiApi for MockSyoboiApi {
    fn lookup_titles(
        &mut self,
        _tids: &[u32],
        _fields: Option<&[&str]>,
    ) -> Result<Vec<SyoboiTitle>, ApiError> {
        Ok(vec![])
    }

    fn lookup_programs(
        &mut self,
        params: &ProgLookupParams,
    ) -> Result<Vec<SyoboiProgram>, ApiError> {
        let idx = self.call_count as usize;
        self.call_count += 1;
        self.ranges
            .push(params.range.as_ref().unwrap().to_syoboi_format());
        if self.fail_on == Some(self.call_count) {
            return Err(ApiError::RetriesExhausted {
                command: String::from("ProgLookup"),
            });
        }
        if idx < self.batches.len() {
            Ok(self.batches[idx].clone())
        } else {
            Ok(vec![])
        }
    }

    fn lookup_channels(&mut self, _ch_ids: Option<&[u32]>) -> Result<Vec<SyoboiChannel>, ApiError> {
        Ok(vec![])
    }

    fn lookup_channel_groups(
        &mut self,
        _ch_gids: Option<&[u32]>,
    ) -> Result<Vec<SyoboiChannelGroup>, ApiError> {
        Ok(vec![])
    }
}

fn make_program(pid: u32, st_time: &str) -> SyoboiProgram {
    SyoboiProgram {
        pid,
        tid: 1,
        st_time: String::from(st_time),
        st_offset: None,
        ed_time: String::from("2024-01-01 00:30:00"),
        count: None,
        sub_title: None,
        prog_comment: None,
        flag: None,
        deleted: None,
        warn: None,
        ch_id: 1,
        revision: None,
        last_update: None,
        st_sub_title: None,
    }
}

fn make_range(start: (i32, u32, u32), end: (i32, u32, u32)) -> TimeRange {
    TimeRange::new(
        CalendarTime::new(start.0, start.1, start.2, 0, 0, 0),
        CalendarTime::new(end.0, end.1, end.2, 0, 0, 0),
    )
}

fn params_over(start: (i32, u32, u32), end: (i32, u32, u32)) -> ProgLookupParams {
    let mut params = ProgLookupParams::default();
    params.range = Some(make_range(start, end));
    params
}

#[test]
fn test_lookup_all_programs_single_page() {
    let programs = vec![
        make_program(1, "2024-01-01 00:00:00"),
        make_program(2, "2024-01-01 01:00:00"),
        make_program(3, "2024-01-01 02:00:00"),
    ];
    let mut mock = MockSyoboiApi::new(vec![programs]);
    let params = params_over((2024, 1, 1), (2024, 2, 1));

    let result = lookup_all_programs(&mut mock, &params).unwrap();

    assert_eq!(result.len(), 3);
    assert_eq!(mock.call_count, 1);
}

#[test]
fn test_lookup_all_programs_two_pages() {
    let mut batch1: Vec<SyoboiProgram> = (1..=5000)
        .map(|i| make_program(i, "2024-01-15 12:00:00"))
        .collect();
    batch1[2500].st_time = String::from("2024-01-20 00:00:00");

    let batch2 = vec![
        make_program(5001, "2024-01-20 01:00:00"),
        make_program(5002, "2024-01-20 02:00:00"),
    ];
    let mut mock = MockSyoboiApi::new(vec![batch1, batch2]);
    let params = params_over((2024, 1, 1), (2024, 2, 1));

    let result = lookup_all_programs(&mut mock, &params).unwrap();

    assert_eq!(result.len(), 5002);
    assert_eq!(mock.call_count, 2);
    assert_eq!(
        mock.ranges,
        vec![
            String::from("20240101_000000-20240201_000000"),
            String::from("20240120_000000-20240201_000000"),
        ]
    );
}

#[test]
fn test_lookup_all_programs_deduplication() {
    let mut batch1: Vec<SyoboiProgram> = (1..=5000)
        .map(|i| make_program(i, "2024-01-15 12:00:00"))
        .collect();
    batch1[100].st_time = String::from("2024-01-20 00:00:00");

    let batch2 = vec![
        make_program(4999, "2024-01-20 00:00:00"),
        make_program(5000, "2024-01-20 00:00:00"),
        make_program(5001, "2024-01-30 00:00:00"),
    ];
    let mut mock = MockSyoboiApi::new(vec![batch1, batch2]);
    let params = params_over((2024, 1, 1), (2024, 2, 1));

    let result = lookup_all_programs(&mut mock, &params).unwrap();

    assert_eq!(result.len(), 5001);
    let pids: HashSet<u32> = result.iter().map(|p| p.pid).collect();
    assert!(pids.contains(&5001));
    assert_eq!(pids.len(), 5001);
}

#[test]
fn test_lookup_all_programs_requires_range() {
    let mut mock = MockSyoboiApi::new(vec![]);
    let params = ProgLookupParams::default();

    let result = lookup_all_programs(&mut mock, &params);

    assert!(result.is_err());
    assert!(result
        .unwrap_err()
        .to_string()
        .contains("range is required"));
    assert_eq!(mock.call_count, 0);
}

#[test]
fn test_lookup_all_programs_stops_when_cursor_stalls() {
    let batch: Vec<SyoboiProgram> = (1..=5000)
        .map(|i| make_program(i, "2024-01-15 00:00:00"))
        .collect();
    let mut mock = MockSyoboiApi::new(vec![batch]);
    let params = params_over((2024, 1, 15), (2024, 2, 1));

    let result = lookup_all_programs(&mut mock, &params).unwrap();

    assert_eq!(result.len(), 5000);
    assert_eq!(mock.call_count, 1);
}

#[test]
fn test_lookup_all_programs_empty_response() {
    let mut mock = MockSyoboiApi::new(vec![vec![]]);
    let params = params_over((2024, 1, 1), (2024, 2, 1));

    let result = lookup_all_programs(&mut mock, &params).unwrap();

    assert!(result.is_empty());
}

#[test]
fn lookup_all_programs_keeps_the_first_of_two_records_with_one_key() {
    let page = vec![
        make_program(7, "2024-01-01 00:00:00"),
        make_program(8, "2024-01-01 01:00:00"),
        make_program(7, "2024-01-01 02:00:00"),
    ];
    let mut mock = MockSyoboiApi::new(vec![page]);
    let params = params_over((2024, 1, 1), (2024, 2, 1));

    let result = lookup_all_programs(&mut mock, &params).unwrap();

    assert_eq!(result.len(), 2);
    assert_eq!(result[0].pid, 7);
    assert_eq!(result[0].st_time, "2024-01-01 00:00:00");
    assert_eq!(result[1].pid, 8);
}

#[test]
fn lookup_all_programs_reports_the_page_that_failed() {
    let batch1: Vec<SyoboiProgram> = (1..=5000)
        .map(|i| make_program(i, "2024-01-20 00:00:00"))
        .collect();
    let mut mock = MockSyoboiApi::new(vec![batch1]);
    mock.fail_on = Some(2);
    let params = params_over((2024, 1, 1), (2024, 2, 1));

    let result = lookup_all_programs(&mut mock, &params);

    match result {
        Err(LookupError::PageFailed { page, range, source }) => {
            assert_eq!(page, 2);
            assert_eq!(range, "20240120_000000-20240201_000000");
            assert_eq!(source.to_string(), "ProgLookup failed after retries");
        }
        _ => panic!("expected a failed page"),
    }
}

#[test]
fn lookup_all_programs_fails_on_a_cursor_that_is_no_timestamp() {
    let mut batch: Vec<SyoboiProgram> = (1..=5000)
        .map(|i| make_program(i, "2024-01-15 12:00:00"))
        .collect();
    batch[17].st_time = String::from("soon");
    let mut mock = MockSyoboiApi::new(vec![batch]);
    let params = params_over((2024, 1, 1), (2024, 2, 1));

    let result = lookup_all_programs(&mut mock, &params);

    let error = result.unwrap_err();
    assert!(matches!(error, LookupError::InvalidCursor { .. }));
    assert_eq!(error.to_string(), "invalid StTime for cursor: soon");
}

#[test]
fn a_full_page_with_one_start_time_after_the_cursor_asks_for_another_page() {
    let batch: Vec<SyoboiProgram> = (1..=5000)
        .map(|i| make_program(i, "2024-01-15 00:00:00"))
        .collect();
    let mut mock = MockSyoboiApi::new(vec![batch.clone(), batch]);
    let params = params_over((2024, 1, 1), (2024, 2, 1));

    let result = lookup_all_programs(&mut mock, &params).unwrap();

    assert_eq!(result.len(), 5000);
    assert_eq!(mock.call_count, 2);
}

#[test]
fn pager_steps_through_pages() {
    let params = params_over((2024, 1, 1), (2024, 2, 1));
    let mut pager = ProgramPager::start(&params).unwrap();
    assert_eq!(pager.begin_page().unwrap(), 1);
    assert_eq!(
        pager.request().range.unwrap().to_syoboi_format(),
        "20240101_000000-20240201_000000"
    );

    let full: Vec<SyoboiProgram> = (1..=PROG_LOOKUP_LIMIT as u32)
        .map(|i| make_program(i, "2024-01-10 06:00:00"))
        .collect();
    assert_eq!(pager.absorb(&full).unwrap(), PageOutcome::Continue);
    assert_eq!(pager.begin_page().unwrap(), 2);
    assert_eq!(
        pager.request().range.unwrap().to_syoboi_format(),
        "20240110_060000-20240201_000000"
    );
    assert_eq!(pager.absorb(&full).unwrap(), PageOutcome::Stalled);

    let short = vec![make_program(1, "2024-01-11 00:00:00"), make_program(9000, "x")];
    assert_eq!(pager.absorb(&short).unwrap(), PageOutcome::Complete);

    assert_eq!(pager.page_count(), 2);
    assert_eq!(pager.total_fetched(), 2 * PROG_LOOKUP_LIMIT + 2);
    assert_eq!(pager.into_programs().len(), PROG_LOOKUP_LIMIT + 1);
}

#[test]
fn advance_cursor_decides_by_size_and_time() {
    let params = params_over((2024, 1, 10), (2024, 2, 1));
    let mut pager = ProgramPager::start(&params).unwrap();
    let later = CalendarTime::new(2024, 1, 10, 0, 0, 1);
    let same = CalendarTime::new(2024, 1, 10, 0, 0, 0);

    assert_eq!(
        pager.advance_cursor(4999, "ignored", None).unwrap(),
        PageOutcome::Complete
    );
    assert_eq!(
        pager.advance_cursor(5000, "t", Some(same)).unwrap(),
        PageOutcome::Stalled
    );
    assert!(matches!(
        pager.advance_cursor(5000, "t", None),
        Err(LookupError::InvalidCursor { .. })
    ));
    assert_eq!(
        pager.advance_cursor(5000, "t", Some(later)).unwrap(),
        PageOutcome::Continue
    );
    assert_eq!(pager.request().range.unwrap().start, later);
}

#[test]
fn latest_start_time_scans_the_whole_page() {
    let page = vec![
        make_program(1, "2024-01-02 00:00:00"),
        make_program(2, "2024-01-09 00:00:00"),
        make_program(3, "2024-01-03 00:00:00"),
    ];

    assert_eq!(
        latest_start_time(&page),
        Some(String::from("2024-01-09 00:00:00"))
    );
    assert_eq!(latest_start_time(&Vec::new()), None);
}

#[test]
fn lookup_errors_have_their_messages() {
    assert_eq!(
        LookupError::RangeRequired.to_string(),
        "ProgLookupParams.range is required for pagination"
    );
    assert_eq!(
        LookupError::PageCounterOverflow.to_string(),
        "page counter overflow"
    );
    let failed = LookupError::PageFailed {
        page: 3,
        range: String::from("a-b"),
        source: ApiError::RetriesExhausted {
            command: String::from("ProgLookup"),
        },
    };
    assert_eq!(failed.to_string(), "ProgLookup failed on page 3 (range: a-b)");
}

#[test]
fn a_fetch_counts_its_pages_and_the_records_it_received() {
    let mut batch1: Vec<SyoboiProgram> = (1..=5000)
        .map(|i| make_program(i, "2024-01-15 12:00:00"))
        .collect();
    batch1[100].st_time = String::from("2024-01-20 00:00:00");
    let batch2 = vec![
        make_program(4999, "2024-01-20 00:00:00"),
        make_program(5000, "2024-01-20 00:00:00"),
        make_program(5001, "2024-01-30 00:00:00"),
    ];
    let mut mock = MockSyoboiApi::new(vec![batch1, batch2]);
    let params = params_over((2024, 1, 1), (2024, 2, 1));

    let fetched = fetch_all_programs(&mut mock, &params).unwrap();

    assert_eq!(fetched.pages, 2);
    assert_eq!(fetched.fetched, 5003);
    assert_eq!(fetched.programs.len(), 5001);
    assert_eq!(fetched.programs[5000].pid, 5001);
    assert!(matches!(
        fetch_all_programs(&mut mock, &ProgLookupParams::default()),
        Err(LookupError::RangeRequired)
    ));
}
