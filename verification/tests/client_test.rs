use dtvmgr::syoboi::client::{
    body_preview, build_channel_group_query, build_channel_query, build_prog_query,
    build_title_query, check_api_result, parse_ch_group_response, parse_ch_response,
    parse_prog_response, parse_title_response, xml_decode_error, ApiError, AttemptEvent,
    RequestRetry, RetryAction, MAX_RETRIES,
};
use dtvmgr::syoboi::client::{classify_status, StatusKind};
use dtvmgr::syoboi::rate_limiter::{WaitPhase, SECOND_NANOS};
use dtvmgr::syoboi::xml::{
    deserialize_empty_string_as_none, deserialize_empty_string_as_none_i32,
    deserialize_empty_string_as_none_u32, ApiResult, ChGroupItems, ChGroupLookupResponse, ChItems,
    ChLookupResponse, ProgItems, ProgLookupResponse, TitleItems, TitleLookupResponse,
};
use dtvmgr::syoboi::{
    BuildError, CalendarTime, ProgLookupParams, SyoboiChannel, SyoboiChannelGroup, SyoboiClient,
    SyoboiProgram, SyoboiTitle, TimeRange,
};

fn title(tid: u32, name: &str) -> SyoboiTitle {
    SyoboiTitle {
        tid,
        last_update: String::from("2024-01-01 00:00:00"),
        title: String::from(name),
        short_title: None,
        title_yomi: None,
        title_en: None,
        comment: None,
        cat: Some(1),
        title_flag: Some(0),
        first_year: Some(2024),
        first_month: Some(1),
        first_end_year: None,
        first_end_month: None,
        first_ch: None,
        keywords: None,
        user_point: None,
        user_point_rank: None,
        sub_titles: None,
    }
}

fn pairs(query: &[(&'static str, String)]) -> Vec<(String, String)> {
    query
        .iter()
        .map(|(k, v)| (String::from(*k), v.clone()))
        .collect()
}

fn pair(name: &str, value: &str) -> (String, String) {
    (String::from(name), String::from(value))
}

#[test]
fn test_builder_requires_user_agent() {
    let result = SyoboiClient::builder().build();

    assert!(result.is_err());
    assert!(result
        .unwrap_err()
        .to_string()
        .contains("user_agent is required"));
}

#[test]
fn test_builder_with_user_agent_succeeds() {
    let result = SyoboiClient::builder().user_agent("test/0.0.0").build();

    assert!(result.is_ok());
    let client = result.unwrap();
    assert_eq!(client.base_url().as_str(), "https://cal.syoboi.jp/db.php");
    assert_eq!(client.user_agent(), "test/0.0.0");
}

#[test]
fn test_builder_with_custom_base_url() {
    let custom_url = url::Url::parse("http://localhost:8080/db.php").unwrap();

    let client = SyoboiClient::builder()
        .base_url(custom_url.clone())
        .user_agent("test/0.0.0")
        .build()
        .unwrap();

    assert_eq!(*client.base_url(), custom_url);
}

#[test]
fn builder_sets_the_limits_of_the_limiter() {
    let mut client = SyoboiClient::builder()
        .user_agent("test/0.0.0")
        .min_interval(100_000_000)
        .hourly_limit(1)
        .daily_limit(5)
        .build()
        .unwrap();

    let mut clock = 0u64;
    for phase in [
        WaitPhase::Spacing,
        WaitPhase::Hourly,
        WaitPhase::Daily,
        WaitPhase::Record,
    ] {
        clock += client.wait(phase, clock).delay;
    }
    assert_eq!(clock, 0);
    assert_eq!(client.wait(WaitPhase::Spacing, 0).delay, 100_000_000);
    assert_eq!(
        client.wait(WaitPhase::Hourly, 0).delay,
        3600 * SECOND_NANOS
    );
    assert_eq!(client.wait(WaitPhase::Daily, 0).delay, 0);
}

#[test]
fn build_errors_have_their_messages() {
    assert_eq!(
        BuildError::UserAgentRequired.to_string(),
        "user_agent is required"
    );
    assert_eq!(
        BuildError::InvalidBaseUrl.to_string(),
        "invalid default base URL"
    );
}

#[test]
fn test_parse_title_response_without_result() {
    let response = TitleLookupResponse {
        result: None,
        title_items: Some(TitleItems {
            items: vec![title(100, "No Result Element")],
        }),
    };

    let titles = parse_title_response("<xml/>", Ok(response)).unwrap();

    assert_eq!(titles.len(), 1);
    assert_eq!(titles[0].title, "No Result Element");
}

#[test]
fn test_parse_empty_response() {
    let response = TitleLookupResponse {
        result: Some(ApiResult {
            code: 200,
            message: None,
        }),
        title_items: Some(TitleItems { items: vec![] }),
    };

    let titles = parse_title_response("<xml/>", Ok(response)).unwrap();

    assert!(titles.is_empty());
}

#[test]
fn test_parse_title_response_without_title_items() {
    let response = TitleLookupResponse {
        result: Some(ApiResult {
            code: 200,
            message: None,
        }),
        title_items: None,
    };

    let titles = parse_title_response("<xml/>", Ok(response)).unwrap();

    assert!(titles.is_empty());
}

#[test]
fn parse_responses_reject_a_result_code_other_than_200() {
    let rejected = || {
        Some(ApiResult {
            code: 400,
            message: Some(String::from("bad \"request\"")),
        })
    };

    let titles = parse_title_response(
        "",
        Ok(TitleLookupResponse {
            result: rejected(),
            title_items: Some(TitleItems {
                items: vec![title(1, "t")],
            }),
        }),
    );
    let programs = parse_prog_response(
        "",
        Ok(ProgLookupResponse {
            result: rejected(),
            prog_items: Some(ProgItems { items: vec![] }),
        }),
    );
    let channels = parse_ch_response(
        "",
        Ok(ChLookupResponse {
            result: rejected(),
            ch_items: Some(ChItems { items: vec![] }),
        }),
    );
    let groups = parse_ch_group_response(
        "",
        Ok(ChGroupLookupResponse {
            result: rejected(),
            ch_group_items: Some(ChGroupItems { items: vec![] }),
        }),
    );

    assert_eq!(
        titles.unwrap_err().to_string(),
        "TitleLookup API error: code=400, message=Some(\"bad \\\"request\\\"\")"
    );
    assert!(programs
        .unwrap_err()
        .to_string()
        .starts_with("ProgLookup API error: code=400"));
    assert!(channels
        .unwrap_err()
        .to_string()
        .starts_with("ChLookup API error: code=400"));
    assert!(groups
        .unwrap_err()
        .to_string()
        .starts_with("ChGroupLookup API error: code=400"));
}

#[test]
fn parse_responses_hand_out_the_items() {
    let program = SyoboiProgram {
        pid: 574_823,
        tid: 6309,
        st_time: String::from("2022-04-09 23:00:00"),
        st_offset: None,
        ed_time: String::from("2022-04-09 23:30:00"),
        count: Some(1),
        sub_title: None,
        prog_comment: None,
        flag: None,
        deleted: None,
        warn: None,
        ch_id: 7,
        revision: None,
        last_update: None,
        st_sub_title: Some(String::from("オペレーション〈梟(ストリクス)〉")),
    };
    let channel = SyoboiChannel {
        ch_id: 1,
        ch_gid: Some(11),
        ch_name: String::from("NHK総合"),
        ch_comment: None,
        ch_url: None,
        last_update: None,
        ch_iepg_name: Some(String::from("ＮＨＫ総合")),
        ch_epg_url: None,
        ch_number: Some(1),
    };
    let group = SyoboiChannelGroup {
        ch_gid: 1,
        ch_group_name: String::from("テレビ 関東"),
        ch_group_comment: None,
        ch_group_order: 1200,
    };

    let programs = parse_prog_response(
        "",
        Ok(ProgLookupResponse {
            result: None,
            prog_items: Some(ProgItems {
                items: vec![program],
            }),
        }),
    )
    .unwrap();
    let channels = parse_ch_response(
        "",
        Ok(ChLookupResponse {
            result: Some(ApiResult {
                code: 200,
                message: None,
            }),
            ch_items: Some(ChItems {
                items: vec![channel],
            }),
        }),
    )
    .unwrap();
    let groups = parse_ch_group_response(
        "",
        Ok(ChGroupLookupResponse {
            result: None,
            ch_group_items: Some(ChGroupItems { items: vec![group] }),
        }),
    )
    .unwrap();

    assert_eq!(programs[0].pid, 574_823);
    assert_eq!(programs[0].sub_title, None);
    assert_eq!(channels[0].ch_name, "NHK総合");
    assert_eq!(groups[0].ch_group_order, 1200);
    assert!(parse_prog_response(
        "",
        Ok(ProgLookupResponse {
            result: None,
            prog_items: None
        })
    )
    .unwrap()
    .is_empty());
}

#[test]
fn a_body_that_does_not_decode_is_shown_in_part() {
    let body = "x".repeat(700);

    let error = parse_title_response(&body, Err(String::from("unexpected end"))).unwrap_err();

    match &error {
        ApiError::DecodeFailed {
            command,
            body_len,
            preview,
            detail,
        } => {
            assert_eq!(command, "TitleLookup");
            assert_eq!(*body_len, 700);
            assert_eq!(preview.len(), 500);
            assert_eq!(detail, "unexpected end");
        }
        _ => panic!("expected a decoding error"),
    }
    assert_eq!(
        error.to_string(),
        format!("TitleLookup XML decoding failed (len=700): {}", "x".repeat(500))
    );
    assert!(matches!(
        xml_decode_error("ChLookup", "short", String::new()),
        ApiError::DecodeFailed { body_len: 5, .. }
    ));
}

#[test]
fn body_preview_never_cuts_a_character() {
    let ascii = "a".repeat(499);
    let body = format!("{ascii}あいう");

    assert_eq!(body_preview(&body), ascii);
    assert_eq!(body_preview("短い"), "短い");
    assert_eq!(body_preview(""), "");
    assert_eq!(body_preview(&"b".repeat(500)), "b".repeat(500));
}

#[test]
fn check_api_result_passes_200_and_absence() {
    let ok = ApiResult {
        code: 200,
        message: None,
    };
    let bad = ApiResult {
        code: 404,
        message: None,
    };

    assert!(check_api_result(Some(&ok), "TitleLookup").is_ok());
    assert!(check_api_result(None, "TitleLookup").is_ok());
    assert_eq!(
        check_api_result(Some(&bad), "TitleLookup")
            .unwrap_err()
            .to_string(),
        "TitleLookup API error: code=404, message=None"
    );
}

#[test]
fn test_deserialize_empty_string_as_none() {
    assert_eq!(deserialize_empty_string_as_none(Some(String::new())), None);
    assert_eq!(
        deserialize_empty_string_as_none(Some(String::from("hello"))).as_deref(),
        Some("hello")
    );
    assert_eq!(deserialize_empty_string_as_none(None), None);
}

#[test]
fn test_deserialize_empty_string_as_none_u32() {
    assert_eq!(
        deserialize_empty_string_as_none_u32(Some(String::new())).unwrap(),
        None
    );
    assert_eq!(
        deserialize_empty_string_as_none_u32(Some(String::from("42"))).unwrap(),
        Some(42)
    );
    assert_eq!(deserialize_empty_string_as_none_u32(None).unwrap(), None);
    let error = deserialize_empty_string_as_none_u32(Some(String::from("-5"))).unwrap_err();
    assert_eq!(error.to_string(), "failed to parse u32: -5");
    assert!(deserialize_empty_string_as_none_u32(Some(String::from("4294967296"))).is_err());
    assert_eq!(
        deserialize_empty_string_as_none_u32(Some(String::from("+4294967295"))).unwrap(),
        Some(u32::MAX)
    );
}

#[test]
fn test_deserialize_empty_string_as_none_i32() {
    assert_eq!(
        deserialize_empty_string_as_none_i32(Some(String::new())).unwrap(),
        None
    );
    assert_eq!(
        deserialize_empty_string_as_none_i32(Some(String::from("-5"))).unwrap(),
        Some(-5)
    );
    let error = deserialize_empty_string_as_none_i32(Some(String::from("5 "))).unwrap_err();
    assert_eq!(error.to_string(), "failed to parse i32: 5 ");
    assert_eq!(
        deserialize_empty_string_as_none_i32(Some(String::from("-2147483648"))).unwrap(),
        Some(i32::MIN)
    );
    assert!(deserialize_empty_string_as_none_i32(Some(String::from("2147483648"))).is_err());
    assert!(deserialize_empty_string_as_none_i32(Some(String::from("-"))).is_err());
}

#[test]
fn retry_gives_up_after_the_first_attempt_and_three_more() {
    let mut retry = RequestRetry::new("TitleLookup");
    let mut waited = 0;

    for attempt in 0..=MAX_RETRIES {
        assert_eq!(retry.begin_attempt().unwrap(), attempt);
        let action = retry.record::<u8>(AttemptEvent::SendFailed {
            detail: format!("refused {attempt}"),
        });
        match action {
            RetryAction::Backoff { secs } => waited += secs,
            _ => panic!("expected a pause"),
        }
    }
    let error = retry.begin_attempt().unwrap_err();

    assert_eq!(waited, 8);
    assert_eq!(retry.attempts(), 4);
    assert_eq!(error.to_string(), "TitleLookup request failed");
    assert!(matches!(
        error,
        ApiError::RequestFailed { detail, .. } if detail == "refused 3"
    ));
}

#[test]
fn retry_without_an_error_fails_with_the_fallback() {
    let mut retry = RequestRetry::new("ChLookup");
    for _ in 0..=MAX_RETRIES {
        retry.begin_attempt().unwrap();
        let action = retry.record::<u8>(AttemptEvent::Answered {
            status: 200,
            retry_after: None,
        });
        assert!(matches!(action, RetryAction::ReadBody));
    }

    let error = retry.begin_attempt().unwrap_err();

    assert_eq!(error.to_string(), "ChLookup failed after retries");
}

#[test]
fn statuses_fall_into_three_kinds() {
    assert!(matches!(classify_status(200), StatusKind::Success));
    assert!(matches!(classify_status(299), StatusKind::Success));
    assert!(matches!(classify_status(429), StatusKind::Throttled));
    assert!(matches!(classify_status(199), StatusKind::Failure));
    assert!(matches!(classify_status(300), StatusKind::Failure));
    assert!(matches!(classify_status(404), StatusKind::Failure));
    assert!(matches!(classify_status(500), StatusKind::Failure));
    assert!(matches!(classify_status(0), StatusKind::Failure));
}

#[test]
fn an_error_status_asks_for_the_error_body() {
    let mut retry = RequestRetry::new("TitleLookup");

    for status in [199u16, 300, 400, 404, 500, 503] {
        let action = retry.record::<u8>(AttemptEvent::Answered {
            status,
            retry_after: Some(String::from("30")),
        });
        assert!(matches!(action, RetryAction::ReadErrorBody));
    }
}

#[test]
fn an_error_status_ends_the_request_with_the_status_and_the_message() {
    let mut retry = RequestRetry::new("TitleLookup");
    retry.begin_attempt().unwrap();

    let action = retry.record::<u8>(AttemptEvent::ErrorBody {
        status: 500,
        body: Some(String::from("<x/>")),
        envelope: Some(ApiResult {
            code: 400,
            message: Some(String::from("bad TID")),
        }),
    });

    match action {
        RetryAction::Fail { error } => {
            assert_eq!(
                error.to_string(),
                "TitleLookup failed (HTTP 500): code=400, message=Some(\"bad TID\")"
            );
            assert!(matches!(
                error,
                ApiError::StatusRejected {
                    status: 500,
                    code: 400,
                    ..
                }
            ));
        }
        _ => panic!("expected the request to fail"),
    }
    assert_eq!(retry.attempts(), 1);
}

#[test]
fn an_error_status_without_a_result_shows_the_body() {
    let mut retry = RequestRetry::new("ProgLookup");

    let plain = retry.record::<u8>(AttemptEvent::ErrorBody {
        status: 503,
        body: Some(String::from("Service Unavailable")),
        envelope: None,
    });
    let unread = retry.record::<u8>(AttemptEvent::ErrorBody {
        status: 502,
        body: None,
        envelope: None,
    });
    let long = retry.record::<u8>(AttemptEvent::ErrorBody {
        status: 500,
        body: Some("x".repeat(600)),
        envelope: None,
    });

    match plain {
        RetryAction::Fail { error } => assert_eq!(
            error.to_string(),
            "ProgLookup failed (HTTP 503): Service Unavailable"
        ),
        _ => panic!("expected the request to fail"),
    }
    match unread {
        RetryAction::Fail { error } => assert_eq!(
            error.to_string(),
            "ProgLookup failed (HTTP 502): <failed to read body>"
        ),
        _ => panic!("expected the request to fail"),
    }
    match long {
        RetryAction::Fail { error } => assert_eq!(
            error.to_string(),
            format!("ProgLookup failed (HTTP 500): {}", "x".repeat(500))
        ),
        _ => panic!("expected the request to fail"),
    }
}

#[test]
fn a_body_decoded_under_an_error_status_does_not_end_in_a_value() {
    let mut retry = RequestRetry::new("ChLookup");

    let failed = retry.record(AttemptEvent::Decoded {
        status: 500,
        outcome: Ok(3u8),
    });
    let throttled = retry.record(AttemptEvent::Decoded {
        status: 429,
        outcome: Ok(3u8),
    });

    match failed {
        RetryAction::Fail { error } => assert_eq!(
            error.to_string(),
            "ChLookup failed (HTTP 500): <failed to read body>"
        ),
        _ => panic!("expected the request to fail"),
    }
    assert!(matches!(throttled, RetryAction::Backoff { secs: 2 }));
}

#[test]
fn throttling_waits_as_long_as_the_service_asks_and_one_second_more() {
    let mut retry = RequestRetry::new("ProgLookup");
    let answered = |value: Option<&str>| AttemptEvent::<u8>::Answered {
        status: 429,
        retry_after: value.map(String::from),
    };

    assert!(matches!(
        retry.record(answered(Some("30"))),
        RetryAction::Backoff { secs: 31 }
    ));
    assert!(matches!(
        retry.record(answered(None)),
        RetryAction::Backoff { secs: 2 }
    ));
    assert!(matches!(
        retry.record(answered(Some("Wed, 21 Oct 2015 07:28:00 GMT"))),
        RetryAction::Backoff { secs: 2 }
    ));
    assert!(matches!(
        retry.record(answered(Some("18446744073709551615"))),
        RetryAction::Backoff { secs: u64::MAX }
    ));
    assert!(matches!(
        retry.record(answered(Some("18446744073709551616"))),
        RetryAction::Backoff { secs: 2 }
    ));
    for _ in 0..=MAX_RETRIES {
        retry.begin_attempt().unwrap();
    }
    assert_eq!(
        retry.begin_attempt().unwrap_err().to_string(),
        "ProgLookup rate limited (HTTP 429)"
    );
}

#[test]
fn a_decoded_value_ends_the_request_and_a_failure_is_retried() {
    let mut retry = RequestRetry::new("TitleLookup");

    let failed = retry.record::<u8>(AttemptEvent::Decoded {
        status: 200,
        outcome: Err(ApiError::Rejected {
            command: String::from("TitleLookup"),
            code: 500,
            message: None,
        }),
    });
    let unread = retry.record::<u8>(AttemptEvent::BodyFailed {
        detail: String::from("reset"),
    });
    let done = retry.record(AttemptEvent::Decoded {
        status: 200,
        outcome: Ok(9u8),
    });

    assert!(matches!(failed, RetryAction::Backoff { secs: 2 }));
    assert!(matches!(unread, RetryAction::Backoff { secs: 2 }));
    assert!(matches!(
        done,
        RetryAction::Done {
            status: 200,
            value: 9
        }
    ));
    for _ in 0..=MAX_RETRIES {
        retry.begin_attempt().unwrap();
    }
    assert_eq!(
        retry.begin_attempt().unwrap_err().to_string(),
        "failed to read TitleLookup response"
    );
}

#[test]
fn prog_query_lists_the_filters_in_order() {
    let params = ProgLookupParams {
        tids: Some(vec![6309, 7667]),
        ch_ids: Some(vec![1, 7, 19]),
        range: Some(TimeRange::new(
            CalendarTime::new(2024, 1, 1, 0, 0, 0),
            CalendarTime::new(2024, 2, 1, 12, 30, 5),
        )),
        st_time: Some(String::from("20240101_000000-")),
        last_update: Some(String::from("20240101_000000-")),
        join_sub_titles: true,
        fields: Some(vec![String::from("PID"), String::from("TID")]),
    };

    let query = build_prog_query(&params);

    assert_eq!(
        pairs(&query),
        vec![
            pair("Command", "ProgLookup"),
            pair("TID", "6309,7667"),
            pair("ChID", "1,7,19"),
            pair("Range", "20240101_000000-20240201_123005"),
            pair("StTime", "20240101_000000-"),
            pair("LastUpdate", "20240101_000000-"),
            pair("JOIN", "SubTitles"),
            pair("Fields", "PID,TID"),
        ]
    );
}

#[test]
fn prog_query_of_no_filter_is_the_command_and_the_join() {
    let mut params = ProgLookupParams::default();
    assert_eq!(
        pairs(&build_prog_query(&params)),
        vec![pair("Command", "ProgLookup"), pair("JOIN", "SubTitles")]
    );

    params.join_sub_titles = false;
    params.tids = Some(vec![]);
    assert_eq!(
        pairs(&build_prog_query(&params)),
        vec![pair("Command", "ProgLookup"), pair("TID", "")]
    );
}

#[test]
fn title_and_channel_queries() {
    assert_eq!(
        pairs(&build_title_query(&[6309], Some(&["TID", "Title", "Cat"]))),
        vec![
            pair("Command", "TitleLookup"),
            pair("TID", "6309"),
            pair("Fields", "TID,Title,Cat"),
        ]
    );
    assert_eq!(
        pairs(&build_title_query(&[1, 0, 4294967295], None)),
        vec![pair("Command", "TitleLookup"), pair("TID", "1,0,4294967295")]
    );
    assert_eq!(
        pairs(&build_channel_query(None)),
        vec![pair("Command", "ChLookup")]
    );
    assert_eq!(
        pairs(&build_channel_query(Some(&[3, 4]))),
        vec![pair("Command", "ChLookup"), pair("ChID", "3,4")]
    );
    assert_eq!(
        pairs(&build_channel_group_query(None)),
        vec![pair("Command", "ChGroupLookup"), pair("ChGID", "*")]
    );
    assert_eq!(
        pairs(&build_channel_group_query(Some(&[1, 2]))),
        vec![pair("Command", "ChGroupLookup"), pair("ChGID", "1,2")]
    );
}
