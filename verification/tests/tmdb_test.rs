use dtvmgr::tmdb::client::{
    build_language_query, build_search_movie_query, build_search_tv_query, tv_details_path,
    tv_season_path, TmdbAction, TmdbBuildError, TmdbEvent, TmdbRetry,
};
use dtvmgr::tmdb::rate_limiter::SpacingPhase;
use dtvmgr::tmdb::{
    SearchMovieParams, SearchTvParams, TmdbClient, TmdbError, TmdbErrorResponse, TmdbGenre,
};

fn pairs(query: &[(&'static str, String)]) -> Vec<(String, String)> {
    query
        .iter()
        .map(|(k, v)| (String::from(*k), v.clone()))
        .collect()
}

fn pair(name: &str, value: &str) -> (String, String) {
    (String::from(name), String::from(value))
}

#[test]
fn test_builder_requires_api_token() {
    let result = TmdbClient::builder().user_agent("test/0.0.0").build();

    assert!(result.is_err());
    assert!(result
        .unwrap_err()
        .to_string()
        .contains("api_token is required"));
}

#[test]
fn client_test_builder_requires_user_agent() {
    let result = TmdbClient::builder().api_token("test-token").build();

    assert!(result.is_err());
    assert!(result
        .unwrap_err()
        .to_string()
        .contains("user_agent is required"));
}

#[test]
fn test_builder_with_required_fields_succeeds() {
    let result = TmdbClient::builder()
        .api_token("test-token")
        .user_agent("test/0.0.0")
        .build();

    assert!(result.is_ok());
    let client = result.unwrap();
    assert_eq!(client.base_url().as_str(), "https://api.themoviedb.org/3/");
    assert_eq!(client.api_token(), "test-token");
    assert_eq!(client.user_agent(), "test/0.0.0");
}

#[test]
fn client_test_builder_with_custom_base_url() {
    let custom_url = url::Url::parse("http://localhost:8080/3/").unwrap();

    let client = TmdbClient::builder()
        .base_url(custom_url.clone())
        .api_token("test-token")
        .user_agent("test/0.0.0")
        .build()
        .unwrap();

    assert_eq!(*client.base_url(), custom_url);
}

#[test]
fn tmdb_builder_paces_by_the_interval_that_was_set() {
    let mut paced = TmdbClient::builder()
        .api_token("t")
        .user_agent("u")
        .min_interval(40)
        .build()
        .unwrap();
    let mut default = TmdbClient::builder()
        .api_token("t")
        .user_agent("u")
        .build()
        .unwrap();

    paced.wait(SpacingPhase::Record, 100);
    default.wait(SpacingPhase::Record, 100);

    assert_eq!(paced.wait(SpacingPhase::Spacing, 110).delay, 30);
    assert_eq!(default.wait(SpacingPhase::Spacing, 110).delay, 24_999_990);
    assert_eq!(
        TmdbBuildError::InvalidBaseUrl.to_string(),
        "invalid default base URL"
    );
}

#[test]
fn test_http_429_retries() {
    let mut retry = TmdbRetry::new("search/tv");

    let first = retry.record::<u8>(TmdbEvent::Answered { status: 429 });
    let second = retry.record::<u8>(TmdbEvent::Answered { status: 429 });
    let third = retry.record::<u8>(TmdbEvent::Answered { status: 429 });
    let fourth = retry.record::<u8>(TmdbEvent::Answered { status: 429 });

    assert!(matches!(first, TmdbAction::Backoff { secs: 1 }));
    assert!(matches!(second, TmdbAction::Backoff { secs: 2 }));
    assert!(matches!(third, TmdbAction::Backoff { secs: 3 }));
    match fourth {
        TmdbAction::Fail { error } => assert_eq!(
            error.to_string(),
            "TMDB API rate limit exceeded after 3 retries: search/tv"
        ),
        _ => panic!("expected the request to fail"),
    }
}

#[test]
fn test_http_error_returns_tmdb_error() {
    let mut retry = TmdbRetry::new("tv/1");

    let head = retry.record::<u8>(TmdbEvent::Answered { status: 401 });
    let with_envelope = retry.record::<u8>(TmdbEvent::ErrorBody {
        status: 401,
        body: Some(String::from("{..}")),
        envelope: Some(TmdbErrorResponse {
            status_code: 7,
            status_message: String::from("Invalid API key: You must be granted a valid key."),
            success: false,
        }),
    });
    let without = retry.record::<u8>(TmdbEvent::ErrorBody {
        status: 502,
        body: Some(String::from("Bad Gateway")),
        envelope: None,
    });
    let unread = retry.record::<u8>(TmdbEvent::ErrorBody {
        status: 500,
        body: None,
        envelope: None,
    });

    assert!(matches!(head, TmdbAction::ReadErrorBody));
    match with_envelope {
        TmdbAction::Fail { error } => assert_eq!(
            error.to_string(),
            "TMDB API error (HTTP 401): code=7, message=Invalid API key: You must be granted a valid key."
        ),
        _ => panic!("expected the request to fail"),
    }
    match without {
        TmdbAction::Fail { error } => {
            assert_eq!(error.to_string(), "TMDB API error (HTTP 502): Bad Gateway")
        }
        _ => panic!("expected the request to fail"),
    }
    match unread {
        TmdbAction::Fail { error } => assert_eq!(
            error.to_string(),
            "TMDB API error (HTTP 500): <failed to read body>"
        ),
        _ => panic!("expected the request to fail"),
    }
}

#[test]
fn a_success_asks_for_the_body_and_a_decoded_value_ends_the_request() {
    let mut retry = TmdbRetry::new("tv/1/season/2");

    assert!(matches!(
        retry.record::<u8>(TmdbEvent::Answered { status: 200 }),
        TmdbAction::ReadBody
    ));
    assert!(matches!(
        retry.record::<u8>(TmdbEvent::Answered { status: 299 }),
        TmdbAction::ReadBody
    ));
    assert!(matches!(
        retry.record::<u8>(TmdbEvent::Answered { status: 300 }),
        TmdbAction::ReadErrorBody
    ));
    assert!(matches!(
        retry.record::<u8>(TmdbEvent::Answered { status: 199 }),
        TmdbAction::ReadErrorBody
    ));
    assert!(matches!(
        retry.record(TmdbEvent::Decoded { outcome: Ok(5u8) }),
        TmdbAction::Done { value: 5 }
    ));
}

#[test]
fn a_request_that_cannot_be_built_ends_at_once() {
    let mut retry = TmdbRetry::new("p");

    let action = retry.record::<u8>(TmdbEvent::BuildFailed {
        detail: String::from("bad header"),
    });

    match action {
        TmdbAction::Fail { error } => {
            assert_eq!(error.to_string(), "failed to build request: p");
            assert!(matches!(
                error,
                TmdbError::BuildFailed { detail, .. } if detail == "bad header"
            ));
        }
        _ => panic!("expected the request to fail"),
    }
    assert_eq!(
        TmdbError::InvalidPath {
            path: String::from("::"),
            detail: String::new()
        }
        .to_string(),
        "failed to join URL path: ::"
    );
}

#[test]
fn a_failure_to_send_is_tried_again_three_times() {
    let mut retry = TmdbRetry::new("p");
    let failed = |n: u8| TmdbEvent::<u8>::SendFailed {
        detail: format!("refused {n}"),
    };

    assert!(matches!(
        retry.record(failed(0)),
        TmdbAction::Backoff { secs: 1 }
    ));
    assert!(matches!(
        retry.record(failed(1)),
        TmdbAction::Backoff { secs: 2 }
    ));
    assert!(matches!(
        retry.record(failed(2)),
        TmdbAction::Backoff { secs: 3 }
    ));
    match retry.record(failed(3)) {
        TmdbAction::Fail { error } => {
            assert_eq!(error.to_string(), "request failed: p");
            assert!(matches!(
                error,
                TmdbError::RequestFailed { detail, .. } if detail == "refused 3"
            ));
        }
        _ => panic!("expected the request to fail"),
    }
}

#[test]
fn a_body_that_cannot_be_read_or_decoded_is_tried_again() {
    let mut unread = TmdbRetry::new("p");
    let mut undecoded = TmdbRetry::new("q");

    for secs in 1..=3u64 {
        match unread.record::<u8>(TmdbEvent::BodyFailed {
            detail: String::from("reset"),
        }) {
            TmdbAction::Backoff { secs: asked } => assert_eq!(asked, secs),
            _ => panic!("expected a pause"),
        }
        match undecoded.record::<u8>(TmdbEvent::Decoded {
            outcome: Err(String::from("eof")),
        }) {
            TmdbAction::Backoff { secs: asked } => assert_eq!(asked, secs),
            _ => panic!("expected a pause"),
        }
    }
    match unread.record::<u8>(TmdbEvent::BodyFailed {
        detail: String::from("reset"),
    }) {
        TmdbAction::Fail { error } => {
            assert_eq!(error.to_string(), "failed to read response body: p")
        }
        _ => panic!("expected the request to fail"),
    }
    match undecoded.record::<u8>(TmdbEvent::Decoded {
        outcome: Err(String::from("eof")),
    }) {
        TmdbAction::Fail { error } => {
            assert_eq!(error.to_string(), "failed to decode JSON response: q");
            assert!(matches!(
                error,
                TmdbError::DecodeFailed { detail, .. } if detail == "eof"
            ));
        }
        _ => panic!("expected the request to fail"),
    }
}

#[test]
fn every_kind_of_retried_failure_draws_on_one_budget() {
    let mut retry = TmdbRetry::new("p");

    let first = retry.record::<u8>(TmdbEvent::SendFailed {
        detail: String::new(),
    });
    let second = retry.record::<u8>(TmdbEvent::Answered { status: 429 });
    let head = retry.record::<u8>(TmdbEvent::Answered { status: 200 });
    let third = retry.record::<u8>(TmdbEvent::Decoded {
        outcome: Err(String::from("eof")),
    });
    let fourth = retry.record::<u8>(TmdbEvent::Answered { status: 429 });

    assert!(matches!(first, TmdbAction::Backoff { secs: 1 }));
    assert!(matches!(second, TmdbAction::Backoff { secs: 2 }));
    assert!(matches!(head, TmdbAction::ReadBody));
    assert!(matches!(third, TmdbAction::Backoff { secs: 3 }));
    match fourth {
        TmdbAction::Fail { error } => assert_eq!(
            error.to_string(),
            "TMDB API rate limit exceeded after 3 retries: p"
        ),
        _ => panic!("expected the request to fail"),
    }
}

#[test]
fn a_value_decoded_after_a_retry_ends_the_request() {
    let mut retry = TmdbRetry::new("p");

    let failed = retry.record::<u8>(TmdbEvent::SendFailed {
        detail: String::new(),
    });
    let done = retry.record(TmdbEvent::Decoded { outcome: Ok(7u8) });

    assert!(matches!(failed, TmdbAction::Backoff { secs: 1 }));
    assert!(matches!(done, TmdbAction::Done { value: 7 }));
}

#[test]
fn search_params_start_with_defaults() {
    let tv = SearchTvParams::new("SPY×FAMILY");
    let movie = SearchMovieParams::new("すずめの戸締まり");

    assert_eq!(tv.query, "SPY×FAMILY");
    assert_eq!(tv.language, "en-US");
    assert_eq!(tv.page, 1);
    assert_eq!(tv.first_air_date_year, None);
    assert_eq!(tv.year, None);
    assert!(!tv.include_adult);
    assert_eq!(movie.query, "すずめの戸締まり");
    assert_eq!(movie.language, "en-US");
    assert_eq!(movie.page, 1);
    assert_eq!(movie.primary_release_year, None);
    assert_eq!(movie.region, None);
}

#[test]
fn search_queries_list_the_parameters_in_order() {
    let tv = SearchTvParams::new("spy")
        .language("ja-JP")
        .first_air_date_year(2022)
        .year(2023);
    let mut movie = SearchMovieParams::new("suzume").language("ja-JP").year(2022);
    movie.primary_release_year = Some(2021);
    movie.region = Some(String::from("JP"));
    movie.include_adult = true;

    assert_eq!(
        pairs(&build_search_tv_query(&tv)),
        vec![
            pair("query", "spy"),
            pair("language", "ja-JP"),
            pair("page", "1"),
            pair("include_adult", "false"),
            pair("first_air_date_year", "2022"),
            pair("year", "2023"),
        ]
    );
    assert_eq!(
        pairs(&build_search_movie_query(&movie)),
        vec![
            pair("query", "suzume"),
            pair("language", "ja-JP"),
            pair("page", "1"),
            pair("include_adult", "true"),
            pair("primary_release_year", "2021"),
            pair("year", "2022"),
            pair("region", "JP"),
        ]
    );
    assert_eq!(
        pairs(&build_search_tv_query(&SearchTvParams::new("x"))).len(),
        4
    );
    assert_eq!(
        pairs(&build_language_query("en-US")),
        vec![pair("language", "en-US")]
    );
}

#[test]
fn paths_of_details_and_seasons() {
    assert_eq!(tv_details_path(120_089), "tv/120089");
    assert_eq!(tv_season_path(120_089, 1), "tv/120089/season/1");
    assert_eq!(tv_details_path(0), "tv/0");
    assert_eq!(
        tv_season_path(u64::MAX, u32::MAX),
        "tv/18446744073709551615/season/4294967295"
    );
}

#[test]
fn test_parse_error_response() {
    let error = TmdbErrorResponse {
        status_code: 7,
        status_message: String::from("Invalid API key: You must be granted a valid key."),
        success: false,
    };
    let genre = TmdbGenre {
        id: 16,
        name: String::from("Animation"),
    };

    assert_eq!(error.status_code, 7);
    assert!(!error.success);
    assert!(error.status_message.contains("Invalid API key"));
    assert_eq!(genre.id, 16);
}

#[test]
fn request_addresses_are_joined_to_the_base() {
    let client = TmdbClient::builder()
        .api_token("t")
        .user_agent("u")
        .build()
        .unwrap();
    let custom = TmdbClient::builder()
        .base_url(url::Url::parse("http://localhost:8080/3/").unwrap())
        .api_token("t")
        .user_agent("u")
        .build()
        .unwrap();
    let opaque = TmdbClient::builder()
        .base_url(url::Url::parse("mailto:someone@example.com").unwrap())
        .api_token("t")
        .user_agent("u")
        .build()
        .unwrap();

    assert_eq!(
        client.request_url("search/tv").unwrap().as_str(),
        "https://api.themoviedb.org/3/search/tv"
    );
    assert_eq!(
        custom.request_url("tv/1/season/2").unwrap().as_str(),
        "http://localhost:8080/3/tv/1/season/2"
    );
    assert_eq!(
        opaque.request_url("tv/1").unwrap_err().to_string(),
        "failed to join URL path: tv/1"
    );
}
