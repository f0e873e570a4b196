use dtvmgr::syoboi::parse_sub_titles;
use dtvmgr::tmdb::TmdbRateLimiter;
use std::time::Duration;

#[test]
fn test_parse_sub_titles() {
    let raw = "*01*オペレーション〈梟(ストリクス)〉\n*02*妻役を確保せよ\n*03*受験対策をせよ";

    let result = parse_sub_titles(raw);

    assert_eq!(result.len(), 3);
    assert_eq!(
        result[0],
        (1, String::from("オペレーション〈梟(ストリクス)〉"))
    );
    assert_eq!(result[1], (2, String::from("妻役を確保せよ")));
    assert_eq!(result[2], (3, String::from("受験対策をせよ")));
}

#[test]
fn test_parse_sub_titles_empty() {
    let result = parse_sub_titles("");

    assert!(result.is_empty());
}

#[test]
fn test_default_interval() {
    let limiter = TmdbRateLimiter::default_interval();

    assert_eq!(
        Duration::from_nanos(limiter.min_interval),
        Duration::from_millis(25)
    );
}

#[test]
fn sub_title_lines_are_trimmed_and_lines_without_an_entry_passed_over() {
    let raw = "  *01*first  \r\nno entry here\n*x*not a number\n\n*4294967296*too large\n*002*second*star\nprefix *7*seventh";

    let result = parse_sub_titles(raw);

    assert_eq!(
        result,
        vec![
            (1, String::from("first")),
            (2, String::from("second*star")),
            (7, String::from("seventh")),
        ]
    );
}

#[test]
fn sub_title_numbers_are_read_in_ascii_digits_only() {
    let result = parse_sub_titles("*１２*wide digits\n*12*plain");

    assert_eq!(result, vec![(12, String::from("plain"))]);
}
