//! The request executor of the metadata service: queries, the meaning of
//! an answer's status, and the retry on throttling.

use vstd::prelude::*;
use vstd::string::*;

use super::rate_limiter::{SpacingPhase, SpacingStep, TmdbRateLimiter, DEFAULT_MIN_INTERVAL};
use super::types::{SearchMovieParams, SearchTvParams, TmdbErrorResponse};
use crate::syoboi::client::{
    parse_url, parsed_url, query_view, url_error_message, url_error_text,
};
use crate::syoboi::params::optional_chars;
use crate::syoboi::rate_limiter::spacing_wait;
use crate::text::{decimal, decimal_text};

verus! {

/// Address that requests go to unless another is set.
pub const DEFAULT_BASE_URL: &'static str = "https://api.themoviedb.org/3/";

/// Number of times a throttled request is tried again.
pub const MAX_RETRIES: u32 = 3;

/// Seconds of pause per retry: the n-th retry waits n times as long.
pub const RETRY_BACKOFF_SECS: u64 = 1;

/// Status by which the service says that it is throttling.
pub const STATUS_TOO_MANY_REQUESTS: u16 = 429;

/// What stands for a body that could not be read.
pub const UNREADABLE_BODY: &'static str = "<failed to read body>";

/// How a request to the metadata service failed.
#[derive(Debug)]
pub enum TmdbError {
    /// The path could not be joined to the base address.
    InvalidPath { path: String, detail: String },
    /// The request could not be built.
    BuildFailed { path: String, detail: String },
    /// The request could not be sent.
    RequestFailed { path: String, detail: String },
    /// The service kept throttling through every retry.
    RateLimitExceeded { path: String },
    /// The service answered with an error status and its error envelope.
    Rejected { status: u16, code: u32, message: String },
    /// The service answered with an error status and this body.
    Refused { status: u16, body: String },
    /// The body of the answer could not be read.
    ReadFailed { path: String, detail: String },
    /// The body is no document of the expected shape.
    DecodeFailed { path: String, detail: String },
}

/// What happened in one attempt of a request, as far as it got.
pub enum TmdbEvent<T> {
    /// The request could not be built.
    BuildFailed { detail: String },
    /// The request could not be sent.
    SendFailed { detail: String },
    /// The head of the answer arrived with this status.
    Answered { status: u16 },
    /// The body of an error answer: its text where it could be read, and
    /// the error envelope where the text holds one.
    ErrorBody { status: u16, body: Option<String>, envelope: Option<TmdbErrorResponse> },
    /// The body of the answer could not be read.
    BodyFailed { detail: String },
    /// The body was read and decoded: the value, or the decoder's message.
    Decoded { outcome: Result<T, String> },
}

/// What the caller does next.
pub enum TmdbAction<T> {
    /// Read and decode the body of the answer.
    ReadBody,
    /// Read the body of the error answer and look for an error envelope.
    ReadErrorBody,
    /// Sleep for so many seconds, acquire the limiter anew, send again.
    Backoff { secs: u64 },
    /// Hand out the value; the request is over.
    Done { value: T },
    /// The request fails with this error.
    Fail { error: TmdbError },
}

/// The retry budget of one request.
#[derive(Debug)]
pub struct TmdbRetry {
    path: String,
    retries: u32,
}

/// Whether `status` is a success: 200 to 299.
pub open spec fn is_success(status: u16) -> bool {
    200 <= status <= 299
}

/// The text of a body, or what stands for one that could not be read.
pub open spec fn body_text(body: Option<String>) -> Seq<char> {
    match body {
        Some(text) => text@,
        None => UNREADABLE_BODY@,
    }
}

/// Seconds of pause before the retry that follows `retries` retries.
pub open spec fn retry_backoff(retries: nat) -> u64 {
    (RETRY_BACKOFF_SECS * (retries + 1)) as u64
}

/// Whether `event` is a failure that is tried again while the budget
/// lasts: the throttling status, a failure to send or to read, and a body
/// that does not decode.
pub open spec fn is_retried<T>(event: TmdbEvent<T>) -> bool {
    match event {
        TmdbEvent::SendFailed { detail } => true,
        TmdbEvent::Answered { status } => status == STATUS_TOO_MANY_REQUESTS,
        TmdbEvent::BodyFailed { detail } => true,
        TmdbEvent::Decoded { outcome } => outcome is Err,
        _ => false,
    }
}

/// The error that a request for `path` ends in where `event` comes after
/// the budget is spent.
pub open spec fn exhausted_error<T>(path: String, event: TmdbEvent<T>) -> TmdbError {
    match event {
        TmdbEvent::SendFailed { detail } => TmdbError::RequestFailed { path, detail },
        TmdbEvent::BodyFailed { detail } => TmdbError::ReadFailed { path, detail },
        TmdbEvent::Decoded { outcome } => TmdbError::DecodeFailed { path, detail: outcome->Err_0 },
        _ => TmdbError::RateLimitExceeded { path },
    }
}

/// Whether `action` is what follows `event` in a request for `path` that
/// has been retried `retries` times. A failure that is tried again asks
/// for a pause that grows with each retry, and ends the request once
/// `MAX_RETRIES` retries are spent. A success asks for the body, any other
/// status for the error body, which ends the request with what it says. A
/// request that cannot be built ends at once; a decoded value ends the
/// request.
pub open spec fn follows<T>(path: String, retries: nat, event: TmdbEvent<T>, action: TmdbAction<T>) -> bool {
    if is_retried(event) {
        if retries >= MAX_RETRIES {
            action == TmdbAction::<T>::Fail { error: exhausted_error(path, event) }
        } else {
            action == TmdbAction::<T>::Backoff { secs: retry_backoff(retries) }
        }
    } else {
        match event {
            TmdbEvent::BuildFailed { detail } => action == TmdbAction::<T>::Fail {
                error: TmdbError::BuildFailed { path, detail },
            },
            TmdbEvent::Answered { status } => if is_success(status) {
                action is ReadBody
            } else {
                action is ReadErrorBody
            },
            TmdbEvent::ErrorBody { status, body, envelope } => match envelope {
                Some(found) => action == TmdbAction::<T>::Fail {
                    error: TmdbError::Rejected {
                        status,
                        code: found.status_code,
                        message: found.status_message,
                    },
                },
                None => action matches TmdbAction::Fail {
                    error: TmdbError::Refused { status: s, body: b },
                } && s == status && b@ == body_text(body),
            },
            TmdbEvent::Decoded { outcome } => action == TmdbAction::<T>::Done {
                value: outcome->Ok_0,
            },
            _ => false,
        }
    }
}

impl TmdbError {
    /// The message that describes this error.
    pub open spec fn message(self) -> Seq<char> {
        match self {
            TmdbError::InvalidPath { path, detail } => "failed to join URL path: "@ + path@,
            TmdbError::BuildFailed { path, detail } => "failed to build request: "@ + path@,
            TmdbError::RequestFailed { path, detail } => "request failed: "@ + path@,
            TmdbError::RateLimitExceeded { path } => "TMDB API rate limit exceeded after "@
                + decimal_text(MAX_RETRIES as nat) + " retries: "@ + path@,
            TmdbError::Rejected { status, code, message } => "TMDB API error (HTTP "@
                + decimal_text(status as nat) + "): code="@ + decimal_text(code as nat)
                + ", message="@ + message@,
            TmdbError::Refused { status, body } => "TMDB API error (HTTP "@ + decimal_text(
                status as nat,
            ) + "): "@ + body@,
            TmdbError::ReadFailed { path, detail } => "failed to read response body: "@ + path@,
            TmdbError::DecodeFailed { path, detail } => "failed to decode JSON response: "@
                + path@,
        }
    }

    /// Renders the error as text.
    pub fn to_string(&self) -> (text: String)
        ensures
            text@ == self.message(),
    {
        match self {
            TmdbError::InvalidPath { path, detail } => String::from_str(
                "failed to join URL path: ",
            ).concat(path.as_str()),
            TmdbError::BuildFailed { path, detail } => String::from_str(
                "failed to build request: ",
            ).concat(path.as_str()),
            TmdbError::RequestFailed { path, detail } => String::from_str("request failed: ")
                .concat(path.as_str()),
            TmdbError::RateLimitExceeded { path } => String::from_str(
                "TMDB API rate limit exceeded after ",
            ).concat(decimal(MAX_RETRIES as u64).as_str()).concat(" retries: ").concat(
                path.as_str(),
            ),
            TmdbError::Rejected { status, code, message } => String::from_str(
                "TMDB API error (HTTP ",
            ).concat(decimal(*status as u64).as_str()).concat("): code=").concat(
                decimal(*code as u64).as_str(),
            ).concat(", message=").concat(message.as_str()),
            TmdbError::Refused { status, body } => String::from_str("TMDB API error (HTTP ")
                .concat(decimal(*status as u64).as_str()).concat("): ").concat(body.as_str()),
            TmdbError::ReadFailed { path, detail } => String::from_str(
                "failed to read response body: ",
            ).concat(path.as_str()),
            TmdbError::DecodeFailed { path, detail } => String::from_str(
                "failed to decode JSON response: ",
            ).concat(path.as_str()),
        }
    }
}

impl TmdbRetry {
    /// The path of the request.
    pub closed spec fn path(&self) -> String {
        self.path
    }

    /// Number of retries made.
    pub closed spec fn retries(&self) -> nat {
        self.retries as nat
    }

    /// Starts the retry budget of one request for `path`.
    pub fn new(path: &str) -> (state: Self)
        ensures
            state.path()@ == path@,
            state.retries() == 0,
    {
        TmdbRetry { path: String::from_str(path), retries: 0 }
    }

    /// Counts one more retry and says whether it may be made: the pause
    /// before it, or `None` once `MAX_RETRIES` retries are spent.
    fn next_retry(&mut self) -> (pause: Option<u64>)
        ensures
            final(self).path() == old(self).path(),
            final(self).retries() == if old(self).retries() < u32::MAX {
                old(self).retries() + 1
            } else {
                old(self).retries()
            },
            pause == if old(self).retries() >= MAX_RETRIES {
                None
            } else {
                Some(retry_backoff(old(self).retries()))
            },
    {
        self.retries = self.retries.saturating_add(1);
        if self.retries > MAX_RETRIES {
            None
        } else {
            assert(RETRY_BACKOFF_SECS * self.retries <= 3);
            Some(RETRY_BACKOFF_SECS * (self.retries as u64))
        }
    }

    /// Takes in what happened in an attempt and says what to do next. The
    /// throttling status, a failure to send or to read and a body that
    /// does not decode are tried again `MAX_RETRIES` times, each time
    /// after a longer pause and with the limiter acquired anew; after that
    /// the request ends with the error of the last attempt. Any other
    /// error status ends the request with what the error body says, and a
    /// request that cannot be built ends it at once.
    pub fn record<T>(&mut self, event: TmdbEvent<T>) -> (action: TmdbAction<T>)
        ensures
            final(self).path() == old(self).path(),
            final(self).retries() == if is_retried(event) && old(self).retries() < u32::MAX {
                old(self).retries() + 1
            } else {
                old(self).retries()
            },
            follows(old(self).path(), old(self).retries(), event, action),
    {
        match event {
            TmdbEvent::BuildFailed { detail } => TmdbAction::Fail {
                error: TmdbError::BuildFailed { path: self.path.clone(), detail },
            },
            TmdbEvent::SendFailed { detail } => match self.next_retry() {
                Some(secs) => TmdbAction::Backoff { secs },
                None => TmdbAction::Fail {
                    error: TmdbError::RequestFailed { path: self.path.clone(), detail },
                },
            },
            TmdbEvent::Answered { status } => {
                if status == STATUS_TOO_MANY_REQUESTS {
                    match self.next_retry() {
                        Some(secs) => TmdbAction::Backoff { secs },
                        None => TmdbAction::Fail {
                            error: TmdbError::RateLimitExceeded { path: self.path.clone() },
                        },
                    }
                } else if 200 <= status && status <= 299 {
                    TmdbAction::ReadBody
                } else {
                    TmdbAction::ReadErrorBody
                }
            },
            TmdbEvent::ErrorBody { status, body, envelope } => match envelope {
                Some(found) => TmdbAction::Fail {
                    error: TmdbError::Rejected {
                        status,
                        code: found.status_code,
                        message: found.status_message,
                    },
                },
                None => {
                    let text = match body {
                        Some(text) => text,
                        None => String::from_str(UNREADABLE_BODY),
                    };
                    TmdbAction::Fail { error: TmdbError::Refused { status, body: text } }
                },
            },
            TmdbEvent::BodyFailed { detail } => match self.next_retry() {
                Some(secs) => TmdbAction::Backoff { secs },
                None => TmdbAction::Fail {
                    error: TmdbError::ReadFailed { path: self.path.clone(), detail },
                },
            },
            TmdbEvent::Decoded { outcome } => match outcome {
                Ok(value) => TmdbAction::Done { value },
                Err(detail) => match self.next_retry() {
                    Some(secs) => TmdbAction::Backoff { secs },
                    None => TmdbAction::Fail {
                        error: TmdbError::DecodeFailed { path: self.path.clone(), detail },
                    },
                },
            },
        }
    }
}

/// `true` or `false`, as the query carries a flag.
pub open spec fn flag_text(flag: bool) -> Seq<char> {
    if flag {
        "true"@
    } else {
        "false"@
    }
}

/// One query parameter with a number for its value, or none where the
/// number is absent.
pub open spec fn optional_number(name: Seq<char>, value: Option<u32>) -> Seq<
    (Seq<char>, Seq<char>),
> {
    match value {
        Some(n) => seq![(name, decimal_text(n as nat))],
        None => Seq::empty(),
    }
}

/// The query of a series search.
pub open spec fn search_tv_query(params: SearchTvParams) -> Seq<(Seq<char>, Seq<char>)> {
    seq![
        ("query"@, params.query@),
        ("language"@, params.language@),
        ("page"@, decimal_text(params.page as nat)),
        ("include_adult"@, flag_text(params.include_adult)),
    ] + optional_number("first_air_date_year"@, params.first_air_date_year) + optional_number(
        "year"@,
        params.year,
    )
}

/// The query of a movie search.
pub open spec fn search_movie_query(params: SearchMovieParams) -> Seq<(Seq<char>, Seq<char>)> {
    seq![
        ("query"@, params.query@),
        ("language"@, params.language@),
        ("page"@, decimal_text(params.page as nat)),
        ("include_adult"@, flag_text(params.include_adult)),
    ] + optional_number("primary_release_year"@, params.primary_release_year)
        + optional_number("year"@, params.year) + match params.region {
        Some(region) => seq![("region"@, region@)],
        None => Seq::empty(),
    }
}

/// Writes a flag as the query carries it.
fn flag_string(flag: bool) -> (text: String)
    ensures
        text@ == flag_text(flag),
{
    if flag {
        String::from_str("true")
    } else {
        String::from_str("false")
    }
}

/// Appends the parameter `name` with `value` to `query`.
fn push_parameter(query: &mut Vec<(&'static str, String)>, name: &'static str, value: String)
    ensures
        query_view(final(query)@) == query_view(old(query)@) + seq![(name@, value@)],
{
    query.push((name, value));
    proof {
        assert(query_view(query@) =~= query_view(old(query)@) + seq![(name@, value@)]);
    }
}

/// Appends the parameter `name` to `query` where `value` holds a number.
fn push_number(query: &mut Vec<(&'static str, String)>, name: &'static str, value: Option<u32>)
    ensures
        query_view(final(query)@) == query_view(old(query)@) + optional_number(name@, value),
{
    match value {
        Some(n) => {
            push_parameter(query, name, decimal(n as u64));
        },
        None => {
            proof {
                assert(query_view(query@) =~= query_view(old(query)@) + Seq::empty());
            }
        },
    }
}

/// Builds the query of a series search.
pub fn build_search_tv_query(params: &SearchTvParams) -> (query: Vec<(&'static str, String)>)
    ensures
        query_view(query@) == search_tv_query(*params),
{
    let mut query: Vec<(&'static str, String)> = Vec::new();
    proof {
        assert(query_view(query@) =~= Seq::empty());
    }
    push_parameter(&mut query, "query", params.query.clone());
    push_parameter(&mut query, "language", params.language.clone());
    push_parameter(&mut query, "page", decimal(params.page as u64));
    push_parameter(&mut query, "include_adult", flag_string(params.include_adult));
    proof {
        assert(query_view(query@) =~= seq![
            ("query"@, params.query@),
            ("language"@, params.language@),
            ("page"@, decimal_text(params.page as nat)),
            ("include_adult"@, flag_text(params.include_adult)),
        ]);
    }
    push_number(&mut query, "first_air_date_year", params.first_air_date_year);
    push_number(&mut query, "year", params.year);
    query
}

/// Builds the query of a movie search.
pub fn build_search_movie_query(params: &SearchMovieParams) -> (query: Vec<
    (&'static str, String),
>)
    ensures
        query_view(query@) == search_movie_query(*params),
{
    let mut query: Vec<(&'static str, String)> = Vec::new();
    proof {
        assert(query_view(query@) =~= Seq::empty());
    }
    push_parameter(&mut query, "query", params.query.clone());
    push_parameter(&mut query, "language", params.language.clone());
    push_parameter(&mut query, "page", decimal(params.page as u64));
    push_parameter(&mut query, "include_adult", flag_string(params.include_adult));
    proof {
        assert(query_view(query@) =~= seq![
            ("query"@, params.query@),
            ("language"@, params.language@),
            ("page"@, decimal_text(params.page as nat)),
            ("include_adult"@, flag_text(params.include_adult)),
        ]);
    }
    push_number(&mut query, "primary_release_year", params.primary_release_year);
    push_number(&mut query, "year", params.year);
    let ghost before = query_view(query@);
    if let Some(region) = &params.region {
        push_parameter(&mut query, "region", region.clone());
    }
    proof {
        assert(query_view(query@) =~= before + match params.region {
            Some(region) => seq![("region"@, region@)],
            None => Seq::empty(),
        });
    }
    query
}

/// The query of a details or season request: the language alone.
pub fn build_language_query(language: &str) -> (query: Vec<(&'static str, String)>)
    ensures
        query_view(query@) == seq![("language"@, language@)],
{
    let mut query: Vec<(&'static str, String)> = Vec::new();
    proof {
        assert(query_view(query@) =~= Seq::empty());
    }
    push_parameter(&mut query, "language", String::from_str(language));
    proof {
        assert(query_view(query@) =~= seq![("language"@, language@)]);
    }
    query
}

/// The path of a series: `tv/` and the key.
pub fn tv_details_path(series_id: u64) -> (path: String)
    ensures
        path@ == "tv/"@ + decimal_text(series_id as nat),
{
    String::from_str("tv/").concat(decimal(series_id).as_str())
}

/// The path of a season: `tv/`, the series key, `/season/` and the season
/// number.
pub fn tv_season_path(series_id: u64, season_number: u32) -> (path: String)
    ensures
        path@ == "tv/"@ + decimal_text(series_id as nat) + "/season/"@ + decimal_text(
            season_number as nat,
        ),
{
    String::from_str("tv/").concat(decimal(series_id).as_str()).concat("/season/").concat(
        decimal(season_number as u64).as_str(),
    )
}

/// The address of `path` under the address `base`, or why there is none:
/// the result of `Url::join`.
pub uninterp spec fn joined_url(base: url::Url, path: Seq<char>) -> Result<
    url::Url,
    url::ParseError,
>;

/// Joins `path` to `base`.
///
/// Trusted: returns what `Url::join` returns, under the name `joined_url`.
#[verifier::external_body]
fn join_url(base: &url::Url, path: &str) -> (joined: Result<url::Url, url::ParseError>)
    ensures
        joined == joined_url(*base, path@),
{
    base.join(path)
}

/// Picks the address of a request from what joining its path gave; where
/// the path could not be joined, the request fails with the path and with
/// `detail`, which says why.
pub fn joined_or_invalid(path: &str, joined: Option<url::Url>, detail: String) -> (url: Result<
    url::Url,
    TmdbError,
>)
    ensures
        match joined {
            Some(found) => url == Ok::<url::Url, TmdbError>(found),
            None => url matches Err(TmdbError::InvalidPath { path: bad, detail: why }) && bad@
                == path@ && why == detail,
        },
{
    match joined {
        Some(found) => Ok(found),
        None => Err(TmdbError::InvalidPath { path: String::from_str(path), detail }),
    }
}

/// Why a client could not be built.
#[derive(Debug, Clone, Copy, PartialEq, Eq, Structural)]
pub enum TmdbBuildError {
    /// No API token was set.
    ApiTokenRequired,
    /// No user agent was set.
    UserAgentRequired,
    /// The default address is no address.
    InvalidBaseUrl,
}

/// What a client of the metadata service is built from. The API token and
/// the user agent have no default.
#[derive(Debug)]
pub struct TmdbClientBuilder {
    base_url: Option<url::Url>,
    api_token: Option<String>,
    user_agent: Option<String>,
    min_interval: Option<u64>,
}

/// The settings of a builder as contracts see them.
pub struct TmdbBuilderView {
    /// Address that requests go to.
    pub base_url: Option<url::Url>,
    /// Bearer token of the requests.
    pub api_token: Option<Seq<char>>,
    /// User agent of the requests.
    pub user_agent: Option<Seq<char>>,
    /// Least nanoseconds between two requests.
    pub min_interval: Option<u64>,
}

/// A client of the metadata service: where its requests go, what they
/// carry and the limiter that paces them. Sending is the caller's.
#[derive(Debug)]
pub struct TmdbClient {
    base_url: url::Url,
    api_token: String,
    user_agent: String,
    rate_limiter: TmdbRateLimiter,
}

impl View for TmdbClientBuilder {
    type V = TmdbBuilderView;

    closed spec fn view(&self) -> TmdbBuilderView {
        TmdbBuilderView {
            base_url: self.base_url,
            api_token: optional_chars(self.api_token),
            user_agent: optional_chars(self.user_agent),
            min_interval: self.min_interval,
        }
    }
}

impl TmdbBuildError {
    /// The message that describes this error.
    pub open spec fn message(self) -> Seq<char> {
        match self {
            TmdbBuildError::ApiTokenRequired => "api_token is required"@,
            TmdbBuildError::UserAgentRequired => "user_agent is required"@,
            TmdbBuildError::InvalidBaseUrl => "invalid default base URL"@,
        }
    }

    /// Renders the error as text.
    pub fn to_string(&self) -> (text: String)
        ensures
            text@ == self.message(),
    {
        match self {
            TmdbBuildError::ApiTokenRequired => String::from_str("api_token is required"),
            TmdbBuildError::UserAgentRequired => String::from_str("user_agent is required"),
            TmdbBuildError::InvalidBaseUrl => String::from_str("invalid default base URL"),
        }
    }
}

impl TmdbClientBuilder {
    /// A builder with nothing set.
    pub fn new() -> (builder: Self)
        ensures
            builder@ == (TmdbBuilderView {
                base_url: None,
                api_token: None,
                user_agent: None,
                min_interval: None,
            }),
    {
        TmdbClientBuilder { base_url: None, api_token: None, user_agent: None, min_interval: None }
    }

    /// Sets the address that requests go to.
    pub fn base_url(self, url: url::Url) -> (builder: Self)
        ensures
            builder@ == (TmdbBuilderView { base_url: Some(url), ..self@ }),
    {
        let mut builder = self;
        builder.base_url = Some(url);
        builder
    }

    /// Sets the bearer token, which every client needs.
    pub fn api_token(self, token: &str) -> (builder: Self)
        ensures
            builder@ == (TmdbBuilderView { api_token: Some(token@), ..self@ }),
    {
        let mut builder = self;
        builder.api_token = Some(String::from_str(token));
        builder
    }

    /// Sets the user agent, which every client needs.
    pub fn user_agent(self, ua: &str) -> (builder: Self)
        ensures
            builder@ == (TmdbBuilderView { user_agent: Some(ua@), ..self@ }),
    {
        let mut builder = self;
        builder.user_agent = Some(String::from_str(ua));
        builder
    }

    /// Sets the least time between two requests, in nanoseconds.
    pub fn min_interval(self, interval: u64) -> (builder: Self)
        ensures
            builder@ == (TmdbBuilderView { min_interval: Some(interval), ..self@ }),
    {
        let mut builder = self;
        builder.min_interval = Some(interval);
        builder
    }

    /// Builds the client. Fails without an API token, then without a user
    /// agent; fails too where no address was set and the default is none.
    pub fn build(self) -> (client: Result<TmdbClient, TmdbBuildError>)
        ensures
            match self@.api_token {
                None => client == Err::<TmdbClient, TmdbBuildError>(
                    TmdbBuildError::ApiTokenRequired,
                ),
                Some(token) => match self@.user_agent {
                    None => client == Err::<TmdbClient, TmdbBuildError>(
                        TmdbBuildError::UserAgentRequired,
                    ),
                    Some(ua) => match (match self@.base_url {
                        Some(url) => Some(url),
                        None => parsed_url(DEFAULT_BASE_URL@),
                    }) {
                        None => client == Err::<TmdbClient, TmdbBuildError>(
                            TmdbBuildError::InvalidBaseUrl,
                        ),
                        Some(url) => client matches Ok(c) && c.address() == url && c.token()
                            == token && c.agent() == ua && c.limiter() == (TmdbRateLimiter {
                            min_interval: match self@.min_interval {
                                Some(nanos) => nanos,
                                None => DEFAULT_MIN_INTERVAL,
                            },
                            last_request: None,
                        }),
                    },
                },
            },
    {
        let api_token = match self.api_token {
            Some(token) => token,
            None => {
                return Err(TmdbBuildError::ApiTokenRequired);
            },
        };
        let user_agent = match self.user_agent {
            Some(ua) => ua,
            None => {
                return Err(TmdbBuildError::UserAgentRequired);
            },
        };
        let base_url = match self.base_url {
            Some(url) => url,
            None => match parse_url(DEFAULT_BASE_URL) {
                Ok(url) => url,
                Err(_) => {
                    return Err(TmdbBuildError::InvalidBaseUrl);
                },
            },
        };
        let rate_limiter = match self.min_interval {
            Some(nanos) => TmdbRateLimiter::new(nanos),
            None => TmdbRateLimiter::default_interval(),
        };
        Ok(TmdbClient { base_url, api_token, user_agent, rate_limiter })
    }
}

impl TmdbClient {
    /// The address that requests go to.
    pub closed spec fn address(&self) -> url::Url {
        self.base_url
    }

    /// The bearer token of the requests.
    pub closed spec fn token(&self) -> Seq<char> {
        self.api_token@
    }

    /// The user agent of the requests.
    pub closed spec fn agent(&self) -> Seq<char> {
        self.user_agent@
    }

    /// The state of the limiter.
    pub closed spec fn limiter(&self) -> TmdbRateLimiter {
        self.rate_limiter
    }

    /// A builder with nothing set.
    pub fn builder() -> (builder: TmdbClientBuilder)
        ensures
            builder@ == (TmdbBuilderView {
                base_url: None,
                api_token: None,
                user_agent: None,
                min_interval: None,
            }),
    {
        TmdbClientBuilder::new()
    }

    /// The address that requests go to.
    pub fn base_url(&self) -> (url: &url::Url)
        ensures
            *url == self.address(),
    {
        &self.base_url
    }

    /// The address of the request for `path`: the path joined to the base
    /// address. Where the path cannot be joined the request fails with the
    /// path and with what the url crate says of it.
    pub fn request_url(&self, path: &str) -> (url: Result<url::Url, TmdbError>)
        ensures
            match joined_url(self.address(), path@) {
                Ok(found) => url == Ok::<url::Url, TmdbError>(found),
                Err(e) => url matches Err(TmdbError::InvalidPath { path: bad, detail }) && bad@
                    == path@ && detail@ == url_error_text(e),
            },
    {
        match join_url(&self.base_url, path) {
            Ok(found) => joined_or_invalid(path, Some(found), String::new()),
            Err(e) => joined_or_invalid(path, None, url_error_message(&e)),
        }
    }

    /// The bearer token of the requests.
    pub fn api_token(&self) -> (token: &str)
        ensures
            token@ == self.token(),
    {
        self.api_token.as_str()
    }

    /// The user agent of the requests.
    pub fn user_agent(&self) -> (ua: &str)
        ensures
            ua@ == self.agent(),
    {
        self.user_agent.as_str()
    }

    /// Runs one phase of acquiring the limiter of this client at the clock
    /// sample `now`.
    pub fn wait(&mut self, phase: SpacingPhase, now: u64) -> (step: SpacingStep)
        ensures
            final(self).address() == old(self).address(),
            final(self).token() == old(self).token(),
            final(self).agent() == old(self).agent(),
            final(self).limiter().min_interval == old(self).limiter().min_interval,
            match phase {
                SpacingPhase::Spacing => final(self).limiter() == old(self).limiter()
                    && step.delay == spacing_wait(
                    old(self).limiter().last_request,
                    old(self).limiter().min_interval,
                    now,
                ) && step.next == Some(SpacingPhase::Record),
                SpacingPhase::Record => final(self).limiter().last_request == Some(now)
                    && step.delay == 0 && step.next is None,
            },
    {
        self.rate_limiter.wait(phase, now)
    }
}

} // verus!
