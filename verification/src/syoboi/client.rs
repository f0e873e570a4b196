//! The request executor of the schedule service: what one attempt means
//! for the next, and the errors that a request can end in.

use vstd::prelude::*;
use vstd::string::*;
use vstd::utf8::*;

use super::params::{optional_chars, optional_numbers, optional_texts, ProgLookupParams};
use super::rate_limiter::{
    delay_of, phase_after, state_after, LimiterView, SyoboiRateLimiter, WaitPhase, WaitStep,
    SECOND_NANOS,
};
use super::types::{SyoboiChannel, SyoboiChannelGroup, SyoboiProgram, SyoboiTitle};
use super::xml::{
    ApiResult, ChGroupLookupResponse, ChLookupResponse, ProgLookupResponse, TitleLookupResponse,
};
use crate::text::{
    decimal, join_numbers, join_strs, join_texts, joined_decimals, joined_texts, parse_u64,
    unsigned_decimal,
};

verus! {

/// How a request to the schedule service failed.
#[derive(Debug)]
pub enum ApiError {
    /// The request could not be sent; `detail` is the transport's message.
    RequestFailed { command: String, detail: String },
    /// The service answered with its throttling status.
    RateLimited { command: String, status: u16 },
    /// The body of the answer could not be read.
    ReadFailed { command: String, detail: String },
    /// The body is no document of the expected shape. `preview` holds its
    /// first bytes, `body_len` its length in bytes.
    DecodeFailed { command: String, body_len: usize, preview: String, detail: String },
    /// The answer carries a result code other than 200.
    Rejected { command: String, code: u32, message: Option<String> },
    /// The service answered with an error status, and the body of the
    /// answer holds a result status with this code and message.
    StatusRejected { command: String, status: u16, code: u32, message: Option<String> },
    /// The service answered with an error status. `body` holds the first
    /// bytes of the body of the answer, or what stands for a body that
    /// could not be read.
    StatusRefused { command: String, status: u16, body: String },
    /// Every attempt failed without leaving an error behind.
    RetriesExhausted { command: String },
}

/// Address of the schedule service's site.
pub const SYOBOI_BASE_URL: &'static str = "https://cal.syoboi.jp";

/// Address that lookups go to unless another is set.
pub const DEFAULT_BASE_URL: &'static str = "https://cal.syoboi.jp/db.php";

/// Number of times a failed request is tried again.
pub const MAX_RETRIES: u32 = 3;

/// Seconds to wait before a request is tried again.
pub const RETRY_DELAY_SECS: u64 = 2;

/// Status by which the service says that it is throttling.
pub const STATUS_TOO_MANY_REQUESTS: u16 = 429;

/// Most bytes of a body that an error shows.
pub const PREVIEW_BYTES: usize = 500;

/// What stands for a body that could not be read.
pub const UNREADABLE_BODY: &'static str = "<failed to read body>";

/// What happened in one attempt of a request, as far as it got.
pub enum AttemptEvent<T> {
    /// The request could not be sent.
    SendFailed { detail: String },
    /// The head of the answer arrived, with this status and, where the
    /// answer carries one that is text, this `Retry-After` value.
    Answered { status: u16, retry_after: Option<String> },
    /// The body of an error answer: its text where it could be read, and
    /// the result status where the text holds one.
    ErrorBody { status: u16, body: Option<String>, envelope: Option<ApiResult> },
    /// The body of the answer could not be read.
    BodyFailed { detail: String },
    /// The body of the answer with this status was read and decoded, with
    /// this outcome.
    Decoded { status: u16, outcome: Result<T, ApiError> },
}

/// What the caller does next.
pub enum RetryAction<T> {
    /// Read and decode the body of the answer.
    ReadBody,
    /// Read the body of the error answer and look for a result status in
    /// it.
    ReadErrorBody,
    /// Sleep for so many seconds, then begin the next attempt.
    Backoff { secs: u64 },
    /// Hand out the value; the request is over.
    Done { status: u16, value: T },
    /// The request fails with this error; no further attempt is made.
    Fail { error: ApiError },
}

/// The retry budget of one request and the error of its last failed
/// attempt.
#[derive(Debug)]
pub struct RequestRetry {
    command: String,
    attempts: u32,
    last_error: Option<ApiError>,
}

/// The state of a request as contracts see it.
pub struct RetryView {
    /// Name of the lookup, for error messages.
    pub command: String,
    /// Number of attempts begun.
    pub attempts: nat,
    /// The error of the last failed attempt.
    pub last_error: Option<ApiError>,
}

/// Seconds to wait after a throttling answer: one more than its
/// `Retry-After` value where that is a number of seconds, the fixed delay
/// otherwise.
pub open spec fn throttle_delay(retry_after: Option<String>) -> int {
    match retry_after {
        None => RETRY_DELAY_SECS as int,
        Some(text) => match unsigned_decimal(text@) {
            None => RETRY_DELAY_SECS as int,
            Some(secs) => if secs < u64::MAX {
                (secs + 1) as int
            } else if secs == u64::MAX {
                u64::MAX as int
            } else {
                RETRY_DELAY_SECS as int
            },
        },
    }
}

/// What a status says of an answer.
#[derive(Debug, Clone, Copy, PartialEq, Eq, Structural)]
pub enum StatusKind {
    /// 200 to 299: the body holds the answer.
    Success,
    /// 429: the service is throttling; the attempt is made again.
    Throttled,
    /// Any other status: the request has failed for good.
    Failure,
}

/// What `status` says of an answer.
pub open spec fn status_kind(status: u16) -> StatusKind {
    if status == STATUS_TOO_MANY_REQUESTS {
        StatusKind::Throttled
    } else if 200 <= status <= 299 {
        StatusKind::Success
    } else {
        StatusKind::Failure
    }
}

/// The error that `event` leaves behind for the attempts to come, if it is
/// a failure that is tried again.
pub open spec fn error_of<T>(command: String, event: AttemptEvent<T>) -> Option<ApiError> {
    match event {
        AttemptEvent::SendFailed { detail } => Some(ApiError::RequestFailed { command, detail }),
        AttemptEvent::Answered { status, retry_after } => if status_kind(status)
            is Throttled {
            Some(ApiError::RateLimited { command, status })
        } else {
            None
        },
        AttemptEvent::ErrorBody { status, body, envelope } => None,
        AttemptEvent::BodyFailed { detail } => Some(ApiError::ReadFailed { command, detail }),
        AttemptEvent::Decoded { status, outcome } => match status_kind(status) {
            StatusKind::Success => match outcome {
                Ok(_) => None,
                Err(e) => Some(e),
            },
            StatusKind::Throttled => Some(ApiError::RateLimited { command, status }),
            StatusKind::Failure => None,
        },
    }
}

/// Whether `error` is the error of an answer with the error status
/// `status`: the code and message of the result status where the body
/// holds one, else the first bytes of the body, or what stands for a body
/// that could not be read.
pub open spec fn is_status_error(
    error: ApiError,
    command: String,
    status: u16,
    body: Option<String>,
    envelope: Option<ApiResult>,
) -> bool {
    match envelope {
        Some(found) => error == (ApiError::StatusRejected {
            command,
            status,
            code: found.code,
            message: found.message,
        }),
        None => error matches ApiError::StatusRefused { command: c, status: s, body: shown } && c
            == command && s == status && match body {
            Some(text) => encode_utf8(shown@) == preview_bytes(encode_utf8(text@)),
            None => shown@ == UNREADABLE_BODY@,
        },
    }
}

/// Whether `action` is what the caller does after `event` in a request of
/// the lookup `command`. The status decides: a throttling status asks for
/// a pause, a success for the body, and any other status ends the request
/// with an error that carries the status and what the body says. A
/// failure to send, to read or to decode asks for a pause; a value decoded
/// from a success ends the request.
pub open spec fn is_action_of<T>(command: String, event: AttemptEvent<T>, action: RetryAction<T>) -> bool {
    match event {
        AttemptEvent::SendFailed { detail } => action == RetryAction::<T>::Backoff {
            secs: RETRY_DELAY_SECS,
        },
        AttemptEvent::Answered { status, retry_after } => match status_kind(status) {
            StatusKind::Throttled => action == RetryAction::<T>::Backoff {
                secs: throttle_delay(retry_after) as u64,
            },
            StatusKind::Success => action is ReadBody,
            StatusKind::Failure => action is ReadErrorBody,
        },
        AttemptEvent::ErrorBody { status, body, envelope } => action is Fail && is_status_error(
            action->error,
            command,
            status,
            body,
            envelope,
        ),
        AttemptEvent::BodyFailed { detail } => action == RetryAction::<T>::Backoff {
            secs: RETRY_DELAY_SECS,
        },
        AttemptEvent::Decoded { status, outcome } => match status_kind(status) {
            StatusKind::Success => match outcome {
                Ok(value) => action == RetryAction::<T>::Done { status, value },
                Err(_) => action == RetryAction::<T>::Backoff { secs: RETRY_DELAY_SECS },
            },
            StatusKind::Throttled => action == RetryAction::<T>::Backoff {
                secs: RETRY_DELAY_SECS,
            },
            StatusKind::Failure => action is Fail && is_status_error(
                action->error,
                command,
                status,
                None,
                None,
            ),
        },
    }
}

impl View for RequestRetry {
    type V = RetryView;

    closed spec fn view(&self) -> RetryView {
        RetryView {
            command: self.command,
            attempts: self.attempts as nat,
            last_error: self.last_error,
        }
    }
}

/// Tells what `status` says of an answer.
pub fn classify_status(status: u16) -> (kind: StatusKind)
    ensures
        kind == status_kind(status),
{
    if status == STATUS_TOO_MANY_REQUESTS {
        StatusKind::Throttled
    } else if 200 <= status && status <= 299 {
        StatusKind::Success
    } else {
        StatusKind::Failure
    }
}

/// Builds the error of an answer with an error status from what its body
/// held.
pub fn status_error(
    command: String,
    status: u16,
    body: Option<String>,
    envelope: Option<ApiResult>,
) -> (error: ApiError)
    ensures
        is_status_error(error, command, status, body, envelope),
{
    match envelope {
        Some(found) => ApiError::StatusRejected {
            command,
            status,
            code: found.code,
            message: found.message,
        },
        None => {
            let shown = match &body {
                Some(text) => String::from_str(body_preview(text.as_str())),
                None => String::from_str(UNREADABLE_BODY),
            };
            ApiError::StatusRefused { command, status, body: shown }
        },
    }
}

impl RequestRetry {
    /// Starts the retry budget of one request of the lookup `command`.
    pub fn new(command: &str) -> (state: Self)
        ensures
            state@.command@ == command@,
            state@.attempts == 0,
            state@.last_error is None,
    {
        RequestRetry { command: String::from_str(command), attempts: 0, last_error: None }
    }

    /// Begins the next attempt, if the budget allows one: the first and
    /// `MAX_RETRIES` more. The caller acquires the rate limiter and sends
    /// the request. After the last attempt the request fails with the
    /// error of that attempt.
    pub fn begin_attempt(&mut self) -> (begun: Result<u32, ApiError>)
        ensures
            final(self)@.command == old(self)@.command,
            old(self)@.attempts <= MAX_RETRIES ==> begun == Ok::<u32, ApiError>(
                old(self)@.attempts as u32,
            ) && final(self)@.attempts == old(self)@.attempts + 1 && final(self)@.last_error
                == old(self)@.last_error,
            old(self)@.attempts > MAX_RETRIES ==> final(self)@.attempts == old(self)@.attempts
                && final(self)@.last_error is None && begun == Err::<u32, ApiError>(
                match old(self)@.last_error {
                    Some(e) => e,
                    None => ApiError::RetriesExhausted { command: old(self)@.command },
                },
            ),
    {
        if self.attempts > MAX_RETRIES {
            return match self.last_error.take() {
                Some(e) => Err(e),
                None => Err(ApiError::RetriesExhausted { command: self.command.clone() }),
            };
        }
        let attempt = self.attempts;
        self.attempts = self.attempts + 1;
        Ok(attempt)
    }

    /// Takes in what happened in an attempt and says what to do next. The
    /// status of an answer decides: the throttling status leaves its error
    /// behind and asks for a pause, a success asks for the body, and any
    /// other status ends the request with an error that carries the status
    /// and what the body of the answer says. A failure to send or to read
    /// and a body that does not decode each leave their error behind and
    /// ask for a pause; a value decoded from a success ends the request.
    pub fn record<T>(&mut self, event: AttemptEvent<T>) -> (action: RetryAction<T>)
        ensures
            final(self)@.command == old(self)@.command,
            final(self)@.attempts == old(self)@.attempts,
            final(self)@.last_error == match error_of(old(self)@.command, event) {
                Some(e) => Some(e),
                None => old(self)@.last_error,
            },
            is_action_of(old(self)@.command, event, action),
    {
        match event {
            AttemptEvent::SendFailed { detail } => {
                self.last_error = Some(
                    ApiError::RequestFailed { command: self.command.clone(), detail },
                );
                RetryAction::Backoff { secs: RETRY_DELAY_SECS }
            },
            AttemptEvent::Answered { status, retry_after } => {
                match classify_status(status) {
                    StatusKind::Success => RetryAction::ReadBody,
                    StatusKind::Failure => RetryAction::ReadErrorBody,
                    StatusKind::Throttled => {
                        let secs = match &retry_after {
                            None => RETRY_DELAY_SECS,
                            Some(text) => match parse_u64(text.as_str()) {
                                Some(secs) => secs.saturating_add(1),
                                None => RETRY_DELAY_SECS,
                            },
                        };
                        self.last_error = Some(
                            ApiError::RateLimited { command: self.command.clone(), status },
                        );
                        RetryAction::Backoff { secs }
                    },
                }
            },
            AttemptEvent::ErrorBody { status, body, envelope } => RetryAction::Fail {
                error: status_error(self.command.clone(), status, body, envelope),
            },
            AttemptEvent::BodyFailed { detail } => {
                self.last_error = Some(
                    ApiError::ReadFailed { command: self.command.clone(), detail },
                );
                RetryAction::Backoff { secs: RETRY_DELAY_SECS }
            },
            AttemptEvent::Decoded { status, outcome } => match classify_status(status) {
                StatusKind::Success => match outcome {
                    Ok(value) => RetryAction::Done { status, value },
                    Err(e) => {
                        self.last_error = Some(e);
                        RetryAction::Backoff { secs: RETRY_DELAY_SECS }
                    },
                },
                StatusKind::Throttled => {
                    self.last_error = Some(
                        ApiError::RateLimited { command: self.command.clone(), status },
                    );
                    RetryAction::Backoff { secs: RETRY_DELAY_SECS }
                },
                StatusKind::Failure => RetryAction::Fail {
                    error: status_error(self.command.clone(), status, None, None),
                },
            },
        }
    }

    /// Number of attempts begun.
    pub fn attempts(&self) -> (count: u32)
        ensures
            count == self@.attempts,
    {
        self.attempts
    }
}

/// `Some("..")` or `None` as `{:?}` writes an optional text, quotes and
/// escapes included: what `Debug` for `Option<String>` displays.
pub uninterp spec fn debug_text(text: Option<Seq<char>>) -> Seq<char>;

/// The characters of an optional text.
pub open spec fn optional_text(text: Option<String>) -> Option<Seq<char>> {
    match text {
        Some(t) => Some(t@),
        None => None,
    }
}

/// Writes an optional text as `{:?}` does.
///
/// Trusted: returns what `format!("{:?}", ..)` gives, under the name
/// `debug_text`.
#[verifier::external_body]
fn debug_of(text: &Option<String>) -> (shown: String)
    ensures
        shown@ == debug_text(optional_text(*text)),
{
    format!("{:?}", text)
}

impl ApiError {
    /// The message that describes this error.
    pub open spec fn message(self) -> Seq<char> {
        match self {
            ApiError::RequestFailed { command, detail } => command@ + " request failed"@,
            ApiError::RateLimited { command, status } => command@ + " rate limited (HTTP "@
                + crate::text::decimal_text(status as nat) + ")"@,
            ApiError::ReadFailed { command, detail } => "failed to read "@ + command@
                + " response"@,
            ApiError::DecodeFailed { command, body_len, preview, detail } => command@
                + " XML decoding failed (len="@ + crate::text::decimal_text(body_len as nat)
                + "): "@ + preview@,
            ApiError::Rejected { command, code, message } => command@ + " API error: code="@
                + crate::text::decimal_text(code as nat) + ", message="@ + debug_text(
                optional_text(message),
            ),
            ApiError::StatusRejected { command, status, code, message } => command@
                + " failed (HTTP "@ + crate::text::decimal_text(status as nat) + "): code="@
                + crate::text::decimal_text(code as nat) + ", message="@ + debug_text(
                optional_text(message),
            ),
            ApiError::StatusRefused { command, status, body } => command@ + " failed (HTTP "@
                + crate::text::decimal_text(status as nat) + "): "@ + body@,
            ApiError::RetriesExhausted { command } => command@ + " failed after retries"@,
        }
    }

    /// Renders the error as text.
    pub fn to_string(&self) -> (text: String)
        ensures
            text@ == self.message(),
    {
        match self {
            ApiError::RequestFailed { command, detail } => String::from_str(command.as_str())
                .concat(" request failed"),
            ApiError::RateLimited { command, status } => String::from_str(command.as_str())
                .concat(" rate limited (HTTP ").concat(decimal(*status as u64).as_str()).concat(
                ")",
            ),
            ApiError::ReadFailed { command, detail } => String::from_str("failed to read ")
                .concat(command.as_str()).concat(" response"),
            ApiError::DecodeFailed { command, body_len, preview, detail } => String::from_str(
                command.as_str(),
            ).concat(" XML decoding failed (len=").concat(decimal(*body_len as u64).as_str())
                .concat("): ").concat(preview.as_str()),
            ApiError::Rejected { command, code, message } => String::from_str(command.as_str())
                .concat(" API error: code=").concat(decimal(*code as u64).as_str()).concat(
                ", message=",
            ).concat(debug_of(message).as_str()),
            ApiError::StatusRejected { command, status, code, message } => String::from_str(
                command.as_str(),
            ).concat(" failed (HTTP ").concat(decimal(*status as u64).as_str()).concat(
                "): code=",
            ).concat(decimal(*code as u64).as_str()).concat(", message=").concat(
                debug_of(message).as_str(),
            ),
            ApiError::StatusRefused { command, status, body } => String::from_str(
                command.as_str(),
            ).concat(" failed (HTTP ").concat(decimal(*status as u64).as_str()).concat("): ")
                .concat(body.as_str()),
            ApiError::RetriesExhausted { command } => String::from_str(command.as_str()).concat(
                " failed after retries",
            ),
        }
    }
}

/// The greatest character boundary of `bytes` at or below `index`.
pub open spec fn floor_boundary(bytes: Seq<u8>, index: int) -> int
    decreases index,
{
    if index <= 0 || is_char_boundary(bytes, index) {
        index
    } else {
        floor_boundary(bytes, index - 1)
    }
}

/// The bytes of a body that an error shows: its first `PREVIEW_BYTES`
/// bytes, less the bytes of a character that this would cut in two.
pub open spec fn preview_bytes(bytes: Seq<u8>) -> Seq<u8> {
    let most = if bytes.len() < PREVIEW_BYTES {
        bytes.len() as int
    } else {
        PREVIEW_BYTES as int
    };
    bytes.subrange(0, floor_boundary(bytes, most))
}

/// Cuts `body` down to what an error shows of it.
pub fn body_preview(body: &str) -> (preview: &str)
    ensures
        preview.spec_bytes() == preview_bytes(body.spec_bytes()),
{
    proof {
        encode_utf8_valid_utf8(body@);
        is_char_boundary_start_end_of_seq(body.spec_bytes());
    }
    let size = body.as_bytes().len();
    let mut end: usize = if size < PREVIEW_BYTES {
        size
    } else {
        PREVIEW_BYTES
    };
    let ghost most = end;
    while !body.is_char_boundary(end)
        invariant
            end <= body.spec_bytes().len(),
            valid_utf8(body.spec_bytes()),
            is_char_boundary(body.spec_bytes(), 0),
            floor_boundary(body.spec_bytes(), end as int) == floor_boundary(
                body.spec_bytes(),
                most as int,
            ),
        decreases end,
    {
        end = end - 1;
    }
    let (preview, _) = body.split_at(end);
    preview
}

/// Whether `error` says that the answer to `command` could not be decoded,
/// with the decoder's `detail` and a preview of `body`.
pub open spec fn is_decode_error(error: ApiError, command: Seq<char>, body: &str, detail: String) -> bool {
    error matches ApiError::DecodeFailed { command: c, body_len, preview, detail: d } && c@
        == command && body_len == body.spec_bytes().len() && encode_utf8(preview@)
        == preview_bytes(body.spec_bytes()) && d == detail
}

/// Whether `error` says that the answer to `command` was rejected with the
/// status `status`.
pub open spec fn is_rejection(error: ApiError, command: Seq<char>, status: ApiResult) -> bool {
    error matches ApiError::Rejected { command: c, code, message } && c@ == command && code
        == status.code && message == status.message
}

/// Checks the result status of an answer: a code other than 200 is an
/// error; an answer without a status passes.
pub fn check_api_result(result: Option<&ApiResult>, command: &str) -> (checked: Result<
    (),
    ApiError,
>)
    ensures
        match result {
            Some(status) => if status.code != 200 {
                checked is Err && is_rejection(checked->Err_0, command@, *status)
            } else {
                checked is Ok
            },
            None => checked is Ok,
        },
{
    match result {
        Some(status) => {
            if status.code != 200 {
                Err(
                    ApiError::Rejected {
                        command: String::from_str(command),
                        code: status.code,
                        message: status.message.clone(),
                    },
                )
            } else {
                Ok(())
            }
        },
        None => Ok(()),
    }
}

/// Builds the error of a body that did not decode: the lookup's name, the
/// body's length, a preview of the body and the decoder's message.
pub fn xml_decode_error(command: &str, xml: &str, detail: String) -> (error: ApiError)
    ensures
        is_decode_error(error, command@, xml, detail),
{
    ApiError::DecodeFailed {
        command: String::from_str(command),
        body_len: xml.as_bytes().len(),
        preview: String::from_str(body_preview(xml)),
        detail,
    }
}

/// Reads the titles out of a decoded answer. `decoded` is what decoding
/// `xml` gave: the envelope, or the decoder's message.
pub fn parse_title_response(xml: &str, decoded: Result<TitleLookupResponse, String>) -> (titles:
    Result<Vec<SyoboiTitle>, ApiError>)
    ensures
        match decoded {
            Err(detail) => titles is Err && is_decode_error(
                titles->Err_0,
                "TitleLookup"@,
                xml,
                detail,
            ),
            Ok(response) => match response.result {
                Some(status) if status.code != 200 => titles is Err && is_rejection(
                    titles->Err_0,
                    "TitleLookup"@,
                    status,
                ),
                _ => titles is Ok && titles->Ok_0@ == match response.title_items {
                    Some(found) => found.items@,
                    None => Seq::empty(),
                },
            },
        },
{
    match decoded {
        Err(detail) => Err(xml_decode_error("TitleLookup", xml, detail)),
        Ok(response) => {
            match check_api_result(response.result.as_ref(), "TitleLookup") {
                Err(e) => Err(e),
                Ok(_) => match response.title_items {
                    Some(found) => Ok(found.items),
                    None => Ok(Vec::new()),
                },
            }
        },
    }
}

/// Reads the programs out of a decoded answer. `decoded` is what decoding
/// `xml` gave: the envelope, or the decoder's message.
pub fn parse_prog_response(xml: &str, decoded: Result<ProgLookupResponse, String>) -> (programs:
    Result<Vec<SyoboiProgram>, ApiError>)
    ensures
        match decoded {
            Err(detail) => programs is Err && is_decode_error(
                programs->Err_0,
                "ProgLookup"@,
                xml,
                detail,
            ),
            Ok(response) => match response.result {
                Some(status) if status.code != 200 => programs is Err && is_rejection(
                    programs->Err_0,
                    "ProgLookup"@,
                    status,
                ),
                _ => programs is Ok && programs->Ok_0@ == match response.prog_items {
                    Some(found) => found.items@,
                    None => Seq::empty(),
                },
            },
        },
{
    match decoded {
        Err(detail) => Err(xml_decode_error("ProgLookup", xml, detail)),
        Ok(response) => {
            match check_api_result(response.result.as_ref(), "ProgLookup") {
                Err(e) => Err(e),
                Ok(_) => match response.prog_items {
                    Some(found) => Ok(found.items),
                    None => Ok(Vec::new()),
                },
            }
        },
    }
}

/// Reads the channels out of a decoded answer. `decoded` is what decoding
/// `xml` gave: the envelope, or the decoder's message.
pub fn parse_ch_response(xml: &str, decoded: Result<ChLookupResponse, String>) -> (channels:
    Result<Vec<SyoboiChannel>, ApiError>)
    ensures
        match decoded {
            Err(detail) => channels is Err && is_decode_error(
                channels->Err_0,
                "ChLookup"@,
                xml,
                detail,
            ),
            Ok(response) => match response.result {
                Some(status) if status.code != 200 => channels is Err && is_rejection(
                    channels->Err_0,
                    "ChLookup"@,
                    status,
                ),
                _ => channels is Ok && channels->Ok_0@ == match response.ch_items {
                    Some(found) => found.items@,
                    None => Seq::empty(),
                },
            },
        },
{
    match decoded {
        Err(detail) => Err(xml_decode_error("ChLookup", xml, detail)),
        Ok(response) => {
            match check_api_result(response.result.as_ref(), "ChLookup") {
                Err(e) => Err(e),
                Ok(_) => match response.ch_items {
                    Some(found) => Ok(found.items),
                    None => Ok(Vec::new()),
                },
            }
        },
    }
}

/// Reads the channel groups out of a decoded answer. `decoded` is what
/// decoding `xml` gave: the envelope, or the decoder's message.
pub fn parse_ch_group_response(xml: &str, decoded: Result<ChGroupLookupResponse, String>) -> (groups:
    Result<Vec<SyoboiChannelGroup>, ApiError>)
    ensures
        match decoded {
            Err(detail) => groups is Err && is_decode_error(
                groups->Err_0,
                "ChGroupLookup"@,
                xml,
                detail,
            ),
            Ok(response) => match response.result {
                Some(status) if status.code != 200 => groups is Err && is_rejection(
                    groups->Err_0,
                    "ChGroupLookup"@,
                    status,
                ),
                _ => groups is Ok && groups->Ok_0@ == match response.ch_group_items {
                    Some(found) => found.items@,
                    None => Seq::empty(),
                },
            },
        },
{
    match decoded {
        Err(detail) => Err(xml_decode_error("ChGroupLookup", xml, detail)),
        Ok(response) => {
            match check_api_result(response.result.as_ref(), "ChGroupLookup") {
                Err(e) => Err(e),
                Ok(_) => match response.ch_group_items {
                    Some(found) => Ok(found.items),
                    None => Ok(Vec::new()),
                },
            }
        },
    }
}

/// The names and values of a query as contracts see them.
pub open spec fn query_view(query: Seq<(&'static str, String)>) -> Seq<(Seq<char>, Seq<char>)> {
    query.map_values(|pair: (&'static str, String)| (pair.0@, pair.1@))
}

/// One query parameter, or none where `value` is absent.
pub open spec fn optional_parameter(name: Seq<char>, value: Option<Seq<char>>) -> Seq<
    (Seq<char>, Seq<char>),
> {
    match value {
        Some(v) => seq![(name, v)],
        None => Seq::empty(),
    }
}

/// The keys of an optional list, written in base ten with commas between.
pub open spec fn joined_keys(keys: Option<Seq<u32>>) -> Option<Seq<char>> {
    match keys {
        Some(k) => Some(joined_decimals(k, ","@)),
        None => None,
    }
}

/// The texts of an optional list with commas between.
pub open spec fn joined_fields(fields: Option<Seq<Seq<char>>>) -> Option<Seq<char>> {
    match fields {
        Some(f) => Some(joined_texts(f, ","@)),
        None => None,
    }
}

/// The query of a program lookup: the command, then each filter that is
/// set, in the order `TID`, `ChID`, `Range`, `StTime`, `LastUpdate`,
/// `JOIN`, `Fields`.
pub open spec fn prog_query(params: ProgLookupParams) -> Seq<(Seq<char>, Seq<char>)> {
    seq![("Command"@, "ProgLookup"@)] + optional_parameter(
        "TID"@,
        joined_keys(optional_numbers(params.tids)),
    ) + optional_parameter("ChID"@, joined_keys(optional_numbers(params.ch_ids)))
        + optional_parameter(
        "Range"@,
        match params.range {
            Some(range) => Some(range.syoboi_format()),
            None => None,
        },
    ) + optional_parameter("StTime"@, optional_chars(params.st_time)) + optional_parameter(
        "LastUpdate"@,
        optional_chars(params.last_update),
    ) + optional_parameter(
        "JOIN"@,
        if params.join_sub_titles {
            Some("SubTitles"@)
        } else {
            None
        },
    ) + optional_parameter("Fields"@, joined_fields(optional_texts(params.fields)))
}

/// Appends the parameter `name` with `value` to `query`.
fn push_parameter(query: &mut Vec<(&'static str, String)>, name: &'static str, value: String)
    ensures
        query_view(final(query)@) == query_view(old(query)@) + seq![(name@, value@)],
{
    query.push((name, value));
    proof {
        assert(query_view(query@) =~= query_view(old(query)@) + seq![(name@, value@)]);
    }
}

/// Builds the query of a program lookup.
pub fn build_prog_query(params: &ProgLookupParams) -> (query: Vec<(&'static str, String)>)
    requires
        params.well_formed(),
    ensures
        query_view(query@) == prog_query(*params),
{
    let mut query: Vec<(&'static str, String)> = Vec::new();
    proof {
        assert(query_view(query@) =~= Seq::empty());
    }
    push_parameter(&mut query, "Command", String::from_str("ProgLookup"));
    proof {
        assert(query_view(query@) =~= seq![("Command"@, "ProgLookup"@)]);
    }
    let ghost q0 = query_view(query@);
    if let Some(tids) = &params.tids {
        push_parameter(&mut query, "TID", join_numbers(tids.as_slice(), ","));
    }
    let ghost q1 = query_view(query@);
    assert(q1 =~= q0 + optional_parameter("TID"@, joined_keys(optional_numbers(params.tids))));
    if let Some(ch_ids) = &params.ch_ids {
        push_parameter(&mut query, "ChID", join_numbers(ch_ids.as_slice(), ","));
    }
    let ghost q2 = query_view(query@);
    assert(q2 =~= q1 + optional_parameter("ChID"@, joined_keys(optional_numbers(params.ch_ids))));
    if let Some(range) = &params.range {
        push_parameter(&mut query, "Range", range.to_syoboi_format());
    }
    let ghost q3 = query_view(query@);
    assert(q3 =~= q2 + optional_parameter(
        "Range"@,
        match params.range {
            Some(range) => Some(range.syoboi_format()),
            None => None,
        },
    ));
    if let Some(st_time) = &params.st_time {
        push_parameter(&mut query, "StTime", st_time.clone());
    }
    let ghost q4 = query_view(query@);
    assert(q4 =~= q3 + optional_parameter("StTime"@, optional_chars(params.st_time)));
    if let Some(last_update) = &params.last_update {
        push_parameter(&mut query, "LastUpdate", last_update.clone());
    }
    let ghost q5 = query_view(query@);
    assert(q5 =~= q4 + optional_parameter("LastUpdate"@, optional_chars(params.last_update)));
    if params.join_sub_titles {
        push_parameter(&mut query, "JOIN", String::from_str("SubTitles"));
    }
    let ghost q6 = query_view(query@);
    assert(q6 =~= q5 + optional_parameter(
        "JOIN"@,
        if params.join_sub_titles {
            Some("SubTitles"@)
        } else {
            None
        },
    ));
    if let Some(fields) = &params.fields {
        push_parameter(&mut query, "Fields", join_texts(fields, ","));
    }
    assert(query_view(query@) =~= q6 + optional_parameter(
        "Fields"@,
        joined_fields(optional_texts(params.fields)),
    ));
    query
}

/// The query of a title lookup: the command, the keys and, where given,
/// the fields that the answer is restricted to.
pub open spec fn title_query(tids: Seq<u32>, fields: Option<Seq<Seq<char>>>) -> Seq<
    (Seq<char>, Seq<char>),
> {
    seq![("Command"@, "TitleLookup"@), ("TID"@, joined_decimals(tids, ","@))]
        + optional_parameter("Fields"@, joined_fields(fields))
}

/// The characters of each name of an optional list of field names.
pub open spec fn field_names(fields: Option<&[&str]>) -> Option<Seq<Seq<char>>> {
    match fields {
        Some(names) => Some(names@.map_values(|p: &str| p@)),
        None => None,
    }
}

/// The keys of an optional list.
pub open spec fn optional_keys(keys: Option<&[u32]>) -> Option<Seq<u32>> {
    match keys {
        Some(k) => Some(k@),
        None => None,
    }
}

/// Builds the query of a title lookup.
pub fn build_title_query(tids: &[u32], fields: Option<&[&str]>) -> (query: Vec<
    (&'static str, String),
>)
    ensures
        query_view(query@) == title_query(tids@, field_names(fields)),
{
    let mut query: Vec<(&'static str, String)> = Vec::new();
    proof {
        assert(query_view(query@) =~= Seq::empty());
    }
    push_parameter(&mut query, "Command", String::from_str("TitleLookup"));
    push_parameter(&mut query, "TID", join_numbers(tids, ","));
    let ghost q0 = query_view(query@);
    assert(q0 =~= seq![("Command"@, "TitleLookup"@), ("TID"@, joined_decimals(tids@, ","@))]);
    if let Some(names) = fields {
        push_parameter(&mut query, "Fields", join_strs(names, ","));
    }
    assert(query_view(query@) =~= q0 + optional_parameter(
        "Fields"@,
        joined_fields(field_names(fields)),
    ));
    query
}

/// The query of a channel lookup: the command and, where given, the keys.
pub open spec fn channel_query(ch_ids: Option<Seq<u32>>) -> Seq<(Seq<char>, Seq<char>)> {
    seq![("Command"@, "ChLookup"@)] + optional_parameter("ChID"@, joined_keys(ch_ids))
}

/// Builds the query of a channel lookup.
pub fn build_channel_query(ch_ids: Option<&[u32]>) -> (query: Vec<(&'static str, String)>)
    ensures
        query_view(query@) == channel_query(optional_keys(ch_ids)),
{
    let mut query: Vec<(&'static str, String)> = Vec::new();
    proof {
        assert(query_view(query@) =~= Seq::empty());
    }
    push_parameter(&mut query, "Command", String::from_str("ChLookup"));
    let ghost q0 = query_view(query@);
    assert(q0 =~= seq![("Command"@, "ChLookup"@)]);
    if let Some(keys) = ch_ids {
        push_parameter(&mut query, "ChID", join_numbers(keys, ","));
    }
    assert(query_view(query@) =~= q0 + optional_parameter(
        "ChID"@,
        joined_keys(optional_keys(ch_ids)),
    ));
    query
}

/// The query of a channel group lookup: the command and the keys, or `*`
/// for all groups.
pub open spec fn channel_group_query(ch_gids: Option<Seq<u32>>) -> Seq<(Seq<char>, Seq<char>)> {
    seq![
        ("Command"@, "ChGroupLookup"@),
        (
            "ChGID"@,
            match ch_gids {
                Some(keys) => joined_decimals(keys, ","@),
                None => "*"@,
            },
        ),
    ]
}

/// Builds the query of a channel group lookup.
pub fn build_channel_group_query(ch_gids: Option<&[u32]>) -> (query: Vec<(&'static str, String)>)
    ensures
        query_view(query@) == channel_group_query(optional_keys(ch_gids)),
{
    let mut query: Vec<(&'static str, String)> = Vec::new();
    proof {
        assert(query_view(query@) =~= Seq::empty());
    }
    push_parameter(&mut query, "Command", String::from_str("ChGroupLookup"));
    let keys = match ch_gids {
        Some(keys) => join_numbers(keys, ","),
        None => String::from_str("*"),
    };
    push_parameter(&mut query, "ChGID", keys);
    assert(query_view(query@) =~= channel_group_query(optional_keys(ch_gids)));
    query
}

/// An address as the url crate holds it.
#[verifier::external_type_specification]
#[verifier::external_body]
pub struct ExUrl(url::Url);

/// The error of the url crate's parser.
#[verifier::external_type_specification]
#[verifier::external_body]
pub struct ExUrlParseError(url::ParseError);

/// The address that `text` writes, if it writes one: the result of
/// `Url::parse`.
pub uninterp spec fn parsed_url(text: Seq<char>) -> Option<url::Url>;

/// Reads `text` as an address.
///
/// Trusted: returns what `Url::parse` returns, under the name
/// `parsed_url`.
#[verifier::external_body]
pub(crate) fn parse_url(text: &str) -> (parsed: Result<url::Url, url::ParseError>)
    ensures
        parsed is Ok <==> parsed_url(text@) is Some,
        parsed matches Ok(url) ==> parsed_url(text@) == Some(url),
{
    url::Url::parse(text)
}

/// What the url crate says of a text that is no address: what `Display`
/// writes for a `ParseError`.
pub uninterp spec fn url_error_text(error: url::ParseError) -> Seq<char>;

/// Writes what the url crate says of a text that is no address.
///
/// Trusted: returns what `ParseError`'s `Display` writes, under the name
/// `url_error_text`.
#[verifier::external_body]
pub(crate) fn url_error_message(error: &url::ParseError) -> (message: String)
    ensures
        message@ == url_error_text(*error),
{
    error.to_string()
}

/// Why a client could not be built.
#[derive(Debug, Clone, Copy, PartialEq, Eq, Structural)]
pub enum BuildError {
    /// No user agent was set.
    UserAgentRequired,
    /// The default address is no address.
    InvalidBaseUrl,
}

/// What a client of the schedule service is built from. Each setting but
/// the user agent has a default.
#[derive(Debug)]
pub struct SyoboiClientBuilder {
    base_url: Option<url::Url>,
    user_agent: Option<String>,
    min_interval: Option<u64>,
    hourly_limit: Option<u32>,
    daily_limit: Option<u32>,
}

/// The settings of a builder as contracts see them.
pub struct BuilderView {
    /// Address that lookups go to.
    pub base_url: Option<url::Url>,
    /// User agent of the requests.
    pub user_agent: Option<Seq<char>>,
    /// Least nanoseconds between two requests.
    pub min_interval: Option<u64>,
    /// Most requests in any hour.
    pub hourly_limit: Option<u32>,
    /// Most requests in any day.
    pub daily_limit: Option<u32>,
}

/// A client of the schedule service: where its requests go, what they are
/// signed with and the limiter that paces them. Sending is the caller's.
#[derive(Debug)]
pub struct SyoboiClient {
    base_url: url::Url,
    user_agent: String,
    rate_limiter: SyoboiRateLimiter,
}

impl View for SyoboiClientBuilder {
    type V = BuilderView;

    closed spec fn view(&self) -> BuilderView {
        BuilderView {
            base_url: self.base_url,
            user_agent: optional_chars(self.user_agent),
            min_interval: self.min_interval,
            hourly_limit: self.hourly_limit,
            daily_limit: self.daily_limit,
        }
    }
}

impl BuildError {
    /// The message that describes this error.
    pub open spec fn message(self) -> Seq<char> {
        match self {
            BuildError::UserAgentRequired => "user_agent is required"@,
            BuildError::InvalidBaseUrl => "invalid default base URL"@,
        }
    }

    /// Renders the error as text.
    pub fn to_string(&self) -> (text: String)
        ensures
            text@ == self.message(),
    {
        match self {
            BuildError::UserAgentRequired => String::from_str("user_agent is required"),
            BuildError::InvalidBaseUrl => String::from_str("invalid default base URL"),
        }
    }
}

/// The limiter that a client is built with: one second of spacing, 500
/// requests an hour and 10,000 a day, unless set otherwise.
pub open spec fn built_limiter(settings: BuilderView) -> LimiterView {
    LimiterView {
        min_interval: match settings.min_interval {
            Some(nanos) => nanos,
            None => SECOND_NANOS,
        },
        last_request: None,
        hourly_limit: match settings.hourly_limit {
            Some(limit) => limit as usize,
            None => 500,
        },
        daily_limit: match settings.daily_limit {
            Some(limit) => limit as usize,
            None => 10_000,
        },
        hourly_window: Seq::empty(),
        daily_window: Seq::empty(),
    }
}

impl SyoboiClientBuilder {
    /// A builder with nothing set.
    pub fn new() -> (builder: Self)
        ensures
            builder@ == (BuilderView {
                base_url: None,
                user_agent: None,
                min_interval: None,
                hourly_limit: None,
                daily_limit: None,
            }),
    {
        SyoboiClientBuilder {
            base_url: None,
            user_agent: None,
            min_interval: None,
            hourly_limit: None,
            daily_limit: None,
        }
    }

    /// Sets the address that lookups go to.
    pub fn base_url(self, url: url::Url) -> (builder: Self)
        ensures
            builder@ == (BuilderView { base_url: Some(url), ..self@ }),
    {
        let mut builder = self;
        builder.base_url = Some(url);
        builder
    }

    /// Sets the user agent, which every client needs.
    pub fn user_agent(self, ua: &str) -> (builder: Self)
        ensures
            builder@ == (BuilderView { user_agent: Some(ua@), ..self@ }),
    {
        let mut builder = self;
        builder.user_agent = Some(String::from_str(ua));
        builder
    }

    /// Sets the least time between two requests, in nanoseconds.
    pub fn min_interval(self, interval: u64) -> (builder: Self)
        ensures
            builder@ == (BuilderView { min_interval: Some(interval), ..self@ }),
    {
        let mut builder = self;
        builder.min_interval = Some(interval);
        builder
    }

    /// Sets the most requests in any hour.
    pub fn hourly_limit(self, limit: u32) -> (builder: Self)
        ensures
            builder@ == (BuilderView { hourly_limit: Some(limit), ..self@ }),
    {
        let mut builder = self;
        builder.hourly_limit = Some(limit);
        builder
    }

    /// Sets the most requests in any day.
    pub fn daily_limit(self, limit: u32) -> (builder: Self)
        ensures
            builder@ == (BuilderView { daily_limit: Some(limit), ..self@ }),
    {
        let mut builder = self;
        builder.daily_limit = Some(limit);
        builder
    }

    /// Builds the client. Fails without a user agent; fails too where no
    /// address was set and the default is none.
    pub fn build(self) -> (client: Result<SyoboiClient, BuildError>)
        ensures
            match self@.user_agent {
                None => client == Err::<SyoboiClient, BuildError>(BuildError::UserAgentRequired),
                Some(ua) => match (match self@.base_url {
                    Some(url) => Some(url),
                    None => parsed_url(DEFAULT_BASE_URL@),
                }) {
                    None => client == Err::<SyoboiClient, BuildError>(BuildError::InvalidBaseUrl),
                    Some(url) => client matches Ok(c) && c.address() == url && c.agent() == ua
                        && c.limiter() == built_limiter(self@),
                },
            },
    {
        let user_agent = match self.user_agent {
            Some(ua) => ua,
            None => {
                return Err(BuildError::UserAgentRequired);
            },
        };
        let base_url = match self.base_url {
            Some(url) => url,
            None => match parse_url(DEFAULT_BASE_URL) {
                Ok(url) => url,
                Err(_) => {
                    return Err(BuildError::InvalidBaseUrl);
                },
            },
        };
        let min_interval = match self.min_interval {
            Some(nanos) => nanos,
            None => SECOND_NANOS,
        };
        let hourly_limit = match self.hourly_limit {
            Some(limit) => limit as usize,
            None => 500,
        };
        let daily_limit = match self.daily_limit {
            Some(limit) => limit as usize,
            None => 10_000,
        };
        Ok(
            SyoboiClient {
                base_url,
                user_agent,
                rate_limiter: SyoboiRateLimiter::new(min_interval, hourly_limit, daily_limit),
            },
        )
    }
}

impl SyoboiClient {
    /// The address that lookups go to.
    pub closed spec fn address(&self) -> url::Url {
        self.base_url
    }

    /// The user agent of the requests.
    pub closed spec fn agent(&self) -> Seq<char> {
        self.user_agent@
    }

    /// The state of the limiter.
    pub closed spec fn limiter(&self) -> LimiterView {
        self.rate_limiter@
    }

    /// A builder with nothing set.
    pub fn builder() -> (builder: SyoboiClientBuilder)
        ensures
            builder@ == (BuilderView {
                base_url: None,
                user_agent: None,
                min_interval: None,
                hourly_limit: None,
                daily_limit: None,
            }),
    {
        SyoboiClientBuilder::new()
    }

    /// The address that lookups go to.
    pub fn base_url(&self) -> (url: &url::Url)
        ensures
            *url == self.address(),
    {
        &self.base_url
    }

    /// The user agent of the requests.
    pub fn user_agent(&self) -> (ua: &str)
        ensures
            ua@ == self.agent(),
    {
        self.user_agent.as_str()
    }

    /// Runs one phase of acquiring the limiter of this client at the clock
    /// sample `now`.
    pub fn wait(&mut self, phase: WaitPhase, now: u64) -> (step: WaitStep)
        ensures
            final(self).address() == old(self).address(),
            final(self).agent() == old(self).agent(),
            final(self).limiter() == state_after(old(self).limiter(), phase, now),
            step.delay == delay_of(final(self).limiter(), phase, now),
            step.next == phase_after(phase),
    {
        self.rate_limiter.wait(phase, now)
    }
}

} // verus!
