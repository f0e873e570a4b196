//! Envelopes of the schedule service's answers, and the rule by which an
//! empty element stands for an absent value.

use vstd::prelude::*;
use vstd::string::*;

use super::types::{SyoboiChannel, SyoboiChannelGroup, SyoboiProgram, SyoboiTitle};
use crate::text::{parse_i32, parse_u32, signed_decimal, unsigned_decimal};

verus! {

/// Result status of an answer.
#[derive(Debug)]
pub struct ApiResult {
    /// Result code; 200 is success.
    pub code: u32,
    /// Message that goes with the code.
    pub message: Option<String>,
}

/// Answer to a title lookup.
#[derive(Debug)]
pub struct TitleLookupResponse {
    /// Result status; some answers carry none.
    pub result: Option<ApiResult>,
    /// The titles; absent in error answers.
    pub title_items: Option<TitleItems>,
}

/// The titles of an answer.
#[derive(Debug)]
pub struct TitleItems {
    /// One entry per title.
    pub items: Vec<SyoboiTitle>,
}

/// Answer to a program lookup.
#[derive(Debug)]
pub struct ProgLookupResponse {
    /// Result status; some answers carry none.
    pub result: Option<ApiResult>,
    /// The programs; absent in error answers.
    pub prog_items: Option<ProgItems>,
}

/// The programs of an answer.
#[derive(Debug)]
pub struct ProgItems {
    /// One entry per program.
    pub items: Vec<SyoboiProgram>,
}

/// Answer to a channel lookup.
#[derive(Debug)]
pub struct ChLookupResponse {
    /// Result status; some answers carry none.
    pub result: Option<ApiResult>,
    /// The channels; absent in error answers.
    pub ch_items: Option<ChItems>,
}

/// The channels of an answer.
#[derive(Debug)]
pub struct ChItems {
    /// One entry per channel.
    pub items: Vec<SyoboiChannel>,
}

/// Answer to a channel group lookup.
#[derive(Debug)]
pub struct ChGroupLookupResponse {
    /// Result status; some answers carry none.
    pub result: Option<ApiResult>,
    /// The groups; absent in error answers.
    pub ch_group_items: Option<ChGroupItems>,
}

/// The channel groups of an answer.
#[derive(Debug)]
pub struct ChGroupItems {
    /// One entry per group.
    pub items: Vec<SyoboiChannelGroup>,
}

/// A numeric element whose text is no number of its type.
#[derive(Debug)]
pub struct FieldError {
    /// The text of the element.
    pub text: String,
    /// Whether the field is signed.
    pub signed: bool,
}

impl FieldError {
    /// The message that describes this error.
    pub open spec fn message(self) -> Seq<char> {
        if self.signed {
            "failed to parse i32: "@ + self.text@
        } else {
            "failed to parse u32: "@ + self.text@
        }
    }

    /// Renders the error as text.
    pub fn to_string(&self) -> (text: String)
        ensures
            text@ == self.message(),
    {
        if self.signed {
            String::from_str("failed to parse i32: ").concat(self.text.as_str())
        } else {
            String::from_str("failed to parse u32: ").concat(self.text.as_str())
        }
    }
}

/// Reads an optional text element: an empty element stands for no value.
pub fn deserialize_empty_string_as_none(element: Option<String>) -> (value: Option<String>)
    ensures
        value == match element {
            Some(text) => if text@.len() == 0 {
                None
            } else {
                Some(text)
            },
            None => None,
        },
{
    match element {
        Some(text) => if text.as_str().is_empty() {
            None
        } else {
            Some(text)
        },
        None => None,
    }
}

/// Reads an optional `u32` element: an absent or empty element stands for
/// no value, any other text must write a `u32`.
pub fn deserialize_empty_string_as_none_u32(element: Option<String>) -> (value: Result<
    Option<u32>,
    FieldError,
>)
    ensures
        match element {
            None => value == Ok::<Option<u32>, FieldError>(None),
            Some(text) => if text@.len() == 0 {
                value == Ok::<Option<u32>, FieldError>(None)
            } else {
                match unsigned_decimal(text@) {
                    Some(n) => if n <= u32::MAX {
                        value == Ok::<Option<u32>, FieldError>(Some(n as u32))
                    } else {
                        value == Err::<Option<u32>, FieldError>(
                            FieldError { text, signed: false },
                        )
                    },
                    None => value == Err::<Option<u32>, FieldError>(
                        FieldError { text, signed: false },
                    ),
                }
            },
        },
{
    match element {
        None => Ok(None),
        Some(text) => {
            if text.as_str().is_empty() {
                return Ok(None);
            }
            match parse_u32(text.as_str()) {
                Some(n) => Ok(Some(n)),
                None => Err(FieldError { text, signed: false }),
            }
        },
    }
}

/// Reads an optional `i32` element: an absent or empty element stands for
/// no value, any other text must write an `i32`.
pub fn deserialize_empty_string_as_none_i32(element: Option<String>) -> (value: Result<
    Option<i32>,
    FieldError,
>)
    ensures
        match element {
            None => value == Ok::<Option<i32>, FieldError>(None),
            Some(text) => if text@.len() == 0 {
                value == Ok::<Option<i32>, FieldError>(None)
            } else {
                match signed_decimal(text@) {
                    Some(n) => if i32::MIN <= n <= i32::MAX {
                        value == Ok::<Option<i32>, FieldError>(Some(n as i32))
                    } else {
                        value == Err::<Option<i32>, FieldError>(FieldError { text, signed: true })
                    },
                    None => value == Err::<Option<i32>, FieldError>(
                        FieldError { text, signed: true },
                    ),
                }
            },
        },
{
    match element {
        None => Ok(None),
        Some(text) => {
            if text.as_str().is_empty() {
                return Ok(None);
            }
            match parse_i32(text.as_str()) {
                Some(n) => Ok(Some(n)),
                None => Err(FieldError { text, signed: true }),
            }
        },
    }
}

} // verus!
