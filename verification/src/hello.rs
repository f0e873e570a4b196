//! Greeting builder.

use vstd::prelude::*;
use vstd::string::*;

use crate::text::same_text;

verus! {

/// Why a greeting could not be built.
#[derive(Debug, PartialEq, Eq)]
pub enum GreetingError {
    /// No gender was given.
    UnknownGender,
    /// The gender is neither `man` nor `woman`.
    InvalidGender(String),
}

/// The greeting for `name`: `Mr.` for the gender `man`, `Ms.` for `woman`,
/// plain without a gender; `None` for any other gender.
pub open spec fn greeting_text(name: Seq<char>, gender: Option<Seq<char>>) -> Option<Seq<char>> {
    match gender {
        Some(g) => if g == "man"@ {
            Some("Hi, Mr. "@ + name)
        } else if g == "woman"@ {
            Some("Hi, Ms. "@ + name)
        } else {
            None
        },
        None => Some("Hi, "@ + name),
    }
}

/// The characters of an optional gender.
pub open spec fn gender_text(gender: Option<&str>) -> Option<Seq<char>> {
    match gender {
        Some(g) => Some(g@),
        None => None,
    }
}

impl GreetingError {
    /// The message that describes this error.
    pub open spec fn message(self) -> Seq<char> {
        match self {
            GreetingError::UnknownGender => "gender not specified"@,
            GreetingError::InvalidGender(g) => "invalid gender: "@ + g@,
        }
    }

    /// Renders the error as text.
    pub fn to_string(&self) -> (text: String)
        ensures
            text@ == self.message(),
    {
        match self {
            GreetingError::UnknownGender => String::from_str("gender not specified"),
            GreetingError::InvalidGender(g) => String::from_str("invalid gender: ").concat(
                g.as_str(),
            ),
        }
    }
}

/// Builds a greeting for `name`: `Mr.` for `man`, `Ms.` for `woman`, plain
/// without a gender. Any other gender is handed back as the error.
pub fn sayhello(name: &str, gender: Option<&str>) -> (result: Result<String, GreetingError>)
    ensures
        match greeting_text(name@, gender_text(gender)) {
            Some(expected) => result matches Ok(text) && text@ == expected,
            None => result matches Err(GreetingError::InvalidGender(bad)) && Some(bad@)
                == gender_text(gender),
        },
{
    match gender {
        Some(g) => {
            if same_text(g, "man") {
                Ok(String::from_str("Hi, Mr. ").concat(name))
            } else if same_text(g, "woman") {
                Ok(String::from_str("Hi, Ms. ").concat(name))
            } else {
                Err(GreetingError::InvalidGender(String::from_str(g)))
            }
        },
        None => Ok(String::from_str("Hi, ").concat(name)),
    }
}

} // verus!
