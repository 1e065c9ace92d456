//! Errors of the binding, and the translation of native status codes into them.

use vstd::prelude::*;
use vstd::string::*;

verus! {

/// Why an operation of the binding failed.
#[derive(Debug, Clone, PartialEq, Eq)]
pub enum DbError {
    /// The data directory cannot be passed to the native library: its bytes hold
    /// a zero byte, first at `position`.
    Encoding { position: usize },
    /// A native call returned the non-zero status `code`; `message` is the
    /// library's text for that code.
    Native { code: i32, message: String },
    /// The request does not fit the state of the database: it is closed, still
    /// opening, or waiting for the reply to another call.
    InvalidState,
}

/// A [`DbError`] as a mathematical value.
pub enum ErrorView {
    Encoding { position: usize },
    Native { code: i32, message: Seq<char> },
    InvalidState,
}

impl View for DbError {
    type V = ErrorView;

    open spec fn view(&self) -> ErrorView {
        match *self {
            DbError::Encoding { position } => ErrorView::Encoding { position },
            DbError::Native { code, message } => ErrorView::Native { code, message: message@ },
            DbError::InvalidState => ErrorView::InvalidState,
        }
    }
}

/// The message that stands in when the native library has no readable text
/// for a code.
pub open spec fn unknown_error() -> Seq<char> {
    "unknown error"@
}

/// The text of a native error: what the lookup found, or the fixed fallback.
pub open spec fn message_text(looked_up: Option<Seq<char>>) -> Seq<char> {
    match looked_up {
        Some(text) => text,
        None => unknown_error(),
    }
}

/// The failure that the status `code` stands for.
pub open spec fn native_failure(code: i32, looked_up: Option<Seq<char>>) -> ErrorView {
    ErrorView::Native { code, message: message_text(looked_up) }
}

/// The view of an optional string.
pub open spec fn text_view(text: Option<String>) -> Option<Seq<char>> {
    match text {
        Some(s) => Some(s@),
        None => None,
    }
}

/// Translates a status code into a structured error.
///
/// `looked_up` is what the native error-string accessor gave for `code`, or
/// `None` where its answer could not be read. The error carries the code and
/// that text, or the fixed fallback text.
pub fn translate(code: i32, looked_up: Option<String>) -> (error: DbError)
    ensures
        error@ == native_failure(code, text_view(looked_up)),
{
    match looked_up {
        Some(message) => DbError::Native { code, message },
        None => DbError::Native { code, message: "unknown error".to_owned() },
    }
}

impl DbError {
    /// The native status code, where the error came from a native call.
    pub fn code(&self) -> (code: Option<i32>)
        ensures
            code == match self@ {
                ErrorView::Native { code, .. } => Some(code),
                _ => None::<i32>,
            },
    {
        match self {
            DbError::Native { code, .. } => Some(*code),
            _ => None,
        }
    }

    /// The text that describes this error in words: the position of the zero
    /// byte for an encoding error, the library's message for a native error, a
    /// fixed sentence for a request out of turn.
    pub open spec fn text(self) -> Seq<char> {
        match self@ {
            ErrorView::Encoding { position } => encoding_text(position),
            ErrorView::Native { message, .. } => message,
            ErrorView::InvalidState => "database is not ready for this request"@,
        }
    }

    /// A human-readable description of the error.
    pub fn message(&self) -> (text: String)
        ensures
            text@ == self.text(),
    {
        match self {
            DbError::Encoding { position } => {
                let mut text = "nul byte found in provided data at position: ".to_owned();
                append_decimal(&mut text, *position);
                text
            },
            DbError::Native { message, .. } => message.clone(),
            DbError::InvalidState => "database is not ready for this request".to_owned(),
        }
    }
}

/// The text of an encoding error for a zero byte at `position`.
pub open spec fn encoding_text(position: usize) -> Seq<char> {
    "nul byte found in provided data at position: "@ + decimal(position as nat)
}

/// The decimal digit for `d`, which is below ten.
pub open spec fn digit(d: nat) -> char {
    if d == 0 {
        '0'
    } else if d == 1 {
        '1'
    } else if d == 2 {
        '2'
    } else if d == 3 {
        '3'
    } else if d == 4 {
        '4'
    } else if d == 5 {
        '5'
    } else if d == 6 {
        '6'
    } else if d == 7 {
        '7'
    } else if d == 8 {
        '8'
    } else {
        '9'
    }
}

/// The number `n` in decimal, without leading zeros.
pub open spec fn decimal(n: nat) -> Seq<char>
    decreases n,
{
    if n < 10 {
        seq![digit(n)]
    } else {
        decimal(n / 10).push(digit(n % 10))
    }
}

fn digit_text(d: usize) -> (text: &'static str)
    requires
        d < 10,
    ensures
        text@ == seq![digit(d as nat)],
{
    proof {
        reveal_strlit("0");
        reveal_strlit("1");
        reveal_strlit("2");
        reveal_strlit("3");
        reveal_strlit("4");
        reveal_strlit("5");
        reveal_strlit("6");
        reveal_strlit("7");
        reveal_strlit("8");
        reveal_strlit("9");
    }
    let text = if d == 0 {
        "0"
    } else if d == 1 {
        "1"
    } else if d == 2 {
        "2"
    } else if d == 3 {
        "3"
    } else if d == 4 {
        "4"
    } else if d == 5 {
        "5"
    } else if d == 6 {
        "6"
    } else if d == 7 {
        "7"
    } else if d == 8 {
        "8"
    } else {
        "9"
    };
    assert(text@ =~= seq![digit(d as nat)]);
    text
}

fn append_decimal(text: &mut String, n: usize)
    ensures
        final(text)@ == old(text)@ + decimal(n as nat),
    decreases n,
{
    if n >= 10 {
        append_decimal(text, n / 10);
    }
    text.append(digit_text(n % 10));
    assert(text@ =~= old(text)@ + decimal(n as nat));
}

} // verus!
