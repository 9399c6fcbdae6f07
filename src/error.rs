use vstd::prelude::*;

use crate::text::{debug_text, decimal, decimal_text, quoted};

verus! {

/// A read that found fewer bytes than it asked for.
#[derive(Debug, Clone, Copy, PartialEq, Eq)]
pub struct ShortRead {
    /// How many bytes the read asked for.
    pub requested: usize,
    /// How many bytes were left.
    pub available: usize,
}

/// The ways decoding a header can fail.
#[derive(Debug)]
pub enum Error {
    /// The first 16 bytes are not the magic string; holds them as text.
    HeaderString(String),
    /// The page size field breaks the minimum-or-power-of-two rule.
    InvalidPageSize(String),
    /// A payload or leaf fraction differs from its fixed value.
    InvalidFraction(String),
    /// An invalid `u32` was found.
    InvalidU32(String),
    /// An invalid `i32` was found.
    InvalidI32(String),
    /// A zero was found where the field forbids it.
    UnexpectedZero(String),
    /// A non-zero byte was found where zero was expected.
    UnexpectedNonZero(String),
    /// The source ran out of bytes while reading the named field.
    IoError(ShortRead, &'static str),
}

} // verus!

verus! {

/// What an `Error` says, with its text as characters.
pub enum ErrorView {
    HeaderString(Seq<char>),
    InvalidPageSize(Seq<char>),
    InvalidFraction(Seq<char>),
    InvalidU32(Seq<char>),
    InvalidI32(Seq<char>),
    UnexpectedZero(Seq<char>),
    UnexpectedNonZero(Seq<char>),
    IoError(ShortRead, Seq<char>),
}

impl View for Error {
    type V = ErrorView;

    open spec fn view(&self) -> ErrorView {
        match self {
            Error::HeaderString(s) => ErrorView::HeaderString(s@),
            Error::InvalidPageSize(s) => ErrorView::InvalidPageSize(s@),
            Error::InvalidFraction(s) => ErrorView::InvalidFraction(s@),
            Error::InvalidU32(s) => ErrorView::InvalidU32(s@),
            Error::InvalidI32(s) => ErrorView::InvalidI32(s@),
            Error::UnexpectedZero(s) => ErrorView::UnexpectedZero(s@),
            Error::UnexpectedNonZero(s) => ErrorView::UnexpectedNonZero(s@),
            Error::IoError(e, name) => ErrorView::IoError(*e, name@),
        }
    }
}

/// The failure that `r` reports, if any.
pub open spec fn failure_of<T>(r: Result<T, Error>) -> Option<ErrorView> {
    match r {
        Ok(_) => None,
        Err(e) => Some(e@),
    }
}

/// The failure of reading `width` bytes for the field `name` from `s`, if too few are left.
pub open spec fn short_failure(s: Seq<u8>, width: nat, name: &str) -> Option<ErrorView> {
    if s.len() < width {
        Some(ErrorView::IoError(crate::short_of(s, width), name@))
    } else {
        None
    }
}

/// The text that describes the failure `e`.
pub open spec fn error_text(e: ErrorView) -> Seq<char> {
    match e {
        ErrorView::HeaderString(v) => "Unexpected bytes at start of file, expected the magic string 'SQLite format 3\u{0}',found "@
            + debug_text(v),
        ErrorView::InvalidPageSize(msg) => "Invalid page size, "@ + msg,
        ErrorView::InvalidFraction(msg) => msg,
        ErrorView::InvalidU32(msg) => "Invalid u32: "@ + msg,
        ErrorView::InvalidI32(msg) => "Invalid i32: "@ + msg,
        ErrorView::UnexpectedZero(what) => "Expected non-zero value for "@ + what,
        ErrorView::UnexpectedNonZero(what) => "Expected zero value for "@ + what,
        ErrorView::IoError(e, what) => "Io Error parsing "@ + what + ": needed "@ + decimal(
            e.requested as nat,
        ) + " bytes, "@ + decimal(e.available as nat) + " left"@,
    }
}

impl Error {
    /// A description of the error for people to read.
    pub fn message(&self) -> (r: String)
        ensures
            r@ == error_text(self@),
    {
        match self {
            Error::HeaderString(v) => {
                let mut r = String::from_str(
                    "Unexpected bytes at start of file, expected the magic string 'SQLite format 3\u{0}',found ",
                );
                r.append(quoted(v.as_str()).as_str());
                r
            },
            Error::InvalidPageSize(msg) => {
                let mut r = String::from_str("Invalid page size, ");
                r.append(msg.as_str());
                r
            },
            Error::InvalidFraction(msg) => msg.clone(),
            Error::InvalidU32(msg) => {
                let mut r = String::from_str("Invalid u32: ");
                r.append(msg.as_str());
                r
            },
            Error::InvalidI32(msg) => {
                let mut r = String::from_str("Invalid i32: ");
                r.append(msg.as_str());
                r
            },
            Error::UnexpectedZero(what) => {
                let mut r = String::from_str("Expected non-zero value for ");
                r.append(what.as_str());
                r
            },
            Error::UnexpectedNonZero(what) => {
                let mut r = String::from_str("Expected zero value for ");
                r.append(what.as_str());
                r
            },
            Error::IoError(e, what) => {
                let mut r = String::from_str("Io Error parsing ");
                r.append(what);
                r.append(": needed ");
                r.append(decimal_text(e.requested as u64).as_str());
                r.append(" bytes, ");
                r.append(decimal_text(e.available as u64).as_str());
                r.append(" left");
                r
            },
        }
    }
}

} // verus!
