//! One source: a file, a URL, or the standard input.

use vstd::prelude::*;
use crate::cli::text_view;
use crate::pattern::{is_match, regex_is_match};
use crate::text::same_text;

verus! {

/// The text of the URL that `text` parses to, as the `url` crate, which
/// `reqwest` hands on, parses and writes it; `None` where it parses to no
/// URL.
pub uninterp spec fn url_parsed(text: Seq<char>) -> Option<Seq<char>>;

/// Parses `text` with `reqwest::Url::parse` and gives the text of the URL
/// with `Url::as_str`. The result goes by the name above.
#[verifier::external_body]
pub(crate) fn parse_url(text: &str) -> (r: Option<String>)
    ensures
        text_view(r) == url_parsed(text@),
{
    match reqwest::Url::parse(text) {
        Ok(url) => Some(url.as_str().to_string()),
        Err(_) => None,
    }
}

/// The pattern that tells a URL from a file name.
pub open spec fn url_pattern() -> Seq<char> {
    "^http(s)?://"@
}

/// Whether `text` reads like a URL that can be fetched.
pub open spec fn looks_like_url(text: Seq<char>) -> bool {
    regex_is_match(url_pattern(), text) == Some(true)
}

/// Whether `text` reads like a URL that can be fetched.
pub fn is_http_url(text: &str) -> (r: bool)
    ensures
        r == looks_like_url(text@),
{
    match is_match("^http(s)?://", text) {
        Some(b) => b,
        None => false,
    }
}

/// One source.
#[derive(Debug, PartialEq, Eq)]
pub enum FileOrUrl {
    /// A file, by its name.
    File(String),
    /// A URL, in the text that it parses to.
    Url(String),
    /// The standard input.
    StdIn,
}

/// The mathematical model of a [`FileOrUrl`].
pub enum FileOrUrlView {
    File(Seq<char>),
    Url(Seq<char>),
    StdIn,
}

impl View for FileOrUrl {
    type V = FileOrUrlView;

    open spec fn view(&self) -> FileOrUrlView {
        match self {
            FileOrUrl::File(name) => FileOrUrlView::File(name@),
            FileOrUrl::Url(url) => FileOrUrlView::Url(url@),
            FileOrUrl::StdIn => FileOrUrlView::StdIn,
        }
    }
}

impl Clone for FileOrUrl {
    fn clone(&self) -> (r: Self)
        ensures
            r@ == self@,
    {
        match self {
            FileOrUrl::File(name) => FileOrUrl::File(name.clone()),
            FileOrUrl::Url(url) => FileOrUrl::Url(url.clone()),
            FileOrUrl::StdIn => FileOrUrl::StdIn,
        }
    }
}

/// Why a text names no source.
#[derive(Clone, Copy, Debug, PartialEq, Eq, Structural)]
pub enum SourceErrorKind {
    /// It reads like a URL and parses to none.
    InvalidUrl,
    /// It is no URL, and no file of that name exists.
    NotFound,
}

/// A text that names no source.
#[derive(Debug, PartialEq, Eq)]
pub struct SourceError {
    pub kind: SourceErrorKind,
    /// The text as it was given.
    pub value: String,
}

/// The source that `value` names, where `present` tells whether a file of
/// that name exists: `-` is the standard input; what reads like a URL must
/// parse to one; everything else must be a file that exists.
pub open spec fn file_or_url_of(value: Seq<char>, present: bool) -> Result<
    FileOrUrlView,
    SourceErrorKind,
> {
    if value == "-"@ {
        Ok(FileOrUrlView::StdIn)
    } else if looks_like_url(value) {
        match url_parsed(value) {
            Some(url) => Ok(FileOrUrlView::Url(url)),
            None => Err(SourceErrorKind::InvalidUrl),
        }
    } else if present {
        Ok(FileOrUrlView::File(value))
    } else {
        Err(SourceErrorKind::NotFound)
    }
}

impl SourceError {
    /// The message of this error.
    pub fn to_string(&self) -> (r: String)
        ensures
            r@ == match self.kind {
                SourceErrorKind::InvalidUrl => "Not a valid URL: "@ + self.value@,
                SourceErrorKind::NotFound => "Neither an http(s) URL nor an existing file: "@
                    + self.value@,
            },
    {
        match self.kind {
            SourceErrorKind::InvalidUrl => String::from_str("Not a valid URL: ").concat(
                self.value.as_str(),
            ),
            SourceErrorKind::NotFound => String::from_str(
                "Neither an http(s) URL nor an existing file: ",
            ).concat(self.value.as_str()),
        }
    }
}

impl FileOrUrl {
    /// The source that `value` names. `present` tells whether a file of that
    /// name exists.
    pub fn from_str(value: &str, present: bool) -> (r: Result<FileOrUrl, SourceError>)
        ensures
            match r {
                Ok(s) => file_or_url_of(value@, present) == Ok::<FileOrUrlView, SourceErrorKind>(
                    s@,
                ),
                Err(e) => file_or_url_of(value@, present) == Err::<FileOrUrlView, SourceErrorKind>(
                    e.kind,
                ) && e.value@ == value@,
            },
    {
        if same_text(value, "-") {
            Ok(FileOrUrl::StdIn)
        } else if is_http_url(value) {
            match parse_url(value) {
                Some(url) => Ok(FileOrUrl::Url(url)),
                None => Err(
                    SourceError { kind: SourceErrorKind::InvalidUrl, value: value.to_owned() },
                ),
            }
        } else if present {
            Ok(FileOrUrl::File(value.to_owned()))
        } else {
            Err(SourceError { kind: SourceErrorKind::NotFound, value: value.to_owned() })
        }
    }

    /// The text that names this source.
    pub fn to_string(&self) -> (r: String)
        ensures
            r@ == match self@ {
                FileOrUrlView::File(name) => name,
                FileOrUrlView::Url(url) => url,
                FileOrUrlView::StdIn => "-"@,
            },
    {
        match self {
            FileOrUrl::File(name) => name.clone(),
            FileOrUrl::Url(url) => url.clone(),
            FileOrUrl::StdIn => String::from_str("-"),
        }
    }
}

} // verus!
