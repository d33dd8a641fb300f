//! One entry of a list of sources: a file, a pattern that stands for any
//! number of files, or a URL.

use vstd::prelude::*;
use crate::file_or_url::{is_http_url, looks_like_url, parse_url, url_parsed};
use crate::text::texts;

verus! {

/// Whether `text` is a pattern for file names, as the `glob` crate judges
/// it on the platform that the library is built for: what separates the
/// parts of a path, and with it what `**` may stand beside, differs between
/// platforms.
pub uninterp spec fn glob_pattern(text: Seq<char>) -> bool;

/// Compiles `text` with `glob::Pattern::new` and tells whether that went
/// well. The result goes by the name above.
#[verifier::external_body]
pub(crate) fn is_glob_pattern(text: &str) -> (r: bool)
    ensures
        r == glob_pattern(text@),
{
    glob::Pattern::new(text).is_ok()
}

/// One entry of a list of sources.
#[derive(Debug, PartialEq, Eq)]
pub enum FilesOrUrl {
    /// A file, by its name.
    File(String),
    /// A pattern for file names.
    Glob(String),
    /// A URL, in the text that it parses to.
    Url(String),
}

/// The mathematical model of a [`FilesOrUrl`].
pub enum FilesOrUrlView {
    File(Seq<char>),
    Glob(Seq<char>),
    Url(Seq<char>),
}

impl View for FilesOrUrl {
    type V = FilesOrUrlView;

    open spec fn view(&self) -> FilesOrUrlView {
        match self {
            FilesOrUrl::File(name) => FilesOrUrlView::File(name@),
            FilesOrUrl::Glob(pattern) => FilesOrUrlView::Glob(pattern@),
            FilesOrUrl::Url(url) => FilesOrUrlView::Url(url@),
        }
    }
}

impl Clone for FilesOrUrl {
    fn clone(&self) -> (r: Self)
        ensures
            r@ == self@,
    {
        match self {
            FilesOrUrl::File(name) => FilesOrUrl::File(name.clone()),
            FilesOrUrl::Glob(pattern) => FilesOrUrl::Glob(pattern.clone()),
            FilesOrUrl::Url(url) => FilesOrUrl::Url(url.clone()),
        }
    }
}

/// Why a text is no entry of a list of sources.
#[derive(Clone, Copy, Debug, PartialEq, Eq, Structural)]
pub enum EntryErrorKind {
    /// It reads like a URL and parses to none.
    InvalidUrl,
    /// It is no URL, no file of that name exists, and it is no pattern.
    Unusable,
}

/// A text that is no entry of a list of sources.
#[derive(Debug, PartialEq, Eq)]
pub struct EntryError {
    pub kind: EntryErrorKind,
    /// The text as it was given.
    pub value: String,
}

/// The entry that `value` stands for, where `present` tells whether a file
/// of that name exists: what reads like a URL must parse to one; the name of
/// a file that exists is that file; everything else must be a pattern.
pub open spec fn files_or_url_of(value: Seq<char>, present: bool) -> Result<
    FilesOrUrlView,
    EntryErrorKind,
> {
    if looks_like_url(value) {
        match url_parsed(value) {
            Some(url) => Ok(FilesOrUrlView::Url(url)),
            None => Err(EntryErrorKind::InvalidUrl),
        }
    } else if present {
        Ok(FilesOrUrlView::File(value))
    } else if glob_pattern(value) {
        Ok(FilesOrUrlView::Glob(value))
    } else {
        Err(EntryErrorKind::Unusable)
    }
}

impl EntryError {
    /// The message of this error.
    pub fn to_string(&self) -> (r: String)
        ensures
            r@ == match self.kind {
                EntryErrorKind::InvalidUrl => "Not a valid URL: "@ + self.value@,
                EntryErrorKind::Unusable =>
                    "Neither an http(s) URL, an existing file or a valid glob pattern: "@
                    + self.value@,
            },
    {
        match self.kind {
            EntryErrorKind::InvalidUrl => String::from_str("Not a valid URL: ").concat(
                self.value.as_str(),
            ),
            EntryErrorKind::Unusable => String::from_str(
                "Neither an http(s) URL, an existing file or a valid glob pattern: ",
            ).concat(self.value.as_str()),
        }
    }
}

/// A source that an entry resolved to.
#[derive(Debug, PartialEq, Eq)]
pub enum PathOrUrl {
    Path(String),
    Url(String),
}

/// The mathematical model of a [`PathOrUrl`].
pub enum PathOrUrlView {
    Path(Seq<char>),
    Url(Seq<char>),
}

impl View for PathOrUrl {
    type V = PathOrUrlView;

    open spec fn view(&self) -> PathOrUrlView {
        match self {
            PathOrUrl::Path(path) => PathOrUrlView::Path(path@),
            PathOrUrl::Url(url) => PathOrUrlView::Url(url@),
        }
    }
}

impl Clone for PathOrUrl {
    fn clone(&self) -> (r: Self)
        ensures
            r@ == self@,
    {
        match self {
            PathOrUrl::Path(path) => PathOrUrl::Path(path.clone()),
            PathOrUrl::Url(url) => PathOrUrl::Url(url.clone()),
        }
    }
}

/// The views of the sources of a sequence.
pub open spec fn sources_view(sources: Seq<PathOrUrl>) -> Seq<PathOrUrlView> {
    Seq::new(sources.len(), |i: int| sources[i]@)
}

/// What listing the files of a pattern gave for one file: its path, or the
/// reason why it could not be read.
pub type Listed = Result<String, String>;

/// The paths among the first `upto` listed files, in order.
pub open spec fn paths_upto(listed: Seq<Listed>, upto: int) -> Seq<PathOrUrlView>
    decreases upto,
{
    if upto <= 0 {
        Seq::empty()
    } else {
        let before = paths_upto(listed, upto - 1);
        match listed[upto - 1] {
            Ok(path) => before.push(PathOrUrlView::Path(path@)),
            Err(_) => before,
        }
    }
}

/// The warnings for the first `upto` listed files: one for each file that
/// could not be read, in order.
pub open spec fn warnings_upto(listed: Seq<Listed>, upto: int) -> Seq<Seq<char>>
    decreases upto,
{
    if upto <= 0 {
        Seq::empty()
    } else {
        let before = warnings_upto(listed, upto - 1);
        match listed[upto - 1] {
            Ok(_) => before,
            Err(why) => before.push(why@),
        }
    }
}

/// The warning for a pattern that no file matches.
pub open spec fn no_match_warning(pattern: Seq<char>) -> Seq<char> {
    "Pattern '"@ + pattern + "' matches no file"@
}

/// The sources that an entry resolves to: a file and a URL resolve to
/// themselves; a pattern resolves to the files that were listed for it and
/// could be read.
pub open spec fn resolved_sources(entry: FilesOrUrlView, listed: Seq<Listed>) -> Seq<
    PathOrUrlView,
> {
    match entry {
        FilesOrUrlView::File(name) => seq![PathOrUrlView::Path(name)],
        FilesOrUrlView::Url(url) => seq![PathOrUrlView::Url(url)],
        FilesOrUrlView::Glob(_) => paths_upto(listed, listed.len() as int),
    }
}

/// The warnings that resolving an entry gives: for a pattern that matched
/// nothing, one that says so; else one for each listed file that could not be
/// read.
pub open spec fn resolution_warnings(entry: FilesOrUrlView, listed: Seq<Listed>) -> Seq<
    Seq<char>,
> {
    match entry {
        FilesOrUrlView::Glob(pattern) => if listed.len() == 0 {
            seq![no_match_warning(pattern)]
        } else {
            warnings_upto(listed, listed.len() as int)
        },
        _ => Seq::empty(),
    }
}

impl FilesOrUrl {
    /// The entry that `value` stands for. `present` tells whether a file of
    /// that name exists.
    pub fn from_str(value: &str, present: bool) -> (r: Result<FilesOrUrl, EntryError>)
        ensures
            match r {
                Ok(s) => files_or_url_of(value@, present) == Ok::<FilesOrUrlView, EntryErrorKind>(
                    s@,
                ),
                Err(e) => files_or_url_of(value@, present) == Err::<
                    FilesOrUrlView,
                    EntryErrorKind,
                >(e.kind) && e.value@ == value@,
            },
    {
        if is_http_url(value) {
            match parse_url(value) {
                Some(url) => Ok(FilesOrUrl::Url(url)),
                None => Err(
                    EntryError { kind: EntryErrorKind::InvalidUrl, value: value.to_owned() },
                ),
            }
        } else if present {
            Ok(FilesOrUrl::File(value.to_owned()))
        } else if is_glob_pattern(value) {
            Ok(FilesOrUrl::Glob(value.to_owned()))
        } else {
            Err(EntryError { kind: EntryErrorKind::Unusable, value: value.to_owned() })
        }
    }

    /// The text that stands for this entry.
    pub fn to_string(&self) -> (r: String)
        ensures
            r@ == match self@ {
                FilesOrUrlView::File(name) => name,
                FilesOrUrlView::Glob(pattern) => pattern,
                FilesOrUrlView::Url(url) => url,
            },
    {
        match self {
            FilesOrUrl::File(name) => name.clone(),
            FilesOrUrl::Glob(pattern) => pattern.clone(),
            FilesOrUrl::Url(url) => url.clone(),
        }
    }

    /// The sources that this entry resolves to, and the warnings to give.
    /// For a pattern, `listed` is what listing its files gave; for a file and
    /// a URL it is not looked at.
    pub fn into_iter(self, listed: Vec<Listed>) -> (r: (Vec<PathOrUrl>, Vec<String>))
        ensures
            sources_view(r.0@) == resolved_sources(self@, listed@),
            texts(r.1@) == resolution_warnings(self@, listed@),
    {
        let mut sources: Vec<PathOrUrl> = Vec::new();
        let mut warnings: Vec<String> = Vec::new();
        match self {
            FilesOrUrl::File(name) => {
                sources.push(PathOrUrl::Path(name));
                assert(sources_view(sources@) =~= resolved_sources(self@, listed@));
                assert(texts(warnings@) =~= resolution_warnings(self@, listed@));
            },
            FilesOrUrl::Url(url) => {
                sources.push(PathOrUrl::Url(url));
                assert(sources_view(sources@) =~= resolved_sources(self@, listed@));
                assert(texts(warnings@) =~= resolution_warnings(self@, listed@));
            },
            FilesOrUrl::Glob(pattern) => {
                if listed.len() == 0 {
                    let mut w = String::from_str("Pattern '");
                    w.append(pattern.as_str());
                    w.append("' matches no file");
                    warnings.push(w);
                    assert(sources_view(sources@) =~= resolved_sources(self@, listed@));
                    assert(texts(warnings@) =~= resolution_warnings(self@, listed@));
                } else {
                    let mut i: usize = 0;
                    assert(sources_view(sources@) =~= paths_upto(listed@, 0));
                    assert(texts(warnings@) =~= warnings_upto(listed@, 0));
                    while i < listed.len()
                        invariant
                            i <= listed@.len(),
                            sources_view(sources@) == paths_upto(listed@, i as int),
                            texts(warnings@) == warnings_upto(listed@, i as int),
                        decreases listed.len() - i,
                    {
                        let ghost s_before = sources_view(sources@);
                        let ghost w_before = texts(warnings@);
                        match &listed[i] {
                            Ok(path) => {
                                sources.push(PathOrUrl::Path(path.clone()));
                                assert(sources_view(sources@) =~= s_before.push(
                                    PathOrUrlView::Path(path@),
                                ));
                            },
                            Err(why) => {
                                warnings.push(why.clone());
                                assert(texts(warnings@) =~= w_before.push(why@));
                            },
                        }
                        i += 1;
                    }
                }
            },
        }
        (sources, warnings)
    }
}

} // verus!
