//! Font sources and font loading errors.
use vstd::prelude::*;

use glyph_brush::ab_glyph::{FontVec, InvalidFont};
use std::io;
use std::path::PathBuf;
use vstd::string::StringExecFns;

verus! {

/// A path in the file system (std's `PathBuf`, opaque here).
#[verifier::external_type_specification]
#[verifier::external_body]
pub struct ExPathBuf(PathBuf);

/// An I/O error (std's `io::Error`, opaque here).
#[verifier::external_type_specification]
#[verifier::external_body]
pub struct ExIoError(io::Error);

/// Clones a path (std's `Clone` for `PathBuf`); nothing is stated of the copy.
pub assume_specification[ <PathBuf as Clone>::clone ](path: &PathBuf) -> PathBuf;

/// Where a font is loaded from: a font file and the index of the font inside it.
#[derive(Debug, Clone, PartialEq, Eq, Hash)]
pub struct FontSource {
    pub path: PathBuf,
    pub font_index: u32,
}

impl FontSource {
    /// The first font of the file at `path`.
    pub fn from_path(path: PathBuf) -> (r: FontSource)
        ensures
            r.path == path,
            r.font_index == 0,
    {
        FontSource { path, font_index: 0 }
    }
}

/// The sources of the fonts loaded so far, in load order: a font's id is the position
/// of its source, so a source that is loaded again gets the id it had.
#[derive(Debug)]
pub struct FontCache {
    sources: Vec<FontSource>,
}

impl FontCache {
    /// The sources loaded so far, by font id.
    pub closed spec fn sources_spec(&self) -> Seq<FontSource> {
        self.sources@
    }

    /// A cache with no font.
    pub fn new() -> (r: FontCache)
        ensures
            r.sources_spec().len() == 0,
    {
        FontCache { sources: Vec::new() }
    }

    /// The number of fonts loaded so far.
    pub fn len(&self) -> (r: usize)
        ensures
            r == self.sources_spec().len(),
    {
        self.sources.len()
    }

    /// The id of the first loaded source that `is_source` accepts, or `None` when it
    /// accepts none of them.
    pub fn find<F: Fn(&FontSource) -> bool>(&self, is_source: F) -> (r: Option<usize>)
        requires
            forall|i: int|
                0 <= i < self.sources_spec().len() ==> call_requires(
                    is_source,
                    (&#[trigger] self.sources_spec()[i],),
                ),
        ensures
            r matches Some(i) ==> {
                &&& i < self.sources_spec().len()
                &&& call_ensures(is_source, (&self.sources_spec()[i as int],), true)
                &&& forall|j: int|
                    0 <= j < i ==> call_ensures(is_source, (&#[trigger] self.sources_spec()[j],), false)
            },
            r is None ==> forall|j: int|
                0 <= j < self.sources_spec().len() ==> call_ensures(
                    is_source,
                    (&#[trigger] self.sources_spec()[j],),
                    false,
                ),
    {
        let mut k: usize = 0;
        while k < self.sources.len()
            invariant
                k <= self.sources_spec().len(),
                forall|i: int|
                    0 <= i < self.sources_spec().len() ==> call_requires(
                        is_source,
                        (&#[trigger] self.sources_spec()[i],),
                    ),
                forall|j: int|
                    0 <= j < k ==> call_ensures(is_source, (&#[trigger] self.sources_spec()[j],), false),
            decreases self.sources@.len() - k,
        {
            if is_source(&self.sources[k]) {
                return Some(k);
            }
            k = k + 1;
        }
        None
    }

    /// Records the source of a newly loaded font; returns the font's id.
    pub fn insert(&mut self, src: FontSource) -> (id: usize)
        requires
            old(self).sources_spec().len() < usize::MAX,
        ensures
            id == old(self).sources_spec().len(),
            final(self).sources_spec() == old(self).sources_spec().push(src),
    {
        let id = self.sources.len();
        self.sources.push(src);
        id
    }
}

/// Error produced when loading a font.
#[derive(Debug)]
pub enum FontLoadError {
    InvalidData,
    InvalidIndex,
    Io(io::Error),
}

impl FontLoadError {
    /// Wraps an I/O error.
    pub fn from_io(err: io::Error) -> (r: FontLoadError)
        ensures
            r == FontLoadError::Io(err),
    {
        FontLoadError::Io(err)
    }

    /// A human readable description of the error.
    pub fn description(&self) -> (r: String)
        ensures
            *self is InvalidData ==> r@ == "Invalid font data"@,
            *self is InvalidIndex ==> r@ == "Invalid font index"@,
            *self is Io ==> r@.len() >= io_prefix().len() && r@.subrange(0, io_prefix().len() as int)
                == io_prefix(),
    {
        match self {
            FontLoadError::InvalidData => "Invalid font data".to_owned(),
            FontLoadError::InvalidIndex => "Invalid font index".to_owned(),
            FontLoadError::Io(err) => {
                let mut msg = String::from_str("IO error while loading font: ");
                let text = io_error_text(err);
                msg.append(text.as_str());
                proof {
                    reveal_strlit("IO error while loading font: ");
                    assert(msg@.subrange(0, io_prefix().len() as int) =~= io_prefix());
                }
                msg
            },
        }
    }
}

/// The text that starts the description of an I/O error.
pub open spec fn io_prefix() -> Seq<char> {
    "IO error while loading font: "@
}

/// The text of an I/O error (its `Display` impl); nothing is stated of the text,
/// which comes from std and the operating system.
#[verifier::external_body]
fn io_error_text(err: &io::Error) -> String {
    err.to_string()
}

/// A parsed font (ab_glyph's `FontVec`, opaque here).
#[verifier::external_type_specification]
#[verifier::external_body]
pub struct ExFontVec(FontVec);

/// The error of a font that cannot be parsed (ab_glyph's `InvalidFont`).
#[verifier::external_type_specification]
#[verifier::external_body]
pub struct ExInvalidFont(InvalidFont);

/// Whether the bytes `data` hold a font that ab_glyph can parse at `index` (a font
/// collection holds several fonts; a single font file has index 0).
pub uninterp spec fn font_data_parses(data: Seq<u8>, index: u32) -> bool;

/// Parses font data with ab_glyph's `FontVec::try_from_vec_and_index`: it succeeds
/// exactly when the data holds a parsable font at `index`; nothing else is stated of
/// the parsed font.
#[verifier::external_body]
fn parse_font(data: Vec<u8>, index: u32) -> (r: Result<FontVec, InvalidFont>)
    ensures
        r is Ok <==> font_data_parses(data@, index),
{
    FontVec::try_from_vec_and_index(data, index)
}

/// Parses the bytes read from the file of `src` as the font at `src`'s index; data
/// that is not a font at that index gives [`FontLoadError::InvalidData`].
pub fn font_from_data(data: Vec<u8>, src: &FontSource) -> (r: Result<FontVec, FontLoadError>)
    ensures
        r is Ok <==> font_data_parses(data@, src.font_index),
        r matches Err(e) ==> e is InvalidData,
{
    match parse_font(data, src.font_index) {
        Ok(font) => Ok(font),
        Err(_) => Err(FontLoadError::InvalidData),
    }
}

} // verus!
