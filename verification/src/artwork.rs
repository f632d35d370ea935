//! Covers: the built-in one that stands in for a missing one, and what can go
//! wrong with artwork.

use vstd::prelude::*;

verus! {

/// Which built-in cover stands in for a missing one.
#[derive(Clone, Copy, Debug, PartialEq, Eq, Structural)]
pub enum CoverKind {
    /// Local files and finite remote media.
    Music,
    /// A saved station, or any stream without an end.
    Radio,
    Podcast,
}

/// The files of the built-in covers.
#[derive(Debug, PartialEq, Eq)]
pub struct CoverFiles {
    pub music: Vec<u8>,
    pub radio: Vec<u8>,
    pub podcast: Vec<u8>,
}

impl CoverFiles {
    /// The file of one kind.
    pub open spec fn bytes(self, kind: CoverKind) -> Seq<u8> {
        match kind {
            CoverKind::Music => self.music@,
            CoverKind::Radio => self.radio@,
            CoverKind::Podcast => self.podcast@,
        }
    }
}

/// What became of the built-in covers: of each, nothing as long as its file was
/// not decoded, and then a picture, or that there is none. Decoding is left to
/// the caller, who can keep a decoder's panic from spreading.
#[derive(Debug)]
pub struct BuiltInCovers<I> {
    music: Option<Option<I>>,
    radio: Option<Option<I>>,
    podcast: Option<Option<I>>,
}

#[verifier::ext_equal]
pub struct BuiltInView<I> {
    pub music: Option<Option<I>>,
    pub radio: Option<Option<I>>,
    pub podcast: Option<Option<I>>,
}

impl<I> View for BuiltInCovers<I> {
    type V = BuiltInView<I>;

    closed spec fn view(&self) -> BuiltInView<I> {
        BuiltInView { music: self.music, radio: self.radio, podcast: self.podcast }
    }
}

impl<I> BuiltInView<I> {
    /// What became of one kind.
    pub open spec fn slot(self, kind: CoverKind) -> Option<Option<I>> {
        match kind {
            CoverKind::Music => self.music,
            CoverKind::Radio => self.radio,
            CoverKind::Podcast => self.podcast,
        }
    }

    /// The picture of one kind, if its file gave one.
    pub open spec fn picture(self, kind: CoverKind) -> Option<I> {
        match self.slot(kind) {
            Some(picture) => picture,
            None => None,
        }
    }

    /// With what decoding the file of a kind gave. Only the first time counts.
    pub open spec fn settled(self, kind: CoverKind, picture: Option<I>) -> BuiltInView<I> {
        if self.slot(kind) is Some {
            self
        } else {
            match kind {
                CoverKind::Music => BuiltInView { music: Some(picture), ..self },
                CoverKind::Radio => BuiltInView { radio: Some(picture), ..self },
                CoverKind::Podcast => BuiltInView { podcast: Some(picture), ..self },
            }
        }
    }
}

impl<I> BuiltInCovers<I> {
    /// Nothing decoded yet.
    pub fn new() -> (covers: Self)
        ensures
            covers@ == (BuiltInView { music: None::<Option<I>>, radio: None, podcast: None }),
    {
        BuiltInCovers { music: None, radio: None, podcast: None }
    }

    /// The file to decode before the cover of a kind can be had; none where
    /// that was done.
    pub fn undecoded<'a>(&self, files: &'a CoverFiles, kind: CoverKind) -> (file: Option<&'a Vec<u8>>)
        ensures
            match file {
                Some(file) => self@.slot(kind) is None && file@ == files.bytes(kind),
                None => self@.slot(kind) is Some,
            },
    {
        match kind {
            CoverKind::Music => if self.music.is_none() {
                Some(&files.music)
            } else {
                None
            },
            CoverKind::Radio => if self.radio.is_none() {
                Some(&files.radio)
            } else {
                None
            },
            CoverKind::Podcast => if self.podcast.is_none() {
                Some(&files.podcast)
            } else {
                None
            },
        }
    }

    /// Takes note of what decoding the file of a kind gave: a picture, or none
    /// where it cannot be decoded.
    pub fn settle(&mut self, kind: CoverKind, picture: Option<I>)
        ensures
            final(self)@ == old(self)@.settled(kind, picture),
    {
        match kind {
            CoverKind::Music => if self.music.is_none() {
                self.music = Some(picture);
            },
            CoverKind::Radio => if self.radio.is_none() {
                self.radio = Some(picture);
            },
            CoverKind::Podcast => if self.podcast.is_none() {
                self.podcast = Some(picture);
            },
        }
    }
}

/// The built-in cover for `kind`; none where its file was not decoded or cannot
/// be, which takes nothing down.
pub fn default_cover<I>(covers: &BuiltInCovers<I>, kind: CoverKind) -> (cover: Option<&I>)
    ensures
        match cover {
            Some(cover) => covers@.picture(kind) == Some(*cover),
            None => covers@.picture(kind) is None,
        },
{
    let slot = match kind {
        CoverKind::Music => &covers.music,
        CoverKind::Radio => &covers.radio,
        CoverKind::Podcast => &covers.podcast,
    };
    match slot {
        Some(Some(picture)) => Some(picture),
        _ => None,
    }
}

/// A file is decoded at most once: what it gave the first time stays, for good
/// or for bad, and the other kinds are not touched.
pub proof fn first_decode_stays<I>(
    covers: BuiltInView<I>,
    kind: CoverKind,
    other: CoverKind,
    first: Option<I>,
    second: Option<I>,
)
    ensures
        covers.settled(kind, first).slot(kind) is Some,
        covers.slot(kind) is None ==> covers.settled(kind, first).picture(kind) == first,
        covers.settled(kind, first).settled(kind, second) == covers.settled(kind, first),
        other != kind ==> covers.settled(kind, first).slot(other) == covers.slot(other),
{
}

/// Why there is no cover.
#[derive(Clone, Copy, Debug, PartialEq, Eq, Structural)]
pub enum ArtworkError {
    /// There simply is no artwork.
    Missing,
    TooLarge,
    TooManyPixels,
    Unsupported,
    Corrupt,
    Io,
    Panicked,
    Encoding,
}

impl ArtworkError {
    pub open spec fn text(self) -> Seq<char> {
        match self {
            ArtworkError::Missing => "no artwork"@,
            ArtworkError::TooLarge => "artwork file is too large"@,
            ArtworkError::TooManyPixels => "artwork has too many pixels"@,
            ArtworkError::Unsupported => "artwork format is not supported"@,
            ArtworkError::Corrupt => "artwork could not be decoded"@,
            ArtworkError::Io => "artwork could not be read"@,
            ArtworkError::Panicked => "artwork handling panicked"@,
            ArtworkError::Encoding => "artwork could not be encoded"@,
        }
    }

    pub fn describe(self) -> (text: &'static str)
        ensures
            text@ == self.text(),
    {
        match self {
            ArtworkError::Missing => "no artwork",
            ArtworkError::TooLarge => "artwork file is too large",
            ArtworkError::TooManyPixels => "artwork has too many pixels",
            ArtworkError::Unsupported => "artwork format is not supported",
            ArtworkError::Corrupt => "artwork could not be decoded",
            ArtworkError::Io => "artwork could not be read",
            ArtworkError::Panicked => "artwork handling panicked",
            ArtworkError::Encoding => "artwork could not be encoded",
        }
    }
}

} // verus!
