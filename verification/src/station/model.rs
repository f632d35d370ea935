//! A saved station, and what its slug may be.

use crate::clock::WallTime;
use crate::media::{MediaId, MediaKey, Url};
use crate::text::chars_of;
use vstd::prelude::*;

verus! {

broadcast use crate::model::group_model;

pub const MAX_SLUG_CHARS: usize = 64;

/// What a station said of itself when it was last opened.
#[derive(Debug, PartialEq, Eq)]
pub struct StationIdentity {
    pub name: Option<String>,
    pub genre: Option<String>,
    pub bitrate_kbps: Option<u32>,
    pub logo: Option<Url>,
}

#[verifier::ext_equal]
pub struct IdentityView {
    pub name: Option<Seq<char>>,
    pub genre: Option<Seq<char>>,
    pub bitrate_kbps: Option<u32>,
    pub logo: Option<Seq<char>>,
}

impl View for StationIdentity {
    type V = IdentityView;

    open spec fn view(&self) -> IdentityView {
        IdentityView {
            name: crate::model::opt(self.name),
            genre: crate::model::opt(self.genre),
            bitrate_kbps: self.bitrate_kbps,
            logo: crate::model::opt(self.logo),
        }
    }
}

impl Clone for StationIdentity {
    fn clone(&self) -> (copy: Self)
        ensures
            copy@ == self@,
    {
        StationIdentity {
            name: self.name.clone(),
            genre: self.genre.clone(),
            bitrate_kbps: self.bitrate_kbps,
            logo: match &self.logo {
                Some(logo) => Some(logo.clone()),
                None => None,
            },
        }
    }
}

/// A station that was saved. `identity` is absent until it was opened once.
#[derive(Debug, PartialEq, Eq)]
pub struct Station {
    pub slug: String,
    pub url: Url,
    pub media: MediaId,
    pub identity: Option<StationIdentity>,
    pub added_at: WallTime,
    pub probed_at: Option<WallTime>,
}

#[verifier::ext_equal]
pub struct StationView {
    pub slug: Seq<char>,
    pub url: Seq<char>,
    pub media: MediaKey,
    pub identity: Option<IdentityView>,
    pub added_at: WallTime,
    pub probed_at: Option<WallTime>,
}

impl View for Station {
    type V = StationView;

    open spec fn view(&self) -> StationView {
        StationView {
            slug: self.slug@,
            url: self.url@,
            media: self.media@,
            identity: crate::model::opt(self.identity),
            added_at: self.added_at,
            probed_at: self.probed_at,
        }
    }
}

/// A lower-case letter or a digit.
pub open spec fn is_slug_char(c: char) -> bool {
    ('a' <= c && c <= 'z') || ('0' <= c && c <= '9')
}

/// Lower-case letters, digits and hyphens, with no hyphen at either end.
pub open spec fn is_slug(text: Seq<char>) -> bool {
    &&& 0 < text.len() <= MAX_SLUG_CHARS
    &&& is_slug_char(text[0])
    &&& is_slug_char(text.last())
    &&& forall|i: int| 0 <= i < text.len() ==> is_slug_char(#[trigger] text[i]) || text[i] == '-'
}

fn slug_char(c: char) -> (fits: bool)
    ensures
        fits == is_slug_char(c),
{
    ('a' <= c && c <= 'z') || ('0' <= c && c <= '9')
}

pub fn validate_station_slug(slug: &str) -> (valid: bool)
    ensures
        valid == is_slug(slug@),
{
    let chars = chars_of(slug);
    if chars.len() == 0 || chars.len() > MAX_SLUG_CHARS {
        return false;
    }
    if !slug_char(chars[0]) || !slug_char(chars[chars.len() - 1]) {
        return false;
    }
    let mut at: usize = 0;
    while at < chars.len()
        invariant
            at <= chars@.len(),
            chars@ == slug@,
            forall|i: int|
                0 <= i < at ==> is_slug_char(#[trigger] chars@[i]) || chars@[i] == '-',
        decreases chars@.len() - at,
    {
        if !slug_char(chars[at]) && chars[at] != '-' {
            return false;
        }
        at += 1;
    }
    true
}

} // verus!
