//! What can be played: its identity, where it comes from, and what is known
//! about it.

use crate::clock::Duration;
use crate::playback::PositionProvenance;
use crate::text::{chars_of, same_text, text_of, trim_text};
use vstd::prelude::*;
use vstd::string::StringExecFns;

verus! {

/// What the `url` crate reads in a text: the URL's own serialization, its
/// scheme, and whether it has a host.
#[verifier::ext_equal]
pub struct UrlView {
    pub text: Seq<char>,
    pub scheme: Seq<char>,
    pub has_host: bool,
}

/// A URL in parts.
pub struct UrlParts {
    pub text: String,
    pub scheme: String,
    pub has_host: bool,
}

impl View for UrlParts {
    type V = UrlView;

    open spec fn view(&self) -> UrlView {
        UrlView { text: self.text@, scheme: self.scheme@, has_host: self.has_host }
    }
}

/// What `url::Url::parse` makes of a text: nothing where it reports an error.
pub uninterp spec fn url_read(text: Seq<char>) -> Option<UrlView>;

/// Up to this many characters, a web URL is known to be read back as itself. A
/// host name may be encoded into one that is too long to be decoded again.
pub const LONGEST_STEADY_URL: usize = 2000;

/// `url::Url::parse`, with the parts read by `as_str`, `scheme` and
/// `has_host`. The result is a function of the text. The serialization of an
/// `http` or `https` URL with a host, of at most [`LONGEST_STEADY_URL`]
/// characters, parses again to the same URL: what could be left out or encoded
/// has been. Nothing of the kind is said of other schemes, where it is not so:
/// `file://host//C:/x` comes to `file://host/C:/x`, and that to `file:///C:/x`.
#[verifier::external_body]
pub(crate) fn parse_url(text: &str) -> (parsed: Option<UrlParts>)
    ensures
        crate::model::opt(parsed) == url_read(text@),
        parsed matches Some(url) ==> (is_web(url@) && url@.text.len() <= LONGEST_STEADY_URL
            ==> url_read(url@.text) == Some(url@)),
{
    match url::Url::parse(text) {
        Ok(url) => Some(
            UrlParts {
                text: url.as_str().to_owned(),
                scheme: url.scheme().to_owned(),
                has_host: url.has_host(),
            },
        ),
        Err(_) => None,
    }
}

/// Why a text names no media.
#[derive(Clone, Copy, Debug, PartialEq, Eq, Structural)]
pub enum MediaIdError {
    NotAbsolute,
    InvalidUrl,
    InvalidFeedId,
    NoEpisodeKey,
    Malformed,
}

/// Whether a path starts at the root.
pub open spec fn is_absolute(path: Seq<char>) -> bool {
    path.len() > 0 && path[0] == '/'
}

/// A path that starts at the root.
#[derive(Debug, PartialEq, Eq, Hash)]
pub struct AbsolutePath {
    text: String,
}

impl View for AbsolutePath {
    type V = Seq<char>;

    closed spec fn view(&self) -> Seq<char> {
        self.text@
    }
}

impl Clone for AbsolutePath {
    fn clone(&self) -> (copy: Self)
        ensures
            copy == *self,
    {
        AbsolutePath { text: self.text.clone() }
    }
}

impl AbsolutePath {
    pub fn new(path: String) -> (made: Result<Self, MediaIdError>)
        ensures
            match made {
                Ok(absolute) => is_absolute(path@) && absolute@ == path@,
                Err(error) => !is_absolute(path@) && error == MediaIdError::NotAbsolute,
            },
    {
        let chars = chars_of(path.as_str());
        if chars.len() > 0 && chars[0] == '/' {
            Ok(AbsolutePath { text: path })
        } else {
            Err(MediaIdError::NotAbsolute)
        }
    }

    pub fn as_str(&self) -> (text: &str)
        ensures
            text@ == self@,
    {
        self.text.as_str()
    }
}

/// A URL of any scheme, in its serialized form.
#[derive(Debug, PartialEq, Eq, Hash)]
pub struct Url {
    text: String,
}

impl View for Url {
    type V = Seq<char>;

    closed spec fn view(&self) -> Seq<char> {
        self.text@
    }
}

impl Clone for Url {
    fn clone(&self) -> (copy: Self)
        ensures
            copy == *self,
    {
        Url { text: self.text.clone() }
    }
}

/// Whether a text is a URL that is read as itself.
pub open spec fn is_url(text: Seq<char>) -> bool {
    url_read(text) matches Some(url) && url.text == text
}

impl Url {
    pub fn parse(text: &str) -> (made: Result<Self, MediaIdError>)
        ensures
            match made {
                Ok(url) => url_read(text@) matches Some(read) && url@ == read.text && (is_web(read)
                    && url@.len() <= LONGEST_STEADY_URL ==> is_url(url@)),
                Err(error) => url_read(text@) is None && error == MediaIdError::InvalidUrl,
            },
    {
        match parse_url(text) {
            Some(parts) => Ok(Url { text: parts.text }),
            None => Err(MediaIdError::InvalidUrl),
        }
    }

    pub fn as_str(&self) -> (text: &str)
        ensures
            text@ == self@,
    {
        self.text.as_str()
    }

    pub fn same(&self, other: &Self) -> (same: bool)
        ensures
            same == (self@ == other@),
    {
        self.text == other.text
    }
}

/// The `http` and `https` URLs with a host.
pub open spec fn is_web(url: UrlView) -> bool {
    (url.scheme == "http"@ || url.scheme == "https"@) && url.has_host
}

/// Whether a text is a web URL that is read as itself.
pub open spec fn is_normalized(text: Seq<char>) -> bool {
    url_read(text) matches Some(url) && url.text == text && is_web(url)
}

/// A web URL in its serialized form.
#[derive(Debug, PartialEq, Eq, Hash)]
pub struct NormalizedUrl {
    text: String,
}

impl View for NormalizedUrl {
    type V = Seq<char>;

    closed spec fn view(&self) -> Seq<char> {
        self.text@
    }
}

impl Clone for NormalizedUrl {
    fn clone(&self) -> (copy: Self)
        ensures
            copy == *self,
    {
        NormalizedUrl { text: self.text.clone() }
    }
}

impl NormalizedUrl {
    pub fn parse(text: &str) -> (made: Result<Self, MediaIdError>)
        ensures
            match made {
                Ok(url) => url_read(text@) matches Some(read) && is_web(read) && url@ == read.text
                    && (url@.len() <= LONGEST_STEADY_URL ==> is_normalized(url@)),
                Err(error) => !(url_read(text@) matches Some(read) && is_web(read)) && error
                    == MediaIdError::InvalidUrl,
            },
    {
        match parse_url(text) {
            Some(parts) => {
                let web = same_text(parts.scheme.as_str(), "http") || same_text(
                    parts.scheme.as_str(),
                    "https",
                );
                if web && parts.has_host {
                    Ok(NormalizedUrl { text: parts.text })
                } else {
                    Err(MediaIdError::InvalidUrl)
                }
            },
            None => Err(MediaIdError::InvalidUrl),
        }
    }

    pub fn as_str(&self) -> (text: &str)
        ensures
            text@ == self@,
    {
        self.text.as_str()
    }
}

pub open spec fn is_hex_digit(c: char) -> bool {
    ('0' <= c && c <= '9') || ('a' <= c && c <= 'f')
}

/// Thirty-two lower-case hexadecimal digits.
pub open spec fn is_feed_id(text: Seq<char>) -> bool {
    text.len() == 32 && forall|i: int| 0 <= i < 32 ==> is_hex_digit(#[trigger] text[i])
}

/// The identity of a podcast feed.
#[derive(Debug, PartialEq, Eq, Hash)]
pub struct FeedId {
    text: String,
}

impl View for FeedId {
    type V = Seq<char>;

    closed spec fn view(&self) -> Seq<char> {
        self.text@
    }
}

impl Clone for FeedId {
    fn clone(&self) -> (copy: Self)
        ensures
            copy == *self,
    {
        FeedId { text: self.text.clone() }
    }
}

impl FeedId {
    pub fn new(text: String) -> (made: Result<Self, MediaIdError>)
        ensures
            match made {
                Ok(feed) => is_feed_id(text@) && feed@ == text@,
                Err(error) => !is_feed_id(text@) && error == MediaIdError::InvalidFeedId,
            },
    {
        let chars = chars_of(text.as_str());
        if chars.len() != 32 {
            return Err(MediaIdError::InvalidFeedId);
        }
        let mut at: usize = 0;
        while at < 32
            invariant
                at <= 32,
                chars@.len() == 32,
                chars@ == text@,
                forall|i: int| 0 <= i < at ==> is_hex_digit(#[trigger] chars@[i]),
            decreases 32 - at,
        {
            let c: char = chars[at];
            if !(('0' <= c && c <= '9') || ('a' <= c && c <= 'f')) {
                assert(!is_hex_digit(chars@[at as int]));
                return Err(MediaIdError::InvalidFeedId);
            }
            at += 1;
        }
        Ok(FeedId { text })
    }

    pub fn as_str(&self) -> (text: &str)
        ensures
            text@ == self@,
    {
        self.text.as_str()
    }
}

/// What tells one episode of a feed from another.
#[derive(Debug, PartialEq, Eq, Hash)]
pub struct EpisodeKey {
    text: String,
}

impl View for EpisodeKey {
    type V = Seq<char>;

    closed spec fn view(&self) -> Seq<char> {
        self.text@
    }
}

impl Clone for EpisodeKey {
    fn clone(&self) -> (copy: Self)
        ensures
            copy == *self,
    {
        EpisodeKey { text: self.text.clone() }
    }
}

/// A text that is there and not blank, without the space around it.
pub open spec fn stated(text: Option<&str>) -> Option<Seq<char>> {
    match text {
        Some(text) => if crate::text::trim(text@).len() > 0 {
            Some(crate::text::trim(text@))
        } else {
            None
        },
        None => None,
    }
}

/// A text that is there and not blank, without the space around it.
pub fn stated_text(text: Option<&str>) -> (found: Option<String>)
    ensures
        crate::model::opt(found) == stated(text),
{
    match text {
        Some(text) => {
            let trimmed = trim_text(text);
            if chars_of(trimmed.as_str()).len() > 0 {
                Some(trimmed)
            } else {
                None
            }
        },
        None => None,
    }
}

/// The first of three texts that is stated.
pub open spec fn episode_key(
    guid: Option<&str>,
    link: Option<&str>,
    enclosure: Option<&str>,
) -> Option<Seq<char>> {
    if stated(guid) is Some {
        stated(guid)
    } else if stated(link) is Some {
        stated(link)
    } else {
        stated(enclosure)
    }
}

impl EpisodeKey {
    /// The episode's own identifier, else its link, else its enclosure.
    pub fn resolve(guid: Option<&str>, link: Option<&str>, enclosure: Option<&str>) -> (made:
        Result<Self, MediaIdError>)
        ensures
            match made {
                Ok(key) => episode_key(guid, link, enclosure) == Some(key@),
                Err(error) => episode_key(guid, link, enclosure) is None && error
                    == MediaIdError::NoEpisodeKey,
            },
    {
        if let Some(text) = stated_text(guid) {
            return Ok(EpisodeKey { text });
        }
        if let Some(text) = stated_text(link) {
            return Ok(EpisodeKey { text });
        }
        match stated_text(enclosure) {
            Some(text) => Ok(EpisodeKey { text }),
            None => Err(MediaIdError::NoEpisodeKey),
        }
    }

    /// A key read back from where it was written.
    pub fn from_stored(text: String) -> (made: Result<Self, MediaIdError>)
        ensures
            match made {
                Ok(key) => text@.len() > 0 && key@ == text@,
                Err(error) => text@.len() == 0 && error == MediaIdError::NoEpisodeKey,
            },
    {
        if chars_of(text.as_str()).len() > 0 {
            Ok(EpisodeKey { text })
        } else {
            Err(MediaIdError::NoEpisodeKey)
        }
    }

    pub fn as_str(&self) -> (text: &str)
        ensures
            text@ == self@,
    {
        self.text.as_str()
    }
}

/// The identity of a media: what a listening position is kept under.
#[derive(Debug, PartialEq, Eq, Hash)]
pub enum MediaId {
    LocalFile(AbsolutePath),
    RemoteUrl(NormalizedUrl),
    PodcastEpisode { feed: FeedId, episode: EpisodeKey },
}

/// An identity, over plain texts.
#[verifier::ext_equal]
pub enum MediaKey {
    LocalFile(Seq<char>),
    RemoteUrl(Seq<char>),
    PodcastEpisode { feed: Seq<char>, episode: Seq<char> },
}

impl View for MediaId {
    type V = MediaKey;

    open spec fn view(&self) -> MediaKey {
        match *self {
            MediaId::LocalFile(path) => MediaKey::LocalFile(path@),
            MediaId::RemoteUrl(url) => MediaKey::RemoteUrl(url@),
            MediaId::PodcastEpisode { feed, episode } => MediaKey::PodcastEpisode {
                feed: feed@,
                episode: episode@,
            },
        }
    }
}

impl Clone for MediaId {
    fn clone(&self) -> (copy: Self)
        ensures
            copy == *self,
    {
        match self {
            MediaId::LocalFile(path) => MediaId::LocalFile(path.clone()),
            MediaId::RemoteUrl(url) => MediaId::RemoteUrl(url.clone()),
            MediaId::PodcastEpisode { feed, episode } => MediaId::PodcastEpisode {
                feed: feed.clone(),
                episode: episode.clone(),
            },
        }
    }
}

/// Where a character stands among others. In a path the slash comes before all
/// else, so that paths are ordered by their components.
pub open spec fn char_rank(c: char, path: bool) -> int {
    if path && c == '/' {
        -1
    } else {
        c as u32 as int
    }
}

/// Whether `a` comes before `b` in the order of their characters, with those
/// before `from` left out.
pub open spec fn text_before(a: Seq<char>, b: Seq<char>, path: bool, from: nat) -> bool
    decreases b.len() - from,
{
    if from >= b.len() {
        false
    } else if from >= a.len() {
        true
    } else if a[from as int] == b[from as int] {
        text_before(a, b, path, from + 1)
    } else {
        char_rank(a[from as int], path) < char_rank(b[from as int], path)
    }
}

proof fn ranks_differ(a: char, b: char, path: bool)
    ensures
        char_rank(a, path) == char_rank(b, path) ==> a == b,
{
}

proof fn text_before_is_one_way(a: Seq<char>, b: Seq<char>, path: bool, from: nat)
    ensures
        !(text_before(a, b, path, from) && text_before(b, a, path, from)),
    decreases b.len() - from,
{
    if from < a.len() && from < b.len() {
        text_before_is_one_way(a, b, path, from + 1);
    }
}

proof fn text_before_is_total(a: Seq<char>, b: Seq<char>, path: bool, from: nat)
    requires
        from <= a.len(),
        from <= b.len(),
        forall|i: int| 0 <= i < from ==> a[i] == b[i],
        !text_before(a, b, path, from),
        !text_before(b, a, path, from),
    ensures
        a == b,
    decreases b.len() - from,
{
    if from < a.len() && from < b.len() {
        ranks_differ(a[from as int], b[from as int], path);
        text_before_is_total(a, b, path, from + 1);
    } else {
        assert(a =~= b);
    }
}

proof fn text_before_is_transitive(
    a: Seq<char>,
    b: Seq<char>,
    c: Seq<char>,
    path: bool,
    from: nat,
)
    requires
        text_before(a, b, path, from),
        text_before(b, c, path, from),
    ensures
        text_before(a, c, path, from),
    decreases c.len() - from,
{
    if from < a.len() && a[from as int] == b[from as int] && b[from as int] == c[from as int] {
        text_before_is_transitive(a, b, c, path, from + 1);
    }
}

/// Whether `a` comes before `b`.
fn text_first(a: &str, b: &str, path: bool) -> (first: bool)
    ensures
        first == text_before(a@, b@, path, 0),
{
    let one = chars_of(a);
    let two = chars_of(b);
    let mut at: usize = 0;
    while at < one.len() && at < two.len() && one[at] == two[at]
        invariant
            at <= one@.len(),
            at <= two@.len(),
            text_before(one@, two@, path, 0) == text_before(one@, two@, path, at as nat),
        decreases one@.len() - at,
    {
        at += 1;
    }
    if at >= two.len() {
        false
    } else if at >= one.len() {
        true
    } else {
        let x = one[at];
        let y = two[at];
        proof {
            ranks_differ(x, y, path);
        }
        if path && (x == '/' || y == '/') {
            x == '/'
        } else {
            (x as u32) < (y as u32)
        }
    }
}

impl MediaKey {
    /// The order of identities: local files by the components of their paths,
    /// URLs by their texts, and episodes by feed and key.
    pub open spec fn before(self, other: MediaKey) -> bool {
        match (self, other) {
            (MediaKey::LocalFile(a), MediaKey::LocalFile(b)) => text_before(a, b, true, 0),
            (MediaKey::LocalFile(_), _) => true,
            (MediaKey::RemoteUrl(a), MediaKey::RemoteUrl(b)) => text_before(a, b, false, 0),
            (MediaKey::RemoteUrl(_), MediaKey::PodcastEpisode { .. }) => true,
            (
                MediaKey::PodcastEpisode { feed: a, episode: x },
                MediaKey::PodcastEpisode { feed: b, episode: y },
            ) => text_before(a, b, false, 0) || (a == b && text_before(x, y, false, 0)),
            _ => false,
        }
    }
}

/// Identities are in a strict order: of two different ones exactly one comes
/// before the other, none comes before itself, and what comes before an identity
/// comes before all that follow it.
pub proof fn media_order_is_strict(a: MediaKey, b: MediaKey, c: MediaKey)
    ensures
        !(a.before(b) && b.before(a)),
        a != b ==> a.before(b) || b.before(a),
        a.before(b) && b.before(c) ==> a.before(c),
{
    media_goes_one_way(a, b);
    media_goes_one_way(b, c);
    if !a.before(b) && !b.before(a) {
        match (a, b) {
            (MediaKey::LocalFile(x), MediaKey::LocalFile(y)) => text_before_is_total(x, y, true, 0),
            (MediaKey::RemoteUrl(x), MediaKey::RemoteUrl(y)) => text_before_is_total(
                x,
                y,
                false,
                0,
            ),
            (
                MediaKey::PodcastEpisode { feed: f, episode: x },
                MediaKey::PodcastEpisode { feed: g, episode: y },
            ) => {
                text_before_is_total(f, g, false, 0);
                text_before_is_total(x, y, false, 0);
            },
            _ => {},
        }
    }
    if a.before(b) && b.before(c) {
        match (a, b, c) {
            (MediaKey::LocalFile(x), MediaKey::LocalFile(y), MediaKey::LocalFile(z)) =>
                text_before_is_transitive(x, y, z, true, 0),
            (MediaKey::RemoteUrl(x), MediaKey::RemoteUrl(y), MediaKey::RemoteUrl(z)) =>
                text_before_is_transitive(x, y, z, false, 0),
            (
                MediaKey::PodcastEpisode { feed: f, episode: x },
                MediaKey::PodcastEpisode { feed: g, episode: y },
                MediaKey::PodcastEpisode { feed: h, episode: z },
            ) => {
                if f == g && g == h {
                    text_before_is_one_way(f, f, false, 0);
                    text_before_is_transitive(x, y, z, false, 0);
                } else if f != g && g != h {
                    text_before_is_transitive(f, g, h, false, 0);
                }
            },
            _ => {},
        }
    }
}

proof fn media_goes_one_way(a: MediaKey, b: MediaKey)
    ensures
        !(a.before(b) && b.before(a)),
{
    match (a, b) {
        (MediaKey::LocalFile(x), MediaKey::LocalFile(y)) => text_before_is_one_way(x, y, true, 0),
        (MediaKey::RemoteUrl(x), MediaKey::RemoteUrl(y)) => text_before_is_one_way(x, y, false, 0),
        (
            MediaKey::PodcastEpisode { feed: f, episode: x },
            MediaKey::PodcastEpisode { feed: g, episode: y },
        ) => {
            text_before_is_one_way(f, g, false, 0);
            text_before_is_one_way(x, y, false, 0);
        },
        _ => {},
    }
}

impl MediaId {
    /// Whether this identity comes before `other` in the order of identities.
    pub fn is_before(&self, other: &MediaId) -> (before: bool)
        ensures
            before == self@.before(other@),
    {
        match (self, other) {
            (MediaId::LocalFile(a), MediaId::LocalFile(b)) => text_first(
                a.as_str(),
                b.as_str(),
                true,
            ),
            (MediaId::LocalFile(_), _) => true,
            (MediaId::RemoteUrl(a), MediaId::RemoteUrl(b)) => text_first(
                a.as_str(),
                b.as_str(),
                false,
            ),
            (MediaId::RemoteUrl(_), MediaId::PodcastEpisode { .. }) => true,
            (
                MediaId::PodcastEpisode { feed: a, episode: x },
                MediaId::PodcastEpisode { feed: b, episode: y },
            ) => text_first(a.as_str(), b.as_str(), false) || (same_text(a.as_str(), b.as_str())
                && text_first(x.as_str(), y.as_str(), false)),
            _ => false,
        }
    }
}

impl MediaKey {
    /// Whether an identity is known to be read back: any but a long URL.
    pub open spec fn steady(self) -> bool {
        self matches MediaKey::RemoteUrl(url) ==> url.len() <= LONGEST_STEADY_URL
    }

    /// Whether the identity's text names it.
    pub open spec fn valid(self) -> bool {
        match self {
            MediaKey::LocalFile(path) => is_absolute(path),
            MediaKey::RemoteUrl(url) => is_normalized(url),
            MediaKey::PodcastEpisode { feed, episode } => is_feed_id(feed) && episode.len() > 0,
        }
    }

    /// An identity as text: `file:`, `url:` or `podcast:` and what follows.
    pub open spec fn text(self) -> Seq<char> {
        match self {
            MediaKey::LocalFile(path) => "file:"@ + path,
            MediaKey::RemoteUrl(url) => "url:"@ + url,
            MediaKey::PodcastEpisode { feed, episode } => "podcast:"@ + feed + ":"@ + episode,
        }
    }

    /// The identity that a text names.
    pub open spec fn from_text(text: Seq<char>) -> Option<MediaKey> {
        if "file:"@.is_prefix_of(text) {
            let path = text.skip("file:"@.len() as int);
            if is_absolute(path) {
                Some(MediaKey::LocalFile(path))
            } else {
                None
            }
        } else if "url:"@.is_prefix_of(text) {
            match url_read(text.skip("url:"@.len() as int)) {
                Some(url) => if is_web(url) {
                    Some(MediaKey::RemoteUrl(url.text))
                } else {
                    None
                },
                None => None,
            }
        } else if "podcast:"@.is_prefix_of(text) {
            let rest = text.skip("podcast:"@.len() as int);
            if rest.len() > 33 && is_feed_id(rest.take(32)) && rest[32] == ':' {
                Some(MediaKey::PodcastEpisode { feed: rest.take(32), episode: rest.skip(33) })
            } else {
                None
            }
        } else {
            None
        }
    }
}

/// The characters of `chars` from `from` up to `to`.
pub(crate) fn slice_text(chars: &Vec<char>, from: usize, to: usize) -> (out: String)
    requires
        from <= to <= chars@.len(),
    ensures
        out@ == chars@.subrange(from as int, to as int),
{
    let mut out: Vec<char> = Vec::new();
    let mut at: usize = from;
    while at < to
        invariant
            from <= at <= to <= chars@.len(),
            out@ == chars@.subrange(from as int, at as int),
        decreases to - at,
    {
        out.push(chars[at]);
        at += 1;
        proof {
            assert(out@ =~= chars@.subrange(from as int, at as int));
        }
    }
    text_of(&out)
}

/// Whether `chars` begins with `prefix`.
pub(crate) fn begins_with(chars: &Vec<char>, prefix: &str) -> (begins: bool)
    ensures
        begins == prefix@.is_prefix_of(chars@),
{
    let wanted = chars_of(prefix);
    if chars.len() < wanted.len() {
        return false;
    }
    let mut at: usize = 0;
    while at < wanted.len()
        invariant
            at <= wanted@.len() <= chars@.len(),
            wanted@ == prefix@,
            forall|i: int| 0 <= i < at ==> wanted@[i] == chars@[i],
        decreases wanted@.len() - at,
    {
        if wanted[at] != chars[at] {
            proof {
                assert(chars@.subrange(0, prefix@.len() as int)[at as int] == chars@[at as int]);
            }
            return false;
        }
        at += 1;
    }
    proof {
        assert(prefix@ =~= chars@.subrange(0, prefix@.len() as int));
    }
    true
}

impl MediaId {
    pub fn same(&self, other: &Self) -> (same: bool)
        ensures
            same == (self@ == other@),
    {
        match (self, other) {
            (MediaId::LocalFile(a), MediaId::LocalFile(b)) => same_text(a.as_str(), b.as_str()),
            (MediaId::RemoteUrl(a), MediaId::RemoteUrl(b)) => same_text(a.as_str(), b.as_str()),
            (
                MediaId::PodcastEpisode { feed: f, episode: e },
                MediaId::PodcastEpisode { feed: g, episode: h },
            ) => same_text(f.as_str(), g.as_str()) && same_text(e.as_str(), h.as_str()),
            _ => false,
        }
    }

    /// The identity as text, read back by `parse`.
    pub fn to_text(&self) -> (out: String)
        ensures
            out@ == self@.text(),
    {
        match self {
            MediaId::LocalFile(path) => {
                let mut out = "file:".to_owned();
                out.append(path.as_str());
                out
            },
            MediaId::RemoteUrl(url) => {
                let mut out = "url:".to_owned();
                out.append(url.as_str());
                out
            },
            MediaId::PodcastEpisode { feed, episode } => {
                let mut out = "podcast:".to_owned();
                out.append(feed.as_str());
                out.append(":");
                out.append(episode.as_str());
                out
            },
        }
    }

    pub fn parse(text: &str) -> (made: Result<Self, MediaIdError>)
        ensures
            match made {
                Ok(media) => MediaKey::from_text(text@) == Some(media@) && (media@.steady()
                    ==> media@.valid()),
                Err(_) => MediaKey::from_text(text@) is None,
            },
    {
        proof {
            reveal_strlit("file:");
            reveal_strlit("url:");
            reveal_strlit("podcast:");
        }
        let chars = chars_of(text);
        if begins_with(&chars, "file:") {
            let path = slice_text(&chars, 5, chars.len());
            proof {
                assert(path@ =~= text@.skip(5));
            }
            match AbsolutePath::new(path) {
                Ok(path) => Ok(MediaId::LocalFile(path)),
                Err(error) => Err(error),
            }
        } else if begins_with(&chars, "url:") {
            let url = slice_text(&chars, 4, chars.len());
            proof {
                assert(url@ =~= text@.skip(4));
            }
            match NormalizedUrl::parse(url.as_str()) {
                Ok(url) => Ok(MediaId::RemoteUrl(url)),
                Err(error) => Err(error),
            }
        } else if begins_with(&chars, "podcast:") {
            let ghost rest = text@.skip(8);
            if chars.len() <= 41 || chars[40] != ':' {
                return Err(MediaIdError::Malformed);
            }
            let feed = slice_text(&chars, 8, 40);
            let episode = slice_text(&chars, 41, chars.len());
            proof {
                assert(feed@ =~= rest.take(32));
                assert(episode@ =~= rest.skip(33));
            }
            match FeedId::new(feed) {
                Ok(feed) => match EpisodeKey::from_stored(episode) {
                    Ok(episode) => Ok(MediaId::PodcastEpisode { feed, episode }),
                    Err(error) => Err(error),
                },
                Err(error) => Err(error),
            }
        } else {
            Err(MediaIdError::Malformed)
        }
    }
}

/// An identity written as text is read back as itself.
pub proof fn media_text_reads_back(media: MediaKey)
    requires
        media.valid(),
    ensures
        MediaKey::from_text(media.text()) == Some(media),
{
    reveal_strlit("file:");
    reveal_strlit("url:");
    reveal_strlit("podcast:");
    reveal_strlit(":");
    let text = media.text();
    match media {
        MediaKey::LocalFile(path) => {
            assert("file:"@ =~= text.subrange(0, 5));
            assert(text.skip(5) =~= path);
        },
        MediaKey::RemoteUrl(url) => {
            assert(!"file:"@.is_prefix_of(text)) by {
                if text.len() >= 5 {
                    assert(text.subrange(0, 5)[0] == 'u');
                }
            }
            assert("url:"@ =~= text.subrange(0, 4));
            assert(text.skip(4) =~= url);
        },
        MediaKey::PodcastEpisode { feed, episode } => {
            assert(text.subrange(0, 5)[0] == 'p');
            assert(text.subrange(0, 4)[0] == 'p');
            assert("podcast:"@ =~= text.subrange(0, 8));
            let rest = text.skip(8);
            assert(rest.take(32) =~= feed);
            assert(rest.skip(33) =~= episode);
        },
    }
}

/// What follows the last slash.
pub open spec fn after_slash(path: Seq<char>) -> Seq<char>
    decreases path.len(),
{
    if path.len() == 0 || path.last() == '/' {
        Seq::empty()
    } else {
        after_slash(path.drop_last()).push(path.last())
    }
}

/// The last component of a path, or the path where that is empty.
pub open spec fn file_name(path: Seq<char>) -> Seq<char> {
    if after_slash(path).len() > 0 {
        after_slash(path)
    } else {
        path
    }
}

pub proof fn after_slash_is_suffix(path: Seq<char>, from: int)
    requires
        0 <= from <= path.len(),
        forall|i: int| from <= i < path.len() ==> path[i] != '/',
        from == 0 || path[from - 1] == '/',
    ensures
        after_slash(path) == path.skip(from),
    decreases path.len(),
{
    if from < path.len() {
        after_slash_is_suffix(path.drop_last(), from);
        assert(path.drop_last().skip(from).push(path.last()) =~= path.skip(from));
    } else {
        assert(path.skip(from) =~= Seq::<char>::empty());
    }
}

fn file_name_of(path: &str) -> (name: String)
    ensures
        name@ == file_name(path@),
{
    let chars = chars_of(path);
    let mut from: usize = chars.len();
    while from > 0 && chars[from - 1] != '/'
        invariant
            from <= chars@.len(),
            forall|i: int| from <= i < chars@.len() ==> chars@[i] != '/',
        decreases from,
    {
        from -= 1;
    }
    proof {
        after_slash_is_suffix(path@, from as int);
        assert(chars@.subrange(from as int, chars@.len() as int) =~= path@.skip(from as int));
    }
    if from < chars.len() {
        slice_text(&chars, from, chars.len())
    } else {
        path.to_owned()
    }
}

/// What stands for a title that is not known.
pub open spec fn untitled() -> Seq<char> {
    "(untitled)"@
}

/// An episode's title, or what stands for one.
pub open spec fn episode_title(title: Option<Seq<char>>) -> Seq<char> {
    match title {
        Some(title) => if crate::text::trim(title).len() > 0 {
            crate::text::trim(title)
        } else {
            untitled()
        },
        None => untitled(),
    }
}

pub fn episode_name(title: Option<&str>) -> (name: String)
    ensures
        name@ == episode_title(crate::model::opt(title)),
{
    match stated_text(title) {
        Some(name) => name,
        None => "(untitled)".to_owned(),
    }
}

impl MediaKey {
    /// What a media is called where nothing better is known.
    pub open spec fn name(self) -> Seq<char> {
        match self {
            MediaKey::LocalFile(path) => file_name(path),
            MediaKey::RemoteUrl(url) => url,
            MediaKey::PodcastEpisode { .. } => untitled(),
        }
    }
}

pub fn display_name(media: &MediaId) -> (name: String)
    ensures
        name@ == media@.name(),
{
    match media {
        MediaId::LocalFile(path) => file_name_of(path.as_str()),
        MediaId::RemoteUrl(url) => url.as_str().to_owned(),
        MediaId::PodcastEpisode { .. } => "(untitled)".to_owned(),
    }
}

/// Whether a media has an end.
#[derive(Clone, Copy, Debug, PartialEq, Eq, Structural)]
pub enum Continuity {
    Finite,
    Indefinite,
}

/// How a position can be changed.
#[derive(Clone, Copy, Debug, PartialEq, Eq, Structural)]
pub enum SeekSupport {
    Native,
    Unknown,
    Unsupported,
}

#[derive(Clone, Copy, Debug, PartialEq, Eq, Structural)]
pub struct MediaCapabilities {
    pub continuity: Continuity,
    pub seek: SeekSupport,
}

/// What a decoder reported of a media it opened.
#[derive(Debug, PartialEq, Eq)]
pub struct MediaMetadata {
    pub title: Option<String>,
    pub artist: Option<String>,
    pub album: Option<String>,
    pub year: Option<String>,
    pub duration: Option<Duration>,
    pub duration_provenance: PositionProvenance,
    pub front_cover: Option<Vec<u8>>,
}

/// How identities are written: a file behind `file:`, a web address behind `url:`, and an
/// episode behind `podcast:`, its feed and its key with a colon between.
pub proof fn media_text_names_its_kind(media: MediaKey)
    ensures
        media matches MediaKey::LocalFile(path) ==> media.text() == "file:"@ + path,
        media matches MediaKey::RemoteUrl(url) ==> media.text() == "url:"@ + url,
        media matches MediaKey::PodcastEpisode { feed, episode } ==> media.text() == "podcast:"@
            + feed + ":"@ + episode,
{
}

/// What stands for a media that has no title: the last component of its path, or its
/// address.
pub proof fn media_is_named(directory: Seq<char>, name: Seq<char>, url: Seq<char>)
    requires
        name.len() > 0,
        forall|i: int| 0 <= i < name.len() ==> #[trigger] name[i] != '/',
    ensures
        MediaKey::LocalFile(directory + seq!['/'] + name).name() == name,
        MediaKey::RemoteUrl(url).name() == url,
{
    let path = directory + seq!['/'] + name;
    let at = directory.len() as int;
    assert forall|i: int| at + 1 <= i < path.len() implies path[i] != '/' by {
        assert(path[i] == name[i - at - 1]);
    }
    after_slash_is_suffix(path, at + 1);
    assert(path.skip(at + 1) =~= name);
}

/// An episode is known by the first of its own identifier, its link and its enclosure that
/// is not blank.
pub proof fn episode_is_known_by(guid: Option<&str>, link: Option<&str>, enclosure: Option<&str>)
    ensures
        (guid matches Some(text) && crate::text::trim(text@).len() > 0) ==> episode_key(
            guid,
            link,
            enclosure,
        ) == Some(crate::text::trim(guid.unwrap()@)),
        guid is None && (link matches Some(text) && crate::text::trim(text@).len() > 0)
            ==> episode_key(guid, link, enclosure) == Some(crate::text::trim(link.unwrap()@)),
        guid is None && link is None && (enclosure matches Some(text) && crate::text::trim(
            text@,
        ).len() > 0) ==> episode_key(guid, link, enclosure) == Some(
            crate::text::trim(enclosure.unwrap()@),
        ),
        guid is None && link is None && enclosure is None ==> episode_key(guid, link, enclosure)
            is None,
{
}

} // verus!
