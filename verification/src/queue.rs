//! A queue: entries in order, each with an identity of its own, and a cursor.

use crate::clock::Duration;
use crate::media::{AbsolutePath, MediaId, MediaKey, MediaMetadata, NormalizedUrl, Url};
use crate::playback::PositionProvenance;
use crate::text::same_text;
use vstd::prelude::*;

verus! {

broadcast use crate::model::group_model;

/// How many entries all playlists together may hold.
pub const MAX_PLAYLIST_ENTRIES: usize = 4096;

/// The identity of one queued occurrence.
#[derive(Clone, Copy, Debug, PartialEq, Eq, Structural, PartialOrd, Ord, Hash)]
pub struct QueueEntryId {
    pub raw: u64,
}

impl QueueEntryId {
    pub fn get(self) -> (raw: u64)
        ensures
            raw == self.raw,
    {
        self.raw
    }

    pub fn from_raw(raw: u64) -> (id: Self)
        ensures
            id.raw == raw,
    {
        QueueEntryId { raw }
    }
}

#[derive(Clone, Copy, Debug, PartialEq, Eq, Structural)]
pub enum Direction {
    Up,
    Down,
}

#[derive(Clone, Copy, Debug, PartialEq, Eq, Structural)]
pub enum QueueError {
    /// The batch does not fit under the cap that all playlists share.
    Capacity { requested: usize, available: usize },
    UnknownPlaylist(u64),
    UnknownEntry(QueueEntryId),
    SourceMismatch,
    IdExhausted,
}

/// Hands out numbers that were never handed out before; `None` once there are
/// no more.
#[derive(Clone, Copy, Debug, PartialEq, Eq, Structural)]
pub struct IdAllocator {
    pub next: Option<u64>,
}

impl IdAllocator {
    /// Whether `count` more numbers can be had.
    pub open spec fn has(self, count: nat) -> bool {
        count == 0 || (self.next matches Some(next) && next + count - 1 <= u64::MAX)
    }

    /// The allocator after `count` numbers have been handed out.
    pub open spec fn after(self, count: nat) -> IdAllocator {
        match self.next {
            Some(next) => if count == 0 {
                self
            } else if next + count <= u64::MAX {
                IdAllocator { next: Some((next + count) as u64) }
            } else {
                IdAllocator { next: None }
            },
            None => self,
        }
    }

    /// The first number it will hand out.
    pub open spec fn first(self) -> u64 {
        match self.next {
            Some(next) => next,
            None => 0,
        }
    }

    /// Whether it hands out numbers from one on.
    pub open spec fn started(self) -> bool {
        self.next matches Some(next) ==> next >= 1
    }

    /// Whether `id` can no longer be handed out.
    pub open spec fn past(self, id: u64) -> bool {
        self.next matches Some(next) ==> id < next
    }

    /// The allocator once it knows that `id` is taken.
    pub open spec fn observed(self, id: u64) -> IdAllocator {
        match self.next {
            Some(next) => if id < next {
                self
            } else if id < u64::MAX {
                IdAllocator { next: Some((id + 1) as u64) }
            } else {
                IdAllocator { next: None }
            },
            None => self,
        }
    }

    pub fn starting_at(next: Option<u64>) -> (ids: Self)
        ensures
            ids.next == next,
    {
        IdAllocator { next }
    }

    pub fn next(self) -> (next: Option<u64>)
        ensures
            next == self.next,
    {
        self.next
    }

    /// Takes the next `count` numbers, and returns the first of them.
    pub fn reserve(&mut self, count: usize) -> (taken: Result<u64, QueueError>)
        ensures
            match taken {
                Ok(start) => old(self).has(count as nat) && start == old(self).first()
                    && *final(self) == old(self).after(count as nat),
                Err(error) => !old(self).has(count as nat) && *final(self) == *old(self) && error
                    == QueueError::IdExhausted,
            },
    {
        match self.next {
            Some(next) => {
                if count == 0 {
                    return Ok(next);
                }
                match next.checked_add(count as u64 - 1) {
                    Some(last) => {
                        self.next = last.checked_add(1);
                        Ok(next)
                    },
                    None => Err(QueueError::IdExhausted),
                }
            },
            None => {
                if count == 0 {
                    Ok(0)
                } else {
                    Err(QueueError::IdExhausted)
                }
            },
        }
    }

    /// Raises the allocator past `id`.
    pub fn observe(&mut self, id: u64)
        ensures
            *final(self) == old(self).observed(id),
            final(self).past(id),
    {
        if let Some(next) = self.next {
            if id >= next {
                self.next = id.checked_add(1);
            }
        }
    }
}

impl Default for IdAllocator {
    fn default() -> (ids: Self)
        ensures
            ids.next == Some(1u64),
    {
        IdAllocator { next: Some(1) }
    }
}

/// Where an entry's audio comes from.
#[derive(Debug, PartialEq, Eq)]
pub enum QueueSource {
    LocalFile(AbsolutePath),
    RemoteUrl(NormalizedUrl),
    Podcast { fallback: Url },
}

#[verifier::ext_equal]
pub enum SourceView {
    LocalFile(Seq<char>),
    RemoteUrl(Seq<char>),
    Podcast { fallback: Seq<char> },
}

impl View for QueueSource {
    type V = SourceView;

    open spec fn view(&self) -> SourceView {
        match *self {
            QueueSource::LocalFile(path) => SourceView::LocalFile(path@),
            QueueSource::RemoteUrl(url) => SourceView::RemoteUrl(url@),
            QueueSource::Podcast { fallback } => SourceView::Podcast { fallback: fallback@ },
        }
    }
}

impl Clone for QueueSource {
    fn clone(&self) -> (copy: Self)
        ensures
            copy == *self,
    {
        match self {
            QueueSource::LocalFile(path) => QueueSource::LocalFile(path.clone()),
            QueueSource::RemoteUrl(url) => QueueSource::RemoteUrl(url.clone()),
            QueueSource::Podcast { fallback } => QueueSource::Podcast {
                fallback: fallback.clone(),
            },
        }
    }
}

impl SourceView {
    /// Whether a source is known to be read back: any but a long URL, and for an
    /// episode one that is read as itself.
    pub open spec fn steady(self) -> bool {
        match self {
            SourceView::LocalFile(_) => true,
            SourceView::RemoteUrl(url) => url.len() <= crate::media::LONGEST_STEADY_URL,
            SourceView::Podcast { fallback } => crate::media::is_url(fallback),
        }
    }

    /// Whether what is saved of the source is read back as it.
    pub open spec fn valid(self) -> bool {
        match self {
            SourceView::LocalFile(path) => crate::media::is_absolute(path),
            SourceView::RemoteUrl(url) => crate::media::is_normalized(url),
            SourceView::Podcast { fallback } => crate::media::is_url(fallback),
        }
    }

    /// Whether the source is one for `media`: the same path, the same URL, or
    /// any URL for an episode.
    pub open spec fn serves(self, media: MediaKey) -> bool {
        match (media, self) {
            (MediaKey::LocalFile(a), SourceView::LocalFile(b)) => a == b,
            (MediaKey::RemoteUrl(a), SourceView::RemoteUrl(b)) => a == b,
            (MediaKey::PodcastEpisode { .. }, SourceView::Podcast { .. }) => true,
            _ => false,
        }
    }
}

pub fn source_matches(media: &MediaId, source: &QueueSource) -> (matching: bool)
    ensures
        matching == source@.serves(media@),
{
    match (media, source) {
        (MediaId::LocalFile(a), QueueSource::LocalFile(b)) => same_text(a.as_str(), b.as_str()),
        (MediaId::RemoteUrl(a), QueueSource::RemoteUrl(b)) => same_text(a.as_str(), b.as_str()),
        (MediaId::PodcastEpisode { .. }, QueueSource::Podcast { .. }) => true,
        _ => false,
    }
}

/// Who said how long a media is.
#[derive(Clone, Copy, Debug, PartialEq, Eq, Structural)]
pub enum DurationSource {
    Decoded(PositionProvenance),
    Declared,
}

#[derive(Clone, Copy, Debug, PartialEq, Eq, Structural)]
pub struct DisplayDuration {
    pub value: Duration,
    pub source: DurationSource,
}

/// What is shown of an entry, as far as it is known.
#[derive(Debug, PartialEq, Eq)]
pub struct DisplayMetadata {
    pub title: Option<String>,
    pub artist: Option<String>,
    pub album: Option<String>,
    pub year: Option<String>,
    pub duration: Option<DisplayDuration>,
}

#[verifier::ext_equal]
pub struct DisplayView {
    pub title: Option<Seq<char>>,
    pub artist: Option<Seq<char>>,
    pub album: Option<Seq<char>>,
    pub year: Option<Seq<char>>,
    pub duration: Option<DisplayDuration>,
}

impl View for DisplayMetadata {
    type V = DisplayView;

    open spec fn view(&self) -> DisplayView {
        DisplayView {
            title: crate::model::opt(self.title),
            artist: crate::model::opt(self.artist),
            album: crate::model::opt(self.album),
            year: crate::model::opt(self.year),
            duration: self.duration,
        }
    }
}

impl Clone for DisplayMetadata {
    fn clone(&self) -> (copy: Self)
        ensures
            copy == *self,
    {
        DisplayMetadata {
            title: self.title.clone(),
            artist: self.artist.clone(),
            album: self.album.clone(),
            year: self.year.clone(),
            duration: self.duration,
        }
    }
}

impl Default for DisplayMetadata {
    fn default() -> (blank: Self)
        ensures
            blank@ == DisplayView::blank(),
    {
        DisplayMetadata { title: None, artist: None, album: None, year: None, duration: None }
    }
}

/// `new` where it is there, else `old`.
pub open spec fn replaced<T>(old_value: Option<T>, new_value: Option<T>) -> Option<T> {
    if new_value is Some {
        new_value
    } else {
        old_value
    }
}

impl DisplayView {
    pub open spec fn blank() -> DisplayView {
        DisplayView { title: None, artist: None, album: None, year: None, duration: None }
    }

    /// With the fields that `update` carries replaced.
    pub open spec fn updated(self, update: DisplayView) -> DisplayView {
        DisplayView {
            title: replaced(self.title, update.title),
            artist: replaced(self.artist, update.artist),
            album: replaced(self.album, update.album),
            year: replaced(self.year, update.year),
            duration: replaced(self.duration, update.duration),
        }
    }
}

impl MediaMetadata {
    /// What a decoder's report says of the fields that are shown.
    pub open spec fn as_update(self) -> DisplayView {
        DisplayView {
            title: crate::model::opt(self.title),
            artist: crate::model::opt(self.artist),
            album: crate::model::opt(self.album),
            year: crate::model::opt(self.year),
            duration: match self.duration {
                Some(value) => Some(
                    DisplayDuration {
                        value,
                        source: DurationSource::Decoded(self.duration_provenance),
                    },
                ),
                None => None,
            },
        }
    }
}

/// Replaces `field` by what `update` carries. Says whether that changed it.
fn replace_text(field: &mut Option<String>, update: &Option<String>) -> (changed: bool)
    ensures
        crate::model::opt(*final(field)) == replaced(
            crate::model::opt(*old(field)),
            crate::model::opt(*update),
        ),
        changed == (crate::model::opt(*final(field)) != crate::model::opt(*old(field))),
{
    match update {
        Some(text) => {
            let same = match field.as_ref() {
                Some(present) => *present == *text,
                None => false,
            };
            if same {
                false
            } else {
                *field = Some(text.clone());
                true
            }
        },
        None => false,
    }
}

/// A change to what is shown of a media: a field that is absent is left alone.
#[derive(Debug, PartialEq, Eq)]
pub struct DisplayUpdate {
    pub title: Option<String>,
    pub artist: Option<String>,
    pub album: Option<String>,
    pub year: Option<String>,
    pub duration: Option<DisplayDuration>,
}

impl View for DisplayUpdate {
    type V = DisplayView;

    open spec fn view(&self) -> DisplayView {
        DisplayView {
            title: crate::model::opt(self.title),
            artist: crate::model::opt(self.artist),
            album: crate::model::opt(self.album),
            year: crate::model::opt(self.year),
            duration: self.duration,
        }
    }
}

impl Default for DisplayUpdate {
    fn default() -> (blank: Self)
        ensures
            blank@ == DisplayView::blank(),
    {
        DisplayUpdate { title: None, artist: None, album: None, year: None, duration: None }
    }
}

impl DisplayMetadata {
    /// Replaces the fields that `update` carries. Says whether anything
    /// changed.
    pub fn update(&mut self, update: &DisplayUpdate) -> (changed: bool)
        ensures
            final(self)@ == old(self)@.updated(update@),
            changed == (final(self)@ != old(self)@),
    {
        let title: bool = replace_text(&mut self.title, &update.title);
        let artist: bool = replace_text(&mut self.artist, &update.artist);
        let album: bool = replace_text(&mut self.album, &update.album);
        let year: bool = replace_text(&mut self.year, &update.year);
        let mut duration: bool = false;
        if let Some(value) = update.duration {
            if self.duration != Some(value) {
                self.duration = Some(value);
                duration = true;
            }
        }
        title || artist || album || year || duration
    }
}

/// An entry that has no identity yet.
#[derive(Debug, PartialEq, Eq)]
pub struct NewQueueEntry {
    media: MediaId,
    source: QueueSource,
    display: DisplayMetadata,
}

#[verifier::ext_equal]
pub struct NewEntryView {
    pub media: MediaKey,
    pub source: SourceView,
    pub display: DisplayView,
}

impl View for NewQueueEntry {
    type V = NewEntryView;

    closed spec fn view(&self) -> NewEntryView {
        NewEntryView { media: self.media@, source: self.source@, display: self.display@ }
    }
}

impl NewEntryView {
    /// Whether the source is one for the media.
    pub open spec fn valid(self) -> bool {
        self.source.serves(self.media)
    }

    pub open spec fn with_id(self, id: QueueEntryId) -> EntryView {
        EntryView { id, media: self.media, source: self.source, display: self.display }
    }
}

impl NewQueueEntry {
    /// An entry for `media`, refused where `source` is one for another.
    pub fn new(media: MediaId, source: QueueSource, display: DisplayMetadata) -> (made: Result<
        Self,
        QueueError,
    >)
        ensures
            match made {
                Ok(entry) => source@.serves(media@) && entry@ == (NewEntryView {
                    media: media@,
                    source: source@,
                    display: display@,
                }) && entry@.valid(),
                Err(error) => !source@.serves(media@) && error == QueueError::SourceMismatch,
            },
    {
        if source_matches(&media, &source) {
            Ok(NewQueueEntry { media, source, display })
        } else {
            Err(QueueError::SourceMismatch)
        }
    }

    pub fn media(&self) -> (media: &MediaId)
        ensures
            media@ == self@.media,
    {
        &self.media
    }

    fn with_id(self, id: QueueEntryId) -> (entry: QueueEntry)
        ensures
            entry@ == self@.with_id(id),
    {
        QueueEntry { id, media: self.media, source: self.source, display: self.display }
    }
}

/// One queued occurrence of a media.
#[derive(Debug, PartialEq, Eq)]
pub struct QueueEntry {
    id: QueueEntryId,
    media: MediaId,
    source: QueueSource,
    display: DisplayMetadata,
}

#[verifier::ext_equal]
pub struct EntryView {
    pub id: QueueEntryId,
    pub media: MediaKey,
    pub source: SourceView,
    pub display: DisplayView,
}

impl View for QueueEntry {
    type V = EntryView;

    closed spec fn view(&self) -> EntryView {
        EntryView {
            id: self.id,
            media: self.media@,
            source: self.source@,
            display: self.display@,
        }
    }
}

impl Clone for QueueEntry {
    fn clone(&self) -> (copy: Self)
        ensures
            copy == *self,
    {
        QueueEntry {
            id: self.id,
            media: self.media.clone(),
            source: self.source.clone(),
            display: self.display.clone(),
        }
    }
}

impl EntryView {
    /// Whether the source is one for the media.
    pub open spec fn valid(self) -> bool {
        self.source.serves(self.media)
    }
}

impl QueueEntry {
    pub fn from_parts(
        id: QueueEntryId,
        media: MediaId,
        source: QueueSource,
        display: DisplayMetadata,
    ) -> (entry: Self)
        ensures
            entry@ == (EntryView { id, media: media@, source: source@, display: display@ }),
    {
        QueueEntry { id, media, source, display }
    }

    pub fn id(&self) -> (id: QueueEntryId)
        ensures
            id == self@.id,
    {
        self.id
    }

    pub fn media(&self) -> (media: &MediaId)
        ensures
            media@ == self@.media,
    {
        &self.media
    }

    pub fn source(&self) -> (source: &QueueSource)
        ensures
            source@ == self@.source,
    {
        &self.source
    }

    pub fn display(&self) -> (display: &DisplayMetadata)
        ensures
            display@ == self@.display,
    {
        &self.display
    }

    /// The same entry under another identity.
    pub fn renumbered(self, id: QueueEntryId) -> (entry: Self)
        ensures
            entry@ == (EntryView { id, ..self@ }),
    {
        QueueEntry { id, media: self.media, source: self.source, display: self.display }
    }
}

/// Entries in order, and which of them the cursor is on.
#[derive(Debug, PartialEq, Eq)]
pub struct Queue {
    entries: Vec<QueueEntry>,
    active: Option<QueueEntryId>,
}

#[verifier::ext_equal]
pub struct QueueView {
    pub entries: Seq<EntryView>,
    pub active: Option<QueueEntryId>,
}

impl View for Queue {
    type V = QueueView;

    closed spec fn view(&self) -> QueueView {
        QueueView { entries: crate::model::seq(self.entries@), active: self.active }
    }
}

impl Clone for Queue {
    fn clone(&self) -> (copy: Self)
        ensures
            copy@ == self@,
    {
        let mut entries: Vec<QueueEntry> = Vec::new();
        let mut at: usize = 0;
        while at < self.entries.len()
            invariant
                at <= self.entries@.len(),
                entries@ == self.entries@.take(at as int),
            decreases self.entries@.len() - at,
        {
            entries.push(self.entries[at].clone());
            at += 1;
            proof {
                assert(entries@ =~= self.entries@.take(at as int));
            }
        }
        proof {
            assert(entries@ =~= self.entries@);
        }
        Queue { entries, active: self.active }
    }
}

impl Default for Queue {
    fn default() -> (queue: Self)
        ensures
            queue@ == QueueView::empty(),
    {
        Queue { entries: Vec::new(), active: None }
    }
}

/// What a removal left: the entry to select next.
#[derive(Clone, Copy, Debug, PartialEq, Eq, Structural)]
pub struct Removed {
    pub selection: Option<QueueEntryId>,
}

impl QueueView {
    pub open spec fn empty() -> QueueView {
        QueueView { entries: Seq::empty(), active: None }
    }

    /// Where the entry `id` first stands, if it is queued.
    pub open spec fn find(self, id: QueueEntryId) -> Option<int> {
        crate::model::position(self.entries, |entry: EntryView| entry.id == id, 0)
    }

    pub open spec fn holds(self, id: QueueEntryId) -> bool {
        self.find(id) is Some
    }

    /// The entry `id`, if it is queued.
    pub open spec fn get(self, id: QueueEntryId) -> Option<EntryView> {
        match self.find(id) {
            Some(at) => Some(self.entries[at]),
            None => None,
        }
    }

    pub open spec fn first(self) -> Option<QueueEntryId> {
        if self.entries.len() > 0 {
            Some(self.entries[0].id)
        } else {
            None
        }
    }

    /// The media under the cursor.
    pub open spec fn active_media(self) -> Option<MediaKey> {
        match self.active {
            Some(id) => match self.get(id) {
                Some(entry) => Some(entry.media),
                None => None,
            },
            None => None,
        }
    }

    pub open spec fn distinct(self) -> bool {
        forall|i: int, j: int|
            0 <= i < j < self.entries.len() ==> #[trigger] self.entries[i].id
                != #[trigger] self.entries[j].id
    }

    /// Whether every identity occurs once and the cursor is on an entry.
    pub open spec fn wf(self) -> bool {
        self.distinct() && (self.active matches Some(id) ==> self.holds(id))
    }

    pub open spec fn ids(self) -> Seq<QueueEntryId> {
        self.entries.map_values(|entry: EntryView| entry.id)
    }

    /// With `batch` at the end, numbered from `start` on.
    pub open spec fn enqueued(self, start: u64, batch: Seq<NewEntryView>) -> QueueView {
        QueueView {
            entries: self.entries + Seq::new(
                batch.len(),
                |i: int| batch[i].with_id(QueueEntryId { raw: (start + i) as u64 }),
            ),
            ..self
        }
    }

    /// With the cursor where it was asked to be.
    pub open spec fn with_active(self, active: Option<QueueEntryId>) -> QueueView {
        QueueView { active, ..self }
    }

    /// Without the entry `id`; a cursor on it is cleared.
    pub open spec fn removed(self, id: QueueEntryId) -> QueueView {
        match self.find(id) {
            Some(at) => QueueView {
                entries: self.entries.remove(at),
                active: if self.active == Some(id) {
                    None
                } else {
                    self.active
                },
            },
            None => self,
        }
    }

    /// What to select once `id` is gone: the entry that took its place, else
    /// the one before it.
    pub open spec fn selection_after(self, id: QueueEntryId) -> Option<QueueEntryId> {
        match self.find(id) {
            Some(at) => if at + 1 < self.entries.len() {
                Some(self.entries[at + 1].id)
            } else if at > 0 {
                Some(self.entries[at - 1].id)
            } else {
                None
            },
            None => None,
        }
    }

    /// Where a step moves the entry at `at`, if it is not at that edge.
    pub open spec fn step(self, at: int, direction: Direction) -> Option<int> {
        match direction {
            Direction::Up => if at > 0 {
                Some(at - 1)
            } else {
                None
            },
            Direction::Down => if at + 1 < self.entries.len() {
                Some(at + 1)
            } else {
                None
            },
        }
    }

    /// With the entry `id` one step further in `direction`.
    pub open spec fn moved(self, id: QueueEntryId, direction: Direction) -> QueueView {
        match self.find(id) {
            Some(at) => match self.step(at, direction) {
                Some(to) => QueueView {
                    entries: self.entries.remove(at).insert(to, self.entries[at]),
                    ..self
                },
                None => self,
            },
            None => self,
        }
    }

    pub open spec fn can_move(self, id: QueueEntryId, direction: Direction) -> bool {
        self.find(id) matches Some(at) && self.step(at, direction) is Some
    }

    /// With one entry replaced.
    pub open spec fn with_entry(self, at: int, entry: EntryView) -> QueueView {
        QueueView { entries: self.entries.update(at, entry), ..self }
    }

    /// With the display of the entry `id` updated.
    pub open spec fn absorbed(self, id: QueueEntryId, update: DisplayView) -> QueueView {
        match self.find(id) {
            Some(at) => self.with_entry(
                at,
                EntryView { display: self.entries[at].display.updated(update), ..self.entries[at] },
            ),
            None => self,
        }
    }

    /// With the display of every entry for `media` updated.
    pub open spec fn displayed(self, media: MediaKey, update: DisplayView) -> QueueView {
        QueueView {
            entries: self.entries.map_values(
                |entry: EntryView|
                    if entry.media == media {
                        EntryView { display: entry.display.updated(update), ..entry }
                    } else {
                        entry
                    },
            ),
            ..self
        }
    }

    /// With the audio of the entry `id` taken from `url`.
    pub open spec fn refetched(self, id: QueueEntryId, url: Seq<char>) -> QueueView {
        match self.find(id) {
            Some(at) => self.with_entry(
                at,
                EntryView { source: SourceView::Podcast { fallback: url }, ..self.entries[at] },
            ),
            None => self,
        }
    }
}

impl Queue {
    pub fn from_parts(entries: Vec<QueueEntry>, active: Option<QueueEntryId>) -> (queue: Self)
        ensures
            queue@ == (QueueView { entries: crate::model::seq(entries@), active }),
    {
        Queue { entries, active }
    }

    pub fn entries(&self) -> (entries: &Vec<QueueEntry>)
        ensures
            crate::model::seq(entries@) == self@.entries,
    {
        &self.entries
    }

    pub fn len(&self) -> (len: usize)
        ensures
            len == self@.entries.len(),
    {
        self.entries.len()
    }

    pub fn is_empty(&self) -> (empty: bool)
        ensures
            empty == (self@.entries.len() == 0),
    {
        self.entries.len() == 0
    }

    pub fn first(&self) -> (first: Option<QueueEntryId>)
        ensures
            first == self@.first(),
    {
        if self.entries.len() > 0 {
            assert(self@.entries[0] == self.entries@[0]@);
            Some(self.entries[0].id())
        } else {
            None
        }
    }

    pub fn active(&self) -> (active: Option<QueueEntryId>)
        ensures
            active == self@.active,
    {
        self.active
    }

    /// The identities, in order.
    pub fn ids(&self) -> (ids: Vec<QueueEntryId>)
        ensures
            ids@ == self@.ids(),
    {
        let mut ids: Vec<QueueEntryId> = Vec::new();
        let mut at: usize = 0;
        while at < self.entries.len()
            invariant
                at <= self.entries@.len(),
                ids@ == self@.ids().take(at as int),
            decreases self.entries@.len() - at,
        {
            ids.push(self.entries[at].id);
            at += 1;
            proof {
                assert(ids@ =~= self@.ids().take(at as int));
            }
        }
        proof {
            assert(ids@ =~= self@.ids());
        }
        ids
    }

    fn index_of(&self, id: QueueEntryId) -> (found: Option<usize>)
        ensures
            match found {
                Some(at) => self@.find(id) == Some(at as int) && at < self.entries@.len()
                    && self.entries@[at as int].id == id,
                None => self@.find(id) is None,
            },
    {
        let ghost wanted = |entry: EntryView| entry.id == id;
        let mut at: usize = 0;
        while at < self.entries.len()
            invariant
                at <= self.entries@.len(),
                wanted == (|entry: EntryView| entry.id == id),
                crate::model::position(self@.entries, wanted, 0) == crate::model::position(
                    self@.entries,
                    wanted,
                    at as int,
                ),
            decreases self.entries@.len() - at,
        {
            assert(self@.entries[at as int] == self.entries@[at as int]@);
            if self.entries[at].id == id {
                return Some(at);
            }
            at += 1;
        }
        None
    }

    pub fn get(&self, id: QueueEntryId) -> (found: Option<&QueueEntry>)
        ensures
            crate::model::opt(found) == self@.get(id),
    {
        match self.index_of(id) {
            Some(at) => Some(&self.entries[at]),
            None => None,
        }
    }

    /// The media under the cursor.
    pub fn active_media(&self) -> (media: Option<&MediaId>)
        ensures
            crate::model::opt(media) == self@.active_media(),
    {
        match self.active {
            Some(id) => match self.get(id) {
                Some(entry) => Some(&entry.media),
                None => None,
            },
            None => None,
        }
    }

    /// Adds `batch` at the end, all of it or nothing, with numbers from `ids`.
    pub fn enqueue(&mut self, batch: Vec<NewQueueEntry>, ids: &mut IdAllocator) -> (made: Result<
        Vec<QueueEntryId>,
        QueueError,
    >)
        ensures
            match made {
                Ok(made) => old(ids).has(batch@.len()) && made@ == Seq::new(
                    batch@.len(),
                    |i: int| QueueEntryId { raw: (old(ids).first() + i) as u64 },
                ) && *final(ids) == old(ids).after(batch@.len()) && final(self)@
                    == old(self)@.enqueued(old(ids).first(), crate::model::seq(batch@)),
                Err(error) => !old(ids).has(batch@.len()) && *final(ids) == *old(ids) && *final(self) == *old(self) && error == QueueError::IdExhausted,
            },
    {
        let start: u64 = match ids.reserve(batch.len()) {
            Ok(start) => start,
            Err(error) => return Err(error),
        };
        let ghost all = batch@;
        let ghost before = self@;
        let count: usize = batch.len();
        let mut made: Vec<QueueEntryId> = Vec::new();
        let mut at: usize = 0;
        for entry in it: batch
            invariant
                it.seq() == all,
                at == it.index(),
                count == all.len(),
                all.len() > 0 ==> start + all.len() - 1 <= u64::MAX,
                made@ == Seq::new(at as nat, |i: int| QueueEntryId { raw: (start + i) as u64 }),
                self@ == before.enqueued(start, crate::model::seq(all.take(at as int))),
        {
            let id = QueueEntryId { raw: start + at as u64 };
            made.push(id);
            self.entries.push(entry.with_id(id));
            proof {
                assert(all.take(at + 1) =~= all.take(at as int).push(entry));
                assert(made@ =~= Seq::new(
                    (at + 1) as nat,
                    |i: int| QueueEntryId { raw: (start + i) as u64 },
                ));
                assert(self@.entries =~= before.enqueued(
                    start,
                    crate::model::seq(all.take(at + 1)),
                ).entries);
            }
            at += 1;
        }
        proof {
            assert(all.take(all.len() as int) =~= all);
        }
        Ok(made)
    }

    /// Moves the cursor: off, or onto an entry.
    pub fn set_active(&mut self, active: Option<QueueEntryId>) -> (done: Result<(), QueueError>)
        ensures
            match done {
                Ok(_) => (active matches Some(id) ==> old(self)@.holds(id)) && final(self)@ == old(self)@.with_active(active),
                Err(error) => active matches Some(id) && !old(self)@.holds(id) && *final(self)
                    == *old(self) && error == QueueError::UnknownEntry(id),
            },
    {
        if let Some(id) = active {
            if self.index_of(id).is_none() {
                return Err(QueueError::UnknownEntry(id));
            }
        }
        self.active = active;
        Ok(())
    }

    pub fn remove(&mut self, id: QueueEntryId) -> (done: Result<Removed, QueueError>)
        ensures
            match done {
                Ok(left) => old(self)@.holds(id) && final(self)@ == old(self)@.removed(id)
                    && left.selection == old(self)@.selection_after(id),
                Err(error) => !old(self)@.holds(id) && *final(self) == *old(self) && error
                    == QueueError::UnknownEntry(id),
            },
    {
        let at: usize = match self.index_of(id) {
            Some(at) => at,
            None => return Err(QueueError::UnknownEntry(id)),
        };
        let last: usize = self.entries.len() - 1;
        let selection = if at < last {
            Some(self.entries[at + 1].id)
        } else if at > 0 {
            Some(self.entries[at - 1].id)
        } else {
            None
        };
        let _ = self.entries.remove(at);
        if self.active == Some(id) {
            self.active = None;
        }
        Ok(Removed { selection })
    }

    /// Moves an entry one step. Says whether it moved: it does not at an edge.
    pub fn move_entry(&mut self, id: QueueEntryId, direction: Direction) -> (done: Result<
        bool,
        QueueError,
    >)
        ensures
            match done {
                Ok(moved) => old(self)@.holds(id) && moved == old(self)@.can_move(id, direction)
                    && final(self)@ == old(self)@.moved(id, direction),
                Err(error) => !old(self)@.holds(id) && *final(self) == *old(self) && error
                    == QueueError::UnknownEntry(id),
            },
    {
        let at: usize = match self.index_of(id) {
            Some(at) => at,
            None => return Err(QueueError::UnknownEntry(id)),
        };
        let to: usize = match direction {
            Direction::Up => {
                if at == 0 {
                    return Ok(false);
                }
                at - 1
            },
            Direction::Down => {
                if at >= self.entries.len() - 1 {
                    return Ok(false);
                }
                at + 1
            },
        };
        let entry = self.entries.remove(at);
        self.entries.insert(to, entry);
        Ok(true)
    }

    pub fn clear(&mut self)
        ensures
            final(self)@ == QueueView::empty(),
    {
        self.entries = Vec::new();
        self.active = None;
    }

    /// Copies what a decoder reported into the entry `id`, where it reported
    /// anything.
    pub fn absorb(&mut self, id: QueueEntryId, metadata: &MediaMetadata)
        ensures
            final(self)@ == old(self)@.absorbed(id, metadata.as_update()),
    {
        if let Some(at) = self.index_of(id) {
            let update = DisplayUpdate {
                title: metadata.title.clone(),
                artist: metadata.artist.clone(),
                album: metadata.album.clone(),
                year: metadata.year.clone(),
                duration: match metadata.duration {
                    Some(value) => Some(
                        DisplayDuration {
                            value,
                            source: DurationSource::Decoded(metadata.duration_provenance),
                        },
                    ),
                    None => None,
                },
            };
            assert(update@ == metadata.as_update());
            let _ = self.entries[at].display.update(&update);
        }
    }

    /// Updates what is shown of every entry for `media`. Says whether
    /// anything changed.
    pub fn update_display(&mut self, media: &MediaId, update: &DisplayUpdate) -> (changed: bool)
        ensures
            final(self)@ == old(self)@.displayed(media@, update@),
            changed == (final(self)@ != old(self)@),
    {
        let mut changed: bool = false;
        let mut at: usize = 0;
        let ghost before = self@;
        let ghost after = self@.displayed(media@, update@);
        while at < self.entries.len()
            invariant
                at <= self.entries@.len(),
                self@.entries.len() == before.entries.len() == after.entries.len(),
                self@.active == before.active,
                after == before.displayed(media@, update@),
                forall|i: int| 0 <= i < at ==> self@.entries[i] == after.entries[i],
                forall|i: int| at <= i < self@.entries.len() ==> self@.entries[i]
                    == before.entries[i],
                changed ==> exists|i: int|
                    0 <= i < at && after.entries[i] != before.entries[i],
                !changed ==> forall|i: int| 0 <= i < at ==> after.entries[i] == before.entries[i],
            decreases self.entries@.len() - at,
        {
            assert(self@.entries[at as int] == self.entries@[at as int]@);
            if self.entries[at].media.same(media) {
                let one: bool = self.entries[at].display.update(update);
                assert(self@.entries[at as int] == self.entries@[at as int]@);
                if one {
                    assert(after.entries[at as int] != before.entries[at as int]);
                    changed = true;
                }
            }
            at += 1;
        }
        proof {
            assert(self@ =~= after);
            if !changed {
                assert(after =~= before);
            }
        }
        changed
    }

    /// Takes the audio of the entry `id` from `url`. Says whether that changed
    /// anything. Refused where the entry is no episode.
    pub fn refetch(&mut self, id: QueueEntryId, url: Url) -> (done: Result<bool, QueueError>)
        ensures
            ({
                let source = SourceView::Podcast { fallback: url@ };
                match done {
                    Ok(changed) => old(self)@.get(id) matches Some(entry) && changed == (
                    entry.source != source) && (changed ==> source.serves(entry.media)) && final(
                        self)@ == old(self)@.refetched(id, url@),
                    Err(error) => *final(self) == *old(self) && match old(self)@.get(id) {
                        Some(entry) => entry.source != source && !source.serves(entry.media)
                            && error == QueueError::SourceMismatch,
                        None => error == QueueError::UnknownEntry(id),
                    },
                }
            }),
    {
        let at: usize = match self.index_of(id) {
            Some(at) => at,
            None => return Err(QueueError::UnknownEntry(id)),
        };
        assert(self@.entries[at as int] == self.entries@[at as int]@);
        let same = match &self.entries[at].source {
            QueueSource::Podcast { fallback } => fallback.same(&url),
            _ => false,
        };
        if same {
            assert(self@.refetched(id, url@) =~= self@);
            return Ok(false);
        }
        let source = QueueSource::Podcast { fallback: url };
        if !source_matches(&self.entries[at].media, &source) {
            return Err(QueueError::SourceMismatch);
        }
        self.entries[at].source = source;
        Ok(true)
    }
}

/// In a queue where every identity occurs once, an entry is found where it
/// stands.
pub proof fn entry_is_found(queue: QueueView, at: int)
    requires
        queue.distinct(),
        0 <= at < queue.entries.len(),
    ensures
        queue.find(queue.entries[at].id) == Some(at),
{
    let id = queue.entries[at].id;
    crate::model::position_is_first(queue.entries, |entry: EntryView| entry.id == id, 0);
}

/// An identity is found exactly where it occurs.
pub proof fn found_is_queued(queue: QueueView, id: QueueEntryId)
    ensures
        match queue.find(id) {
            Some(at) => 0 <= at < queue.entries.len() && queue.entries[at].id == id,
            None => forall|i: int| 0 <= i < queue.entries.len() ==> (#[trigger] queue.entries[i]).id
                != id,
        },
{
    crate::model::position_is_first(queue.entries, |entry: EntryView| entry.id == id, 0);
}

/// Two queues with the same identities in the same order find the same places.
pub proof fn same_ids_same_places(a: QueueView, b: QueueView, id: QueueEntryId)
    requires
        a.entries.len() == b.entries.len(),
        forall|i: int|
            0 <= i < a.entries.len() ==> (#[trigger] a.entries[i]).id == (#[trigger] b.entries[i]).id,
    ensures
        a.find(id) == b.find(id),
{
    found_is_queued(a, id);
    found_is_queued(b, id);
    let wanted = |entry: EntryView| entry.id == id;
    crate::model::position_is_first(a.entries, wanted, 0);
    crate::model::position_is_first(b.entries, wanted, 0);
    if let Some(i) = a.find(id) {
        assert(b.entries[i].id == id);
        if let Some(j) = b.find(id) {
            assert(a.entries[j].id == id);
            assert(wanted(a.entries[j]) && wanted(b.entries[i]));
        }
    } else if let Some(j) = b.find(id) {
        assert(a.entries[j].id == id);
    }
}

/// Adding entries under numbers that are not yet in use leaves every identity
/// single, and what was queued where it was.
pub proof fn enqueuing_keeps_order(
    queue: QueueView,
    ids: IdAllocator,
    batch: Seq<NewEntryView>,
)
    requires
        queue.wf(),
        ids.has(batch.len()),
        forall|i: int|
            0 <= i < queue.entries.len() ==> ids.past((#[trigger] queue.entries[i]).id.raw),
    ensures
        queue.enqueued(ids.first(), batch).wf(),
        queue.enqueued(ids.first(), batch).entries.take(queue.entries.len() as int)
            == queue.entries,
        forall|id: QueueEntryId| queue.holds(id) ==> #[trigger] queue.enqueued(
            ids.first(),
            batch,
        ).find(id) == queue.find(id),
        forall|i: int|
            0 <= i < queue.enqueued(ids.first(), batch).entries.len() ==> ids.after(
                batch.len(),
            ).past((#[trigger] queue.enqueued(ids.first(), batch).entries[i]).id.raw),
{
    let after = queue.enqueued(ids.first(), batch);
    let n = queue.entries.len() as int;
    assert(after.entries.take(n) =~= queue.entries);
    assert forall|i: int| 0 <= i < n implies #[trigger] after.entries[i] == queue.entries[i] by {}
    assert(after.distinct()) by {
        assert forall|i: int, j: int| 0 <= i < j < after.entries.len() implies #[trigger] after.entries[i].id
            != #[trigger] after.entries[j].id by {
            if i < n {
                assert(after.entries[i] == queue.entries[i]);
            }
            if j < n {
                assert(after.entries[j] == queue.entries[j]);
            }
        }
    }
    assert forall|id: QueueEntryId| queue.holds(id) implies #[trigger] after.find(id)
        == queue.find(id) by {
        found_is_queued(queue, id);
        entry_is_found(after, queue.find(id).unwrap());
    }
}

/// Removing an entry leaves the others as they were, in order.
pub proof fn removing_keeps_the_rest(queue: QueueView, id: QueueEntryId)
    requires
        queue.wf(),
    ensures
        queue.removed(id).wf(),
        !queue.removed(id).holds(id),
        forall|other: QueueEntryId|
            other != id ==> #[trigger] queue.removed(id).get(other) == queue.get(other),
{
    let after = queue.removed(id);
    found_is_queued(queue, id);
    if let Some(at) = queue.find(id) {
        assert forall|i: int| 0 <= i < after.entries.len() implies #[trigger] after.entries[i]
            == queue.entries[if i < at {
            i
        } else {
            i + 1
        }] by {}
        found_is_queued(after, id);
        assert forall|other: QueueEntryId| other != id implies #[trigger] after.get(other)
            == queue.get(other) by {
            found_is_queued(queue, other);
            found_is_queued(after, other);
            match queue.find(other) {
                Some(i) => {
                    let to = if i < at {
                        i
                    } else {
                        i - 1
                    };
                    assert(after.entries[to] == queue.entries[i]);
                    entry_is_found(after, to);
                },
                None => {
                    if let Some(j) = after.find(other) {
                        assert(after.entries[j].id == other);
                    }
                },
            }
        }
        if let Some(active) = after.active {
            assert(after.get(active) == queue.get(active));
        }
    }
}

proof fn moved_entries(queue: QueueView, at: int, to: int)
    requires
        0 <= at < queue.entries.len(),
        0 <= to < queue.entries.len(),
        to == at - 1 || to == at + 1,
    ensures
        queue.entries.remove(at).insert(to, queue.entries[at]) == queue.entries.update(
            at,
            queue.entries[to],
        ).update(to, queue.entries[at]),
{
    assert(queue.entries.remove(at).insert(to, queue.entries[at]) =~= queue.entries.update(
        at,
        queue.entries[to],
    ).update(to, queue.entries[at]));
}

/// Moving an entry swaps it with its neighbour and leaves the cursor alone;
/// moving it back restores the queue.
pub proof fn moving_swaps_neighbours(queue: QueueView, id: QueueEntryId, direction: Direction)
    requires
        queue.wf(),
        queue.can_move(id, direction),
    ensures
        queue.moved(id, direction).wf(),
        forall|other: QueueEntryId|
            #[trigger] queue.moved(id, direction).get(other) == queue.get(other),
        queue.moved(id, direction).moved(
            id,
            match direction {
                Direction::Up => Direction::Down,
                Direction::Down => Direction::Up,
            },
        ) == queue,
{
    let after = queue.moved(id, direction);
    found_is_queued(queue, id);
    let at = queue.find(id).unwrap();
    let to = queue.step(at, direction).unwrap();
    moved_entries(queue, at, to);
    assert(after.distinct()) by {
        assert forall|i: int, j: int| 0 <= i < j < after.entries.len() implies #[trigger] after.entries[i].id
            != #[trigger] after.entries[j].id by {
            let from = |k: int|
                if k == at {
                    to
                } else if k == to {
                    at
                } else {
                    k
                };
            assert(after.entries[i] == queue.entries[from(i)]);
            assert(after.entries[j] == queue.entries[from(j)]);
        }
    }
    assert forall|other: QueueEntryId| #[trigger] after.get(other) == queue.get(other) by {
        found_is_queued(queue, other);
        found_is_queued(after, other);
        match queue.find(other) {
            Some(i) => {
                let k = if i == at {
                    to
                } else if i == to {
                    at
                } else {
                    i
                };
                assert(after.entries[k] == queue.entries[i]);
                entry_is_found(after, k);
            },
            None => {
                if let Some(j) = after.find(other) {
                    let k = if j == at {
                        to
                    } else if j == to {
                        at
                    } else {
                        j
                    };
                    assert(after.entries[j] == queue.entries[k]);
                }
            },
        }
    }
    if let Some(active) = after.active {
        assert(after.get(active) == queue.get(active));
    }
    assert(after.entries[to] == queue.entries[at]);
    entry_is_found(after, to);
    moved_entries(after, to, at);
    let back = match direction {
        Direction::Up => Direction::Down,
        Direction::Down => Direction::Up,
    };
    assert(after.moved(id, back).entries =~= queue.entries);
}

/// Changing what is shown of entries, or where their audio comes from, leaves
/// their identities, their media and the cursor alone.
pub proof fn showing_keeps_identities(
    queue: QueueView,
    id: QueueEntryId,
    media: MediaKey,
    update: DisplayView,
    url: Seq<char>,
)
    requires
        queue.wf(),
    ensures
        queue.absorbed(id, update).wf(),
        queue.absorbed(id, update).ids() == queue.ids(),
        queue.displayed(media, update).wf(),
        queue.displayed(media, update).ids() == queue.ids(),
        queue.refetched(id, url).wf(),
        queue.refetched(id, url).ids() == queue.ids(),
        queue.absorbed(id, update).active_media() == queue.active_media(),
        queue.displayed(media, update).active_media() == queue.active_media(),
        queue.refetched(id, url).active_media() == queue.active_media(),
{
    found_is_queued(queue, id);
    let a = queue.absorbed(id, update);
    let b = queue.displayed(media, update);
    let c = queue.refetched(id, url);
    assert(a.ids() =~= queue.ids());
    assert(b.ids() =~= queue.ids());
    assert(c.ids() =~= queue.ids());
    if let Some(active) = queue.active {
        same_ids_same_places(a, queue, active);
        same_ids_same_places(b, queue, active);
        same_ids_same_places(c, queue, active);
        found_is_queued(queue, active);
    }
}

} // verus!
