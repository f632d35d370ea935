//! Reading the playlists of a state file. Nothing here fails: each problem
//! resets only what it affects, and the first one is reported.

use crate::json::{number_of, unsaid, Json, JsonView};
use crate::media::{MediaId, MediaKey};
use crate::persistence::queue_codec::{decode_entries, insert_new, ActiveProblem, PlaylistProblem,
    QueueProblem, QueueReset};
use crate::playlist::{clean_name, Playlist, PlaylistId, PlaylistView, Shuffle, MAX_PLAYLISTS};
use crate::queue::{EntryView, IdAllocator, Queue, QueueEntry, QueueEntryId, QueueView,
    MAX_PLAYLIST_ENTRIES};
use crate::text::push_decimal;
use std::collections::BTreeSet;
use vstd::prelude::*;

verus! {

broadcast use crate::model::group_model;

/// The playlist fields of a state file.
pub struct RawPlaylists<'a> {
    pub playlists: Option<&'a Json>,
    pub playing: Option<&'a Json>,
    /// `None` where the member is absent; null where the numbers are used up.
    pub next_entry_id: Option<&'a Json>,
    pub next_playlist_id: Option<&'a Json>,
}

#[verifier::ext_equal]
pub struct RawPlaylistsView {
    pub playlists: Option<JsonView>,
    pub playing: Option<JsonView>,
    pub next_entry_id: Option<JsonView>,
    pub next_playlist_id: Option<JsonView>,
}

impl<'a> View for RawPlaylists<'a> {
    type V = RawPlaylistsView;

    open spec fn view(&self) -> RawPlaylistsView {
        RawPlaylistsView {
            playlists: crate::model::opt(self.playlists),
            playing: crate::model::opt(self.playing),
            next_entry_id: crate::model::opt(self.next_entry_id),
            next_playlist_id: crate::model::opt(self.next_playlist_id),
        }
    }
}

/// Everything that a load derives from a file's playlist data, with the one
/// problem that is reported.
pub struct Recovered {
    pub playlists: Vec<Playlist>,
    pub playing: PlaylistId,
    pub entry_ids: IdAllocator,
    pub playlist_ids: IdAllocator,
    pub current_media: Option<MediaId>,
    pub reset: Option<QueueReset>,
}

#[verifier::ext_equal]
pub struct RecoveredView {
    pub playlists: Seq<PlaylistView>,
    pub playing: PlaylistId,
    pub entry_ids: IdAllocator,
    pub playlist_ids: IdAllocator,
    pub current_media: Option<MediaKey>,
    pub reset: Option<QueueReset>,
}

impl View for Recovered {
    type V = RecoveredView;

    open spec fn view(&self) -> RecoveredView {
        RecoveredView {
            playlists: crate::model::seq(self.playlists@),
            playing: self.playing,
            entry_ids: self.entry_ids,
            playlist_ids: self.playlist_ids,
            current_media: crate::model::opt(self.current_media),
            reset: self.reset,
        }
    }
}

/// The first problem is the one that is reported.
pub open spec fn noted(reset: Option<QueueReset>, problem: QueueReset) -> Option<QueueReset> {
    if reset is None {
        Some(problem)
    } else {
        reset
    }
}

fn note(reset: &mut Option<QueueReset>, problem: QueueReset)
    ensures
        *final(reset) == noted(*old(reset), problem),
{
    if reset.is_none() {
        *reset = Some(problem);
    }
}

// -------------------------------------------------------------- numbering

/// Where a saved counter starts: nowhere where it is null, at one where it is
/// absent or no number, and never below one.
pub open spec fn counter_start(stored: Option<JsonView>) -> IdAllocator {
    match stored {
        Some(JsonView::Null) => IdAllocator { next: None },
        Some(JsonView::Number(next)) => IdAllocator {
            next: Some(if next == 0 {
                1
            } else {
                next
            }),
        },
        _ => IdAllocator { next: Some(1) },
    }
}

fn stored_counter(stored: Option<&Json>) -> (ids: IdAllocator)
    ensures
        ids == counter_start(crate::model::opt(stored)),
{
    match stored {
        Some(Json::Null) => IdAllocator::starting_at(None),
        Some(Json::Number(next)) => IdAllocator::starting_at(
            Some(if *next == 0 {
                1
            } else {
                *next
            }),
        ),
        _ => IdAllocator::starting_at(Some(1)),
    }
}

/// An allocator raised past a number, where there is one.
pub open spec fn raised(ids: IdAllocator, id: Option<u64>) -> IdAllocator {
    match id {
        Some(id) => ids.observed(id),
        None => ids,
    }
}

/// Raised past the numbers of the first `count` playlists.
pub open spec fn past_playlists(ids: IdAllocator, items: Seq<JsonView>, count: int) -> IdAllocator
    decreases count,
{
    if count <= 0 {
        ids
    } else {
        raised(
            past_playlists(ids, items, count - 1),
            crate::json::number_in(items[count - 1].field("id"@)),
        )
    }
}

/// Raised past the numbers of the first `count` entries of one playlist.
pub open spec fn past_entries(ids: IdAllocator, entries: Seq<JsonView>, count: int) -> IdAllocator
    decreases count,
{
    if count <= 0 {
        ids
    } else {
        raised(
            past_entries(ids, entries, count - 1),
            crate::json::number_in(entries[count - 1].part("id"@, 0)),
        )
    }
}

/// The entries that a playlist's item holds, as they stand in the file.
pub open spec fn raw_entries(item: JsonView) -> Seq<JsonView> {
    match item.field("entries"@) {
        Some(JsonView::Array(entries)) => entries,
        _ => Seq::empty(),
    }
}

/// Raised past the numbers of all entries of the first `count` playlists.
pub open spec fn past_all_entries(ids: IdAllocator, items: Seq<JsonView>, count: int) -> IdAllocator
    decreases count,
{
    if count <= 0 {
        ids
    } else {
        let entries = raw_entries(items[count - 1]);
        past_entries(past_all_entries(ids, items, count - 1), entries, entries.len() as int)
    }
}

/// How many entries the first `count` playlists hold in the file.
pub open spec fn entries_found(items: Seq<JsonView>, count: int) -> nat
    decreases count,
{
    if count <= 0 {
        0
    } else {
        entries_found(items, count - 1) + raw_entries(items[count - 1]).len()
    }
}

/// A count as far as a machine word holds it.
pub open spec fn word(count: nat) -> usize {
    if count <= usize::MAX {
        count as usize
    } else {
        usize::MAX
    }
}

fn count_playlists(stored: Option<&Json>, items: &Vec<Json>) -> (ids: IdAllocator)
    ensures
        ids == past_playlists(
            counter_start(crate::model::opt(stored)),
            crate::model::seq(items@),
            items@.len() as int,
        ),
{
    let ghost values = crate::model::seq(items@);
    let mut ids = stored_counter(stored);
    let ghost start = ids;
    let mut at: usize = 0;
    while at < items.len()
        invariant
            at <= items@.len(),
            values == crate::model::seq(items@),
            ids == past_playlists(start, values, at as int),
        decreases items@.len() - at,
    {
        assert(values[at as int] == items@[at as int]@);
        if let Some(id) = number_of(items[at].field("id")) {
            ids.observe(id);
        }
        at += 1;
    }
    ids
}

/// The entries of an item, where it has an array of them.
fn entries_of_item(item: &Json) -> (entries: Option<&Vec<Json>>)
    ensures
        match entries {
            Some(entries) => item@.field("entries"@) == Some(
                JsonView::Array(crate::model::seq(entries@)),
            ) && raw_entries(item@) == crate::model::seq(entries@),
            None => !(item@.field("entries"@) matches Some(JsonView::Array(_))) && raw_entries(
                item@,
            ) == Seq::<JsonView>::empty(),
        },
{
    match item.field("entries") {
        Some(entries) => entries.items(),
        None => None,
    }
}

fn count_entries(stored: Option<&Json>, items: &Vec<Json>) -> (counted: (IdAllocator, usize))
    ensures
        counted.0 == past_all_entries(
            counter_start(crate::model::opt(stored)),
            crate::model::seq(items@),
            items@.len() as int,
        ),
        counted.1 == word(entries_found(crate::model::seq(items@), items@.len() as int)),
{
    let ghost values = crate::model::seq(items@);
    let mut ids = stored_counter(stored);
    let mut found: usize = 0;
    let ghost start = ids;
    let mut at: usize = 0;
    while at < items.len()
        invariant
            at <= items@.len(),
            values == crate::model::seq(items@),
            ids == past_all_entries(start, values, at as int),
            found == word(entries_found(values, at as int)),
        decreases items@.len() - at,
    {
        assert(values[at as int] == items@[at as int]@);
        if let Some(entries) = entries_of_item(&items[at]) {
            let ghost raw = crate::model::seq(entries@);
            let ghost before = ids;
            let mut k: usize = 0;
            while k < entries.len()
                invariant
                    k <= entries@.len(),
                    raw == crate::model::seq(entries@),
                    ids == past_entries(before, raw, k as int),
                decreases entries@.len() - k,
            {
                assert(raw[k as int] == entries@[k as int]@);
                if let Some(id) = number_of(entries[k].part("id", 0)) {
                    ids.observe(id);
                }
                k += 1;
            }
            found = found.saturating_add(entries.len());
        }
        at += 1;
    }
    (ids, found)
}

/// The next number, where there is one.
fn fresh(ids: &mut IdAllocator) -> (id: Option<u64>)
    ensures
        id == (if old(ids).has(1) {
            Some(old(ids).first())
        } else {
            None
        }),
        *final(ids) == old(ids).after(1),
{
    match ids.reserve(1) {
        Ok(id) => Some(id),
        Err(_) => None,
    }
}

// ------------------------------------------------------------ one queue

/// One queue read on its own: its entries, its cursor, and what had to be
/// reset.
pub open spec fn queue_recovered(
    queue: Option<JsonView>,
    active: Option<JsonView>,
    current_media: Option<MediaKey>,
) -> (QueueView, Option<QueueReset>) {
    let entries = match queue {
        Some(JsonView::Array(items)) => crate::persistence::queue_codec::entries_of(items),
        _ => if crate::json::is_unsaid(queue) {
            Ok(Seq::empty())
        } else {
            Err(QueueProblem::Malformed)
        },
    };
    match entries {
        Err(problem) => (QueueView::empty(), Some(QueueReset::WholeQueue(problem))),
        Ok(entries) => if entries.len() > MAX_PLAYLIST_ENTRIES {
            (
                QueueView::empty(),
                Some(
                    QueueReset::WholeQueue(
                        QueueProblem::OverCapacity { found: entries.len() as usize },
                    ),
                ),
            )
        } else {
            let idle = QueueView { entries, active: None };
            if crate::json::is_unsaid(active) {
                (idle, None)
            } else {
                match crate::json::number_in(active) {
                    None => (idle, Some(QueueReset::ActiveReference(ActiveProblem::Malformed))),
                    Some(raw) => match idle.get(QueueEntryId { raw }) {
                        None => (idle, Some(QueueReset::ActiveReference(ActiveProblem::Dangling))),
                        Some(entry) => if current_media != Some(entry.media) {
                            (idle, Some(QueueReset::ActiveReference(ActiveProblem::MediaMismatch)))
                        } else {
                            (QueueView { entries, active: Some(QueueEntryId { raw }) }, None)
                        },
                    },
                }
            }
        },
    }
}

/// Whether two media that may be absent are the same.
fn same_media(a: Option<&MediaId>, b: Option<&MediaId>) -> (same: bool)
    ensures
        same == (crate::model::opt(a) == crate::model::opt(b)),
{
    match (a, b) {
        (Some(a), Some(b)) => a.same(b),
        (None, None) => true,
        _ => false,
    }
}

/// Reads a file's one queue and its cursor. Never fails: a problem resets
/// exactly the part it affects.
pub fn recover_queue(
    queue: Option<&Json>,
    active: Option<&Json>,
    current_media: Option<&MediaId>,
) -> (recovered: (Queue, Option<QueueReset>))
    ensures
        (recovered.0@, recovered.1) == queue_recovered(
            crate::model::opt(queue),
            crate::model::opt(active),
            crate::model::opt(current_media),
        ),
{
    let entries: Vec<QueueEntry> = match queue {
        None => Vec::new(),
        Some(value) => match value.items() {
            Some(items) => match decode_entries(items) {
                Ok(entries) => entries,
                Err(problem) => {
                    return (Queue::default(), Some(QueueReset::WholeQueue(problem)));
                },
            },
            None => {
                if !value.is_null() {
                    return (
                        Queue::default(),
                        Some(QueueReset::WholeQueue(QueueProblem::Malformed)),
                    );
                }
                Vec::new()
            },
        },
    };
    if entries.len() > MAX_PLAYLIST_ENTRIES {
        return (
            Queue::default(),
            Some(QueueReset::WholeQueue(QueueProblem::OverCapacity { found: entries.len() })),
        );
    }
    let mut queue = Queue::from_parts(entries, None);
    if unsaid(active) {
        return (queue, None);
    }
    let id = match number_of(active) {
        Some(raw) => QueueEntryId::from_raw(raw),
        None => {
            return (queue, Some(QueueReset::ActiveReference(ActiveProblem::Malformed)));
        },
    };
    let named = match queue.get(id) {
        Some(entry) => same_media(Some(entry.media()), current_media),
        None => {
            return (queue, Some(QueueReset::ActiveReference(ActiveProblem::Dangling)));
        },
    };
    if !named {
        return (queue, Some(QueueReset::ActiveReference(ActiveProblem::MediaMismatch)));
    }
    let _ = queue.set_active(Some(id));
    (queue, None)
}

// ------------------------------------------------------------- playlists

/// The entries of one playlist as they are admitted, one after the other.
#[verifier::ext_equal]
pub struct AdmissionView {
    pub reset: Option<QueueReset>,
    pub entry_ids: IdAllocator,
    /// The entry numbers in use so far, in this playlist and those before.
    pub seen: Set<u64>,
    pub total: nat,
    /// The cursor, as long as it still names the entry that it was set on.
    pub cursor: Option<u64>,
    pub entries: Seq<EntryView>,
}

impl AdmissionView {
    pub open spec fn noting(self, problem: PlaylistProblem) -> AdmissionView {
        AdmissionView { reset: noted(self.reset, QueueReset::Playlists(problem)), ..self }
    }

    /// With the cursor gone if it was on the entry `raw`.
    pub open spec fn uncursored(self, raw: u64) -> AdmissionView {
        AdmissionView {
            cursor: if self.cursor == Some(raw) {
                None
            } else {
                self.cursor
            },
            ..self
        }
    }

    pub open spec fn holding(self, entry: EntryView) -> AdmissionView {
        AdmissionView {
            seen: self.seen.insert(entry.id.raw),
            total: self.total + 1,
            entries: self.entries.push(entry),
            ..self
        }
    }

    /// One more entry. Past the cap it is dropped; where its number is in use
    /// it takes a new one, or is dropped where there is none.
    pub open spec fn admitted(self, entry: EntryView, found: usize) -> AdmissionView {
        if self.total >= MAX_PLAYLIST_ENTRIES {
            self.noting(PlaylistProblem::OverCapacity { found }).uncursored(entry.id.raw)
        } else if !self.seen.contains(entry.id.raw) {
            self.holding(entry)
        } else if self.entry_ids.has(1) {
            let id = QueueEntryId { raw: self.entry_ids.first() };
            (AdmissionView { entry_ids: self.entry_ids.after(1), ..self }).uncursored(
                entry.id.raw,
            ).noting(PlaylistProblem::DuplicateEntryId).holding(EntryView { id, ..entry })
        } else {
            self.uncursored(entry.id.raw).noting(PlaylistProblem::IdsExhausted)
        }
    }

    /// The first `count` of `entries`, one after the other.
    pub open spec fn all_admitted(
        self,
        entries: Seq<EntryView>,
        found: usize,
        count: int,
    ) -> AdmissionView
        decreases count,
    {
        if count <= 0 {
            self
        } else {
            self.all_admitted(entries, found, count - 1).admitted(entries[count - 1], found)
        }
    }

    pub open spec fn member(self, id: Option<u64>) -> Option<QueueEntryId> {
        match id {
            Some(raw) => if (QueueView { entries: self.entries, active: None }).holds(
                QueueEntryId { raw },
            ) {
                Some(QueueEntryId { raw })
            } else {
                None
            },
            None => None,
        }
    }
}

/// The playlists of a file as they are read, one after the other.
#[verifier::ext_equal]
pub struct RecoveryView {
    pub reset: Option<QueueReset>,
    pub entry_ids: IdAllocator,
    pub playlist_ids: IdAllocator,
    pub seen_playlists: Set<u64>,
    pub seen_entries: Set<u64>,
    pub total: nat,
    pub playlists: Seq<PlaylistView>,
}

/// What a playlist is called that has no usable name.
pub open spec fn numbered_name(id: u64) -> Seq<char> {
    "Playlist "@ + crate::text::decimal(id as nat)
}

/// The name that an item carries, or one made from its number.
pub open spec fn item_name(item: JsonView, id: u64) -> Seq<char> {
    match item.field("name"@) {
        Some(JsonView::Text(text)) => match crate::playlist::cleaned(text) {
            Some(name) => name,
            None => numbered_name(id),
        },
        _ => numbered_name(id),
    }
}

/// The entries that an item carries, and what is wrong with them.
pub open spec fn item_entries(item: JsonView) -> (Seq<EntryView>, Option<QueueProblem>) {
    match item.field("entries"@) {
        Some(JsonView::Array(items)) => match crate::persistence::queue_codec::entries_of(items) {
            Ok(entries) => (entries, None),
            Err(problem) => (Seq::empty(), Some(problem)),
        },
        other => if crate::json::is_unsaid(other) {
            (Seq::empty(), None)
        } else {
            (Seq::empty(), Some(QueueProblem::Malformed))
        },
    }
}

impl RecoveryView {
    pub open spec fn noting(self, problem: QueueReset) -> RecoveryView {
        RecoveryView { reset: noted(self.reset, problem), ..self }
    }

    /// The number of the next playlist: its own, where it has one that is not
    /// in use, else a new one, where there is one.
    pub open spec fn number_for(self, item: JsonView) -> Option<u64> {
        let own = crate::json::number_in(item.field("id"@));
        if own matches Some(id) && !self.seen_playlists.contains(id) {
            own
        } else if self.playlist_ids.has(1) {
            Some(self.playlist_ids.first())
        } else {
            None
        }
    }

    /// Once that number is given out.
    pub open spec fn numbered(self, item: JsonView) -> RecoveryView {
        let own = crate::json::number_in(item.field("id"@));
        if own matches Some(id) && !self.seen_playlists.contains(id) {
            RecoveryView { seen_playlists: self.seen_playlists.insert(own.unwrap()), ..self }
        } else if self.playlist_ids.has(1) {
            (RecoveryView {
                seen_playlists: self.seen_playlists.insert(self.playlist_ids.first()),
                playlist_ids: self.playlist_ids.after(1),
                ..self
            }).noting(QueueReset::Playlists(PlaylistProblem::DuplicatePlaylistId))
        } else {
            self.noting(QueueReset::Playlists(PlaylistProblem::IdsExhausted))
        }
    }

    /// The admission of the next playlist's entries, before the first.
    pub open spec fn admission(self, item: JsonView) -> AdmissionView {
        AdmissionView {
            reset: match item_entries(item).1 {
                Some(problem) => noted(self.reset, QueueReset::WholeQueue(problem)),
                None => self.reset,
            },
            entry_ids: self.entry_ids,
            seen: self.seen_entries,
            total: self.total,
            cursor: crate::json::number_in(item.field("active_entry"@)),
            entries: Seq::empty(),
        }
    }

    /// Once the next playlist's entries are admitted.
    pub open spec fn filled(self, item: JsonView, found: usize) -> AdmissionView {
        let entries = item_entries(item).0;
        self.admission(item).all_admitted(entries, found, entries.len() as int)
    }

    /// One more playlist.
    pub open spec fn admitted(self, item: JsonView, found: usize) -> RecoveryView {
        match self.number_for(item) {
            None => self.numbered(item),
            Some(id) => {
                let before = self.numbered(item);
                let filled = before.filled(item, found);
                let active = filled.member(filled.cursor);
                let cursored = if !crate::json::is_unsaid(item.field("active_entry"@)) && active
                    is None {
                    noted(
                        filled.reset,
                        QueueReset::ActiveReference(ActiveProblem::Dangling),
                    )
                } else {
                    filled.reset
                };
                let said = item.field("shuffle"@);
                let seed = match said {
                    Some(value) => crate::json::number_in(value.field("seed"@)),
                    None => None,
                };
                let first = match said {
                    Some(value) => value.field("first"@),
                    None => None,
                };
                let shuffle = match seed {
                    Some(seed) => Some(
                        Shuffle { seed, first: filled.member(crate::json::number_in(first)) },
                    ),
                    None => None,
                };
                let damaged = !crate::json::is_unsaid(said) && (seed is None || (
                !crate::json::is_unsaid(first) && crate::json::number_in(first) is None));
                RecoveryView {
                    reset: if damaged {
                        noted(cursored, QueueReset::Playlists(PlaylistProblem::Shuffle))
                    } else {
                        cursored
                    },
                    entry_ids: filled.entry_ids,
                    seen_entries: filled.seen,
                    total: filled.total,
                    playlists: before.playlists.push(
                        PlaylistView {
                            id: PlaylistId { raw: id },
                            name: item_name(item, id),
                            shuffle,
                            queue: QueueView {
                                entries: filled.entries,
                                active: if crate::json::is_unsaid(item.field("active_entry"@)) {
                                    None
                                } else {
                                    active
                                },
                            },
                        },
                    ),
                    ..before
                }
            },
        }
    }

    /// The first `count` of `items`, one after the other.
    pub open spec fn all_admitted(
        self,
        items: Seq<JsonView>,
        found: usize,
        count: int,
    ) -> RecoveryView
        decreases count,
    {
        if count <= 0 {
            self
        } else {
            self.all_admitted(items, found, count - 1).admitted(items[count - 1], found)
        }
    }

    /// Before the first playlist: the counters raised past everything in the
    /// file, so that a repair takes no number that comes later.
    pub open spec fn start(raw: RawPlaylistsView, items: Seq<JsonView>) -> RecoveryView {
        RecoveryView {
            reset: if items.len() > MAX_PLAYLISTS {
                Some(
                    QueueReset::Playlists(
                        PlaylistProblem::TooManyPlaylists { found: word(items.len()) },
                    ),
                )
            } else {
                None
            },
            entry_ids: past_all_entries(
                counter_start(raw.next_entry_id),
                items,
                items.len() as int,
            ),
            playlist_ids: past_playlists(
                counter_start(raw.next_playlist_id),
                items,
                items.len() as int,
            ),
            seen_playlists: Set::empty(),
            seen_entries: Set::empty(),
            total: 0,
            playlists: Seq::empty(),
        }
    }

    /// Once all playlists are read: which one plays, and what is current.
    pub open spec fn finished(
        self,
        playing: Option<JsonView>,
        current_media: Option<MediaKey>,
    ) -> RecoveredView {
        let named = match crate::json::number_in(playing) {
            Some(raw) => crate::model::position(
                self.playlists,
                crate::persistence::model::playlist_is(PlaylistId { raw }),
                0,
            ),
            None => None,
        };
        if self.playlists.len() == 0 {
            default_recovered(current_media, self.reset, self.entry_ids, self.playlist_ids)
        } else {
            match named {
                Some(at) => {
                    let playlist = self.playlists[at];
                    let media = playlist.queue.active_media();
                    let astray = media is Some && media != current_media;
                    RecoveredView {
                        playlists: if astray {
                            self.playlists.update(
                                at,
                                playlist.with_queue(playlist.queue.with_active(None)),
                            )
                        } else {
                            self.playlists
                        },
                        playing: playlist.id,
                        entry_ids: self.entry_ids,
                        playlist_ids: self.playlist_ids,
                        current_media,
                        reset: if astray {
                            noted(
                                self.reset,
                                QueueReset::ActiveReference(ActiveProblem::MediaMismatch),
                            )
                        } else {
                            self.reset
                        },
                    }
                },
                None => RecoveredView {
                    playlists: self.playlists,
                    playing: self.playlists[0].id,
                    entry_ids: self.entry_ids,
                    playlist_ids: self.playlist_ids,
                    current_media: self.playlists[0].queue.active_media(),
                    reset: noted(
                        self.reset,
                        QueueReset::Playlists(PlaylistProblem::DanglingPlaying),
                    ),
                },
            }
        }
    }
}

/// One empty playlist, where a file has none that can be used. It takes a new
/// number, or the first one where there is none.
pub open spec fn default_recovered(
    current_media: Option<MediaKey>,
    reset: Option<QueueReset>,
    entry_ids: IdAllocator,
    playlist_ids: IdAllocator,
) -> RecoveredView {
    let id = PlaylistId {
        raw: if playlist_ids.has(1) {
            playlist_ids.first()
        } else {
            1
        },
    };
    RecoveredView {
        playlists: seq![PlaylistView { id, name: "Default"@, shuffle: None, queue: QueueView::empty() }],
        playing: id,
        entry_ids,
        playlist_ids: playlist_ids.after(1),
        current_media,
        reset,
    }
}

/// What the playlist fields of a file come to.
pub open spec fn playlists_recovered(raw: RawPlaylistsView, current_media: Option<MediaKey>) -> RecoveredView {
    match raw.playlists {
        Some(JsonView::Array(items)) => {
            let count = if items.len() <= MAX_PLAYLISTS {
                items.len() as int
            } else {
                MAX_PLAYLISTS as int
            };
            RecoveryView::start(raw, items).all_admitted(
                items,
                word(entries_found(items, items.len() as int)),
                count,
            ).finished(raw.playing, current_media)
        },
        other => default_recovered(
            current_media,
            if crate::json::is_unsaid(other) {
                None
            } else {
                Some(QueueReset::Playlists(PlaylistProblem::Malformed))
            },
            counter_start(raw.next_entry_id),
            counter_start(raw.next_playlist_id),
        ),
    }
}

/// One queue as the only playlist, its numbers and its cursor kept.
pub open spec fn queue_migrated(
    queue: QueueView,
    current_media: Option<MediaKey>,
    reset: Option<QueueReset>,
) -> RecoveredView {
    RecoveredView {
        playlists: seq![
            PlaylistView {
                id: PlaylistId { raw: 1 },
                name: "Default"@,
                shuffle: None,
                queue,
            },
        ],
        playing: PlaylistId { raw: 1 },
        entry_ids: past_ids(IdAllocator { next: Some(1) }, queue.entries, queue.entries.len() as int),
        playlist_ids: IdAllocator { next: Some(2) },
        current_media,
        reset,
    }
}

/// Raised past the numbers of the first `count` entries.
pub open spec fn past_ids(ids: IdAllocator, entries: Seq<EntryView>, count: int) -> IdAllocator
    decreases count,
{
    if count <= 0 {
        ids
    } else {
        past_ids(ids, entries, count - 1).observed(entries[count - 1].id.raw)
    }
}

// ------------------------------------------------------------ execution

struct Admission {
    reset: Option<QueueReset>,
    entry_ids: IdAllocator,
    seen: BTreeSet<u64>,
    total: usize,
    cursor: Option<u64>,
    entries: Vec<QueueEntry>,
}

impl View for Admission {
    type V = AdmissionView;

    closed spec fn view(&self) -> AdmissionView {
        AdmissionView {
            reset: self.reset,
            entry_ids: self.entry_ids,
            seen: self.seen@,
            total: self.total as nat,
            cursor: self.cursor,
            entries: crate::model::seq(self.entries@),
        }
    }
}

impl Admission {
    fn uncursor(&mut self, raw: u64)
        ensures
            final(self)@ == old(self)@.uncursored(raw),
    {
        if self.cursor == Some(raw) {
            self.cursor = None;
        }
    }

    fn accept(&mut self, entry: QueueEntry, found: usize)
        ensures
            final(self)@ == old(self)@.admitted(entry@, found),
    {
        let raw: u64 = entry.id().get();
        if self.total >= MAX_PLAYLIST_ENTRIES {
            note(
                &mut self.reset,
                QueueReset::Playlists(PlaylistProblem::OverCapacity { found }),
            );
            self.uncursor(raw);
            return;
        }
        if insert_new(&mut self.seen, raw) {
            self.total += 1;
            self.entries.push(entry);
            return;
        }
        assert(self@.seen =~= old(self)@.seen);
        self.uncursor(raw);
        match fresh(&mut self.entry_ids) {
            Some(id) => {
                note(&mut self.reset, QueueReset::Playlists(PlaylistProblem::DuplicateEntryId));
                let _ = insert_new(&mut self.seen, id);
                self.total += 1;
                self.entries.push(entry.renumbered(QueueEntryId::from_raw(id)));
            },
            None => {
                note(&mut self.reset, QueueReset::Playlists(PlaylistProblem::IdsExhausted));
            },
        }
    }

    fn accept_all(&mut self, entries: Vec<QueueEntry>, found: usize)
        ensures
            final(self)@ == old(self)@.all_admitted(
                crate::model::seq(entries@),
                found,
                entries@.len() as int,
            ),
    {
        let ghost all = entries@;
        let ghost views = crate::model::seq(entries@);
        let ghost before = self@;
        let ghost mut at: int = 0;
        for entry in it: entries
            invariant
                it.seq() == all,
                at == it.index(),
                views == crate::model::seq(all),
                self@ == before.all_admitted(views, found, at),
        {
            assert(views[at] == entry@);
            self.accept(entry, found);
            proof {
                at = at + 1;
            }
        }
    }

    /// The entry that a number names, where it was admitted.
    fn member(&self, id: Option<u64>) -> (found: Option<QueueEntryId>)
        ensures
            found == self@.member(id),
    {
        let wanted = match id {
            Some(raw) => QueueEntryId::from_raw(raw),
            None => return None,
        };
        let ghost queue = QueueView { entries: self@.entries, active: None };
        let mut at: usize = 0;
        while at < self.entries.len()
            invariant
                at <= self.entries@.len(),
                id == Some(wanted.raw),
                queue == (QueueView { entries: self@.entries, active: None }),
                forall|i: int| 0 <= i < at ==> (#[trigger] queue.entries[i]).id != wanted,
            decreases self.entries@.len() - at,
        {
            assert(queue.entries[at as int] == self.entries@[at as int]@);
            if self.entries[at].id() == wanted {
                proof {
                    crate::queue::found_is_queued(queue, wanted);
                }
                return Some(wanted);
            }
            at += 1;
        }
        proof {
            crate::queue::found_is_queued(queue, wanted);
        }
        None
    }
}

struct Recovery {
    reset: Option<QueueReset>,
    entry_ids: IdAllocator,
    playlist_ids: IdAllocator,
    seen_playlists: BTreeSet<u64>,
    seen_entries: BTreeSet<u64>,
    total: usize,
    playlists: Vec<Playlist>,
}

impl View for Recovery {
    type V = RecoveryView;

    closed spec fn view(&self) -> RecoveryView {
        RecoveryView {
            reset: self.reset,
            entry_ids: self.entry_ids,
            playlist_ids: self.playlist_ids,
            seen_playlists: self.seen_playlists@,
            seen_entries: self.seen_entries@,
            total: self.total as nat,
            playlists: crate::model::seq(self.playlists@),
        }
    }
}

fn name_of(item: &Json, id: u64) -> (name: String)
    ensures
        name@ == item_name(item@, id),
{
    if let Some(value) = item.field("name") {
        if let Some(text) = value.text() {
            if let Some(name) = clean_name(text) {
                return name;
            }
        }
    }
    let mut name = "Playlist ".to_owned();
    push_decimal(&mut name, id);
    name
}

/// The entries that an item carries, and what is wrong with them.
fn entries_in_item(item: &Json) -> (entries: (Vec<QueueEntry>, Option<QueueProblem>))
    ensures
        (crate::model::seq(entries.0@), entries.1) == item_entries(item@),
{
    match item.field("entries") {
        None => (Vec::new(), None),
        Some(value) => match value.items() {
            Some(items) => match decode_entries(items) {
                Ok(entries) => (entries, None),
                Err(problem) => (Vec::new(), Some(problem)),
            },
            None => if value.is_null() {
                (Vec::new(), None)
            } else {
                (Vec::new(), Some(QueueProblem::Malformed))
            },
        },
    }
}

impl Recovery {
    fn number(&mut self, item: &Json) -> (id: Option<u64>)
        ensures
            id == old(self)@.number_for(item@),
            final(self)@ == old(self)@.numbered(item@),
    {
        if let Some(id) = number_of(item.field("id")) {
            if insert_new(&mut self.seen_playlists, id) {
                return Some(id);
            }
            assert(self@.seen_playlists =~= old(self)@.seen_playlists);
        }
        match fresh(&mut self.playlist_ids) {
            Some(id) => {
                note(
                    &mut self.reset,
                    QueueReset::Playlists(PlaylistProblem::DuplicatePlaylistId),
                );
                let _ = insert_new(&mut self.seen_playlists, id);
                Some(id)
            },
            None => {
                note(&mut self.reset, QueueReset::Playlists(PlaylistProblem::IdsExhausted));
                None
            },
        }
    }

    fn accept(self, item: &Json, found: usize) -> (after: Self)
        ensures
            after@ == self@.admitted(item@, found),
    {
        let mut before = self;
        let id: u64 = match before.number(item) {
            Some(id) => id,
            None => return before,
        };
        let Recovery {
            reset,
            entry_ids,
            playlist_ids,
            seen_playlists,
            seen_entries,
            total,
            mut playlists,
        } = before;
        let mut reset = reset;
        let (entries, problem) = entries_in_item(item);
        if let Some(problem) = problem {
            note(&mut reset, QueueReset::WholeQueue(problem));
        }
        let cursor = number_of(item.field("active_entry"));
        let mut filled = Admission {
            reset,
            entry_ids,
            seen: seen_entries,
            total,
            cursor,
            entries: Vec::new(),
        };
        assert(filled@ =~= before@.admission(item@));
        filled.accept_all(entries, found);
        let ghost filled_view = filled@;
        assert(filled_view == before@.filled(item@, found));
        let mut reset = filled.reset;
        let active = if unsaid(item.field("active_entry")) {
            None
        } else {
            let active = filled.member(filled.cursor);
            if active.is_none() {
                note(&mut reset, QueueReset::ActiveReference(ActiveProblem::Dangling));
            }
            active
        };
        let said = item.field("shuffle");
        let seed = match said {
            Some(value) => number_of(value.field("seed")),
            None => None,
        };
        let first = match said {
            Some(value) => value.field("first"),
            None => None,
        };
        let shuffle = match seed {
            Some(seed) => Some(Shuffle { seed, first: filled.member(number_of(first)) }),
            None => None,
        };
        if !unsaid(said) && (seed.is_none() || (!unsaid(first) && number_of(first).is_none())) {
            note(&mut reset, QueueReset::Playlists(PlaylistProblem::Shuffle));
        }
        let name = name_of(item, id);
        let Admission { entry_ids, seen, total, entries, .. } = filled;
        playlists.push(
            Playlist::from_parts(
                PlaylistId::from_raw(id),
                name,
                shuffle,
                Queue::from_parts(entries, active),
            ),
        );
        let after = Recovery {
            reset,
            entry_ids,
            playlist_ids,
            seen_playlists,
            seen_entries: seen,
            total,
            playlists,
        };
        assert(after@ =~= self@.admitted(item@, found));
        after
    }
}

/// One empty playlist, for a file with none that can be used. Both counters
/// are the caller's, so nothing is numbered twice.
pub fn default_playlists(
    current_media: Option<MediaId>,
    reset: Option<QueueReset>,
    entry_ids: IdAllocator,
    playlist_ids: IdAllocator,
) -> (recovered: Recovered)
    ensures
        recovered@ == default_recovered(
            crate::model::opt(current_media),
            reset,
            entry_ids,
            playlist_ids,
        ),
{
    let mut left = playlist_ids;
    let raw: u64 = match fresh(&mut left) {
        Some(raw) => raw,
        None => 1,
    };
    let id = PlaylistId::from_raw(raw);
    let mut playlists: Vec<Playlist> = Vec::new();
    playlists.push(Playlist::from_parts(id, "Default".to_owned(), None, Queue::default()));
    let recovered = Recovered {
        playlists,
        playing: id,
        entry_ids,
        playlist_ids: left,
        current_media,
        reset,
    };
    assert(recovered@.playlists =~= default_recovered(
        crate::model::opt(current_media),
        reset,
        entry_ids,
        playlist_ids,
    ).playlists);
    recovered
}

/// A file's one queue becomes the only playlist, its numbers and its cursor
/// kept.
pub fn migrate_queue(
    queue: Queue,
    current_media: Option<MediaId>,
    reset: Option<QueueReset>,
) -> (recovered: Recovered)
    ensures
        recovered@ == queue_migrated(queue@, crate::model::opt(current_media), reset),
{
    let mut entry_ids = IdAllocator::default();
    let ghost start = entry_ids;
    let entries = queue.entries();
    let mut at: usize = 0;
    while at < entries.len()
        invariant
            at <= entries@.len(),
            crate::model::seq(entries@) == queue@.entries,
            entry_ids == past_ids(start, queue@.entries, at as int),
        decreases entries@.len() - at,
    {
        assert(queue@.entries[at as int] == entries@[at as int]@);
        entry_ids.observe(entries[at].id().get());
        at += 1;
    }
    let id = PlaylistId::from_raw(1);
    let ghost whole = queue@;
    let mut playlists: Vec<Playlist> = Vec::new();
    playlists.push(Playlist::from_parts(id, "Default".to_owned(), None, queue));
    let recovered = Recovered {
        playlists,
        playing: id,
        entry_ids,
        playlist_ids: IdAllocator::starting_at(Some(2)),
        current_media,
        reset,
    };
    assert(recovered@ =~= queue_migrated(whole, crate::model::opt(current_media), reset));
    recovered
}

/// Where the playlist `id` stands.
fn place_of(playlists: &Vec<Playlist>, id: PlaylistId) -> (found: Option<usize>)
    ensures
        match found {
            Some(at) => at < playlists@.len() && crate::model::position(
                crate::model::seq(playlists@),
                crate::persistence::model::playlist_is(id),
                0,
            ) == Some(at as int),
            None => crate::model::position(
                crate::model::seq(playlists@),
                crate::persistence::model::playlist_is(id),
                0,
            ) is None,
        },
{
    let ghost views = crate::model::seq(playlists@);
    let ghost wanted = crate::persistence::model::playlist_is(id);
    let mut at: usize = 0;
    while at < playlists.len()
        invariant
            at <= playlists@.len(),
            views == crate::model::seq(playlists@),
            wanted == crate::persistence::model::playlist_is(id),
            crate::model::position(views, wanted, 0) == crate::model::position(
                views,
                wanted,
                at as int,
            ),
        decreases playlists@.len() - at,
    {
        assert(views[at as int] == playlists@[at as int]@);
        if playlists[at].id() == id {
            return Some(at);
        }
        at += 1;
    }
    None
}

/// Reads a file's playlists. Never fails: each problem resets only what it
/// affects, so damaged playlist data never costs a checkpoint.
pub fn recover_playlists(raw: RawPlaylists<'_>, current_media: Option<MediaId>) -> (recovered: Recovered)
    ensures
        recovered@ == playlists_recovered(raw@, crate::model::opt(current_media)),
{
    let items: &Vec<Json> = match raw.playlists {
        Some(value) => match value.items() {
            Some(items) => items,
            None => {
                let reset = if value.is_null() {
                    None
                } else {
                    Some(QueueReset::Playlists(PlaylistProblem::Malformed))
                };
                return default_playlists(
                    current_media,
                    reset,
                    stored_counter(raw.next_entry_id),
                    stored_counter(raw.next_playlist_id),
                );
            },
        },
        None => {
            return default_playlists(
                current_media,
                None,
                stored_counter(raw.next_entry_id),
                stored_counter(raw.next_playlist_id),
            );
        },
    };
    let ghost values = crate::model::seq(items@);
    let playlist_ids = count_playlists(raw.next_playlist_id, items);
    let (entry_ids, found) = count_entries(raw.next_entry_id, items);
    let reset = if items.len() > MAX_PLAYLISTS {
        Some(
            QueueReset::Playlists(PlaylistProblem::TooManyPlaylists { found: items.len() }),
        )
    } else {
        None
    };
    let mut recovery = Recovery {
        reset,
        entry_ids,
        playlist_ids,
        seen_playlists: BTreeSet::new(),
        seen_entries: BTreeSet::new(),
        total: 0,
        playlists: Vec::new(),
    };
    let ghost start = RecoveryView::start(raw@, values);
    assert(recovery@ =~= start);
    let count: usize = if items.len() <= MAX_PLAYLISTS {
        items.len()
    } else {
        MAX_PLAYLISTS
    };
    let mut at: usize = 0;
    while at < count
        invariant
            at <= count <= items@.len(),
            values == crate::model::seq(items@),
            recovery@ == start.all_admitted(values, found, at as int),
        decreases count - at,
    {
        assert(values[at as int] == items@[at as int]@);
        recovery = recovery.accept(&items[at], found);
        at += 1;
    }
    finish(recovery, raw.playing, current_media)
}

fn finish(recovery: Recovery, playing: Option<&Json>, current_media: Option<MediaId>) -> (recovered: Recovered)
    ensures
        recovered@ == recovery@.finished(
            crate::model::opt(playing),
            crate::model::opt(current_media),
        ),
{
    let ghost view = recovery@;
    let Recovery { reset, entry_ids, playlist_ids, mut playlists, .. } = recovery;
    let mut reset = reset;
    if playlists.len() == 0 {
        return default_playlists(current_media, reset, entry_ids, playlist_ids);
    }
    assert(view.playlists == crate::model::seq(playlists@));
    let named = match number_of(playing) {
        Some(raw) => place_of(&playlists, PlaylistId::from_raw(raw)),
        None => None,
    };
    match named {
        Some(at) => {
            assert(view.playlists[at as int] == playlists@[at as int]@);
            let playing = playlists[at].id();
            let media = playlists[at].queue().active_media();
            let astray = media.is_some() && !same_media(media, current_media.as_ref());
            if astray {
                note(&mut reset, QueueReset::ActiveReference(ActiveProblem::MediaMismatch));
                let _ = playlists[at].queue_mut().set_active(None);
            }
            Recovered { playlists, playing, entry_ids, playlist_ids, current_media, reset }
        },
        None => {
            assert(view.playlists[0] == playlists@[0]@);
            note(&mut reset, QueueReset::Playlists(PlaylistProblem::DanglingPlaying));
            let playing = playlists[0].id();
            let media = match playlists[0].queue().active_media() {
                Some(media) => Some(media.clone()),
                None => None,
            };
            Recovered {
                playlists,
                playing,
                entry_ids,
                playlist_ids,
                current_media: media,
                reset,
            }
        },
    }
}

} // verus!
