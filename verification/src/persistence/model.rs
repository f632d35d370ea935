//! The saved state: one checkpoint per media, the playlists, and the facts of
//! a session.

use crate::clock::{Duration, WallTime};
use crate::media::{MediaId, MediaKey, MediaMetadata, Url};
use crate::playback::{PlaybackCheckpoint, Volume, FULL_GAIN};
use crate::playlist::{clean_name, Playlist, PlaylistError, PlaylistId, PlaylistView, Shuffle,
    MAX_PLAYLISTS};
use crate::queue::{Direction, DisplayUpdate, EntryView, IdAllocator, NewEntryView, NewQueueEntry,
    Queue, QueueEntry, QueueEntryId, QueueError, QueueView, Removed, SourceView,
    MAX_PLAYLIST_ENTRIES};
use vstd::prelude::*;

verus! {

broadcast use crate::model::group_model;

pub const SCHEMA_VERSION: u32 = 4;

/// How many media are remembered, the current one among them.
pub const MAX_ENTRIES: usize = 512;

/// What is remembered of one media.
#[derive(Clone, Copy, Debug, PartialEq, Eq, Structural)]
pub struct PersistedCheckpoint {
    /// The established position. `None` where nothing ever established one,
    /// which is not the start of the media.
    pub position: Option<Duration>,
    pub completed: bool,
    pub touch_seq: u64,
    pub updated_at: WallTime,
    /// Where an estimated seek left the listener, if one did. Never stands for
    /// `position`.
    pub estimated: Option<Duration>,
}

/// A media and what is remembered of it.
#[derive(Debug, PartialEq, Eq)]
pub struct Slot {
    pub media: MediaId,
    pub checkpoint: PersistedCheckpoint,
}

#[verifier::ext_equal]
pub struct SlotView {
    pub media: MediaKey,
    pub checkpoint: PersistedCheckpoint,
}

impl View for Slot {
    type V = SlotView;

    open spec fn view(&self) -> SlotView {
        SlotView { media: self.media@, checkpoint: self.checkpoint }
    }
}

impl Clone for Slot {
    fn clone(&self) -> (copy: Self)
        ensures
            copy == *self,
    {
        Slot { media: self.media.clone(), checkpoint: self.checkpoint }
    }
}

/// Everything that is saved. A position reaches it through
/// [`PersistedState::record`] and nowhere else.
#[derive(Debug, PartialEq, Eq)]
pub struct PersistedState {
    schema_version: u32,
    current_media: Option<MediaId>,
    /// The bits of the gain as it was read; it is clamped when it is used.
    volume: u32,
    checkpoints: Vec<Slot>,
    playlists: Vec<Playlist>,
    playing: PlaylistId,
    next_seq: u64,
    /// The one source of entry numbers, for all playlists.
    entry_ids: IdAllocator,
    playlist_ids: IdAllocator,
}

#[verifier::ext_equal]
pub struct StateView {
    pub schema_version: u32,
    pub current_media: Option<MediaKey>,
    pub volume: u32,
    pub checkpoints: Seq<SlotView>,
    pub playlists: Seq<PlaylistView>,
    pub playing: PlaylistId,
    pub next_seq: u64,
    pub entry_ids: IdAllocator,
    pub playlist_ids: IdAllocator,
}

impl View for PersistedState {
    type V = StateView;

    closed spec fn view(&self) -> StateView {
        StateView {
            schema_version: self.schema_version,
            current_media: crate::model::opt(self.current_media),
            volume: self.volume,
            checkpoints: crate::model::seq(self.checkpoints@),
            playlists: crate::model::seq(self.playlists@),
            playing: self.playing,
            next_seq: self.next_seq,
            entry_ids: self.entry_ids,
            playlist_ids: self.playlist_ids,
        }
    }
}

/// How many entries the first `count` playlists hold together.
pub open spec fn entries_in(playlists: Seq<PlaylistView>, count: int) -> nat
    decreases count,
{
    if count <= 0 || count > playlists.len() {
        0
    } else {
        entries_in(playlists, count - 1) + playlists[count - 1].queue.entries.len()
    }
}

/// Being the playlist `id`.
pub open spec fn playlist_is(id: PlaylistId) -> spec_fn(PlaylistView) -> bool {
    |playlist: PlaylistView| playlist.id == id
}

/// Holding the entry `id`.
pub open spec fn playlist_holds(id: QueueEntryId) -> spec_fn(PlaylistView) -> bool {
    |playlist: PlaylistView| playlist.queue.holds(id)
}

/// Being what is remembered of `media`.
pub open spec fn slot_is(media: MediaKey) -> spec_fn(SlotView) -> bool {
    |slot: SlotView| slot.media == media
}

impl StateView {
    /// A state in which nothing has been played or queued.
    pub open spec fn fresh() -> StateView {
        StateView {
            schema_version: SCHEMA_VERSION,
            current_media: None,
            volume: FULL_GAIN,
            checkpoints: Seq::empty(),
            playlists: seq![PlaylistView {
                id: PlaylistId { raw: 1 },
                name: "Default"@,
                shuffle: None,
                queue: QueueView::empty(),
            }],
            playing: PlaylistId { raw: 1 },
            next_seq: 1,
            entry_ids: IdAllocator { next: Some(1) },
            playlist_ids: IdAllocator { next: Some(2) },
        }
    }

    /// Where the playlist `id` stands.
    pub open spec fn index_of(self, id: PlaylistId) -> Option<int> {
        crate::model::position(self.playlists, playlist_is(id), 0)
    }

    pub open spec fn has_playlist(self, id: PlaylistId) -> bool {
        self.index_of(id) is Some
    }

    pub open spec fn playlist(self, id: PlaylistId) -> Option<PlaylistView> {
        match self.index_of(id) {
            Some(at) => Some(self.playlists[at]),
            None => None,
        }
    }

    /// Where the playing playlist stands; the first where it names none.
    pub open spec fn playing_index(self) -> int {
        match self.index_of(self.playing) {
            Some(at) => at,
            None => 0,
        }
    }

    /// The playing playlist's queue.
    pub open spec fn queue(self) -> QueueView {
        self.playlists[self.playing_index()].queue
    }

    /// Where the playlist that holds `entry` stands.
    pub open spec fn owner_index(self, entry: QueueEntryId) -> Option<int> {
        crate::model::position(self.playlists, playlist_holds(entry), 0)
    }

    pub open spec fn owner_of(self, entry: QueueEntryId) -> Option<PlaylistId> {
        match self.owner_index(entry) {
            Some(at) => Some(self.playlists[at].id),
            None => None,
        }
    }

    pub open spec fn find_entry(self, entry: QueueEntryId) -> Option<EntryView> {
        match self.owner_index(entry) {
            Some(at) => self.playlists[at].queue.get(entry),
            None => None,
        }
    }

    pub open spec fn total(self) -> nat {
        entries_in(self.playlists, self.playlists.len() as int)
    }

    /// How many entries can still be added.
    pub open spec fn room(self) -> nat {
        if self.total() < MAX_PLAYLIST_ENTRIES {
            (MAX_PLAYLIST_ENTRIES - self.total()) as nat
        } else {
            0
        }
    }

    /// With one playlist replaced.
    pub open spec fn with_playlist(self, at: int, playlist: PlaylistView) -> StateView {
        StateView { playlists: self.playlists.update(at, playlist), ..self }
    }

    /// With one playlist's queue replaced.
    pub open spec fn with_queue(self, at: int, queue: QueueView) -> StateView {
        self.with_playlist(at, self.playlists[at].with_queue(queue))
    }

    pub open spec fn slot_of(self, media: MediaKey) -> Option<int> {
        crate::model::position(self.checkpoints, slot_is(media), 0)
    }

    /// What is remembered of `media`.
    pub open spec fn entry_for(self, media: MediaKey) -> Option<PersistedCheckpoint> {
        match self.slot_of(media) {
            Some(at) => Some(self.checkpoints[at].checkpoint),
            None => None,
        }
    }

    pub open spec fn completed_for(self, media: MediaKey) -> bool {
        self.entry_for(media) matches Some(entry) && entry.completed
    }

    /// Whether the slot `at` may be given up for `incoming`.
    pub open spec fn evictable(self, incoming: MediaKey, at: int) -> bool {
        0 <= at < self.checkpoints.len() && self.current_media != Some(self.checkpoints[at].media)
            && self.checkpoints[at].media != incoming
    }

    /// Whether the slot `a` is given up sooner than the slot `b`: it was touched
    /// longer ago or, of two touched at once, its media comes first.
    pub open spec fn goes_first(self, a: int, b: int) -> bool {
        let one = self.checkpoints[a];
        let two = self.checkpoints[b];
        one.checkpoint.touch_seq < two.checkpoint.touch_seq || (one.checkpoint.touch_seq
            == two.checkpoint.touch_seq && (one.media.before(two.media) || (one.media == two.media
            && a <= b)))
    }

    /// Whether the slot `at` is given up for `incoming`: of those that may be,
    /// the one that goes first.
    pub open spec fn is_victim(self, incoming: MediaKey, at: int) -> bool {
        self.evictable(incoming, at) && forall|other: int|
            #![trigger self.checkpoints[other]]
            self.evictable(incoming, other) ==> self.goes_first(at, other)
    }

    pub open spec fn victim(self, incoming: MediaKey) -> Option<int> {
        if exists|at: int| self.evictable(incoming, at) {
            Some(choose|at: int| self.is_victim(incoming, at))
        } else {
            None
        }
    }

    pub open spec fn next_after(self) -> u64 {
        if self.next_seq < u64::MAX {
            (self.next_seq + 1) as u64
        } else {
            u64::MAX
        }
    }

    /// With `checkpoint` remembered of `media`: in its slot, or in a new one,
    /// for which another is given up where there are too many.
    pub open spec fn remembered(self, media: MediaKey, checkpoint: PersistedCheckpoint) -> StateView {
        let slot = SlotView { media, checkpoint };
        match self.slot_of(media) {
            Some(at) => StateView {
                checkpoints: self.checkpoints.update(at, slot),
                next_seq: self.next_after(),
                ..self
            },
            None => if self.checkpoints.len() < MAX_ENTRIES {
                StateView {
                    checkpoints: self.checkpoints.push(slot),
                    next_seq: self.next_after(),
                    ..self
                }
            } else {
                match self.victim(media) {
                    Some(victim) => StateView {
                        checkpoints: self.checkpoints.remove(victim).push(slot),
                        next_seq: self.next_after(),
                        ..self
                    },
                    None => self,
                }
            },
        }
    }

    /// With an established position recorded: it replaces whatever was
    /// remembered, an estimate too.
    pub open spec fn recorded(
        self,
        media: MediaKey,
        position: Duration,
        updated_at: WallTime,
        completed: bool,
    ) -> StateView {
        self.remembered(
            media,
            PersistedCheckpoint {
                position: Some(position),
                completed,
                touch_seq: self.next_seq,
                updated_at,
                estimated: None,
            },
        )
    }

    /// With an estimated position recorded: the established one stays as it
    /// is, or absent.
    pub open spec fn recorded_estimated(
        self,
        media: MediaKey,
        estimated: Duration,
        updated_at: WallTime,
        completed: bool,
    ) -> StateView {
        self.remembered(
            media,
            PersistedCheckpoint {
                position: match self.entry_for(media) {
                    Some(entry) => entry.position,
                    None => None,
                },
                completed,
                touch_seq: self.next_seq,
                updated_at,
                estimated: Some(estimated),
            },
        )
    }

    /// With `batch` at the end of the playlist at `at`.
    pub open spec fn enqueued(self, at: int, batch: Seq<NewEntryView>) -> StateView {
        StateView {
            entry_ids: self.entry_ids.after(batch.len()),
            ..self.with_queue(
                at,
                self.playlists[at].queue.enqueued(self.entry_ids.first(), batch),
            )
        }
    }

    /// With the shuffle of the playlist at `at`, if it has one, begun again at
    /// its cursor.
    pub open spec fn reshuffled(self, at: int) -> StateView {
        match self.playlists[at].shuffle {
            Some(shuffle) => self.with_playlist(
                at,
                self.playlists[at].shuffled(Some(shuffle.seed)),
            ),
            None => self,
        }
    }

    /// With an empty playlist at the end.
    pub open spec fn created(self, name: Seq<char>) -> StateView {
        StateView {
            playlists: self.playlists.push(
                PlaylistView {
                    id: PlaylistId { raw: self.playlist_ids.first() },
                    name,
                    shuffle: None,
                    queue: QueueView::empty(),
                },
            ),
            playlist_ids: self.playlist_ids.after(1),
            ..self
        }
    }

    pub open spec fn renamed(self, at: int, name: Seq<char>) -> StateView {
        self.with_playlist(at, PlaylistView { name, ..self.playlists[at] })
    }

    /// With the current media the one under the playing playlist's cursor.
    pub open spec fn repointed(self) -> StateView {
        StateView { current_media: self.queue().active_media(), ..self }
    }

    /// Without the playlist at `at`. Where it was the playing one, the next
    /// one plays, else the one before.
    pub open spec fn without_playlist(self, at: int) -> StateView {
        let left = StateView { playlists: self.playlists.remove(at), ..self };
        if self.playing == self.playlists[at].id {
            let next = if at < left.playlists.len() {
                at
            } else {
                left.playlists.len() - 1
            };
            (StateView { playing: left.playlists[next].id, ..left }).repointed()
        } else {
            left
        }
    }

    pub open spec fn with_playing(self, id: PlaylistId) -> StateView {
        if self.has_playlist(id) {
            StateView { playing: id, ..self }
        } else {
            self
        }
    }

    pub open spec fn distinct_playlists(self) -> bool {
        forall|i: int, j: int|
            0 <= i < j < self.playlists.len() ==> #[trigger] self.playlists[i].id
                != #[trigger] self.playlists[j].id
    }

    /// Whether no entry number occurs in two playlists.
    pub open spec fn distinct_entries(self) -> bool {
        forall|i: int, j: int, id: QueueEntryId|
            0 <= i < j < self.playlists.len() && #[trigger] self.playlists[i].queue.holds(id)
                ==> !#[trigger] self.playlists[j].queue.holds(id)
    }

    /// Whether no number in use will be handed out again.
    pub open spec fn numbers_past(self) -> bool {
        &&& forall|i: int|
            0 <= i < self.playlists.len() ==> self.playlist_ids.past(
                (#[trigger] self.playlists[i]).id.raw,
            )
        &&& forall|i: int, k: int|
            #![trigger self.playlists[i].queue.entries[k]]
            0 <= i < self.playlists.len() && 0 <= k < self.playlists[i].queue.entries.len()
                ==> self.entry_ids.past(self.playlists[i].queue.entries[k].id.raw)
    }

    pub open spec fn distinct_media(self) -> bool {
        forall|i: int, j: int|
            0 <= i < j < self.checkpoints.len() ==> #[trigger] self.checkpoints[i].media
                != #[trigger] self.checkpoints[j].media
    }

    /// What always holds of a saved state: it has playlists, under distinct
    /// numbers, one of which plays; no entry is in two of them; all entries
    /// together stay under the cap; and a media is remembered once.
    pub open spec fn wf(self) -> bool {
        &&& 1 <= self.playlists.len() <= MAX_PLAYLISTS
        &&& self.distinct_playlists()
        &&& self.has_playlist(self.playing)
        &&& forall|i: int| 0 <= i < self.playlists.len() ==> (#[trigger] self.playlists[i]).wf()
        &&& self.distinct_entries()
        &&& self.numbers_past()
        &&& self.entry_ids.started()
        &&& self.playlist_ids.started()
        &&& self.total() <= MAX_PLAYLIST_ENTRIES
        &&& self.distinct_media()
    }
}

impl Default for PersistedState {
    fn default() -> (state: Self)
        ensures
            state@ == StateView::fresh(),
            state@.wf(),
            state@.whole(),
    {
        let playing = PlaylistId::from_raw(1);
        let mut playlists: Vec<Playlist> = Vec::new();
        playlists.push(Playlist::new(playing, "Default".to_owned()));
        let state = PersistedState {
            schema_version: SCHEMA_VERSION,
            current_media: None,
            volume: FULL_GAIN,
            checkpoints: Vec::new(),
            playlists,
            playing,
            next_seq: 1,
            entry_ids: IdAllocator::default(),
            playlist_ids: IdAllocator::starting_at(Some(2)),
        };
        proof {
            assert(state@ =~= StateView::fresh());
            fresh_is_wf();
        }
        state
    }
}

pub proof fn default_name_is_clean()
    ensures
        crate::playlist::is_clean("Default"@),
{
    reveal_strlit("Default");
}

proof fn fresh_is_wf()
    ensures
        StateView::fresh().wf(),
{
    let state = StateView::fresh();
    default_name_is_clean();
    crate::model::position_is_first(state.playlists, playlist_is(state.playing), 0);
    assert(playlist_is(state.playing)(state.playlists[0]));
    reveal_with_fuel(entries_in, 2);
}

impl Clone for PersistedState {
    fn clone(&self) -> (copy: Self)
        ensures
            copy@ == self@,
    {
        let mut checkpoints: Vec<Slot> = Vec::new();
        let mut at: usize = 0;
        while at < self.checkpoints.len()
            invariant
                at <= self.checkpoints@.len(),
                checkpoints@ == self.checkpoints@.take(at as int),
            decreases self.checkpoints@.len() - at,
        {
            checkpoints.push(self.checkpoints[at].clone());
            at += 1;
            proof {
                assert(checkpoints@ =~= self.checkpoints@.take(at as int));
            }
        }
        let mut playlists: Vec<Playlist> = Vec::new();
        let mut at: usize = 0;
        while at < self.playlists.len()
            invariant
                at <= self.playlists@.len(),
                playlists@.len() == at,
                forall|i: int| 0 <= i < at ==> (#[trigger] playlists@[i])@ == self.playlists@[i]@,
            decreases self.playlists@.len() - at,
        {
            playlists.push(self.playlists[at].clone());
            at += 1;
        }
        let copy = PersistedState {
            schema_version: self.schema_version,
            current_media: self.current_media.clone(),
            volume: self.volume,
            checkpoints,
            playlists,
            playing: self.playing,
            next_seq: self.next_seq,
            entry_ids: self.entry_ids,
            playlist_ids: self.playlist_ids,
        };
        proof {
            assert(copy.checkpoints@ =~= self.checkpoints@);
            assert(copy@.playlists =~= self@.playlists);
        }
        copy
    }
}

impl PersistedState {
    /// The parts of a state that was read.
    pub fn from_parts(
        schema_version: u32,
        current_media: Option<MediaId>,
        volume: u32,
        checkpoints: Vec<Slot>,
        playlists: Vec<Playlist>,
        playing: PlaylistId,
        next_seq: u64,
        entry_ids: IdAllocator,
        playlist_ids: IdAllocator,
    ) -> (state: Self)
        ensures
            state@ == (StateView {
                schema_version,
                current_media: crate::model::opt(current_media),
                volume,
                checkpoints: crate::model::seq(checkpoints@),
                playlists: crate::model::seq(playlists@),
                playing,
                next_seq,
                entry_ids,
                playlist_ids,
            }),
    {
        PersistedState {
            schema_version,
            current_media,
            volume,
            checkpoints,
            playlists,
            playing,
            next_seq,
            entry_ids,
            playlist_ids,
        }
    }

    /// The gain that was saved, clamped: a file edited by hand needs no other
    /// rule.
    pub fn volume(&self) -> (volume: Volume)
        ensures
            volume.gain == Volume::clamped(self@.volume),
    {
        Volume::new(self.volume)
    }

    /// The bits of the gain, as they were read or set.
    pub fn gain_bits(&self) -> (gain: u32)
        ensures
            gain == self@.volume,
    {
        self.volume
    }

    pub fn set_volume(&mut self, volume: Volume)
        ensures
            final(self)@ == (StateView { volume: volume.gain, ..old(self)@ }),
            old(self)@.wf() ==> final(self)@.wf(),
    {
        self.volume = volume.gain;
    }

    pub fn schema_version(&self) -> (version: u32)
        ensures
            version == self@.schema_version,
    {
        self.schema_version
    }

    /// Stamps the state with the version that this build writes.
    pub fn migrate_to_current_schema(&mut self)
        ensures
            final(self)@ == (StateView { schema_version: SCHEMA_VERSION, ..old(self)@ }),
            old(self)@.wf() ==> final(self)@.wf(),
    {
        self.schema_version = SCHEMA_VERSION;
    }

    pub fn playlists(&self) -> (playlists: &Vec<Playlist>)
        ensures
            crate::model::seq(playlists@) == self@.playlists,
    {
        &self.playlists
    }

    pub fn checkpoints(&self) -> (checkpoints: &Vec<Slot>)
        ensures
            crate::model::seq(checkpoints@) == self@.checkpoints,
    {
        &self.checkpoints
    }

    pub fn entry_ids(&self) -> (ids: IdAllocator)
        ensures
            ids == self@.entry_ids,
    {
        self.entry_ids
    }

    pub fn playlist_ids(&self) -> (ids: IdAllocator)
        ensures
            ids == self@.playlist_ids,
    {
        self.playlist_ids
    }

    pub fn playing(&self) -> (playing: PlaylistId)
        ensures
            playing == self@.playing,
    {
        self.playing
    }

    fn index_of(&self, id: PlaylistId) -> (found: Option<usize>)
        ensures
            match found {
                Some(at) => self@.index_of(id) == Some(at as int) && at < self.playlists@.len()
                    && self.playlists@[at as int]@.id == id,
                None => self@.index_of(id) is None,
            },
    {
        let mut at: usize = 0;
        while at < self.playlists.len()
            invariant
                at <= self.playlists@.len(),
                crate::model::position(self@.playlists, playlist_is(id), 0)
                    == crate::model::position(self@.playlists, playlist_is(id), at as int),
            decreases self.playlists@.len() - at,
        {
            assert(self@.playlists[at as int] == self.playlists@[at as int]@);
            if self.playlists[at].id() == id {
                return Some(at);
            }
            at += 1;
        }
        None
    }

    /// The playing playlist's place, or the first.
    fn playing_index(&self) -> (at: usize)
        requires
            self@.playlists.len() > 0,
        ensures
            at == self@.playing_index(),
            at < self.playlists@.len(),
    {
        match self.index_of(self.playing) {
            Some(at) => at,
            None => 0,
        }
    }

    pub fn playlist(&self, id: PlaylistId) -> (found: Option<&Playlist>)
        ensures
            crate::model::opt(found) == self@.playlist(id),
    {
        match self.index_of(id) {
            Some(at) => Some(&self.playlists[at]),
            None => None,
        }
    }

    pub fn playlist_mut(&mut self, id: PlaylistId) -> (found: Option<&mut Playlist>)
        ensures
            match found {
                Some(playlist) => old(self)@.index_of(id) matches Some(at) && playlist@ == old(
                    self)@.playlists[at] && final(self)@ == old(self)@.with_playlist(
                    at,
                    final(playlist)@,
                ),
                None => old(self)@.index_of(id) is None && *final(self) == *old(self),
            },
    {
        match self.index_of(id) {
            Some(at) => Some(&mut self.playlists[at]),
            None => None,
        }
    }

    pub fn playing_playlist(&self) -> (playlist: &Playlist)
        requires
            self@.playlists.len() > 0,
        ensures
            playlist@ == self@.playlists[self@.playing_index()],
    {
        &self.playlists[self.playing_index()]
    }

    /// The playing playlist's queue.
    pub fn queue(&self) -> (queue: &Queue)
        requires
            self@.playlists.len() > 0,
        ensures
            queue@ == self@.queue(),
    {
        self.playing_playlist().queue()
    }

    pub fn queue_mut(&mut self) -> (queue: &mut Queue)
        requires
            old(self)@.playlists.len() > 0,
        ensures
            queue@ == old(self)@.queue(),
            final(self)@ == old(self)@.with_queue(old(self)@.playing_index(), final(queue)@),
    {
        let at: usize = self.playing_index();
        self.playlists[at].queue_mut()
    }

    fn owner_index(&self, entry: QueueEntryId) -> (found: Option<usize>)
        ensures
            match found {
                Some(at) => self@.owner_index(entry) == Some(at as int) && at
                    < self.playlists@.len(),
                None => self@.owner_index(entry) is None,
            },
    {
        let mut at: usize = 0;
        while at < self.playlists.len()
            invariant
                at <= self.playlists@.len(),
                crate::model::position(self@.playlists, playlist_holds(entry), 0)
                    == crate::model::position(self@.playlists, playlist_holds(entry), at as int),
            decreases self.playlists@.len() - at,
        {
            assert(self@.playlists[at as int] == self.playlists@[at as int]@);
            if self.playlists[at].queue().get(entry).is_some() {
                return Some(at);
            }
            at += 1;
        }
        None
    }

    pub fn owner_of(&self, entry: QueueEntryId) -> (owner: Option<PlaylistId>)
        ensures
            owner == self@.owner_of(entry),
    {
        match self.owner_index(entry) {
            Some(at) => Some(self.playlists[at].id()),
            None => None,
        }
    }

    pub fn find_entry(&self, entry: QueueEntryId) -> (found: Option<&QueueEntry>)
        ensures
            crate::model::opt(found) == self@.find_entry(entry),
    {
        match self.owner_index(entry) {
            Some(at) => self.playlists[at].queue().get(entry),
            None => None,
        }
    }

    pub fn total_entries(&self) -> (total: usize)
        requires
            self@.total() <= usize::MAX,
        ensures
            total == self@.total(),
    {
        let mut total: usize = 0;
        let mut at: usize = 0;
        while at < self.playlists.len()
            invariant
                at <= self.playlists@.len(),
                self@.total() <= usize::MAX,
                total == entries_in(self@.playlists, at as int),
            decreases self.playlists@.len() - at,
        {
            proof {
                entries_in_grows(self@.playlists, at + 1, self@.playlists.len() as int);
                assert(self@.playlists[at as int] == self.playlists@[at as int]@);
            }
            total += self.playlists[at].queue().len();
            at += 1;
        }
        total
    }

    /// Adds `batch` to `dest`: all of it or nothing, under the cap that all
    /// playlists share, with numbers from the one source.
    pub fn enqueue(&mut self, dest: PlaylistId, batch: Vec<NewQueueEntry>) -> (made: Result<
        Vec<QueueEntryId>,
        QueueError,
    >)
        requires
            old(self)@.total() <= usize::MAX,
        ensures
            match made {
                Ok(made) => old(self)@.index_of(dest) matches Some(at) && batch@.len() <= old(
                    self,
                )@.room() && old(self)@.entry_ids.has(batch@.len())
                    && made@ == Seq::new(
                    batch@.len(),
                    |i: int| QueueEntryId { raw: (old(self)@.entry_ids.first() + i) as u64 },
                ) && final(self)@ == old(self)@.enqueued(at, crate::model::seq(batch@)),
                Err(error) => final(self)@ == old(self)@ && match error {
                    QueueError::UnknownPlaylist(raw) => old(self)@.index_of(dest) is None && raw
                        == dest.raw,
                    QueueError::Capacity { requested, available } => old(self)@.has_playlist(dest)
                        && requested == batch@.len() && available == old(self)@.room() && requested
                        > available,
                    QueueError::IdExhausted => old(self)@.has_playlist(dest) && batch@.len() <= old(
                        self,
                    )@.room() && !old(self)@.entry_ids.has(batch@.len()),
                    _ => false,
                },
            },
            old(self)@.wf() ==> final(self)@.wf(),
    {
        let at: usize = match self.index_of(dest) {
            Some(at) => at,
            None => return Err(QueueError::UnknownPlaylist(dest.raw)),
        };
        let total: usize = self.total_entries();
        let available: usize = if total < MAX_PLAYLIST_ENTRIES {
            MAX_PLAYLIST_ENTRIES - total
        } else {
            0
        };
        if batch.len() > available {
            return Err(QueueError::Capacity { requested: batch.len(), available });
        }
        let ghost before = self@;
        let mut ids = self.entry_ids;
        let made = self.playlists[at].queue_mut().enqueue(batch, &mut ids);
        self.entry_ids = ids;
        proof {
            if made is Err {
                assert(self@.playlists =~= before.playlists);
            }
        }
        proof {
            if made is Ok && before.wf() {
                crate::persistence::laws::enqueuing_keeps_wf(
                    before,
                    at as int,
                    crate::model::seq(batch@),
                );
            }
        }
        made
    }

    /// Begins the shuffle of a playlist again at its cursor, if it is
    /// shuffled.
    pub fn reshuffle(&mut self, id: PlaylistId)
        ensures
            final(self)@ == match old(self)@.index_of(id) {
                Some(at) => old(self)@.reshuffled(at),
                None => old(self)@,
            },
            old(self)@.wf() ==> final(self)@.wf(),
    {
        if let Some(at) = self.index_of(id) {
            proof {
                if self@.wf() {
                    crate::persistence::laws::reshuffling_keeps_wf(self@, at as int);
                }
            }
            assert(self@.playlists[at as int] == self.playlists@[at as int]@);
            if let Some(shuffle) = self.playlists[at].shuffle() {
                let first = self.playlists[at].queue().active();
                self.playlists[at].set_shuffle(Some(Shuffle { seed: shuffle.seed, first }));
            }
        }
    }

    pub fn create_playlist(&mut self, name: &str) -> (made: Result<PlaylistId, PlaylistError>)
        ensures
            match made {
                Ok(id) => crate::playlist::cleaned(name@) matches Some(name) && old(
                    self)@.playlists.len() < MAX_PLAYLISTS && old(self)@.playlist_ids.has(1) && id.raw
                    == old(self)@.playlist_ids.first() && final(self)@ == old(self)@.created(name),
                Err(error) => final(self)@ == old(self)@ && match error {
                    PlaylistError::InvalidName => crate::playlist::cleaned(name@) is None,
                    PlaylistError::TooMany => crate::playlist::cleaned(name@) is Some && old(
                        self)@.playlists.len() >= MAX_PLAYLISTS,
                    PlaylistError::IdExhausted => crate::playlist::cleaned(name@) is Some && old(
                        self)@.playlists.len() < MAX_PLAYLISTS && !old(self)@.playlist_ids.has(1),
                    _ => false,
                },
            },
            old(self)@.wf() ==> final(self)@.wf(),
    {
        let name = match clean_name(name) {
            Some(name) => name,
            None => return Err(PlaylistError::InvalidName),
        };
        if self.playlists.len() >= MAX_PLAYLISTS {
            return Err(PlaylistError::TooMany);
        }
        proof {
            if self@.wf() && self@.playlist_ids.has(1) {
                crate::persistence::laws::creating_keeps_wf(self@, name@);
            }
        }
        let raw: u64 = match self.playlist_ids.reserve(1) {
            Ok(raw) => raw,
            Err(_) => return Err(PlaylistError::IdExhausted),
        };
        let id = PlaylistId::from_raw(raw);
        self.playlists.push(Playlist::new(id, name));
        Ok(id)
    }

    pub fn rename_playlist(&mut self, id: PlaylistId, name: &str) -> (done: Result<
        (),
        PlaylistError,
    >)
        ensures
            match done {
                Ok(_) => crate::playlist::cleaned(name@) matches Some(name) && old(self)@.index_of(
                    id,
                ) matches Some(at) && final(self)@ == old(self)@.renamed(at, name),
                Err(error) => final(self)@ == old(self)@ && match error {
                    PlaylistError::InvalidName => crate::playlist::cleaned(name@) is None,
                    PlaylistError::Unknown(unknown) => unknown == id && crate::playlist::cleaned(
                        name@,
                    ) is Some && old(self)@.index_of(id) is None,
                    _ => false,
                },
            },
            old(self)@.wf() ==> final(self)@.wf(),
    {
        let name = match clean_name(name) {
            Some(name) => name,
            None => return Err(PlaylistError::InvalidName),
        };
        match self.index_of(id) {
            Some(at) => {
                proof {
                    if self@.wf() {
                        crate::persistence::laws::renaming_keeps_wf(self@, at as int, name@);
                    }
                }
                self.playlists[at].set_name(name);
                Ok(())
            },
            None => Err(PlaylistError::Unknown(id)),
        }
    }

    /// Removes a playlist, never the last. Where it was the playing one, its
    /// neighbour plays and the current media is the one under that playlist's
    /// cursor. What is remembered of any media stays.
    pub fn remove_playlist(&mut self, id: PlaylistId) -> (done: Result<Playlist, PlaylistError>)
        ensures
            match done {
                Ok(removed) => old(self)@.index_of(id) matches Some(at) && old(
                    self)@.playlists.len() != 1 && removed@ == old(self)@.playlists[at] && final(
                    self)@ == old(self)@.without_playlist(at),
                Err(error) => final(self)@ == old(self)@ && match error {
                    PlaylistError::Unknown(unknown) => unknown == id && old(self)@.index_of(
                        id,
                    ) is None,
                    PlaylistError::LastPlaylist => old(self)@.has_playlist(id) && old(
                        self)@.playlists.len() == 1,
                    _ => false,
                },
            },
            old(self)@.wf() ==> final(self)@.wf(),
    {
        let at: usize = match self.index_of(id) {
            Some(at) => at,
            None => return Err(PlaylistError::Unknown(id)),
        };
        if self.playlists.len() == 1 {
            return Err(PlaylistError::LastPlaylist);
        }
        proof {
            if self@.wf() {
                crate::persistence::laws::removing_keeps_wf(self@, at as int);
            }
        }
        let removed = self.playlists.remove(at);
        if self.playing == id {
            let next: usize = if at < self.playlists.len() {
                at
            } else {
                self.playlists.len() - 1
            };
            assert(self@.playlists[next as int] == self.playlists@[next as int]@);
            self.playing = self.playlists[next].id();
            self.repoint_current_media();
        }
        Ok(removed)
    }

    /// Makes the media under the playing playlist's cursor the current one.
    pub fn repoint_current_media(&mut self)
        requires
            old(self)@.playlists.len() > 0,
        ensures
            final(self)@ == old(self)@.repointed(),
            old(self)@.wf() ==> final(self)@.wf(),
    {
        let media = match self.queue().active_media() {
            Some(media) => Some(media.clone()),
            None => None,
        };
        self.current_media = media;
    }

    pub fn set_playing(&mut self, id: PlaylistId)
        ensures
            final(self)@ == old(self)@.with_playing(id),
            old(self)@.wf() ==> final(self)@.wf(),
    {
        if self.index_of(id).is_some() {
            self.playing = id;
        }
    }

    pub fn current_media(&self) -> (media: Option<&MediaId>)
        ensures
            crate::model::opt(media) == self@.current_media,
    {
        self.current_media.as_ref()
    }

    pub fn set_current_media(&mut self, media: MediaId)
        ensures
            final(self)@ == (StateView { current_media: Some(media@), ..old(self)@ }),
            old(self)@.wf() ==> final(self)@.wf(),
    {
        self.current_media = Some(media);
    }

    /// How many media are remembered.
    pub fn len(&self) -> (len: usize)
        ensures
            len == self@.checkpoints.len(),
    {
        self.checkpoints.len()
    }

    pub fn is_empty(&self) -> (empty: bool)
        ensures
            empty == (self@.checkpoints.len() == 0),
    {
        self.checkpoints.len() == 0
    }

    fn slot_of(&self, media: &MediaId) -> (found: Option<usize>)
        ensures
            match found {
                Some(at) => self@.slot_of(media@) == Some(at as int) && at
                    < self.checkpoints@.len() && self.checkpoints@[at as int].media@ == media@,
                None => self@.slot_of(media@) is None,
            },
    {
        let mut at: usize = 0;
        while at < self.checkpoints.len()
            invariant
                at <= self.checkpoints@.len(),
                crate::model::position(self@.checkpoints, slot_is(media@), 0)
                    == crate::model::position(self@.checkpoints, slot_is(media@), at as int),
            decreases self.checkpoints@.len() - at,
        {
            assert(self@.checkpoints[at as int] == self.checkpoints@[at as int]@);
            if self.checkpoints[at].media.same(media) {
                return Some(at);
            }
            at += 1;
        }
        None
    }

    pub fn entry_for(&self, media: &MediaId) -> (found: Option<&PersistedCheckpoint>)
        ensures
            match found {
                Some(entry) => self@.entry_for(media@) == Some(*entry),
                None => self@.entry_for(media@) is None,
            },
    {
        match self.slot_of(media) {
            Some(at) => Some(&self.checkpoints[at].checkpoint),
            None => None,
        }
    }

    pub fn completed_for(&self, media: &MediaId) -> (completed: bool)
        ensures
            completed == self@.completed_for(media@),
    {
        match self.entry_for(media) {
            Some(entry) => entry.completed,
            None => false,
        }
    }

    /// Gives up the slot touched longest ago among those that are neither the
    /// current media's nor `incoming`'s; of several touched at once, that of the
    /// media that comes first. Says whether there was one.
    pub fn evict_one(&mut self, incoming: &MediaId) -> (evicted: bool)
        ensures
            match old(self)@.victim(incoming@) {
                Some(victim) => evicted && final(self)@ == (StateView {
                    checkpoints: old(self)@.checkpoints.remove(victim),
                    ..old(self)@
                }) && 0 <= victim < old(self)@.checkpoints.len(),
                None => !evicted && final(self)@ == old(self)@,
            },
    {
        let mut best: Option<usize> = None;
        let mut at: usize = 0;
        let ghost media = incoming@;
        while at < self.checkpoints.len()
            invariant
                at <= self.checkpoints@.len(),
                media == incoming@,
                match best {
                    Some(found) => found < at && self@.evictable(media, found as int)
                        && forall|other: int|
                        #![trigger self@.checkpoints[other]]
                        other < at && self@.evictable(media, other) ==> self@.goes_first(
                            found as int,
                            other,
                        ),
                    None => forall|other: int| other < at ==> !self@.evictable(media, other),
                },
            decreases self.checkpoints@.len() - at,
        {
            assert(self@.checkpoints[at as int] == self.checkpoints@[at as int]@);
            let current = match &self.current_media {
                Some(current) => current.same(&self.checkpoints[at].media),
                None => false,
            };
            if !current && !self.checkpoints[at].media.same(incoming) {
                assert(self@.evictable(media, at as int));
                best = match best {
                    Some(found) => {
                        assert(self@.checkpoints[found as int]
                            == self.checkpoints@[found as int]@);
                        let touched = self.checkpoints[at].checkpoint.touch_seq;
                        let least = self.checkpoints[found].checkpoint.touch_seq;
                        let sooner = touched < least || (touched == least
                            && self.checkpoints[at].media.is_before(
                            &self.checkpoints[found].media,
                        ));
                        proof {
                            slots_go_in_order(self@, at as int, found as int);
                        }
                        if sooner {
                            Some(at)
                        } else {
                            Some(found)
                        }
                    },
                    None => Some(at),
                };
            }
            at += 1;
        }
        match best {
            Some(found) => {
                proof {
                    victim_is_unique(self@, media, found as int);
                }
                let _ = self.checkpoints.remove(found);
                true
            },
            None => false,
        }
    }

    /// Makes room for `media` where it is not remembered yet and there are
    /// too many. Says whether there is room now.
    fn make_room(&mut self, media: &MediaId) -> (room: bool)
        ensures
            old(self)@.slot_of(media@) is Some || old(self)@.checkpoints.len() < MAX_ENTRIES ==> room
                && final(self)@ == old(self)@,
            old(self)@.slot_of(media@) is None && old(self)@.checkpoints.len() >= MAX_ENTRIES
                ==> match old(self)@.victim(media@) {
                Some(victim) => room && final(self)@ == (StateView {
                    checkpoints: old(self)@.checkpoints.remove(victim),
                    ..old(self)@
                }) && 0 <= victim < old(self)@.checkpoints.len(),
                None => !room && final(self)@ == old(self)@,
            },
    {
        if self.slot_of(media).is_none() && self.checkpoints.len() >= MAX_ENTRIES {
            self.evict_one(media)
        } else {
            true
        }
    }

    /// Remembers an established position. It replaces whatever was remembered
    /// of the media.
    pub fn record(&mut self, checkpoint: &PlaybackCheckpoint, completed: bool)
        ensures
            final(self)@ == old(self)@.recorded(
                checkpoint.media@,
                checkpoint.position,
                checkpoint.updated_at,
                completed,
            ),
            old(self)@.wf() ==> final(self)@.wf(),
    {
        proof {
            if self@.wf() {
                crate::persistence::laws::recording_keeps_wf(
                    self@,
                    checkpoint.media@,
                    PersistedCheckpoint {
                        position: Some(checkpoint.position),
                        completed,
                        touch_seq: self@.next_seq,
                        updated_at: checkpoint.updated_at,
                        estimated: None,
                    },
                );
            }
        }
        if !self.make_room(&checkpoint.media) {
            return;
        }
        proof {
            if old(self)@.slot_of(checkpoint.media@) is None {
                eviction_frees_the_media(old(self)@, checkpoint.media@);
            }
        }
        let touch_seq: u64 = self.next_seq;
        self.next_seq = self.next_seq.saturating_add(1);
        let entry = PersistedCheckpoint {
            position: Some(checkpoint.position),
            completed,
            touch_seq,
            updated_at: checkpoint.updated_at,
            estimated: None,
        };
        match self.slot_of(&checkpoint.media) {
            Some(at) => {
                let media = checkpoint.media.clone();
                self.checkpoints[at] = Slot { media, checkpoint: entry };
            },
            None => self.checkpoints.push(
                Slot { media: checkpoint.media.clone(), checkpoint: entry },
            ),
        }
    }

    /// Remembers an estimated position. The established one is never written
    /// here: it stays as it was, or absent.
    pub fn record_estimated(
        &mut self,
        media: MediaId,
        estimated: Duration,
        updated_at: WallTime,
        completed: bool,
    )
        ensures
            final(self)@ == old(self)@.recorded_estimated(
                media@,
                estimated,
                updated_at,
                completed,
            ),
            old(self)@.wf() ==> final(self)@.wf(),
    {
        proof {
            if self@.wf() {
                crate::persistence::laws::recording_keeps_wf(
                    self@,
                    media@,
                    PersistedCheckpoint {
                        position: match self@.entry_for(media@) {
                            Some(entry) => entry.position,
                            None => None,
                        },
                        completed,
                        touch_seq: self@.next_seq,
                        updated_at,
                        estimated: Some(estimated),
                    },
                );
            }
        }
        if !self.make_room(&media) {
            return;
        }
        proof {
            if old(self)@.slot_of(media@) is None {
                eviction_frees_the_media(old(self)@, media@);
            }
        }
        let touch_seq: u64 = self.next_seq;
        self.next_seq = self.next_seq.saturating_add(1);
        match self.slot_of(&media) {
            Some(at) => {
                let position = self.checkpoints[at].checkpoint.position;
                self.checkpoints[at] = Slot {
                    media,
                    checkpoint: PersistedCheckpoint {
                        position,
                        completed,
                        touch_seq,
                        updated_at,
                        estimated: Some(estimated),
                    },
                };
            },
            None => self.checkpoints.push(
                Slot {
                    media,
                    checkpoint: PersistedCheckpoint {
                        position: None,
                        completed,
                        touch_seq,
                        updated_at,
                        estimated: Some(estimated),
                    },
                },
            ),
        }
    }
}

impl PersistedState {
    /// Moves the playing playlist's cursor, where that is possible.
    pub fn activate(&mut self, active: Option<QueueEntryId>)
        requires
            old(self)@.playlists.len() > 0,
        ensures
            final(self)@ == old(self)@.activated(active),
    {
        let at: usize = self.playing_index();
        let ghost before = self@;
        let done = self.playlists[at].queue_mut().set_active(active);
        proof {
            if done is Err {
                assert(self@.playlists =~= before.playlists);
            }
        }
    }

    /// Shows what a decoder reported of the entry `id`.
    pub fn absorb(&mut self, id: QueueEntryId, metadata: &MediaMetadata)
        ensures
            final(self)@ == old(self)@.absorbed(id, metadata.as_update()),
    {
        if let Some(at) = self.owner_index(id) {
            self.playlists[at].queue_mut().absorb(id, metadata);
        }
    }

    /// The entry played after `id`, in the playlist that holds it.
    pub fn entry_after(&self, id: QueueEntryId) -> (next: Option<QueueEntryId>)
        ensures
            next == self@.entry_after(id),
    {
        match self.owner_of(id) {
            Some(owner) => match self.playlist(owner) {
                Some(playlist) => playlist.neighbor(id, Direction::Down),
                None => None,
            },
            None => None,
        }
    }

    /// Updates what is shown of every entry for `media`. Says whether anything
    /// changed.
    pub fn update_display(&mut self, media: &MediaId, update: &DisplayUpdate) -> (changed: bool)
        ensures
            final(self)@ == old(self)@.displayed(media@, update@),
            changed == (final(self)@ != old(self)@),
    {
        let ghost before = self@;
        let ghost after = self@.displayed(media@, update@);
        let mut changed: bool = false;
        let mut at: usize = 0;
        while at < self.playlists.len()
            invariant
                at <= self.playlists@.len(),
                after == before.displayed(media@, update@),
                self@ == (StateView { playlists: self@.playlists, ..before }),
                self@.playlists.len() == before.playlists.len() == after.playlists.len(),
                forall|i: int| 0 <= i < at ==> self@.playlists[i] == after.playlists[i],
                forall|i: int|
                    at <= i < self@.playlists.len() ==> self@.playlists[i] == before.playlists[i],
                changed ==> exists|i: int| 0 <= i < at && after.playlists[i] != before.playlists[i],
                !changed ==> forall|i: int|
                    0 <= i < at ==> after.playlists[i] == before.playlists[i],
            decreases self.playlists@.len() - at,
        {
            assert(self@.playlists[at as int] == self.playlists@[at as int]@);
            let one: bool = self.playlists[at].queue_mut().update_display(media, update);
            assert(self@.playlists[at as int] == self.playlists@[at as int]@);
            if one {
                assert(after.playlists[at as int] != before.playlists[at as int]);
                changed = true;
            }
            at += 1;
        }
        proof {
            assert(self@ =~= after);
            if !changed {
                assert(after =~= before);
            }
        }
        changed
    }

    /// Takes the audio of the entry `id` from `url`. Says whether that changed
    /// anything.
    pub fn refetch(&mut self, id: QueueEntryId, url: Url) -> (done: Result<bool, QueueError>)
        ensures
            ({
                let source = SourceView::Podcast { fallback: url@ };
                match done {
                    Ok(changed) => old(self)@.owner_index(id) matches Some(at) && (old(
                        self)@.find_entry(id) matches Some(entry) && changed == (entry.source
                        != source) && (changed ==> source.serves(entry.media))) && final(self)@
                        == old(self)@.with_queue(
                        at,
                        old(self)@.playlists[at].queue.refetched(id, url@),
                    ),
                    Err(error) => final(self)@ == old(self)@ && match old(self)@.find_entry(id) {
                        Some(entry) => entry.source != source && !source.serves(entry.media)
                            && error == QueueError::SourceMismatch,
                        None => error == QueueError::UnknownEntry(id),
                    },
                }
            }),
    {
        let at: usize = match self.owner_index(id) {
            Some(at) => at,
            None => return Err(QueueError::UnknownEntry(id)),
        };
        proof {
            crate::persistence::laws::found_owner(self@, id);
        }
        let ghost before = self@;
        let done = self.playlists[at].queue_mut().refetch(id, url);
        proof {
            if done is Err {
                assert(self@.playlists =~= before.playlists);
            }
        }
        done
    }

    /// Moves an entry one step in the playlist that holds it. Says whether it
    /// moved.
    pub fn move_entry(&mut self, id: QueueEntryId, direction: Direction) -> (done: Result<
        bool,
        QueueError,
    >)
        ensures
            match done {
                Ok(moved) => old(self)@.owner_index(id) matches Some(at) && moved == old(
                    self)@.playlists[at].queue.can_move(id, direction) && final(self)@ == old(
                    self)@.with_queue(at, old(self)@.playlists[at].queue.moved(id, direction)),
                Err(error) => old(self)@.owner_index(id) is None && final(self)@ == old(self)@
                    && error == QueueError::UnknownEntry(id),
            },
    {
        let at: usize = match self.owner_index(id) {
            Some(at) => at,
            None => return Err(QueueError::UnknownEntry(id)),
        };
        proof {
            crate::persistence::laws::found_owner(self@, id);
        }
        self.playlists[at].queue_mut().move_entry(id, direction)
    }

    /// Removes an entry from the playlist that holds it.
    pub fn remove_entry(&mut self, id: QueueEntryId) -> (done: Result<Removed, QueueError>)
        ensures
            match done {
                Ok(left) => old(self)@.owner_index(id) matches Some(at) && left.selection == old(
                    self)@.playlists[at].queue.selection_after(id) && final(self)@ == old(
                    self)@.with_queue(at, old(self)@.playlists[at].queue.removed(id)),
                Err(error) => old(self)@.owner_index(id) is None && final(self)@ == old(self)@
                    && error == QueueError::UnknownEntry(id),
            },
    {
        let at: usize = match self.owner_index(id) {
            Some(at) => at,
            None => return Err(QueueError::UnknownEntry(id)),
        };
        proof {
            crate::persistence::laws::found_owner(self@, id);
        }
        self.playlists[at].queue_mut().remove(id)
    }

    /// Empties a playlist.
    pub fn clear_playlist(&mut self, id: PlaylistId)
        ensures
            final(self)@ == match old(self)@.index_of(id) {
                Some(at) => old(self)@.with_queue(at, QueueView::empty()),
                None => old(self)@,
            },
    {
        if let Some(at) = self.index_of(id) {
            self.playlists[at].queue_mut().clear();
        }
    }

    /// Turns shuffle on from `seed`, the cursor's entry first, or off.
    pub fn set_shuffle(&mut self, id: PlaylistId, seed: Option<u64>) -> (done: Result<
        (),
        PlaylistError,
    >)
        ensures
            match done {
                Ok(_) => old(self)@.index_of(id) matches Some(at) && final(self)@ == old(
                    self)@.with_playlist(at, old(self)@.playlists[at].shuffled(seed)),
                Err(error) => old(self)@.index_of(id) is None && final(self)@ == old(self)@
                    && error == PlaylistError::Unknown(id),
            },
    {
        match self.index_of(id) {
            Some(at) => {
                let first = self.playlists[at].queue().active();
                let shuffle = match seed {
                    Some(seed) => Some(Shuffle { seed, first }),
                    None => None,
                };
                self.playlists[at].set_shuffle(shuffle);
                Ok(())
            },
            None => Err(PlaylistError::Unknown(id)),
        }
    }
}

pub proof fn entries_in_grows(playlists: Seq<PlaylistView>, few: int, many: int)
    requires
        0 <= few <= many <= playlists.len(),
    ensures
        entries_in(playlists, few) <= entries_in(playlists, many),
    decreases many - few,
{
    if few < many {
        entries_in_grows(playlists, few, many - 1);
    }
}

/// The slots are given up in one order: of two exactly one goes first, and it
/// also goes before whatever the other goes before.
pub proof fn slots_go_in_order(state: StateView, a: int, b: int)
    ensures
        a != b ==> state.goes_first(a, b) != state.goes_first(b, a),
        forall|c: int|
            #![trigger state.goes_first(b, c)]
            #![trigger state.checkpoints[c]]
            state.goes_first(a, b) && state.goes_first(b, c) ==> state.goes_first(a, c),
{
    let one = state.checkpoints[a].media;
    let two = state.checkpoints[b].media;
    crate::media::media_order_is_strict(one, two, one);
    crate::media::media_order_is_strict(one, one, one);
    assert forall|c: int| state.goes_first(a, b) && state.goes_first(b, c) implies state.goes_first(
        a,
        c,
    ) by {
        crate::media::media_order_is_strict(one, two, state.checkpoints[c].media);
    }
}

proof fn victim_is_unique(state: StateView, incoming: MediaKey, at: int)
    requires
        state.is_victim(incoming, at),
    ensures
        state.victim(incoming) == Some(at),
{
    let chosen = choose|other: int| state.is_victim(incoming, other);
    assert(state.is_victim(incoming, chosen));
    assert(state.evictable(incoming, chosen) && state.evictable(incoming, at));
    assert(state.checkpoints[chosen] == state.checkpoints[chosen]);
    assert(state.checkpoints[at] == state.checkpoints[at]);
    slots_go_in_order(state, at, chosen);
}

/// Giving up another media's slot leaves a media that is not remembered not
/// remembered.
proof fn eviction_frees_the_media(state: StateView, media: MediaKey)
    requires
        state.slot_of(media) is None,
    ensures
        forall|at: int|
            0 <= at < state.checkpoints.len() ==> (StateView {
                checkpoints: #[trigger] state.checkpoints.remove(at),
                ..state
            }).slot_of(media) is None,
{
    crate::model::position_is_first(state.checkpoints, slot_is(media), 0);
    assert forall|at: int| 0 <= at < state.checkpoints.len() implies (StateView {
        checkpoints: #[trigger] state.checkpoints.remove(at),
        ..state
    }).slot_of(media) is None by {
        let left = state.checkpoints.remove(at);
        crate::model::position_is_first(left, slot_is(media), 0);
        if let Some(found) = crate::model::position(left, slot_is(media), 0) {
            let from = if found < at {
                found
            } else {
                found + 1
            };
            assert(left[found] == state.checkpoints[from]);
            assert(slot_is(media)(state.checkpoints[from]));
        }
    }
}

} // verus!
