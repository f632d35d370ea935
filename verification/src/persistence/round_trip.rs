//! A state that is written is read back.

use crate::clock::Duration;
use crate::json::{FieldView, JsonView};
use crate::media::MediaKey;
use crate::persistence::model::{PersistedCheckpoint, SlotView, StateView, SCHEMA_VERSION};
use crate::persistence::queue_codec::{DisplayDtoView, EntryDtoView, PlaylistDtoView, QueueProblem,
    ShuffleDto, SourceDtoView};
use crate::persistence::recovery::{AdmissionView, RecoveryView};
use crate::playlist::{PlaylistView, Shuffle};
use crate::queue::{
    DisplayDuration, DisplayView, EntryView, QueueEntryId, QueueView, MAX_PLAYLIST_ENTRIES,
};
use vstd::prelude::*;

verus! {

// --------------------------------------------------------- what is kept

impl Duration {
    /// To the millisecond.
    pub open spec fn stored(self) -> Duration {
        Duration { nanos: (self.millis_spec() * crate::clock::NANOS_PER_MILLI) as u128 }
    }
}

impl DisplayView {
    /// What a file keeps of it: durations to the millisecond.
    pub open spec fn stored(self) -> DisplayView {
        DisplayView {
            duration: match self.duration {
                Some(duration) => Some(
                    DisplayDuration { value: duration.value.stored(), ..duration },
                ),
                None => None,
            },
            ..self
        }
    }
}

impl EntryView {
    pub open spec fn stored(self) -> EntryView {
        EntryView { display: self.display.stored(), ..self }
    }
}

impl QueueView {
    pub open spec fn stored(self) -> QueueView {
        QueueView { entries: self.entries.map_values(|entry: EntryView| entry.stored()), ..self }
    }
}

impl PlaylistView {
    /// What a file keeps of it: a pinned entry only while it is a member.
    pub open spec fn stored(self) -> PlaylistView {
        PlaylistView {
            shuffle: match self.shuffle {
                Some(shuffle) => Some(
                    Shuffle {
                        first: match shuffle.first {
                            Some(first) => if self.queue.holds(first) {
                                Some(first)
                            } else {
                                None
                            },
                            None => None,
                        },
                        ..shuffle
                    },
                ),
                None => None,
            },
            queue: self.queue.stored(),
            ..self
        }
    }

    /// Whether every entry can be saved.
    pub open spec fn storable(self) -> bool {
        forall|k: int|
            0 <= k < self.queue.entries.len() ==> crate::persistence::queue_codec::sound(
                #[trigger] self.queue.entries[k],
            )
    }
}

impl StateView {
    pub open spec fn stored(self) -> StateView {
        StateView {
            playlists: self.playlists.map_values(|playlist: PlaylistView| playlist.stored()),
            ..self
        }
    }

    /// Whether every entry's media and source belong together, and their
    /// addresses are read as themselves.
    pub open spec fn storable(self) -> bool {
        forall|i: int| 0 <= i < self.playlists.len() ==> (#[trigger] self.playlists[i]).storable()
    }

    /// Whether the next sequence number is the one that follows those in use.
    pub open spec fn sequenced(self) -> bool {
        self.next_seq == crate::persistence::file::next_sequence(
            self.checkpoints,
            self.checkpoints.len() as int,
        )
    }
}

// ------------------------------------------------------------- members

/// A member is found under its name, where no earlier one has it.
proof fn member_is_found(fields: Seq<FieldView>, at: int)
    requires
        0 <= at < fields.len(),
        forall|j: int| 0 <= j < at ==> (#[trigger] fields[j]).name != fields[at].name,
    ensures
        JsonView::Object(fields).field(fields[at].name) == Some(fields[at].value),
{
    let wanted = crate::json::named(fields[at].name);
    crate::model::position_is_first(fields, wanted, 0);
    assert(wanted(fields[at]));
    if let Some(found) = crate::model::position(fields, wanted, 0) {
        if found < at {
            assert(fields[found].name != fields[at].name);
        }
    }
}

proof fn source_members(source: SourceDtoView)
    ensures
        SourceDtoView::read(source.json()) == Some(source),
{
    reveal_strlit("kind");
    reveal_strlit("path");
    reveal_strlit("url");
    reveal_strlit("fallback_url");
    reveal_strlit("local");
    reveal_strlit("remote");
    reveal_strlit("podcast");
    assert("kind"@[0] == 'k' && "path"@[0] == 'p');
    assert("kind"@.len() == 4 && "url"@.len() == 3 && "fallback_url"@.len() == 12);
    assert("local"@.len() == 5 && "remote"@.len() == 6 && "podcast"@.len() == 7);
    let fields = source.json()->Object_0;
    member_is_found(fields, 0);
    member_is_found(fields, 1);
}

proof fn display_members(display: DisplayDtoView)
    ensures
        DisplayDtoView::read(display.json()) == Some(display),
{
    reveal_strlit("title");
    reveal_strlit("artist");
    reveal_strlit("album");
    reveal_strlit("year");
    reveal_strlit("duration_ms");
    reveal_strlit("duration_source");
    assert("title"@[0] == 't' && "album"@[0] == 'a');
    assert("title"@.len() == 5 && "artist"@.len() == 6 && "album"@.len() == 5 && "year"@.len() == 4);
    assert("duration_ms"@.len() == 11 && "duration_source"@.len() == 15);
    let fields = display.json()->Object_0;
    member_is_found(fields, 0);
    member_is_found(fields, 1);
    member_is_found(fields, 2);
    member_is_found(fields, 3);
    member_is_found(fields, 4);
    member_is_found(fields, 5);
}

proof fn entry_members(dto: EntryDtoView)
    requires
        dto.media.valid(),
    ensures
        EntryDtoView::read(dto.json()) == Some(dto),
        crate::json::number_in(dto.json().part("id"@, 0)) == Some(dto.id),
{
    reveal_strlit("id");
    reveal_strlit("media");
    reveal_strlit("source");
    reveal_strlit("display");
    assert("id"@.len() == 2 && "media"@.len() == 5 && "source"@.len() == 6 && "display"@.len() == 7);
    let fields = dto.json()->Object_0;
    member_is_found(fields, 0);
    member_is_found(fields, 1);
    member_is_found(fields, 2);
    member_is_found(fields, 3);
    crate::media::media_text_reads_back(dto.media);
    source_members(dto.source);
    display_members(dto.display);
}

proof fn shuffle_members(shuffle: ShuffleDto)
    ensures
        shuffle.json().field("seed"@) == Some(JsonView::Number(shuffle.seed)),
        shuffle.json().field("first"@) == Some(
            crate::persistence::queue_codec::number_or_null(shuffle.first),
        ),
{
    reveal_strlit("seed");
    reveal_strlit("first");
    assert("seed"@.len() == 4 && "first"@.len() == 5);
    let fields = shuffle.json()->Object_0;
    member_is_found(fields, 0);
    member_is_found(fields, 1);
}

proof fn playlist_members(dto: PlaylistDtoView)
    ensures
        dto.json().field("id"@) == Some(JsonView::Number(dto.id)),
        dto.json().field("name"@) == Some(JsonView::Text(dto.name)),
        dto.json().field("shuffle"@) == Some(
            match dto.shuffle {
                Some(shuffle) => shuffle.json(),
                None => JsonView::Null,
            },
        ),
        dto.json().field("entries"@) == Some(
            JsonView::Array(dto.entries.map_values(|entry: EntryDtoView| entry.json())),
        ),
        dto.json().field("active_entry"@) == Some(
            crate::persistence::queue_codec::number_or_null(dto.active_entry),
        ),
{
    reveal_strlit("id");
    reveal_strlit("name");
    reveal_strlit("shuffle");
    reveal_strlit("entries");
    reveal_strlit("active_entry");
    assert("shuffle"@[0] == 's' && "entries"@[0] == 'e');
    assert("id"@.len() == 2 && "name"@.len() == 4 && "shuffle"@.len() == 7 && "entries"@.len() == 7);
    assert("active_entry"@.len() == 12);
    let fields = dto.json()->Object_0;
    member_is_found(fields, 0);
    member_is_found(fields, 1);
    member_is_found(fields, 2);
    member_is_found(fields, 3);
    member_is_found(fields, 4);
}

// ------------------------------------------------------------- entries

proof fn display_reads_back(display: DisplayView)
    ensures
        display.dto().display() == display.stored(),
{
    reveal_strlit("decoded");
    reveal_strlit("decoded_estimated");
    reveal_strlit("declared");
    assert("decoded"@.len() == 7 && "decoded_estimated"@.len() == 17 && "declared"@.len() == 8);
    if let Some(duration) = display.duration {
        assert(0 <= duration.value.millis_spec() <= u64::MAX);
    }
}

proof fn entry_reads_back(entry: EntryView)
    requires
        crate::persistence::queue_codec::sound(entry),
    ensures
        EntryDtoView::read(entry.dto().json()) == Some(entry.dto()),
        entry.dto().entry() == Ok::<EntryView, QueueProblem>(entry.stored()),
{
    entry_members(entry.dto());
    display_reads_back(entry.display);
}

/// The JSON of a queue's entries.
spec fn entries_json(queue: QueueView) -> Seq<JsonView> {
    queue.dtos().map_values(|entry: EntryDtoView| entry.json())
}

proof fn entries_read_back(playlist: PlaylistView)
    requires
        playlist.queue.distinct(),
        playlist.storable(),
    ensures
        crate::persistence::queue_codec::entries_of(entries_json(playlist.queue)) == Ok::<
            Seq<EntryView>,
            QueueProblem,
        >(playlist.queue.stored().entries),
        forall|k: int|
            0 <= k < playlist.queue.entries.len() ==> crate::json::number_in(
                (#[trigger] entries_json(playlist.queue)[k]).part("id"@, 0),
            ) == Some(playlist.queue.entries[k].id.raw),
{
    let queue = playlist.queue;
    let items = entries_json(queue);
    assert forall|k: int| 0 <= k < queue.entries.len() implies EntryDtoView::read(
        #[trigger] items[k],
    ) == Some(queue.entries[k].dto()) && queue.entries[k].dto().entry() == Ok::<
        EntryView,
        QueueProblem,
    >(queue.entries[k].stored()) && crate::json::number_in(items[k].part("id"@, 0)) == Some(
        queue.entries[k].id.raw,
    ) by {
        assert(items[k] == queue.entries[k].dto().json());
        entry_reads_back(queue.entries[k]);
        entry_members(queue.entries[k].dto());
    }
    let dtos = crate::persistence::queue_codec::dtos_in(items).unwrap();
    assert(dtos =~= queue.dtos());
    assert(crate::persistence::queue_codec::distinct_ids(dtos)) by {
        assert forall|i: int, j: int| 0 <= i < j < dtos.len() implies #[trigger] dtos[i].id
            != #[trigger] dtos[j].id by {
            assert(queue.entries[i].id != queue.entries[j].id);
        }
    }
    crate::model::position_is_first(dtos, crate::persistence::queue_codec::is_broken(), 0);
    if let Some(at) = crate::model::position(
        dtos,
        crate::persistence::queue_codec::is_broken(),
        0,
    ) {
        assert(EntryDtoView::read(items[at]) is Some);
        assert(dtos[at].entry() is Ok);
    }
    assert(dtos.map_values(|dto: EntryDtoView| dto.entry()->Ok_0)
        =~= queue.stored().entries) by {
        assert forall|k: int| 0 <= k < dtos.len() implies dtos[k].entry()->Ok_0
            == #[trigger] queue.stored().entries[k] by {
            assert(EntryDtoView::read(items[k]) is Some);
        }
    }
}

proof fn stored_queue_is_alike(queue: QueueView, id: QueueEntryId)
    ensures
        queue.stored().find(id) == queue.find(id),
        queue.stored().active_media() == queue.active_media(),
{
    let stored = queue.stored();
    crate::queue::same_ids_same_places(stored, queue, id);
    if let Some(active) = queue.active {
        crate::queue::same_ids_same_places(stored, queue, active);
        crate::queue::found_is_queued(queue, active);
    }
}

// ------------------------------------------------------------ admission

/// Distinct entries under numbers not in use are admitted as they are.
proof fn plain_admission(
    now: AdmissionView,
    entries: Seq<EntryView>,
    found: usize,
    count: int,
)
    requires
        0 <= count <= entries.len(),
        (QueueView { entries, active: None }).distinct(),
        forall|k: int| 0 <= k < entries.len() ==> !now.seen.contains((#[trigger] entries[k]).id.raw),
        now.total + entries.len() <= MAX_PLAYLIST_ENTRIES,
        now.entries.len() == 0,
    ensures
        ({
            let after = now.all_admitted(entries, found, count);
            &&& after.reset == now.reset
            &&& after.entry_ids == now.entry_ids
            &&& after.cursor == now.cursor
            &&& after.total == now.total + count
            &&& after.entries == entries.take(count)
            &&& forall|n: u64|
                #[trigger] after.seen.contains(n) <==> now.seen.contains(n) || exists|k: int|
                    0 <= k < count && (#[trigger] entries[k]).id.raw == n
        }),
    decreases count,
{
    if count > 0 {
        plain_admission(now, entries, found, count - 1);
        let before = now.all_admitted(entries, found, count - 1);
        let last = entries[count - 1];
        assert(!before.seen.contains(last.id.raw)) by {
            if exists|k: int| 0 <= k < count - 1 && (#[trigger] entries[k]).id.raw == last.id.raw {
                let k = choose|k: int|
                    0 <= k < count - 1 && (#[trigger] entries[k]).id.raw == last.id.raw;
                let queue = QueueView { entries, active: None };
                assert(queue.entries[k].id != queue.entries[count - 1].id);
            }
        }
        let after = now.all_admitted(entries, found, count);
        assert(after == before.holding(last));
        assert(entries.take(count) =~= entries.take(count - 1).push(last));
        assert forall|n: u64| #[trigger] after.seen.contains(n) <==> now.seen.contains(n)
            || exists|k: int| 0 <= k < count && (#[trigger] entries[k]).id.raw == n by {
            if n == last.id.raw {
                assert(entries[count - 1].id.raw == n);
            }
            if before.seen.contains(n) && !now.seen.contains(n) {
                let k = choose|k: int| 0 <= k < count - 1 && (#[trigger] entries[k]).id.raw == n;
                assert(entries[k].id.raw == n);
            }
            if exists|k: int| 0 <= k < count && (#[trigger] entries[k]).id.raw == n {
                let k = choose|k: int| 0 <= k < count && (#[trigger] entries[k]).id.raw == n;
                if k < count - 1 {
                    assert(before.seen.contains(n));
                }
            }
        }
    } else {
        assert(entries.take(0) =~= now.entries);
    }
}

/// How far the playlists of `state` have been read: the first `count`, as they
/// were saved, with nothing reported.
spec fn read_so_far(now: RecoveryView, state: StateView, count: int) -> bool {
    &&& now.reset is None
    &&& now.entry_ids == state.entry_ids
    &&& now.playlist_ids == state.playlist_ids
    &&& now.playlists == state.stored().playlists.take(count)
    &&& now.total == crate::persistence::model::entries_in(state.playlists, count)
    &&& forall|n: u64|
        #[trigger] now.seen_playlists.contains(n) <==> exists|i: int|
            0 <= i < count && (#[trigger] state.playlists[i]).id.raw == n
    &&& forall|n: u64|
        #[trigger] now.seen_entries.contains(n) <==> exists|i: int|
            0 <= i < count && #[trigger] state.playlists[i].queue.holds(QueueEntryId { raw: n })
}

proof fn playlist_reads_back(now: RecoveryView, state: StateView, at: int, found: usize)
    requires
        state.wf(),
        state.storable(),
        0 <= at < state.playlists.len(),
        read_so_far(now, state, at),
    ensures
        read_so_far(
            now.admitted(crate::persistence::file::playlist_json(state.playlists[at]), found),
            state,
            at + 1,
        ),
{
    let playlist = state.playlists[at];
    let queue = playlist.queue;
    let dto = playlist.dto();
    let item = crate::persistence::file::playlist_json(playlist);
    assert(playlist.wf() && playlist.storable());
    playlist_members(dto);
    entries_read_back(playlist);
    assert(entries_json(queue) == dto.entries.map_values(|entry: EntryDtoView| entry.json()));
    // Its number is its own.
    assert(!now.seen_playlists.contains(playlist.id.raw)) by {
        if now.seen_playlists.contains(playlist.id.raw) {
            let i = choose|i: int|
                0 <= i < at && (#[trigger] state.playlists[i]).id.raw == playlist.id.raw;
            assert(state.playlists[i].id != state.playlists[at].id);
        }
    }
    let before = now.numbered(item);
    assert(now.number_for(item) == Some(playlist.id.raw));
    // Its entries are admitted as they are.
    let entries = queue.stored().entries;
    let admission = before.admission(item);
    assert(crate::persistence::recovery::item_entries(item).0 == entries);
    assert((QueueView { entries, active: None }).distinct()) by {
        let bare = QueueView { entries, active: None };
        assert forall|i: int, j: int|
            0 <= i < j < bare.entries.len() implies #[trigger] bare.entries[i].id
            != #[trigger] bare.entries[j].id by {
            assert(queue.entries[i].id != queue.entries[j].id);
        }
    }
    assert forall|k: int| 0 <= k < entries.len() implies !admission.seen.contains(
        (#[trigger] entries[k]).id.raw,
    ) by {
        let id = queue.entries[k].id;
        assert(entries[k].id == id);
        crate::queue::entry_is_found(queue, k);
        if now.seen_entries.contains(id.raw) {
            let i = choose|i: int|
                0 <= i < at && #[trigger] state.playlists[i].queue.holds(
                    QueueEntryId { raw: id.raw },
                );
            assert(state.playlists[i].queue.holds(id));
            assert(!state.playlists[at].queue.holds(id));
        }
    }
    crate::persistence::model::entries_in_grows(
        state.playlists,
        at + 1,
        state.playlists.len() as int,
    );
    plain_admission(admission, entries, found, entries.len() as int);
    assert(entries.take(entries.len() as int) =~= entries);
    let filled = before.filled(item, found);
    assert(filled.entries == entries);
    // A number is a member exactly where it is queued.
    assert forall|id: QueueEntryId| #[trigger] filled.member(Some(id.raw)) == (if queue.holds(id) {
        Some(id)
    } else {
        None
    }) by {
        let bare = QueueView { entries, active: None };
        crate::queue::same_ids_same_places(bare, queue, id);
    }
    if let Some(active) = queue.active {
        assert(filled.member(Some(active.raw)) == Some(active));
    }
    if let Some(shuffle) = playlist.shuffle {
        shuffle_members(dto.shuffle.unwrap());
        if let Some(first) = shuffle.first {
            assert(filled.member(Some(first.raw)) == (if queue.holds(first) {
                Some(first)
            } else {
                None
            }));
        }
    }
    let after = now.admitted(item, found);
    let added = after.playlists.last();
    assert(crate::persistence::recovery::item_name(item, playlist.id.raw) == playlist.name);
    assert(added == playlist.stored());
    assert(after.playlists =~= state.stored().playlists.take(at + 1));
    assert forall|n: u64| #[trigger] after.seen_playlists.contains(n) <==> exists|i: int|
        0 <= i < at + 1 && (#[trigger] state.playlists[i]).id.raw == n by {
        if n == playlist.id.raw {
            assert(state.playlists[at].id.raw == n);
        }
        if now.seen_playlists.contains(n) {
            let i = choose|i: int| 0 <= i < at && (#[trigger] state.playlists[i]).id.raw == n;
            assert(state.playlists[i].id.raw == n);
        }
        if exists|i: int| 0 <= i < at + 1 && (#[trigger] state.playlists[i]).id.raw == n {
            let i = choose|i: int| 0 <= i < at + 1 && (#[trigger] state.playlists[i]).id.raw == n;
            if i < at {
                assert(now.seen_playlists.contains(n));
            }
        }
    }
    assert forall|n: u64| #[trigger] after.seen_entries.contains(n) <==> exists|i: int|
        0 <= i < at + 1 && #[trigger] state.playlists[i].queue.holds(QueueEntryId { raw: n }) by {
        let id = QueueEntryId { raw: n };
        crate::queue::found_is_queued(queue, id);
        if after.seen_entries.contains(n) {
            if now.seen_entries.contains(n) {
                let i = choose|i: int| 0 <= i < at && #[trigger] state.playlists[i].queue.holds(id);
                assert(state.playlists[i].queue.holds(id));
            } else {
                let k = choose|k: int|
                    0 <= k < entries.len() && (#[trigger] entries[k]).id.raw == n;
                assert(queue.entries[k].id == id);
                crate::queue::entry_is_found(queue, k);
                assert(state.playlists[at].queue.holds(id));
            }
        }
        if exists|i: int| 0 <= i < at + 1 && #[trigger] state.playlists[i].queue.holds(id) {
            let i = choose|i: int| 0 <= i < at + 1 && #[trigger] state.playlists[i].queue.holds(id);
            if i < at {
                assert(now.seen_entries.contains(n));
            } else {
                let k = queue.find(id).unwrap();
                assert(entries[k].id.raw == n);
            }
        }
    }
}

proof fn all_read_back(start: RecoveryView, state: StateView, items: Seq<JsonView>, found: usize, count: int)
    requires
        state.wf(),
        state.storable(),
        0 <= count <= state.playlists.len(),
        items == state.playlists.map_values(
            |playlist: PlaylistView| crate::persistence::file::playlist_json(playlist),
        ),
        read_so_far(start, state, 0),
    ensures
        read_so_far(start.all_admitted(items, found, count), state, count),
    decreases count,
{
    if count > 0 {
        all_read_back(start, state, items, found, count - 1);
        let so_far = start.all_admitted(items, found, count - 1);
        playlist_reads_back(so_far, state, count - 1, found);
        assert(items[count - 1] == crate::persistence::file::playlist_json(
            state.playlists[count - 1],
        ));
    }
}

// ------------------------------------------------------------- counters

proof fn counting_changes_nothing(state: StateView, items: Seq<JsonView>, count: int)
    requires
        state.wf(),
        state.storable(),
        0 <= count <= state.playlists.len(),
        items == state.playlists.map_values(
            |playlist: PlaylistView| crate::persistence::file::playlist_json(playlist),
        ),
    ensures
        crate::persistence::recovery::past_playlists(state.playlist_ids, items, count)
            == state.playlist_ids,
        crate::persistence::recovery::past_all_entries(state.entry_ids, items, count)
            == state.entry_ids,
    decreases count,
{
    if count > 0 {
        counting_changes_nothing(state, items, count - 1);
        let playlist = state.playlists[count - 1];
        let item = items[count - 1];
        assert(item == crate::persistence::file::playlist_json(playlist));
        playlist_members(playlist.dto());
        assert(state.playlist_ids.past(playlist.id.raw));
        let entries = entries_json(playlist.queue);
        assert(entries == playlist.dto().entries.map_values(|entry: EntryDtoView| entry.json()));
        assert(crate::persistence::recovery::raw_entries(item) == entries);
        assert(playlist.wf() && playlist.storable());
        entries_read_back(playlist);
        counting_entries_changes_nothing(state, count - 1, entries.len() as int);
    }
}

proof fn counting_entries_changes_nothing(state: StateView, at: int, count: int)
    requires
        state.wf(),
        state.storable(),
        0 <= at < state.playlists.len(),
        0 <= count <= entries_json(state.playlists[at].queue).len(),
    ensures
        crate::persistence::recovery::past_entries(
            state.entry_ids,
            entries_json(state.playlists[at].queue),
            count,
        ) == state.entry_ids,
    decreases count,
{
    if count > 0 {
        counting_entries_changes_nothing(state, at, count - 1);
        let playlist = state.playlists[at];
        assert(playlist.wf() && playlist.storable());
        entries_read_back(playlist);
        let entries = entries_json(playlist.queue);
        assert(crate::json::number_in(entries[count - 1].part("id"@, 0)) == Some(
            playlist.queue.entries[count - 1].id.raw,
        ));
        assert(state.entry_ids.past(state.playlists[at].queue.entries[count - 1].id.raw));
    }
}

// ------------------------------------------------------------------- law

/// A state that is written is read back as it was, with nothing reset: every
/// playlist and entry under its number, every cursor, every checkpoint, the
/// volume and both counters. Durations come back to the millisecond, and an
/// entry that was pinned first and is no longer queued comes back unpinned. An
/// address that is not read as itself is left out of this.
pub proof fn written_state_reads_back(state: StateView)
    requires
        state.wf(),
        state.storable(),
        state.sequenced(),
        state.cursor_is_current(),
        state.schema_version == SCHEMA_VERSION,
    ensures
        state.file().raw().state(true) == state.stored(),
        state.file().raw().recovered(true).reset is None,
{
    let raw = state.file().raw();
    crate::persistence::file::distinct_slots_are_kept(state.checkpoints);
    let items = state.playlists.map_values(
        |playlist: PlaylistView| crate::persistence::file::playlist_json(playlist),
    );
    let n = state.playlists.len() as int;
    counting_changes_nothing(state, items, n);
    let found = crate::persistence::recovery::word(
        crate::persistence::recovery::entries_found(items, n),
    );
    let start = RecoveryView::start(raw.raw_playlists(), items);
    assert(start.entry_ids == state.entry_ids);
    assert(start.playlist_ids == state.playlist_ids);
    assert(start.playlists =~= state.stored().playlists.take(0));
    all_read_back(start, state, items, found, n);
    let read = start.all_admitted(items, found, n);
    assert(read.playlists =~= state.stored().playlists);
    let stored = state.stored();
    let wanted = crate::persistence::model::playlist_is(state.playing);
    crate::persistence::laws::found_playlist(state, state.playing);
    let at = state.index_of(state.playing).unwrap();
    assert(stored.distinct_playlists()) by {
        assert forall|i: int, j: int|
            0 <= i < j < stored.playlists.len() implies #[trigger] stored.playlists[i].id
            != #[trigger] stored.playlists[j].id by {
            assert(state.playlists[i].id != state.playlists[j].id);
        }
    }
    assert(stored.playlists[at].id == state.playlists[at].id);
    crate::persistence::laws::playlist_is_found(stored, at);
    stored_queue_is_alike(state.playlists[at].queue, QueueEntryId { raw: 0 });
    assert(raw.state(true) =~= stored);
}

/// A shuffled order survives a restart: what a file keeps of a playlist is
/// played in the same order.
pub proof fn stored_order_is_the_same(playlist: PlaylistView)
    requires
        playlist.queue.distinct(),
    ensures
        playlist.stored().order() == playlist.order(),
{
    let stored = playlist.stored();
    assert(stored.queue.ids() =~= playlist.queue.ids());
    if let Some(shuffle) = playlist.shuffle {
        let kept = stored.shuffle.unwrap();
        let ids = playlist.queue.ids();
        let one = crate::playlist::playing_order(shuffle);
        let two = crate::playlist::playing_order(kept);
        crate::playlist::playing_order_is_total(shuffle);
        crate::playlist::playing_order_is_total(kept);
        ids.lemma_sort_by_ensures(one);
        ids.lemma_sort_by_ensures(two);
        let order = ids.sort_by(one);
        crate::playlist::order_plays_every_entry_once(playlist);
        assert(vstd::relations::sorted_by(order, two)) by {
            assert forall|i: int, j: int| 0 <= i < j < order.len() implies #[trigger] two(
                order[i],
                order[j],
            ) by {
                assert(order.contains(order[i]) && order.contains(order[j]));
                assert(playlist.queue.holds(order[i]) && playlist.queue.holds(order[j]));
                assert(one(order[i], order[j]));
            }
        }
        vstd::seq_lib::lemma_sorted_unique(order, ids.sort_by(two), two);
    }
}

proof fn next_sequence_bounds(checkpoints: Seq<SlotView>, count: int, limit: u64)
    requires
        0 <= count <= checkpoints.len(),
    ensures
        crate::persistence::file::next_sequence(checkpoints, count) >= 1,
        forall|i: int|
            0 <= i < count ==> crate::persistence::file::following(
                (#[trigger] checkpoints[i]).checkpoint.touch_seq,
            ) <= crate::persistence::file::next_sequence(checkpoints, count),
        limit >= 1 && (forall|i: int|
            0 <= i < count ==> crate::persistence::file::following(
                (#[trigger] checkpoints[i]).checkpoint.touch_seq,
            ) <= limit) ==> crate::persistence::file::next_sequence(checkpoints, count) <= limit,
    decreases count,
{
    if count > 0 {
        next_sequence_bounds(checkpoints, count - 1, limit);
    }
}

/// Recording keeps the next sequence number the one that follows those in use.
pub proof fn recording_keeps_sequenced(
    state: StateView,
    media: MediaKey,
    checkpoint: PersistedCheckpoint,
)
    requires
        state.distinct_media(),
        state.sequenced(),
        checkpoint.touch_seq == state.next_seq,
    ensures
        state.remembered(media, checkpoint).sequenced(),
{
    let after = state.remembered(media, checkpoint);
    let slot = SlotView { media, checkpoint };
    crate::persistence::laws::recording_remembers(state, media, checkpoint);
    crate::persistence::laws::remembered_slots(state, media, checkpoint);
    next_sequence_bounds(
        state.checkpoints,
        state.checkpoints.len() as int,
        state.next_after(),
    );
    let at = choose|at: int| 0 <= at < after.checkpoints.len() && after.checkpoints[at] == slot;
    assert forall|i: int| 0 <= i < after.checkpoints.len() implies crate::persistence::file::following(
        (#[trigger] after.checkpoints[i]).checkpoint.touch_seq,
    ) <= state.next_after() by {
        if after.checkpoints[i] != slot {
            let from = choose|from: int|
                0 <= from < state.checkpoints.len() && state.checkpoints[from]
                    == after.checkpoints[i];
            assert(crate::persistence::file::following(
                state.checkpoints[from].checkpoint.touch_seq,
            ) <= state.next_seq);
        }
    }
    next_sequence_bounds(
        after.checkpoints,
        after.checkpoints.len() as int,
        state.next_after(),
    );
    assert(crate::persistence::file::following(after.checkpoints[at].checkpoint.touch_seq)
        == state.next_after());
}

} // verus!
