//! What is always true of playlists that were read from a file.

use crate::json::JsonView;
use crate::media::MediaKey;
use crate::persistence::model::StateView;
use crate::persistence::queue_codec::{EntryDtoView, QueueReset};
use crate::persistence::recovery::{AdmissionView, RawPlaylistsView, RecoveredView, RecoveryView};
use crate::playlist::{PlaylistId, MAX_PLAYLISTS};
use crate::queue::{EntryView, IdAllocator, QueueEntryId, QueueView, MAX_PLAYLIST_ENTRIES};
use vstd::prelude::*;

verus! {

// ------------------------------------------------------------------ names

spec fn ten_to(k: nat) -> nat
    decreases k,
{
    if k == 0 {
        1
    } else {
        10 * ten_to((k - 1) as nat)
    }
}

proof fn decimal_is_short(n: nat, k: nat)
    requires
        k >= 1,
        n < ten_to(k),
    ensures
        1 <= crate::text::decimal(n).len() <= k,
        !crate::text::is_white_space(crate::text::decimal(n).last()),
    decreases n,
{
    if n >= 10 {
        if k == 1 {
            reveal_with_fuel(ten_to, 2);
        }
        decimal_is_short(n / 10, (k - 1) as nat);
    }
}

proof fn numbered_name_is_clean(id: u64)
    ensures
        crate::playlist::is_clean(crate::persistence::recovery::numbered_name(id)),
{
    reveal_strlit("Playlist ");
    let name = crate::persistence::recovery::numbered_name(id);
    assert(ten_to(20) == 100_000_000_000_000_000_000) by {
        reveal_with_fuel(ten_to, 21);
    }
    decimal_is_short(id as nat, 20);
    assert(name[0] == 'P');
    assert(name.last() == crate::text::decimal(id as nat).last());
    assert(crate::text::trim_start(name) == name);
    assert(crate::text::trim_end(name) == name);
}

proof fn item_name_is_clean(item: JsonView, id: u64)
    ensures
        crate::playlist::is_clean(crate::persistence::recovery::item_name(item, id)),
{
    numbered_name_is_clean(id);
    if let Some(JsonView::Text(text)) = item.field("name"@) {
        crate::playlist::cleaning_is_stable(text);
    }
}

// --------------------------------------------------------------- counters

proof fn raising_keeps_past(ids: IdAllocator, id: Option<u64>, other: u64)
    requires
        ids.past(other),
    ensures
        crate::persistence::recovery::raised(ids, id).past(other),
{
}

proof fn past_playlists_covers(ids: IdAllocator, items: Seq<JsonView>, count: int)
    requires
        0 <= count <= items.len(),
    ensures
        forall|i: int|
            0 <= i < count ==> (crate::json::number_in((#[trigger] items[i]).field("id"@))
                matches Some(n) ==> crate::persistence::recovery::past_playlists(
                ids,
                items,
                count,
            ).past(n)),
        ids.started() ==> crate::persistence::recovery::past_playlists(
            ids,
            items,
            count,
        ).started(),
    decreases count,
{
    if count > 0 {
        past_playlists_covers(ids, items, count - 1);
        let before = crate::persistence::recovery::past_playlists(ids, items, count - 1);
        let last = crate::json::number_in(items[count - 1].field("id"@));
        assert forall|i: int| 0 <= i < count implies (crate::json::number_in(
            (#[trigger] items[i]).field("id"@),
        ) matches Some(n) ==> crate::persistence::recovery::past_playlists(
            ids,
            items,
            count,
        ).past(n)) by {
            if i < count - 1 {
                if let Some(n) = crate::json::number_in(items[i].field("id"@)) {
                    raising_keeps_past(before, last, n);
                }
            }
        }
    }
}

proof fn past_entries_covers(ids: IdAllocator, entries: Seq<JsonView>, count: int)
    requires
        0 <= count <= entries.len(),
    ensures
        forall|n: u64|
            ids.past(n) ==> #[trigger] crate::persistence::recovery::past_entries(
                ids,
                entries,
                count,
            ).past(n),
        forall|k: int|
            0 <= k < count ==> (crate::json::number_in((#[trigger] entries[k]).part("id"@, 0))
                matches Some(n) ==> crate::persistence::recovery::past_entries(
                ids,
                entries,
                count,
            ).past(n)),
        ids.started() ==> crate::persistence::recovery::past_entries(
            ids,
            entries,
            count,
        ).started(),
    decreases count,
{
    if count > 0 {
        past_entries_covers(ids, entries, count - 1);
        let before = crate::persistence::recovery::past_entries(ids, entries, count - 1);
        let last = crate::json::number_in(entries[count - 1].part("id"@, 0));
        assert forall|n: u64| ids.past(n) implies #[trigger] crate::persistence::recovery::past_entries(
            ids,
            entries,
            count,
        ).past(n) by {
            assert(before.past(n));
            raising_keeps_past(before, last, n);
        }
        assert forall|k: int| 0 <= k < count implies (crate::json::number_in(
            (#[trigger] entries[k]).part("id"@, 0),
        ) matches Some(n) ==> crate::persistence::recovery::past_entries(
            ids,
            entries,
            count,
        ).past(n)) by {
            if k < count - 1 {
                if let Some(n) = crate::json::number_in(entries[k].part("id"@, 0)) {
                    raising_keeps_past(before, last, n);
                }
            }
        }
    }
}

/// The number that an entry has in the file.
spec fn raw_number(item: JsonView, k: int) -> Option<u64> {
    crate::json::number_in(crate::persistence::recovery::raw_entries(item)[k].part("id"@, 0))
}

proof fn past_all_entries_covers(ids: IdAllocator, items: Seq<JsonView>, count: int)
    requires
        0 <= count <= items.len(),
    ensures
        forall|i: int, k: int|
            0 <= i < count && 0 <= k < crate::persistence::recovery::raw_entries(items[i]).len()
                ==> (#[trigger] raw_number(items[i], k) matches Some(n)
                ==> crate::persistence::recovery::past_all_entries(ids, items, count).past(n)),
        ids.started() ==> crate::persistence::recovery::past_all_entries(
            ids,
            items,
            count,
        ).started(),
    decreases count,
{
    if count > 0 {
        past_all_entries_covers(ids, items, count - 1);
        let before = crate::persistence::recovery::past_all_entries(ids, items, count - 1);
        let entries = crate::persistence::recovery::raw_entries(items[count - 1]);
        past_entries_covers(before, entries, entries.len() as int);
        assert forall|i: int, k: int|
            0 <= i < count && 0 <= k < crate::persistence::recovery::raw_entries(
                items[i],
            ).len() implies (#[trigger] raw_number(items[i], k) matches Some(n)
            ==> crate::persistence::recovery::past_all_entries(ids, items, count).past(n)) by {
            if i < count - 1 {
                if let Some(n) = raw_number(items[i], k) {
                    assert(before.past(n));
                }
            } else {
                assert(raw_number(items[i], k) == crate::json::number_in(
                    entries[k].part("id"@, 0),
                ));
            }
        }
    }
}

// ---------------------------------------------------------------- entries

/// Entries read from an array have the numbers they have there, each once.
proof fn read_entries_are_distinct(items: Seq<JsonView>)
    ensures
        crate::persistence::queue_codec::entries_of(items) matches Ok(entries) ==> entries.len()
            == items.len() && (QueueView { entries, active: None }).distinct() && forall|k: int|
            0 <= k < entries.len() ==> crate::json::number_in(
                (#[trigger] items[k]).part("id"@, 0),
            ) == Some(entries[k].id.raw),
{
    if let Ok(entries) = crate::persistence::queue_codec::entries_of(items) {
        let dtos = crate::persistence::queue_codec::dtos_in(items).unwrap();
        crate::model::position_is_first(
            dtos,
            crate::persistence::queue_codec::is_broken(),
            0,
        );
        assert forall|k: int| 0 <= k < entries.len() implies entries[k].id.raw == (
        #[trigger] dtos[k]).id && EntryDtoView::read(items[k]) == Some(dtos[k]) by {
            assert(!crate::persistence::queue_codec::is_broken()(dtos[k]));
            assert(EntryDtoView::read(items[k]) is Some);
        }
        assert forall|i: int, j: int| 0 <= i < j < entries.len() implies #[trigger] entries[i].id
            != #[trigger] entries[j].id by {
            assert(entries[i].id.raw == dtos[i].id);
            assert(entries[j].id.raw == dtos[j].id);
        }
        assert forall|k: int| 0 <= k < entries.len() implies crate::json::number_in(
            (#[trigger] items[k]).part("id"@, 0),
        ) == Some(entries[k].id.raw) by {
            assert(entries[k].id.raw == dtos[k].id);
        }
    }
}

/// What holds of the entries of one playlist while they are admitted, over
/// what was in use before.
spec fn admitting(now: AdmissionView, before: RecoveryView) -> bool {
    &&& (QueueView { entries: now.entries, active: None }).distinct()
    &&& forall|n: u64| before.seen_entries.contains(n) ==> #[trigger] now.seen.contains(n)
    &&& forall|k: int|
        0 <= k < now.entries.len() ==> now.seen.contains((#[trigger] now.entries[k]).id.raw)
            && !before.seen_entries.contains(now.entries[k].id.raw)
    &&& forall|n: u64| #[trigger] now.seen.contains(n) ==> now.entry_ids.past(n)
    &&& now.total == before.total + now.entries.len()
    &&& now.total <= MAX_PLAYLIST_ENTRIES
    &&& now.entry_ids.started()
}

proof fn admitting_step(
    now: AdmissionView,
    before: RecoveryView,
    entry: EntryView,
    found: usize,
)
    requires
        admitting(now, before),
        now.entry_ids.past(entry.id.raw),
    ensures
        admitting(now.admitted(entry, found), before),
        forall|n: u64| now.entry_ids.past(n) ==> #[trigger] now.admitted(entry, found).entry_ids.past(n),
{
    let after = now.admitted(entry, found);
    if now.total < MAX_PLAYLIST_ENTRIES && (!now.seen.contains(entry.id.raw)
        || now.entry_ids.has(1)) {
        let n = now.entries.len() as int;
        let added = after.entries[n];
        assert(!now.seen.contains(added.id.raw));
        assert forall|k: int| 0 <= k < n implies #[trigger] after.entries[k] == now.entries[k] by {}
        assert((QueueView { entries: after.entries, active: None }).distinct()) by {
            let queue = QueueView { entries: after.entries, active: None };
            assert forall|i: int, j: int|
                0 <= i < j < queue.entries.len() implies #[trigger] queue.entries[i].id
                != #[trigger] queue.entries[j].id by {
                assert(queue.entries[i] == now.entries[i]);
                assert(now.seen.contains(now.entries[i].id.raw));
                if j < n {
                    assert(queue.entries[j] == now.entries[j]);
                    let old_queue = QueueView { entries: now.entries, active: None };
                    assert(old_queue.entries[i].id != old_queue.entries[j].id);
                }
            }
        }
    }
}

proof fn admitting_all(
    now: AdmissionView,
    before: RecoveryView,
    entries: Seq<EntryView>,
    found: usize,
    count: int,
)
    requires
        admitting(now, before),
        0 <= count <= entries.len(),
        forall|k: int| 0 <= k < entries.len() ==> now.entry_ids.past((#[trigger] entries[k]).id.raw),
    ensures
        admitting(now.all_admitted(entries, found, count), before),
        forall|n: u64|
            now.entry_ids.past(n) ==> #[trigger] now.all_admitted(
                entries,
                found,
                count,
            ).entry_ids.past(n),
    decreases count,
{
    if count > 0 {
        admitting_all(now, before, entries, found, count - 1);
        let so_far = now.all_admitted(entries, found, count - 1);
        assert(now.entry_ids.past(entries[count - 1].id.raw));
        admitting_step(so_far, before, entries[count - 1], found);
    }
}

// -------------------------------------------------------------- playlists

impl RecoveryView {
    /// What was read so far, as a state that lacks the rest.
    pub open spec fn shell(self) -> StateView {
        StateView {
            playlists: self.playlists,
            entry_ids: self.entry_ids,
            playlist_ids: self.playlist_ids,
            ..StateView::fresh()
        }
    }
}

/// What holds of the playlists of a file while they are read.
spec fn recovering(now: RecoveryView, items: Seq<JsonView>, count: int) -> bool {
    &&& now.playlists.len() <= count
    &&& now.shell().distinct_playlists()
    &&& now.shell().distinct_entries()
    &&& now.shell().numbers_past()
    &&& forall|i: int| 0 <= i < now.playlists.len() ==> (#[trigger] now.playlists[i]).wf()
    &&& now.entry_ids.started()
    &&& now.playlist_ids.started()
    &&& now.total == now.shell().total()
    &&& now.total <= MAX_PLAYLIST_ENTRIES
    &&& forall|i: int|
        0 <= i < now.playlists.len() ==> now.seen_playlists.contains(
            (#[trigger] now.playlists[i]).id.raw,
        )
    &&& forall|n: u64| #[trigger] now.seen_playlists.contains(n) ==> now.playlist_ids.past(n)
    &&& forall|i: int, id: QueueEntryId|
        0 <= i < now.playlists.len() && #[trigger] now.playlists[i].queue.holds(id)
            ==> now.seen_entries.contains(id.raw)
    &&& forall|n: u64| #[trigger] now.seen_entries.contains(n) ==> now.entry_ids.past(n)
    &&& forall|i: int|
        0 <= i < items.len() ==> (crate::json::number_in((#[trigger] items[i]).field("id"@))
            matches Some(n) ==> now.playlist_ids.past(n))
    &&& forall|i: int, k: int|
        0 <= i < items.len() && 0 <= k < crate::persistence::recovery::raw_entries(items[i]).len()
            ==> (#[trigger] raw_number(items[i], k) matches Some(n) ==> now.entry_ids.past(n))
}

proof fn start_is_recovering(raw: RawPlaylistsView, items: Seq<JsonView>)
    ensures
        recovering(RecoveryView::start(raw, items), items, 0),
{
    past_playlists_covers(
        crate::persistence::recovery::counter_start(raw.next_playlist_id),
        items,
        items.len() as int,
    );
    past_all_entries_covers(
        crate::persistence::recovery::counter_start(raw.next_entry_id),
        items,
        items.len() as int,
    );
}

/// The entries of the next item, admitted.
proof fn next_entries_admitted(now: RecoveryView, items: Seq<JsonView>, at: int, found: usize)
    requires
        recovering(now, items, at),
        0 <= at < items.len(),
    ensures
        admitting(now.filled(items[at], found), now),
        forall|n: u64|
            now.entry_ids.past(n) ==> #[trigger] now.filled(items[at], found).entry_ids.past(n),
{
    let item = items[at];
    let entries = crate::persistence::recovery::item_entries(item).0;
    let admission = now.admission(item);
    assert(admitting(admission, now));
    if let Some(JsonView::Array(raw)) = item.field("entries"@) {
        read_entries_are_distinct(raw);
        assert forall|k: int| 0 <= k < entries.len() implies now.entry_ids.past(
            (#[trigger] entries[k]).id.raw,
        ) by {
            assert(crate::json::number_in(raw[k].part("id"@, 0)) == Some(entries[k].id.raw));
            assert(raw_number(items[at], k) == Some(entries[k].id.raw));
        }
    }
    admitting_all(admission, now, entries, found, entries.len() as int);
}

proof fn numbering_keeps_recovering(now: RecoveryView, items: Seq<JsonView>, at: int)
    requires
        recovering(now, items, at),
        0 <= at < items.len(),
    ensures
        recovering(now.numbered(items[at]), items, at),
        now.number_for(items[at]) matches Some(id) ==> now.numbered(
            items[at],
        ).seen_playlists.contains(id) && forall|i: int|
            0 <= i < now.playlists.len() ==> (#[trigger] now.playlists[i]).id.raw != id,
        now.numbered(items[at]).playlists == now.playlists,
{
    let after = now.numbered(items[at]);
    assert(after.shell().playlists == now.shell().playlists);
    assert(after.shell().total() == now.shell().total());
    assert forall|i: int| 0 <= i < after.playlists.len() implies after.playlist_ids.past(
        (#[trigger] after.playlists[i]).id.raw,
    ) by {
        assert(now.seen_playlists.contains(now.playlists[i].id.raw));
    }
    assert(after.shell().numbers_past()) by {
        assert forall|i: int, k: int|
            #![trigger after.shell().playlists[i].queue.entries[k]]
            0 <= i < after.shell().playlists.len() && 0 <= k
                < after.shell().playlists[i].queue.entries.len() implies after.shell().entry_ids.past(
        after.shell().playlists[i].queue.entries[k].id.raw) by {
            assert(now.shell().entry_ids.past(
                now.shell().playlists[i].queue.entries[k].id.raw,
            ));
        }
    }
    assert(after.shell().distinct_playlists()) by {
        assert forall|i: int, j: int|
            0 <= i < j < after.shell().playlists.len() implies #[trigger] after.shell().playlists[i].id
            != #[trigger] after.shell().playlists[j].id by {
            assert(now.shell().playlists[i].id != now.shell().playlists[j].id);
        }
    }
    assert(after.shell().distinct_entries()) by {
        assert forall|i: int, j: int, id: QueueEntryId|
            0 <= i < j < after.shell().playlists.len()
                && #[trigger] after.shell().playlists[i].queue.holds(
                id,
            ) implies !#[trigger] after.shell().playlists[j].queue.holds(id) by {
            assert(now.shell().playlists[i].queue.holds(id));
        }
    }
}

proof fn recovering_step(now: RecoveryView, items: Seq<JsonView>, at: int, found: usize)
    requires
        recovering(now, items, at),
        0 <= at < items.len(),
    ensures
        recovering(now.admitted(items[at], found), items, at + 1),
{
    let item = items[at];
    numbering_keeps_recovering(now, items, at);
    if let Some(id) = now.number_for(item) {
        let before = now.numbered(item);
        let filled = before.filled(item, found);
        next_entries_admitted(before, items, at, found);
        let after = now.admitted(item, found);
        let n = before.playlists.len() as int;
        let added = after.playlists[n];
        assert forall|i: int| 0 <= i < n implies #[trigger] after.playlists[i]
            == before.playlists[i] by {}
        item_name_is_clean(item, id);
        let queue = added.queue;
        assert(queue.distinct()) by {
            let bare = QueueView { entries: filled.entries, active: None };
            assert forall|i: int, j: int|
                0 <= i < j < queue.entries.len() implies #[trigger] queue.entries[i].id
                != #[trigger] queue.entries[j].id by {
                assert(bare.entries[i].id != bare.entries[j].id);
            }
        }
        if let Some(active) = queue.active {
            crate::queue::same_ids_same_places(
                queue,
                QueueView { entries: filled.entries, active: None },
                active,
            );
        }
        assert(added.wf());
        // Numbers.
        assert(after.shell().distinct_playlists()) by {
            assert forall|i: int, j: int|
                0 <= i < j < after.shell().playlists.len() implies #[trigger] after.shell().playlists[i].id
                != #[trigger] after.shell().playlists[j].id by {
                assert(after.playlists[i] == before.playlists[i]);
                if j < n {
                    assert(after.playlists[j] == before.playlists[j]);
                    assert(before.shell().playlists[i].id != before.shell().playlists[j].id);
                } else {
                    assert(now.playlists[i].id.raw != id);
                }
            }
        }
        assert forall|k: int| 0 <= k < queue.entries.len() implies filled.entry_ids.past(
            (#[trigger] queue.entries[k]).id.raw,
        ) by {
            assert(filled.seen.contains(filled.entries[k].id.raw));
        }
        assert forall|i: int, entry: QueueEntryId|
            0 <= i < after.playlists.len() && #[trigger] after.playlists[i].queue.holds(
                entry,
            ) implies after.seen_entries.contains(entry.raw) by {
            if i < n {
                assert(before.playlists[i].queue.holds(entry));
                assert(before.seen_entries.contains(entry.raw));
                assert(filled.seen.contains(entry.raw));
            } else {
                crate::queue::found_is_queued(queue, entry);
                let k = queue.find(entry).unwrap();
                assert(filled.seen.contains(filled.entries[k].id.raw));
            }
        }
        assert(after.shell().distinct_entries()) by {
            assert forall|i: int, j: int, entry: QueueEntryId|
                0 <= i < j < after.shell().playlists.len()
                    && #[trigger] after.shell().playlists[i].queue.holds(
                    entry,
                ) implies !#[trigger] after.shell().playlists[j].queue.holds(entry) by {
                assert(after.playlists[i] == before.playlists[i]);
                assert(before.shell().playlists[i].queue.holds(entry));
                if j < n {
                    assert(after.playlists[j] == before.playlists[j]);
                } else {
                    assert(before.playlists[i].queue.holds(entry));
                    assert(before.seen_entries.contains(entry.raw));
                    crate::queue::found_is_queued(queue, entry);
                    if let Some(k) = queue.find(entry) {
                        assert(!before.seen_entries.contains(filled.entries[k].id.raw));
                    }
                }
            }
        }
        assert(after.shell().numbers_past()) by {
            assert forall|i: int|
                0 <= i < after.shell().playlists.len() implies after.shell().playlist_ids.past(
                (#[trigger] after.shell().playlists[i]).id.raw,
            ) by {
                if i < n {
                    assert(before.seen_playlists.contains(before.playlists[i].id.raw));
                } else {
                    assert(before.seen_playlists.contains(id));
                }
            }
            assert forall|i: int, k: int|
                #![trigger after.shell().playlists[i].queue.entries[k]]
                0 <= i < after.shell().playlists.len() && 0 <= k
                    < after.shell().playlists[i].queue.entries.len() implies after.shell().entry_ids.past(
            after.shell().playlists[i].queue.entries[k].id.raw) by {
                if i < n {
                    assert(after.playlists[i] == before.playlists[i]);
                    assert(before.shell().entry_ids.past(
                        before.shell().playlists[i].queue.entries[k].id.raw,
                    ));
                } else {
                    assert(filled.entry_ids.past(queue.entries[k].id.raw));
                }
            }
        }
        crate::persistence::laws::entries_in_prefix(after.playlists, before.playlists, n);
        assert forall|i: int| 0 <= i < after.playlists.len() implies after.seen_playlists.contains(
            (#[trigger] after.playlists[i]).id.raw,
        ) by {
            if i < n {
                assert(before.seen_playlists.contains(before.playlists[i].id.raw));
            }
        }
        assert forall|i: int| 0 <= i < after.playlists.len() implies (
        #[trigger] after.playlists[i]).wf() by {
            if i < n {
                assert(before.playlists[i].wf());
            }
        }
        assert forall|i: int, k: int|
            0 <= i < items.len() && 0 <= k < crate::persistence::recovery::raw_entries(
                items[i],
            ).len() implies (#[trigger] raw_number(items[i], k) matches Some(m)
            ==> after.entry_ids.past(m)) by {
            if let Some(m) = raw_number(items[i], k) {
                assert(before.entry_ids.past(m));
            }
        }
    }
}

proof fn recovering_all(start: RecoveryView, items: Seq<JsonView>, found: usize, count: int)
    requires
        recovering(start, items, 0),
        0 <= count <= items.len(),
    ensures
        recovering(start.all_admitted(items, found, count), items, count),
    decreases count,
{
    if count > 0 {
        recovering_all(start, items, found, count - 1);
        recovering_step(
            start.all_admitted(items, found, count - 1),
            items,
            count - 1,
            found,
        );
    }
}

impl RecoveredView {
    /// What was read, in place of the playlists of `rest`.
    pub open spec fn in_state(self, rest: StateView) -> StateView {
        StateView {
            current_media: self.current_media,
            playlists: self.playlists,
            playing: self.playing,
            entry_ids: self.entry_ids,
            playlist_ids: self.playlist_ids,
            ..rest
        }
    }
}

impl StateView {
    /// Whether the media under the playing playlist's cursor, if there is one,
    /// is the current one.
    pub open spec fn cursor_is_current(self) -> bool {
        self.queue().active_media() matches Some(media) ==> self.current_media == Some(media)
    }
}

proof fn single_playlist_is_wf(state: StateView)
    requires
        state.playlists.len() == 1,
        state.playlists[0].wf(),
        state.playing == state.playlists[0].id,
        state.numbers_past(),
        state.entry_ids.started(),
        state.playlist_ids.started(),
        state.playlists[0].queue.entries.len() <= MAX_PLAYLIST_ENTRIES,
        state.distinct_media(),
    ensures
        state.wf(),
        state.playing_index() == 0,
{
    crate::persistence::laws::playlist_is_found(state, 0);
    reveal_with_fuel(crate::persistence::model::entries_in, 2);
}

proof fn default_is_wf(
    current_media: Option<MediaKey>,
    reset: Option<QueueReset>,
    entry_ids: IdAllocator,
    playlist_ids: IdAllocator,
    rest: StateView,
)
    requires
        rest.distinct_media(),
        entry_ids.started(),
        playlist_ids.started(),
    ensures
        crate::persistence::recovery::default_recovered(
            current_media,
            reset,
            entry_ids,
            playlist_ids,
        ).in_state(rest).wf(),
        crate::persistence::recovery::default_recovered(
            current_media,
            reset,
            entry_ids,
            playlist_ids,
        ).in_state(rest).cursor_is_current(),
{
    let recovered = crate::persistence::recovery::default_recovered(
        current_media,
        reset,
        entry_ids,
        playlist_ids,
    );
    crate::persistence::model::default_name_is_clean();
    single_playlist_is_wf(recovered.in_state(rest));
}

/// However damaged a file's playlists are, what is read from them is whole:
/// there is a playlist to play, every number is in use once and will not be
/// handed out again, the cap holds, every cursor is on an entry, and the one
/// that plays is on the current media.
pub proof fn recovered_playlists_are_whole(
    raw: RawPlaylistsView,
    current_media: Option<MediaKey>,
    rest: StateView,
)
    requires
        rest.distinct_media(),
    ensures
        crate::persistence::recovery::playlists_recovered(raw, current_media).in_state(rest).wf(),
        crate::persistence::recovery::playlists_recovered(raw, current_media).in_state(
            rest,
        ).cursor_is_current(),
{
    match raw.playlists {
        Some(JsonView::Array(items)) => {
            let count = if items.len() <= MAX_PLAYLISTS {
                items.len() as int
            } else {
                MAX_PLAYLISTS as int
            };
            let found = crate::persistence::recovery::word(
                crate::persistence::recovery::entries_found(items, items.len() as int),
            );
            let start = RecoveryView::start(raw, items);
            start_is_recovering(raw, items);
            recovering_all(start, items, found, count);
            let read = start.all_admitted(items, found, count);
            finishing_is_whole(read, items, count, raw.playing, current_media, rest);
        },
        other => {
            let reset = crate::persistence::recovery::playlists_recovered(
                raw,
                current_media,
            ).reset;
            default_is_wf(
                current_media,
                reset,
                crate::persistence::recovery::counter_start(raw.next_entry_id),
                crate::persistence::recovery::counter_start(raw.next_playlist_id),
                rest,
            );
        },
    }
}

proof fn finishing_is_whole(
    read: RecoveryView,
    items: Seq<JsonView>,
    count: int,
    playing: Option<JsonView>,
    current_media: Option<MediaKey>,
    rest: StateView,
)
    requires
        recovering(read, items, count),
        count <= MAX_PLAYLISTS,
        rest.distinct_media(),
    ensures
        read.finished(playing, current_media).in_state(rest).wf(),
        read.finished(playing, current_media).in_state(rest).cursor_is_current(),
{
    let recovered = read.finished(playing, current_media);
    let state = recovered.in_state(rest);
    if read.playlists.len() == 0 {
        default_is_wf(current_media, read.reset, read.entry_ids, read.playlist_ids, rest);
    } else {
        let named = match crate::json::number_in(playing) {
            Some(raw) => crate::model::position(
                read.playlists,
                crate::persistence::model::playlist_is(PlaylistId { raw }),
                0,
            ),
            None => None,
        };
        let chosen = match named {
            Some(at) => at,
            None => 0,
        };
        if let Some(raw) = crate::json::number_in(playing) {
            crate::persistence::laws::found_playlist(read.shell(), PlaylistId { raw });
        }
        // The state before the cursor is judged.
        let plain = StateView {
            playlists: read.playlists,
            playing: read.playlists[chosen].id,
            current_media: recovered.current_media,
            entry_ids: read.entry_ids,
            playlist_ids: read.playlist_ids,
            ..rest
        };
        assert(plain.playlists == read.shell().playlists);
        assert(plain.distinct_playlists()) by {
            assert forall|i: int, j: int|
                0 <= i < j < plain.playlists.len() implies #[trigger] plain.playlists[i].id
                != #[trigger] plain.playlists[j].id by {
                assert(read.shell().playlists[i].id != read.shell().playlists[j].id);
            }
        }
        assert(plain.distinct_entries()) by {
            assert forall|i: int, j: int, id: QueueEntryId|
                0 <= i < j < plain.playlists.len() && #[trigger] plain.playlists[i].queue.holds(
                    id,
                ) implies !#[trigger] plain.playlists[j].queue.holds(id) by {
                assert(read.shell().playlists[i].queue.holds(id));
            }
        }
        assert(plain.numbers_past()) by {
            assert forall|i: int| 0 <= i < plain.playlists.len() implies plain.playlist_ids.past(
                (#[trigger] plain.playlists[i]).id.raw,
            ) by {
                assert(read.shell().playlist_ids.past(read.shell().playlists[i].id.raw));
            }
            assert forall|i: int, k: int|
                #![trigger plain.playlists[i].queue.entries[k]]
                0 <= i < plain.playlists.len() && 0 <= k < plain.playlists[i].queue.entries.len() implies plain.entry_ids.past(
            plain.playlists[i].queue.entries[k].id.raw) by {
                assert(read.shell().entry_ids.past(
                    read.shell().playlists[i].queue.entries[k].id.raw,
                ));
            }
        }
        crate::persistence::laws::playlist_is_found(plain, chosen);
        assert(plain.total() == read.shell().total());
        assert(plain.wf());
        let queue = read.playlists[chosen].queue;
        if named is Some && queue.active_media() is Some && queue.active_media()
            != current_media {
            let idle = queue.with_active(None);
            assert forall|id: QueueEntryId| #[trigger] idle.holds(id) implies queue.holds(id) by {
                crate::queue::same_ids_same_places(idle, queue, id);
            }
            crate::persistence::laws::changing_a_queue_keeps_wf(plain, chosen, idle);
            assert(state =~= plain.with_queue(chosen, idle));
            crate::persistence::laws::playlist_is_found(state, chosen);
        } else {
            assert(state =~= plain);
        }
    }
}

// -------------------------------------------------------------- one queue

/// One queue read on its own is whole, and its cursor is on the current media.
pub proof fn recovered_queue_is_whole(
    queue: Option<JsonView>,
    active: Option<JsonView>,
    current_media: Option<MediaKey>,
)
    ensures
        crate::persistence::recovery::queue_recovered(queue, active, current_media).0.wf(),
        crate::persistence::recovery::queue_recovered(
            queue,
            active,
            current_media,
        ).0.entries.len() <= MAX_PLAYLIST_ENTRIES,
        crate::persistence::recovery::queue_recovered(
            queue,
            active,
            current_media,
        ).0.active_media() matches Some(media) ==> current_media == Some(media),
{
    let read = crate::persistence::recovery::queue_recovered(queue, active, current_media).0;
    if let Some(JsonView::Array(items)) = queue {
        read_entries_are_distinct(items);
        if let Ok(entries) = crate::persistence::queue_codec::entries_of(items) {
            let idle = QueueView { entries, active: None };
            assert forall|i: int, j: int|
                0 <= i < j < read.entries.len() implies #[trigger] read.entries[i].id
                != #[trigger] read.entries[j].id by {
                assert(idle.entries[i].id != idle.entries[j].id);
            }
            if let Some(id) = read.active {
                crate::queue::same_ids_same_places(read, idle, id);
            }
        }
    }
}

proof fn past_ids_covers(ids: IdAllocator, entries: Seq<EntryView>, count: int)
    requires
        0 <= count <= entries.len(),
    ensures
        forall|k: int|
            0 <= k < count ==> crate::persistence::recovery::past_ids(ids, entries, count).past(
                (#[trigger] entries[k]).id.raw,
            ),
        ids.started() ==> crate::persistence::recovery::past_ids(ids, entries, count).started(),
    decreases count,
{
    if count > 0 {
        past_ids_covers(ids, entries, count - 1);
        let before = crate::persistence::recovery::past_ids(ids, entries, count - 1);
        let last = Some(entries[count - 1].id.raw);
        assert forall|k: int| 0 <= k < count implies crate::persistence::recovery::past_ids(
            ids,
            entries,
            count,
        ).past((#[trigger] entries[k]).id.raw) by {
            if k < count - 1 {
                raising_keeps_past(before, last, entries[k].id.raw);
            }
        }
    }
}

/// One queue made the only playlist is whole.
pub proof fn migrated_queue_is_whole(
    queue: QueueView,
    current_media: Option<MediaKey>,
    reset: Option<QueueReset>,
    rest: StateView,
)
    requires
        rest.distinct_media(),
        queue.wf(),
        queue.entries.len() <= MAX_PLAYLIST_ENTRIES,
        queue.active_media() matches Some(media) ==> current_media == Some(media),
    ensures
        crate::persistence::recovery::queue_migrated(queue, current_media, reset).in_state(
            rest,
        ).wf(),
        crate::persistence::recovery::queue_migrated(queue, current_media, reset).in_state(
            rest,
        ).cursor_is_current(),
{
    let state = crate::persistence::recovery::queue_migrated(
        queue,
        current_media,
        reset,
    ).in_state(rest);
    crate::persistence::model::default_name_is_clean();
    past_ids_covers(
        IdAllocator { next: Some(1) },
        queue.entries,
        queue.entries.len() as int,
    );
    single_playlist_is_wf(state);
}

} // verus!
