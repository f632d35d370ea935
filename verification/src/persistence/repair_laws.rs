//! What a damaged file comes to: what is kept of it, whatever else is wrong, and
//! how each kind of damage is mended.

use crate::json::JsonView;
use crate::media::MediaKey;
use crate::persistence::file::RawStateView;
use crate::persistence::model::SlotView;
use crate::persistence::recovery::{AdmissionView, RecoveryView};
use crate::playlist::{PlaylistId, Shuffle};
use crate::queue::{EntryView, QueueEntryId, QueueView, MAX_PLAYLIST_ENTRIES};
use vstd::prelude::*;

verus! {

broadcast use crate::model::group_model;

/// What was heard survives a damaged queue: two files that differ in their queues
/// alone give the same history and the same volume, whatever their queues hold.
pub proof fn history_survives_a_damaged_queue(
    one: RawStateView,
    two: RawStateView,
    accept: bool,
    other: bool,
)
    requires
        one.checkpoints == two.checkpoints,
        one.volume == two.volume,
    ensures
        one.state(accept).checkpoints == two.state(other).checkpoints,
        one.state(accept).next_seq == two.state(other).next_seq,
        one.state(accept).volume == one.volume,
        two.state(other).volume == one.volume,
{
}

/// Of what a file holds of one media the last counts, and of a media that it does
/// not hold nothing is remembered.
pub proof fn last_slot_counts(slots: Seq<SlotView>, at: int, media: MediaKey)
    ensures
        0 <= at < slots.len() && slots[at].media == media && (forall|i: int|
            at < i < slots.len() ==> (#[trigger] slots[i]).media != media) ==> exists|i: int|
            0 <= i < crate::persistence::file::gathered(slots).len() && (
            #[trigger] crate::persistence::file::gathered(slots)[i]) == slots[at],
        (forall|i: int| 0 <= i < slots.len() ==> (#[trigger] slots[i]).media != media) ==> forall|
            i: int,
        |
            0 <= i < crate::persistence::file::gathered(slots).len() ==> (
            #[trigger] crate::persistence::file::gathered(slots)[i]).media != media,
    decreases slots.len(),
{
    if slots.len() > 0 {
        let before = slots.drop_last();
        let last = slots.last();
        let kept = crate::persistence::file::gathered(before);
        let after = crate::persistence::file::gathered(slots);
        let wanted = crate::persistence::model::slot_is(last.media);
        crate::model::position_is_first(kept, wanted, 0);
        last_slot_counts(before, at, media);
        if 0 <= at < slots.len() && slots[at].media == media && (forall|i: int|
            at < i < slots.len() ==> (#[trigger] slots[i]).media != media) {
            if at == slots.len() - 1 {
                match crate::model::position(kept, wanted, 0) {
                    Some(place) => assert(after[place] == slots[at]),
                    None => assert(after[kept.len() as int] == slots[at]),
                }
            } else {
                assert(slots[slots.len() - 1].media != media);
                assert(before[at] == slots[at]);
                assert forall|i: int| at < i < before.len() implies (
                #[trigger] before[i]).media != media by {
                    assert(before[i] == slots[i]);
                }
                let i = choose|i: int|
                    0 <= i < kept.len() && (#[trigger] kept[i]) == before[at];
                match crate::model::position(kept, wanted, 0) {
                    Some(place) => {
                        assert(wanted(kept[place]));
                        assert(i != place);
                        assert(after[i] == kept[i]);
                    },
                    None => assert(after[i] == kept[i]),
                }
            }
        }
        if forall|i: int| 0 <= i < slots.len() ==> (#[trigger] slots[i]).media != media {
            assert(slots[slots.len() - 1].media != media);
            assert forall|i: int| 0 <= i < before.len() implies (#[trigger] before[i]).media
                != media by {
                assert(before[i] == slots[i]);
            }
            assert forall|i: int| 0 <= i < after.len() implies (#[trigger] after[i]).media
                != media by {
                if i < kept.len() {
                    assert(kept[i].media != media);
                }
            }
        }
    }
}

/// Entries whose numbers are in use nowhere yet are all kept, as they are and in
/// order, as long as there is room, and nothing is reported of them.
pub proof fn new_entries_are_kept(
    admission: AdmissionView,
    entries: Seq<EntryView>,
    found: usize,
    count: int,
)
    requires
        0 <= count <= entries.len(),
        admission.total + count <= MAX_PLAYLIST_ENTRIES,
        forall|i: int|
            0 <= i < count ==> !admission.seen.contains((#[trigger] entries[i]).id.raw),
        forall|i: int, j: int|
            0 <= i < j < count ==> #[trigger] entries[i].id != #[trigger] entries[j].id,
    ensures
        ({
            let after = admission.all_admitted(entries, found, count);
            &&& after.entries == admission.entries + entries.take(count)
            &&& after.reset == admission.reset
            &&& after.cursor == admission.cursor
            &&& after.entry_ids == admission.entry_ids
            &&& after.total == admission.total + count
            &&& forall|raw: u64| #[trigger]
                after.seen.contains(raw) <==> admission.seen.contains(raw) || exists|i: int|
                    0 <= i < count && (#[trigger] entries[i]).id.raw == raw
        }),
    decreases count,
{
    let after = admission.all_admitted(entries, found, count);
    if count > 0 {
        new_entries_are_kept(admission, entries, found, count - 1);
        let before = admission.all_admitted(entries, found, count - 1);
        let entry = entries[count - 1];
        assert(!before.seen.contains(entry.id.raw)) by {
            if before.seen.contains(entry.id.raw) {
                let i = choose|i: int|
                    0 <= i < count - 1 && (#[trigger] entries[i]).id.raw == entry.id.raw;
                assert(entries[i].id == entries[count - 1].id);
            }
        }
        assert(after.entries =~= admission.entries + entries.take(count));
        assert forall|raw: u64| #[trigger] after.seen.contains(raw) <==> admission.seen.contains(
            raw,
        ) || exists|i: int| 0 <= i < count && (#[trigger] entries[i]).id.raw == raw by {
            if raw == entry.id.raw {
                assert(entries[count - 1].id.raw == raw);
            } else if before.seen.contains(raw) {
            }
        }
    } else {
        assert(after.entries =~= admission.entries + entries.take(0));
    }
}

/// An entry whose number is in use stays, under the next number that is free, and a
/// cursor is not left on it; one past the cap is dropped. Either is reported, and no
/// entry before it changes.
pub proof fn entries_are_mended(admission: AdmissionView, entry: EntryView, found: usize, next: u64)
    ensures
        ({
            let after = admission.admitted(entry, found);
            let full = admission.total >= MAX_PLAYLIST_ENTRIES;
            let twice = admission.seen.contains(entry.id.raw);
            &&& full ==> after.entries == admission.entries && after.total == admission.total
                && after.reset is Some && after.seen == admission.seen
            &&& !full && !twice ==> after.entries == admission.entries.push(entry) && after.reset
                == admission.reset && after.cursor == admission.cursor
            &&& !full && twice && admission.entry_ids.next == Some(next) ==> after.entries
                == admission.entries.push(
                EntryView { id: QueueEntryId { raw: next }, ..entry },
            ) && after.reset is Some && after.seen.contains(next) && (
            after.entry_ids.next matches Some(then) ==> then > next)
            &&& !full && twice && admission.entry_ids.next is None ==> after.entries
                == admission.entries && after.reset is Some
            &&& full || twice ==> after.cursor != Some(entry.id.raw)
            &&& admission.cursor != Some(entry.id.raw) ==> after.cursor == admission.cursor
            &&& admission.reset is Some ==> after.reset == admission.reset
        }),
{
}

/// Damage stays in its playlist: reading one more leaves those before it as they are.
/// It has its own number, where it has one that is free, and its own name, where it
/// has a usable one, and its entries, where they can be read and are new and fit; and
/// where its entries are damaged it is empty and that is reported.
pub proof fn damage_stays_in_its_playlist(recovery: RecoveryView, item: JsonView, found: usize, own: u64)
    requires
        crate::json::number_in(item.field("id"@)) == Some(own),
        !recovery.seen_playlists.contains(own),
    ensures
        ({
            let after = recovery.admitted(item, found);
            let n = recovery.playlists.len() as int;
            &&& after.playlists.len() == n + 1
            &&& after.playlists.take(n) == recovery.playlists
            &&& after.playlists[n].id.raw == own
            &&& after.playlists[n].name == match item.field("name"@) {
                Some(JsonView::Text(text)) => match crate::playlist::cleaned(text) {
                    Some(name) => name,
                    None => "Playlist "@ + crate::text::decimal(own as nat),
                },
                _ => "Playlist "@ + crate::text::decimal(own as nat),
            }
            &&& (item.field("entries"@) matches Some(JsonView::Array(items)) && (
            crate::persistence::queue_codec::entries_of(items) matches Ok(entries)
                && recovery.total + entries.len() <= MAX_PLAYLIST_ENTRIES && (forall|i: int|
                0 <= i < entries.len() ==> !recovery.seen_entries.contains(
                    (#[trigger] entries[i]).id.raw,
                )) && (forall|i: int, j: int|
                0 <= i < j < entries.len() ==> #[trigger] entries[i].id
                    != #[trigger] entries[j].id)))
                ==> after.playlists[n].queue.entries
                == crate::persistence::queue_codec::entries_of(
                item.field("entries"@).unwrap()->Array_0,
            )->Ok_0
            &&& (item.field("entries"@) matches Some(JsonView::Array(items))
                && crate::persistence::queue_codec::entries_of(items) is Err)
                ==> after.playlists[n].queue.entries.len() == 0 && after.reset is Some
            &&& recovery.reset is Some ==> after.reset == recovery.reset
        }),
{
    let after = recovery.admitted(item, found);
    let n = recovery.playlists.len() as int;
    assert(after.playlists.take(n) =~= recovery.playlists);
    let before = recovery.numbered(item);
    let (entries, problem) = crate::persistence::recovery::item_entries(item);
    first_report_stands(before.admission(item), entries, found, entries.len() as int);
    if before.total + entries.len() <= MAX_PLAYLIST_ENTRIES && (forall|i: int|
        0 <= i < entries.len() ==> !before.seen_entries.contains((#[trigger] entries[i]).id.raw))
        && (forall|i: int, j: int|
        0 <= i < j < entries.len() ==> #[trigger] entries[i].id != #[trigger] entries[j].id) {
        new_entries_are_kept(before.admission(item), entries, found, entries.len() as int);
        assert(entries.take(entries.len() as int) =~= entries);
        assert(after.playlists[n].queue.entries =~= entries);
    }
}

proof fn first_report_stands(
    admission: AdmissionView,
    entries: Seq<EntryView>,
    found: usize,
    count: int,
)
    ensures
        admission.reset is Some ==> admission.all_admitted(entries, found, count).reset
            == admission.reset,
    decreases count,
{
    if count > 0 {
        first_report_stands(admission, entries, found, count - 1);
    }
}

/// The cursor and the shuffle of a playlist are kept where they name what it holds: the
/// cursor an entry of its own, the shuffle a seed, with the entry to play first where
/// that is one of its own.
pub proof fn cursor_and_shuffle_are_kept(
    recovery: RecoveryView,
    item: JsonView,
    found: usize,
    own: u64,
    entries: Seq<EntryView>,
    k: int,
    seed: u64,
)
    requires
        crate::json::number_in(item.field("id"@)) == Some(own),
        !recovery.seen_playlists.contains(own),
        item.field("entries"@) matches Some(JsonView::Array(items))
            && crate::persistence::queue_codec::entries_of(items) == Ok::<
            _,
            crate::persistence::queue_codec::QueueProblem,
        >(entries),
        recovery.total + entries.len() <= MAX_PLAYLIST_ENTRIES,
        forall|i: int|
            0 <= i < entries.len() ==> !recovery.seen_entries.contains(
                (#[trigger] entries[i]).id.raw,
            ),
        forall|i: int, j: int|
            0 <= i < j < entries.len() ==> #[trigger] entries[i].id != #[trigger] entries[j].id,
        0 <= k < entries.len(),
    ensures
        ({
            let after = recovery.admitted(item, found);
            let playlist = after.playlists[recovery.playlists.len() as int];
            let id = entries[k].id;
            &&& item.field("active_entry"@) == Some(JsonView::Number(id.raw))
                ==> playlist.queue.active == Some(id)
            &&& item.field("active_entry"@) is None ==> playlist.queue.active is None
            &&& (item.field("shuffle"@) matches Some(said) && said.field("seed"@) == Some(
                JsonView::Number(seed),
            ) && said.field("first"@) == Some(JsonView::Number(id.raw))) ==> playlist.shuffle
                == Some(Shuffle { seed, first: Some(id) })
            &&& (item.field("shuffle"@) matches Some(said) && said.field("seed"@) == Some(
                JsonView::Number(seed),
            ) && said.field("first"@) is None) ==> playlist.shuffle == Some(
                Shuffle { seed, first: None },
            )
            &&& item.field("shuffle"@) is None ==> playlist.shuffle is None
        }),
{
    let before = recovery.numbered(item);
    let filled = before.filled(item, found);
    new_entries_are_kept(before.admission(item), entries, found, entries.len() as int);
    assert(entries.take(entries.len() as int) =~= entries);
    assert(filled.entries =~= entries);
    crate::queue::entry_is_found(QueueView { entries: filled.entries, active: None }, k);
}

/// The playlist that a file names plays, and the first one where it names none of them,
/// which is reported. A cursor of the playing one that is not on the current media is
/// cleared, and any other is kept.
pub proof fn named_playlist_plays(
    recovery: RecoveryView,
    playing: Option<JsonView>,
    current: Option<MediaKey>,
    at: int,
)
    requires
        0 <= at < recovery.playlists.len(),
        forall|i: int, j: int|
            0 <= i < j < recovery.playlists.len() ==> #[trigger] recovery.playlists[i].id
                != #[trigger] recovery.playlists[j].id,
    ensures
        ({
            let after = recovery.finished(playing, current);
            let playlist = recovery.playlists[at];
            let media = playlist.queue.active_media();
            &&& playing == Some(JsonView::Number(playlist.id.raw)) ==> {
                &&& after.playing == playlist.id && after.current_media == current
                &&& media is None || media == current ==> after.playlists == recovery.playlists
                    && after.reset == recovery.reset
                &&& media is Some && media != current ==> after.playlists
                    == recovery.playlists.update(
                    at,
                    playlist.with_queue(playlist.queue.with_active(None)),
                ) && after.reset is Some
            }
            &&& (forall|i: int|
                0 <= i < recovery.playlists.len() ==> crate::json::number_in(playing) != Some(
                    (#[trigger] recovery.playlists[i]).id.raw,
                )) ==> after.playing == recovery.playlists[0].id && after.playlists
                == recovery.playlists && after.reset is Some && after.current_media
                == recovery.playlists[0].queue.active_media()
        }),
{
    if let Some(raw) = crate::json::number_in(playing) {
        let wanted = crate::persistence::model::playlist_is(PlaylistId { raw });
        crate::model::position_is_first(recovery.playlists, wanted, 0);
        if let Some(found) = crate::model::position(recovery.playlists, wanted, 0) {
            assert(wanted(recovery.playlists[found]));
            assert(recovery.playlists[found].id.raw == raw);
        }
        if recovery.playlists[at].id.raw == raw {
            assert(wanted(recovery.playlists[at]));
        }
    }
}

/// The one queue of an older file becomes the only playlist, its entries under their
/// numbers; a file from before there were queues, or one whose queue is not wanted, has
/// an empty one.
pub proof fn older_queue_becomes_a_playlist(
    raw: RawStateView,
    items: Seq<JsonView>,
    entries: Seq<EntryView>,
    accept: bool,
)
    ensures
        raw.state(accept).schema_version == raw.schema_version,
        raw.schema_version < 3 || !accept ==> {
            let state = raw.state(accept);
            &&& state.playlists.len() == 1 && state.playing == state.playlists[0].id
            &&& state.playlists[0].queue.entries.len() == 0
            &&& state.current_media == raw.current_media
            &&& raw.recovered(accept).reset is None
        },
        raw.schema_version == 3 && accept && raw.queue == Some(JsonView::Array(items))
            && crate::persistence::queue_codec::entries_of(items) == Ok::<
            _,
            crate::persistence::queue_codec::QueueProblem,
        >(entries) && entries.len() <= MAX_PLAYLIST_ENTRIES ==> {
            let state = raw.state(accept);
            &&& state.playlists.len() == 1 && state.playing == state.playlists[0].id
            &&& state.playlists[0].queue.entries == entries
            &&& state.current_media == raw.current_media
            &&& raw.active_entry is None ==> raw.recovered(accept).reset is None
        },
{
}

/// A playlist without a number of its own, or with one that is in use, is kept under the
/// next number that is free, which is reported.
pub proof fn unnumbered_playlist_is_kept(
    recovery: RecoveryView,
    item: JsonView,
    found: usize,
    next: u64,
)
    requires
        crate::json::number_in(item.field("id"@)) matches Some(own)
            ==> recovery.seen_playlists.contains(own),
        recovery.playlist_ids.next == Some(next),
    ensures
        ({
            let after = recovery.admitted(item, found);
            let n = recovery.playlists.len() as int;
            &&& after.playlists.len() == n + 1
            &&& after.playlists.take(n) == recovery.playlists
            &&& after.playlists[n].id.raw == next
            &&& after.reset is Some
            &&& after.playlist_ids.next matches Some(then) ==> then > next
        }),
{
    let after = recovery.admitted(item, found);
    assert(after.playlists.take(recovery.playlists.len() as int) =~= recovery.playlists);
    let before = recovery.numbered(item);
    let entries = crate::persistence::recovery::item_entries(item).0;
    first_report_stands(before.admission(item), entries, found, entries.len() as int);
}

/// A file that says nothing of playlists has one empty playlist, called Default, and nothing
/// is reported; one whose playlists cannot be read has the same, and that is reported.
pub proof fn unread_playlists_are_replaced(
    raw: crate::persistence::recovery::RawPlaylistsView,
    current: Option<MediaKey>,
)
    requires
        !(raw.playlists matches Some(JsonView::Array(_))),
    ensures
        ({
            let after = crate::persistence::recovery::playlists_recovered(raw, current);
            &&& after.playlists.len() == 1
            &&& after.playlists[0].name == "Default"@
            &&& after.playlists[0].queue.entries.len() == 0
            &&& after.playlists[0].shuffle is None
            &&& after.playing == after.playlists[0].id
            &&& raw.playlists is None || raw.playlists == Some(JsonView::Null) ==> after.reset
                is None
            &&& raw.playlists is Some && raw.playlists != Some(JsonView::Null) ==> after.reset
                is Some
        }),
{
}

} // verus!
