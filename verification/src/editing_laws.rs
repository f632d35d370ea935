//! What editing comes to: where every entry and every playlist stands after a
//! change, what the playing order is, and what a row shows. Each law speaks of
//! places in the lists before and after.

use crate::clock::ClockSample;
use crate::media::MediaKey;
use crate::persistence::model::StateView;
use crate::playback::{Progress, ResumeCandidate, ResumeIntent};
use crate::playlist::{PlaylistId, PlaylistView, Shuffle};
use crate::queue::{Direction, DisplayView, EntryView, NewEntryView, QueueEntryId, QueueView,
    SourceView};
use crate::session::{AdoptedLoad, LoadTarget, SessionView};
use vstd::prelude::*;

verus! {

broadcast use crate::model::group_model;

// ------------------------------------------------------------------- queues

/// An entry is moved past its neighbour: the two change places, everything else
/// stays, and past the first or the last place nothing moves.
pub proof fn moved_entry_changes_places(queue: QueueView, k: int)
    requires
        queue.wf(),
        0 <= k < queue.entries.len(),
    ensures
        ({
            let id = queue.entries[k].id;
            let down = queue.moved(id, Direction::Down);
            let up = queue.moved(id, Direction::Up);
            &&& down.active == queue.active && up.active == queue.active
            &&& k + 1 < queue.entries.len() ==> down.entries == queue.entries.update(
                k,
                queue.entries[k + 1],
            ).update(k + 1, queue.entries[k])
            &&& k + 1 == queue.entries.len() ==> down == queue
            &&& k > 0 ==> up.entries == queue.entries.update(k, queue.entries[k - 1]).update(
                k - 1,
                queue.entries[k],
            )
            &&& k == 0 ==> up == queue
            &&& queue.can_move(id, Direction::Down) <==> k + 1 < queue.entries.len()
            &&& queue.can_move(id, Direction::Up) <==> k > 0
        }),
{
    let id = queue.entries[k].id;
    crate::queue::entry_is_found(queue, k);
    if k + 1 < queue.entries.len() {
        assert(queue.moved(id, Direction::Down).entries =~= queue.entries.update(
            k,
            queue.entries[k + 1],
        ).update(k + 1, queue.entries[k]));
    }
    if k > 0 {
        assert(queue.moved(id, Direction::Up).entries =~= queue.entries.update(
            k,
            queue.entries[k - 1],
        ).update(k - 1, queue.entries[k]));
    }
}

/// A removed entry leaves the rest in order; a cursor on it is cleared, any other
/// cursor stays, and the entry that took its place is selected, else the one above.
pub proof fn removed_entry_leaves_the_rest(queue: QueueView, k: int)
    requires
        queue.wf(),
        0 <= k < queue.entries.len(),
    ensures
        ({
            let id = queue.entries[k].id;
            let after = queue.removed(id);
            &&& after.entries == queue.entries.take(k) + queue.entries.skip(k + 1)
            &&& after.active == if queue.active == Some(id) {
                None
            } else {
                queue.active
            }
            &&& queue.selection_after(id) == if k + 1 < queue.entries.len() {
                Some(after.entries[k].id)
            } else if k > 0 {
                Some(after.entries[k - 1].id)
            } else {
                None
            }
        }),
{
    let id = queue.entries[k].id;
    crate::queue::entry_is_found(queue, k);
    assert(queue.removed(id).entries =~= queue.entries.take(k) + queue.entries.skip(k + 1));
}

/// New entries stand behind the old ones, in the order they came, each as it was
/// given and under a number of its own; the cursor stays.
pub proof fn new_entries_come_last(queue: QueueView, start: u64, batch: Seq<NewEntryView>, i: int)
    requires
        0 <= i < batch.len(),
        start + batch.len() - 1 <= u64::MAX,
    ensures
        ({
            let after = queue.enqueued(start, batch);
            let n = queue.entries.len() as int;
            &&& after.active == queue.active
            &&& after.entries.len() == n + batch.len()
            &&& after.entries.take(n) == queue.entries
            &&& after.entries[n + i].id.raw == start + i
            &&& after.entries[n + i].media == batch[i].media
            &&& after.entries[n + i].source == batch[i].source
            &&& after.entries[n + i].display == batch[i].display
        }),
{
    let after = queue.enqueued(start, batch);
    assert(after.entries.take(queue.entries.len() as int) =~= queue.entries);
}

/// What is learnt of a media replaces what was shown, field by field, and what was
/// not learnt stays.
pub proof fn learnt_fields_replace(shown: DisplayView, update: DisplayView)
    ensures
        ({
            let after = shown.updated(update);
            &&& update.title is Some ==> after.title == update.title
            &&& update.title is None ==> after.title == shown.title
            &&& update.artist is Some ==> after.artist == update.artist
            &&& update.artist is None ==> after.artist == shown.artist
            &&& update.album is Some ==> after.album == update.album
            &&& update.album is None ==> after.album == shown.album
            &&& update.year is Some ==> after.year == update.year
            &&& update.year is None ==> after.year == shown.year
            &&& update.duration is Some ==> after.duration == update.duration
            &&& update.duration is None ==> after.duration == shown.duration
        }),
{
}

/// What is learnt of a media is shown of every entry for it, in every playlist, and
/// of no other; what a decoder reported of an entry, of that entry alone; and a new
/// address is taken for that entry alone. No entry moves.
pub proof fn learning_reaches_its_entries(
    state: StateView,
    media: MediaKey,
    update: DisplayView,
    id: QueueEntryId,
    url: Seq<char>,
    at: int,
    k: int,
)
    requires
        state.wf(),
        0 <= at < state.playlists.len(),
        0 <= k < state.playlists[at].queue.entries.len(),
    ensures
        ({
            let queue = state.playlists[at].queue;
            let entry = queue.entries[k];
            let shown = EntryView { display: entry.display.updated(update), ..entry };
            let all = state.displayed(media, update).playlists[at];
            &&& state.displayed(media, update).playlists.len() == state.playlists.len()
            &&& all == state.playlists[at].with_queue(all.queue) && all.queue.active
                == queue.active
            &&& all.queue.entries.len() == queue.entries.len()
            &&& all.queue.entries[k] == if entry.media == media {
                shown
            } else {
                entry
            }
            &&& queue.absorbed(id, update).active == queue.active
            &&& queue.absorbed(id, update).entries.len() == queue.entries.len()
            &&& queue.absorbed(id, update).entries[k] == if entry.id == id {
                shown
            } else {
                entry
            }
            &&& queue.refetched(id, url).active == queue.active
            &&& queue.refetched(id, url).entries.len() == queue.entries.len()
            &&& queue.refetched(id, url).entries[k] == if entry.id == id {
                EntryView { source: SourceView::Podcast { fallback: url }, ..entry }
            } else {
                entry
            }
        }),
{
    let queue = state.playlists[at].queue;
    assert(state.playlists[at].wf());
    crate::queue::found_is_queued(queue, id);
    crate::queue::entry_is_found(queue, k);
}

// ------------------------------------------------------------ playing order

/// Unshuffled, entries are played in the order of the list. Shuffled, the one that
/// was under the cursor is played first, and the others in the order of the numbers
/// that the seed makes of theirs, whatever their places in the list.
pub proof fn playing_order_is_the_lists_or_the_seeds(playlist: PlaylistView, i: int, j: int)
    requires
        playlist.queue.distinct(),
        0 <= i < j < playlist.queue.entries.len(),
    ensures
        playlist.order().len() == playlist.queue.entries.len(),
        playlist.shuffle is None ==> playlist.order()[i] == playlist.queue.entries[i].id
            && playlist.order()[j] == playlist.queue.entries[j].id,
        playlist.shuffle matches Some(shuffle) ==> {
            let a = playlist.order()[i];
            let b = playlist.order()[j];
            let x = crate::playlist::mixed(shuffle.seed.wrapping_add(a.raw));
            let y = crate::playlist::mixed(shuffle.seed.wrapping_add(b.raw));
            &&& shuffle.first != Some(b)
            &&& shuffle.first == Some(a) || x < y || (x == y && a.raw < b.raw)
        },
{
    crate::playlist::order_plays_every_entry_once(playlist);
    if let Some(shuffle) = playlist.shuffle {
        crate::playlist::playing_order_is_total(shuffle);
        playlist.queue.ids().lemma_sort_by_ensures(crate::playlist::playing_order(shuffle));
        let order = playlist.order();
        assert(crate::playlist::playing_order(shuffle)(order[i], order[j]));
        assert(order[i] != order[j]);
        if shuffle.first == Some(order[j]) {
            assert(crate::playlist::plays_before(shuffle, order[i], order[j]));
        }
    }
}

/// The playing order does not depend on where the entries of a shuffled playlist
/// stand in the list: moving one leaves it as it is.
pub proof fn shuffled_order_survives_moves(
    playlist: PlaylistView,
    id: QueueEntryId,
    direction: Direction,
)
    requires
        playlist.queue.wf(),
        playlist.shuffle is Some,
    ensures
        playlist.with_queue(playlist.queue.moved(id, direction)).order() == playlist.order(),
{
    let shuffle = playlist.shuffle.unwrap();
    let leq = crate::playlist::playing_order(shuffle);
    let before = playlist.queue.ids();
    let after = playlist.queue.moved(id, direction).ids();
    crate::queue::found_is_queued(playlist.queue, id);
    if playlist.queue.can_move(id, direction) {
        let at = playlist.queue.find(id).unwrap();
        let to = playlist.queue.step(at, direction).unwrap();
        moved_entry_changes_places(playlist.queue, at);
        let low = if at < to {
            at
        } else {
            to
        };
        assert(after =~= before.update(low, before[low + 1]).update(low + 1, before[low]));
        swap_keeps_multiset(before, low);
    }
    crate::playlist::playing_order_is_total(shuffle);
    before.lemma_sort_by_ensures(leq);
    after.lemma_sort_by_ensures(leq);
    vstd::seq_lib::lemma_sorted_unique(before.sort_by(leq), after.sort_by(leq), leq);
}

proof fn swap_keeps_multiset(ids: Seq<QueueEntryId>, low: int)
    requires
        0 <= low,
        low + 1 < ids.len(),
    ensures
        ids.update(low, ids[low + 1]).update(low + 1, ids[low]).to_multiset()
            == ids.to_multiset(),
{
    let once = ids.update(low, ids[low + 1]);
    let twice = once.update(low + 1, ids[low]);
    vstd::seq_lib::to_multiset_update(ids, low, ids[low + 1]);
    vstd::seq_lib::to_multiset_update(once, low + 1, ids[low]);
    vstd::seq_lib::to_multiset_contains(ids, ids[low]);
    assert(twice.to_multiset() =~= ids.to_multiset());
}

/// Switching shuffle on keeps the list and pins the entry under the cursor; off
/// brings the order of the list back.
pub proof fn shuffle_is_switched(playlist: PlaylistView, seed: u64)
    ensures
        playlist.shuffled(Some(seed)) == (PlaylistView {
            shuffle: Some(Shuffle { seed, first: playlist.queue.active }),
            ..playlist
        }),
        playlist.shuffled(None).order() == playlist.queue.ids(),
        playlist.shuffled(None).queue == playlist.queue,
        playlist.shuffled(None).shuffle is None,
{
}

// ---------------------------------------------------------------- playlists

/// A new playlist stands behind the others, empty, unshuffled, under its name and a
/// number that none has; what plays stays.
pub proof fn new_playlist_comes_last(state: StateView, name: Seq<char>)
    requires
        state.wf(),
        state.playlist_ids.next is Some,
    ensures
        ({
            let after = state.created(name);
            let n = state.playlists.len() as int;
            &&& after.playlists.len() == n + 1
            &&& after.playlists.take(n) == state.playlists
            &&& after.playlists[n].name == name
            &&& after.playlists[n].queue.entries.len() == 0
            &&& after.playlists[n].queue.active is None
            &&& after.playlists[n].shuffle is None
            &&& forall|i: int|
                0 <= i < n ==> (#[trigger] state.playlists[i]).id != after.playlists[n].id
            &&& after.playing == state.playing
            &&& after.checkpoints == state.checkpoints
            &&& after.current_media == state.current_media
        }),
{
    assert(state.created(name).playlists.take(state.playlists.len() as int) =~= state.playlists);
}

/// Renaming changes the one name and nothing else.
pub proof fn renaming_changes_the_name(state: StateView, at: int, name: Seq<char>, i: int)
    requires
        0 <= at < state.playlists.len(),
        0 <= i < state.playlists.len(),
    ensures
        ({
            let after = state.renamed(at, name);
            &&& after.playlists.len() == state.playlists.len()
            &&& after.playlists[i] == if i == at {
                PlaylistView { name, ..state.playlists[i] }
            } else {
                state.playlists[i]
            }
            &&& after == (StateView { playlists: after.playlists, ..state })
        }),
{
}

/// A deleted playlist leaves the others in order. Where it was the playing one, the
/// one that took its place plays, else the one before it, and what is under that
/// one's cursor is current; otherwise what plays stays.
pub proof fn deleted_playlist_leaves_the_rest(state: StateView, at: int)
    requires
        state.wf(),
        state.playlists.len() > 1,
        0 <= at < state.playlists.len(),
    ensures
        ({
            let after = state.without_playlist(at);
            let next = if at + 1 < state.playlists.len() {
                state.playlists[at + 1]
            } else {
                state.playlists[at - 1]
            };
            &&& after.playlists == state.playlists.take(at) + state.playlists.skip(at + 1)
            &&& after.checkpoints == state.checkpoints
            &&& state.playing != state.playlists[at].id ==> after.playing == state.playing
                && after.current_media == state.current_media
            &&& state.playing == state.playlists[at].id ==> after.playing == next.id
                && after.current_media == next.queue.active_media()
        }),
{
    let left = StateView { playlists: state.playlists.remove(at), ..state };
    let after = state.without_playlist(at);
    assert(left.playlists =~= state.playlists.take(at) + state.playlists.skip(at + 1));
    let place = if at < left.playlists.len() {
        at
    } else {
        left.playlists.len() - 1
    };
    let playing = StateView { playing: left.playlists[place].id, ..left };
    assert(left.distinct_playlists()) by {
        assert forall|i: int, j: int|
            0 <= i < j < left.playlists.len() implies #[trigger] left.playlists[i].id
            != #[trigger] left.playlists[j].id by {
            let from = |n: int|
                if n < at {
                    n
                } else {
                    n + 1
                };
            assert(left.playlists[i] == state.playlists[from(i)]);
            assert(left.playlists[j] == state.playlists[from(j)]);
        }
    }
    crate::persistence::laws::playlist_is_found(playing, place);
}

/// A media's cursor entry gives the current media.
pub proof fn cursor_gives_the_media(queue: QueueView, k: int)
    requires
        queue.wf(),
        0 <= k < queue.entries.len(),
    ensures
        queue.active == Some(queue.entries[k].id) ==> queue.active_media() == Some(
            queue.entries[k].media,
        ),
        queue.active is None ==> queue.active_media() is None,
{
    crate::queue::entry_is_found(queue, k);
}

// ----------------------------------------------------------------- sessions

/// Removing the entry that plays lets it go and keeps the position it was at; the
/// entry is gone from its playlist, and no other playlist changes.
pub proof fn removed_entry_is_let_go(
    session: SessionView,
    at: int,
    k: int,
    adopted: Option<AdoptedLoad>,
    media: MediaKey,
    progress: Progress,
    now: ClockSample,
)
    requires
        session.wf(),
        0 <= at < session.state.playlists.len(),
        0 <= k < session.state.playlists[at].queue.entries.len(),
        session.adopted == adopted,
    ensures
        ({
            let queue = session.state.playlists[at].queue;
            let id = queue.entries[k].id;
            let plays = adopted matches Some(load) && load.target == LoadTarget::Queue(id);
            let after = session.without_entry(id, progress, now);
            &&& after.state.playlists.len() == session.state.playlists.len()
            &&& after.state.playlists[at].queue.entries == queue.entries.take(k)
                + queue.entries.skip(k + 1)
            &&& forall|other: int|
                0 <= other < session.state.playlists.len() && other != at ==> (
                #[trigger] after.state.playlists[other]) == session.state.playlists[other]
            &&& plays ==> after.adopted is None
            &&& !plays ==> after.adopted == session.adopted && after.state.checkpoints
                == session.state.checkpoints
            &&& plays && session.current_media == Some(media) && session.checkpointable
                && session.established && session.protected is None && session.outstanding_target
                is None && session.last_loaded == Some(adopted.unwrap().request)
                && crate::listening_laws::sampled_from(
                progress,
                media,
                adopted.unwrap().request,
                session.session_rev,
            ) ==> crate::listening_laws::keeps(
                after.state,
                media,
                progress.position,
                progress.provenance,
                session.state,
            )
        }),
{
    let queue = session.state.playlists[at].queue;
    let id = queue.entries[k].id;
    assert(session.state.playlists[at].wf());
    crate::queue::entry_is_found(queue, k);
    removed_entry_leaves_the_rest(queue, k);
    crate::persistence::laws::owner_is_unique(session.state, at, id);
    crate::listening_laws::recorded_is_kept(
        session.state,
        media,
        progress.position,
        now,
        session.completed,
    );
    let barred = session.barred(seq![id]);
    let left = if session.owns_entry(id) {
        barred.released(progress, now)
    } else {
        barred
    };
    assert(left.state.playlists == session.state.playlists);
    assert(left.state.owner_index(id) == session.state.owner_index(id));
    let after = session.without_entry(id, progress, now);
    assert(after.state.checkpoints == left.state.checkpoints);
    let plays = adopted matches Some(load) && load.target == LoadTarget::Queue(id);
    if plays && session.current_media == Some(media) && session.checkpointable
        && session.established && session.protected is None && session.outstanding_target is None
        && session.last_loaded == Some(adopted.unwrap().request)
        && crate::listening_laws::sampled_from(
        progress,
        media,
        adopted.unwrap().request,
        session.session_rev,
    ) {
        assert(barred.accepts_sample(progress));
        assert(crate::listening_laws::keeps(
            left.state,
            media,
            progress.position,
            progress.provenance,
            session.state,
        ));
        slots_keep(left.state, after.state, media, progress, session.state);
    }
}

proof fn slots_keep(
    a: StateView,
    b: StateView,
    media: MediaKey,
    progress: Progress,
    before: StateView,
)
    requires
        a.checkpoints == b.checkpoints,
        crate::listening_laws::keeps(a, media, progress.position, progress.provenance, before),
    ensures
        crate::listening_laws::keeps(b, media, progress.position, progress.provenance, before),
{
}

/// Emptying a playlist empties that one alone and keeps it; what plays from another
/// goes on.
pub proof fn emptied_playlist_stays(
    session: SessionView,
    at: int,
    progress: Progress,
    now: ClockSample,
)
    requires
        session.wf(),
        0 <= at < session.state.playlists.len(),
    ensures
        ({
            let playlist = session.state.playlists[at];
            let after = session.cleared(playlist.id, progress, now);
            &&& after.state.playlists.len() == session.state.playlists.len()
            &&& after.state.playlists[at].queue.entries.len() == 0
            &&& after.state.playlists[at].queue.active is None
            &&& after.state.playlists[at].id == playlist.id
            &&& after.state.playlists[at].name == playlist.name
            &&& forall|other: int|
                0 <= other < session.state.playlists.len() && other != at ==> (
                #[trigger] after.state.playlists[other]) == session.state.playlists[other]
            &&& (session.adopted matches Some(load) && load.target matches LoadTarget::Queue(id)
                && playlist.queue.holds(id)) ==> after.adopted is None
            &&& !(session.adopted matches Some(load) && load.target matches LoadTarget::Queue(id)
                && playlist.queue.holds(id)) ==> after.adopted == session.adopted
        }),
{
    let playlist = session.state.playlists[at];
    crate::persistence::laws::playlist_is_found(session.state, at);
    let left = session.vacated(playlist.id, progress, now);
    assert(left.state.playlists == session.state.playlists);
    if let Some(load) = session.adopted {
        if let LoadTarget::Queue(id) = load.target {
            crate::persistence::laws::found_owner(session.state, id);
            if playlist.queue.holds(id) {
                crate::persistence::laws::owner_is_unique(session.state, at, id);
            } else if let Some(owner) = session.state.owner_index(id) {
                assert(session.state.playlists[owner].id != playlist.id);
            }
        }
    }
}

/// Where a media starts: at the estimate of where it was, with the established
/// position to fall back on, unless it was heard out; else at the established
/// position, and one that was heard out is said to be so; else nowhere that is
/// known.
pub proof fn media_resumes_where_it_was(entry: crate::persistence::model::PersistedCheckpoint)
    ensures
        crate::resume::intent_of(None) is None,
        !entry.completed && entry.estimated is Some ==> crate::resume::intent_of(Some(entry))
            == Some(
            ResumeIntent::EstimatedCandidate {
                target: entry.estimated.unwrap(),
                established: entry.position,
            },
        ),
        entry.position is Some && (entry.completed || entry.estimated is None)
            ==> crate::resume::intent_of(Some(entry)) == Some(
            ResumeIntent::Candidate(
                ResumeCandidate {
                    position: entry.position.unwrap(),
                    completed: entry.completed,
                },
            ),
        ),
        entry.position is None && entry.completed ==> crate::resume::intent_of(Some(entry)) == Some(
            ResumeIntent::Candidate(
                ResumeCandidate {
                    position: crate::clock::Duration { nanos: 0 },
                    completed: true,
                },
            ),
        ),
        entry.position is None && !entry.completed && entry.estimated is None
            ==> crate::resume::intent_of(Some(entry)) is None,
{
}

// --------------------------------------------------------------------- rows

/// The rows of a playlist are its entries in the order of the list, each with what
/// is remembered of its media and its duration; the tabs tell which playlist plays
/// and which are shuffled.
pub proof fn rows_follow_the_list(state: StateView, at: int, k: int)
    requires
        state.wf(),
        0 <= at < state.playlists.len(),
        0 <= k < state.playlists[at].queue.entries.len(),
    ensures
        ({
            let playlist = state.playlists[at];
            let entry = playlist.queue.entries[k];
            let rows = state.rows(playlist.id);
            &&& rows.len() == playlist.queue.entries.len()
            &&& rows[k].id == entry.id && rows[k].media == entry.media
            &&& rows[k].duration == entry.display.duration
            &&& rows[k].saved == crate::application::view::history_of(
                state.entry_for(entry.media),
            )
            &&& state.tab(playlist).id == playlist.id
            &&& state.tab(playlist).playing <==> state.playing == playlist.id
            &&& state.tab(playlist).shuffled <==> playlist.shuffle is Some
        }),
{
    crate::persistence::laws::playlist_is_found(state, at);
}

/// What is remembered of a media is what its slot holds, and nothing where it has
/// none.
pub proof fn slots_are_looked_up(state: StateView, media: MediaKey, i: int)
    requires
        state.distinct_media(),
    ensures
        0 <= i < state.checkpoints.len() && state.checkpoints[i].media == media
            ==> state.entry_for(media) == Some(state.checkpoints[i].checkpoint),
        (forall|j: int|
            0 <= j < state.checkpoints.len() ==> (#[trigger] state.checkpoints[j]).media != media)
            ==> state.entry_for(media) is None,
{
    crate::persistence::laws::found_slot(state, media);
}

/// A row shows the artist and the title where both are known, the title alone where
/// only it is, and otherwise the name of the file or the address; of an episode the
/// title line is the title alone. The line below takes the artist and the album that
/// the title line did not.
pub proof fn row_shows_what_is_known(
    entry: EntryView,
    title: Option<Seq<char>>,
    artist: Option<Seq<char>>,
    album: Option<Seq<char>>,
)
    requires
        title == crate::application::view::filled_spec(entry.display.title),
        artist == crate::application::view::filled_spec(entry.display.artist),
        album == crate::application::view::filled_spec(entry.display.album),
    ensures
        !(entry.media is PodcastEpisode) ==> {
            &&& artist is Some && title is Some ==> entry.title_line() == crate::text::shown_text(
                artist.unwrap() + seq![' ', '–', ' '] + title.unwrap(),
            ) && entry.lower_line() == match album {
                Some(album) => Some(crate::text::shown_text(album)),
                None => None,
            }
            &&& artist is None && title is Some ==> entry.title_line() == crate::text::shown_text(
                title.unwrap(),
            )
            &&& title is None ==> entry.title_line() == crate::text::shown_text(entry.media.name())
        },
        entry.media is PodcastEpisode ==> entry.title_line() == crate::text::shown_text(
            match title {
                Some(title) => title,
                None => crate::media::untitled(),
            },
        ),
        artist is None ==> entry.lower_line() == match album {
            Some(album) => Some(crate::text::shown_text(album)),
            None => None,
        },
        (title is None || entry.media is PodcastEpisode) && artist is Some ==> entry.lower_line()
            == Some(
            crate::text::shown_text(
                match album {
                    Some(album) => artist.unwrap() + seq![' ', '·', ' '] + album,
                    None => artist.unwrap(),
                },
            ),
        ),
{
}

/// What is queued stands at the end of its playlist and nowhere else; a shuffle keeps its
/// seed and begins again at the cursor.
pub proof fn queued_batch_comes_last(
    session: SessionView,
    at: int,
    batch: Seq<NewEntryView>,
    i: int,
    other: int,
)
    requires
        session.wf(),
        0 <= at < session.state.playlists.len(),
        0 <= other < session.state.playlists.len(),
        0 <= i < batch.len(),
        session.state.entry_ids.has(batch.len()),
    ensures
        ({
            let before = session.state.playlists[at];
            let after = session.enqueued(at, batch);
            let n = before.queue.entries.len() as int;
            let queue = after.state.playlists[at].queue;
            &&& after.state.playlists.len() == session.state.playlists.len()
            &&& other != at ==> after.state.playlists[other] == session.state.playlists[other]
            &&& queue.entries.len() == n + batch.len()
            &&& queue.entries.take(n) == before.queue.entries
            &&& queue.entries[n + i].media == batch[i].media
            &&& queue.entries[n + i].source == batch[i].source
            &&& queue.entries[n + i].display == batch[i].display
            &&& queue.active == before.queue.active
            &&& after.state.playlists[at].shuffle == match before.shuffle {
                Some(shuffle) => Some(Shuffle { seed: shuffle.seed, first: before.queue.active }),
                None => None,
            }
            &&& after.state.playing == session.state.playing
            &&& after.state.checkpoints == session.state.checkpoints
            &&& after.adopted == session.adopted
        }),
{
    let before = session.state.playlists[at];
    let start = session.state.entry_ids.first();
    new_entries_come_last(before.queue, start, batch, i);
}

/// Deleting a playlist leaves the others as they are; what plays from one of those goes on,
/// and what plays from the deleted one is let go.
pub proof fn deleted_playlist_is_let_go(
    session: SessionView,
    at: int,
    progress: Progress,
    now: ClockSample,
)
    requires
        session.wf(),
        session.state.playlists.len() > 1,
        0 <= at < session.state.playlists.len(),
    ensures
        ({
            let playlist = session.state.playlists[at];
            let after = session.deleted(playlist.id, progress, now);
            &&& after.state.playlists == session.state.playlists.take(at)
                + session.state.playlists.skip(at + 1)
            &&& session.state.playing != playlist.id ==> after.state.playing
                == session.state.playing
            &&& (session.adopted matches Some(load) && load.target matches LoadTarget::Queue(id)
                && playlist.queue.holds(id)) ==> after.adopted is None
            &&& !(session.adopted matches Some(load) && load.target matches LoadTarget::Queue(id)
                && playlist.queue.holds(id)) ==> after.adopted == session.adopted
        }),
{
    let playlist = session.state.playlists[at];
    crate::persistence::laws::playlist_is_found(session.state, at);
    let left = session.vacated(playlist.id, progress, now);
    assert(left.state.playlists == session.state.playlists);
    assert(left.state.playing == session.state.playing);
    assert(left.state.index_of(playlist.id) == Some(at));
    let after = session.deleted(playlist.id, progress, now);
    assert(after.state.playlists =~= session.state.playlists.take(at)
        + session.state.playlists.skip(at + 1));
    if let Some(load) = session.adopted {
        if let LoadTarget::Queue(id) = load.target {
            crate::persistence::laws::found_owner(session.state, id);
            if playlist.queue.holds(id) {
                crate::persistence::laws::owner_is_unique(session.state, at, id);
            } else if let Some(owner) = session.state.owner_index(id) {
                assert(session.state.playlists[owner].id != playlist.id);
            }
        }
    }
}

} // verus!
