//! What the browser promises: what it keeps, where its additions go, and how
//! episodes are ordered.

use crate::application::browse::{RequestView, ResultView};
use crate::library::EpisodeView;
use crate::playlist::PlaylistId;
use crate::application::browse::EntryKind;
use crate::application::command::ItemView;
use crate::media::MediaKey;
use crate::tui::browser::{BrowserEffectView, BrowserTab, BrowserView, NoticeKind, QueuedView};
use crate::tui::keys::{KeyCode, KeyEvent, KeyKind};
use vstd::prelude::*;

verus! {

impl BrowserView {
    /// Whether the cursor is on a row, as far as there are any, only rows that
    /// can be marked are, and nothing is typed or asked while a change is under
    /// way, nor both at once.
    pub open spec fn wf(self) -> bool {
        &&& self.cursor < self.rows() || self.cursor == 0
        &&& forall|i: usize| #[trigger]
            self.marked.contains(i) ==> self.can_mark(i as int)
        &&& self.pending is Some ==> self.prompt is None && self.confirm is None
        &&& self.prompt is Some ==> self.confirm is None
    }

    /// Whether a request changes something.
    pub open spec fn is_change(request: RequestView) -> bool {
        match request {
            RequestView::Subscribe { .. } => true,
            RequestView::Refresh { .. } => true,
            RequestView::Unsubscribe { .. } => true,
            RequestView::AddStation { .. } => true,
            RequestView::RemoveStation { .. } => true,
            RequestView::ReprobeStation { .. } => true,
            _ => false,
        }
    }
}

/// A browser begins with its cursor at the top and nothing marked.
pub proof fn fresh_browser_is_wf(cwd: Seq<char>, dest: PlaylistId)
    ensures
        BrowserView::fresh(cwd, dest).wf(),
{
}

/// A key keeps the cursor on a row and the marks on rows that can be marked.
pub proof fn keys_keep_wf(browser: BrowserView, key: KeyEvent)
    requires
        browser.wf(),
        browser.feeds.len() <= usize::MAX,
    ensures
        browser.keyed(key).0.wf(),
{
    if let Some(open) = browser.episodes {
        crate::model::position_is_first(
            browser.feeds,
            crate::tui::browser::feed_is(open.slug),
            0,
        );
    }
    let after = browser.keyed(key).0;
    assert forall|i: usize| #[trigger] after.marked.contains(i) implies after.can_mark(
        i as int,
    ) by {
        if browser.marked.contains(i) {
            assert(browser.can_mark(i as int));
        }
    }
}

/// An answer keeps the cursor on a row and the marks on rows that can be
/// marked.
pub proof fn answers_keep_wf(browser: BrowserView, result: ResultView)
    requires
        browser.wf(),
    ensures
        browser.applied(result).0.wf(),
{
    let after = browser.applied(result).0;
    assert forall|i: usize| #[trigger] after.marked.contains(i) implies after.can_mark(
        i as int,
    ) by {
        assert(browser.marked.contains(i));
        assert(browser.can_mark(i as int));
    }
}

/// Changes are made one at a time: no key asks for one while another is under
/// way.
pub proof fn changes_come_one_at_a_time(browser: BrowserView, key: KeyEvent)
    requires
        browser.wf(),
    ensures
        browser.keyed(key).1 matches Some(BrowserEffectView::Request(request)) ==> (
        BrowserView::is_change(request) ==> browser.pending is None && browser.keyed(
            key,
        ).0.pending == Some(request)),
{
}

/// Everything that is added goes to the playlist that was viewed when the
/// browser opened.
pub proof fn additions_go_to_one_playlist(browser: BrowserView, key: KeyEvent, result: ResultView)
    ensures
        browser.keyed(key).0.dest == browser.dest,
        browser.applied(result).0.dest == browser.dest,
        browser.keyed(key).1 matches Some(BrowserEffectView::Enqueue { dest, .. }) ==> dest
            == browser.dest,
        browser.keyed(key).1 matches Some(
            BrowserEffectView::Request(RequestView::CollectTree { dest, .. }),
        ) ==> dest == browser.dest,
{
}

/// Only Enter takes an entry out again, only where nothing is marked, and only
/// the one that the row at the cursor is queued as.
pub proof fn only_enter_takes_out(browser: BrowserView, key: KeyEvent)
    ensures
        browser.keyed(key).1 matches Some(BrowserEffectView::Remove(id)) ==> key.code
            == KeyCode::Enter && browser.marked == Set::<usize>::empty() && browser.queued_row(
            browser.cursor as int,
        ) == Some(id),
{
}

/// An answer for a place that was left changes nothing.
pub proof fn stale_answer_is_dropped(browser: BrowserView, result: ResultView)
    requires
        browser.wf(),
        match result {
            ResultView::Directory { path, .. } => browser.tab != BrowserTab::Files
                || !crate::path::is_same(path, browser.cwd),
            ResultView::Feeds(_) => browser.tab != BrowserTab::Podcasts || browser.episodes is Some,
            ResultView::Episodes { slug, .. } => browser.tab != BrowserTab::Podcasts || !(
            browser.episodes matches Some(open) && open.slug == slug),
            ResultView::Stations(_) => browser.tab != BrowserTab::Radio,
            ResultView::Mutation { request, .. } => browser.pending != Some(request),
            ResultView::TreeCollected { .. } => true,
        },
    ensures
        browser.applied(result) == (browser, None::<RequestView>),
{
}

/// Whatever is queued from the browser was not queued before, and can be.
pub proof fn nothing_is_queued_twice(browser: BrowserView, count: int, at: int)
    requires
        0 <= at < browser.items(count).len(),
    ensures
        exists|row: int|
            0 <= row < count && #[trigger] browser.can_enqueue(row) && browser.queued_row(row)
                is None && browser.items(count)[at] == browser.item_at(row),
    decreases count,
{
    if count > 0 {
        let before = browser.items(count - 1);
        if at < before.len() {
            nothing_is_queued_twice(browser, count - 1, at);
            let row = choose|row: int|
                0 <= row < count - 1 && #[trigger] browser.can_enqueue(row) && browser.queued_row(
                    row,
                ) is None && before[at] == browser.item_at(row);
            assert(browser.can_enqueue(row));
        } else {
            assert(browser.can_enqueue(count - 1));
        }
    }
}

// ----------------------------------------------------------------- queueing

/// Whether a key is pressed plainly while nothing is typed or asked.
pub open spec fn plain(browser: BrowserView, key: KeyEvent, code: KeyCode) -> bool {
    key.kind == KeyKind::Press && key.code == code && !key.control && !key.alt && browser.prompt
        is None && browser.confirm is None
}

/// Whether the queue holds a media.
pub open spec fn in_queue(queued: Seq<QueuedView>, media: MediaKey) -> bool {
    exists|i: int| 0 <= i < queued.len() && (#[trigger] queued[i]).media == media
}

/// A media is queued exactly where the queue holds it, as the last of its
/// entries.
pub proof fn queued_as_the_last(queued: Seq<QueuedView>, media: MediaKey)
    ensures
        match crate::tui::browser::queued_as(queued, media) {
            Some(id) => exists|i: int|
                0 <= i < queued.len() && (#[trigger] queued[i]).media == media && queued[i].id == id
                    && forall|j: int| i < j < queued.len() ==> (#[trigger] queued[j]).media != media,
            None => !in_queue(queued, media),
        },
    decreases queued.len(),
{
    if queued.len() > 0 {
        let last = queued.len() - 1;
        if queued[last].media == media {
            assert(queued[last].id == queued.last().id);
        } else {
            let before = queued.drop_last();
            queued_as_the_last(before, media);
            match crate::tui::browser::queued_as(before, media) {
                Some(id) => {
                    let i = choose|i: int|
                        0 <= i < before.len() && (#[trigger] before[i]).media == media
                            && before[i].id == id && forall|j: int|
                            i < j < before.len() ==> (#[trigger] before[j]).media != media;
                    assert(queued[i] == before[i]);
                    assert forall|j: int| i < j < queued.len() implies (
                    #[trigger] queued[j]).media != media by {
                        if j < last {
                            assert(before[j] == queued[j]);
                        }
                    }
                },
                None => {
                    assert forall|i: int| 0 <= i < queued.len() implies (
                    #[trigger] queued[i]).media != media by {
                        if i < last {
                            assert(before[i] == queued[i]);
                        }
                    }
                },
            }
        }
    }
}

/// Whether `rows` are, from the top down, the rows among the first `count` that
/// are `wanted`.
pub open spec fn are_rows(rows: Seq<int>, wanted: spec_fn(int) -> bool, count: int) -> bool {
    &&& forall|a: int, b: int| 0 <= a < b < rows.len() ==> #[trigger] rows[a] < #[trigger] rows[b]
    &&& forall|a: int|
        0 <= a < rows.len() ==> 0 <= #[trigger] rows[a] < count && wanted(rows[a])
    &&& forall|i: int| 0 <= i < count && #[trigger] wanted(i) ==> rows.contains(i)
}

proof fn items_of_rows(browser: BrowserView, wanted: spec_fn(int) -> bool, count: int) -> (rows: Seq<
    int,
>)
    requires
        0 <= count <= usize::MAX,
        forall|i: int|
            0 <= i < count ==> (#[trigger] wanted(i) <==> browser.picks().contains(i as usize)
                && browser.can_enqueue(i) && browser.queued_row(i) is None),
    ensures
        are_rows(rows, wanted, count),
        browser.items(count) == rows.map_values(|row: int| browser.item_at(row)),
    decreases count,
{
    if count == 0 {
        assert(browser.items(count) =~= Seq::<int>::empty().map_values(
            |row: int| browser.item_at(row),
        ));
        Seq::empty()
    } else {
        let before = items_of_rows(browser, wanted, count - 1);
        let rows = if wanted(count - 1) {
            before.push(count - 1)
        } else {
            before
        };
        assert(browser.items(count) =~= rows.map_values(|row: int| browser.item_at(row)));
        assert forall|i: int| 0 <= i < count && #[trigger] wanted(i) implies rows.contains(i) by {
            if i == count - 1 {
                assert(rows[rows.len() - 1] == i);
            } else {
                let k = before.index_of(i);
                assert(rows[k] == i);
            }
        }
        rows
    }
}

proof fn roots_of_rows(browser: BrowserView, wanted: spec_fn(int) -> bool, count: int)
    requires
        0 <= count <= usize::MAX,
        forall|i: int|
            0 <= i < count ==> (#[trigger] wanted(i) <==> browser.picks().contains(i as usize)
                && browser.can_mark(i) && browser.queued_row(i) is None),
    ensures
        are_rows(browser.roots(count), wanted, count),
    decreases count,
{
    if count > 0 {
        roots_of_rows(browser, wanted, count - 1);
        let before = browser.roots(count - 1);
        let rows = browser.roots(count);
        assert forall|i: int| 0 <= i < count && #[trigger] wanted(i) implies rows.contains(i) by {
            if i == count - 1 {
                assert(rows[rows.len() - 1] == i);
            } else {
                let k = before.index_of(i);
                assert(rows[k] == i);
            }
        }
    }
}

/// With rows of an open feed marked, Enter on an episode with an enclosure queues
/// every marked episode that has one and is not queued yet, in the order of the
/// list, and no other; the marks are then gone.
pub proof fn marked_episodes_are_queued(
    browser: BrowserView,
    key: KeyEvent,
    wanted: spec_fn(int) -> bool,
) -> (rows: Seq<int>)
    requires
        plain(browser, key, KeyCode::Enter),
        browser.tab == BrowserTab::Podcasts,
        browser.episodes is Some,
        ({
            let episodes = browser.episodes.unwrap().episodes;
            &&& episodes.len() <= usize::MAX
            &&& browser.cursor < episodes.len()
            &&& episodes[browser.cursor as int].enclosure is Some
            &&& forall|i: int|
                0 <= i < episodes.len() ==> (#[trigger] wanted(i) <==> browser.marked.contains(
                    i as usize,
                ) && episodes[i].enclosure is Some && !in_queue(
                    browser.queued,
                    episodes[i].media,
                ))
        }),
        exists|i: usize| browser.marked.contains(i),
    ensures
        ({
            let episodes = browser.episodes.unwrap().episodes;
            let items = rows.map_values(|row: int| ItemView::Episode(episodes[row]));
            let (after, effect) = browser.keyed(key);
            &&& are_rows(rows, wanted, episodes.len() as int)
            &&& effect == if rows.len() > 0 {
                Some(BrowserEffectView::Enqueue { dest: browser.dest, items })
            } else {
                None
            }
            &&& after.marked == Set::<usize>::empty()
        }),
{
    let episodes = browser.episodes.unwrap().episodes;
    let one = choose|i: usize| browser.marked.contains(i);
    assert(browser.marked.contains(one));
    assert forall|i: int| 0 <= i < episodes.len() implies (#[trigger] wanted(i)
        <==> browser.picks().contains(i as usize) && browser.can_enqueue(i) && browser.queued_row(i)
        is None) by {
        queued_as_the_last(browser.queued, episodes[i].media);
    }
    let rows = items_of_rows(browser, wanted, episodes.len() as int);
    let items = rows.map_values(|row: int| ItemView::Episode(episodes[row]));
    assert(browser.items(episodes.len() as int) =~= items);
    rows
}

/// With stations marked, Enter queues every marked station that is not queued yet,
/// in the order of the list, and no other; the marks are then gone.
pub proof fn marked_stations_are_queued(
    browser: BrowserView,
    key: KeyEvent,
    wanted: spec_fn(int) -> bool,
) -> (rows: Seq<int>)
    requires
        plain(browser, key, KeyCode::Enter),
        browser.tab == BrowserTab::Radio,
        browser.stations.len() <= usize::MAX,
        forall|i: int|
            0 <= i < browser.stations.len() ==> (#[trigger] wanted(i) <==> browser.marked.contains(
                i as usize,
            ) && !in_queue(browser.queued, browser.stations[i].media)),
        exists|i: usize| browser.marked.contains(i),
    ensures
        ({
            let stations = browser.stations;
            let items = rows.map_values(
                |row: int|
                    ItemView::Station {
                        url: stations[row].url,
                        title: match stations[row].identity {
                            Some(identity) => match identity.name {
                                Some(name) => name,
                                None => stations[row].slug,
                            },
                            None => stations[row].slug,
                        },
                    },
            );
            let (after, effect) = browser.keyed(key);
            &&& are_rows(rows, wanted, stations.len() as int)
            &&& effect == if rows.len() > 0 {
                Some(BrowserEffectView::Enqueue { dest: browser.dest, items })
            } else {
                None
            }
            &&& after.marked == Set::<usize>::empty()
        }),
{
    let stations = browser.stations;
    let one = choose|i: usize| browser.marked.contains(i);
    assert(browser.marked.contains(one));
    assert forall|i: int| 0 <= i < stations.len() implies (#[trigger] wanted(i)
        <==> browser.picks().contains(i as usize) && browser.can_enqueue(i) && browser.queued_row(i)
        is None) by {
        queued_as_the_last(browser.queued, stations[i].media);
    }
    let rows = items_of_rows(browser, wanted, stations.len() as int);
    let items = rows.map_values(
        |row: int|
            ItemView::Station {
                url: stations[row].url,
                title: match stations[row].identity {
                    Some(identity) => match identity.name {
                        Some(name) => name,
                        None => stations[row].slug,
                    },
                    None => stations[row].slug,
                },
            },
    );
    assert(browser.items(stations.len() as int) =~= items);
    rows
}

/// With files and directories marked, Enter on an audio file, and `a` anywhere,
/// add every marked one that is not queued yet, in the order of the list, and no
/// other: at once, or by a folder walk where a directory is among them. The marks
/// are then gone.
pub proof fn marked_files_are_added(
    browser: BrowserView,
    key: KeyEvent,
    wanted: spec_fn(int) -> bool,
) -> (rows: Seq<int>)
    requires
        plain(browser, key, KeyCode::Char('a')) || (plain(browser, key, KeyCode::Enter)
            && browser.cursor < browser.entries.len()
            && browser.entries[browser.cursor as int].kind == EntryKind::Audio),
        browser.tab == BrowserTab::Files,
        browser.entries.len() <= usize::MAX,
        forall|i: int|
            0 <= i < browser.entries.len() ==> (#[trigger] wanted(i) <==> browser.marked.contains(
                i as usize,
            ) && (browser.entries[i].kind == EntryKind::Audio || browser.entries[i].kind
                == EntryKind::Directory) && !(browser.entries[i].media matches Some(media)
                && in_queue(browser.queued, media))),
        exists|i: usize| browser.marked.contains(i),
    ensures
        ({
            let entries = browser.entries;
            let paths = rows.map_values(|row: int| entries[row].path);
            let (after, effect) = browser.keyed(key);
            &&& are_rows(rows, wanted, entries.len() as int)
            &&& after.marked == Set::<usize>::empty()
            &&& rows.len() == 0 ==> effect is None
            &&& (exists|k: int|
                0 <= k < rows.len() && entries[#[trigger] rows[k]].kind == EntryKind::Directory)
                ==> effect == Some(
                BrowserEffectView::Request(
                    RequestView::CollectTree { roots: paths, dest: browser.dest },
                ),
            )
            &&& rows.len() > 0 && (forall|k: int|
                0 <= k < rows.len() ==> entries[#[trigger] rows[k]].kind == EntryKind::Audio)
                ==> effect == Some(
                BrowserEffectView::Enqueue {
                    dest: browser.dest,
                    items: paths.map_values(|path: Seq<char>| ItemView::Path(path)),
                },
            )
        }),
{
    let entries = browser.entries;
    let one = choose|i: usize| browser.marked.contains(i);
    assert(browser.marked.contains(one));
    assert forall|i: int| 0 <= i < entries.len() implies (#[trigger] wanted(i)
        <==> browser.picks().contains(i as usize) && browser.can_mark(i) && browser.queued_row(i)
        is None) by {
        if let Some(media) = entries[i].media {
            queued_as_the_last(browser.queued, media);
        }
    }
    roots_of_rows(browser, wanted, entries.len() as int);
    let rows = browser.roots(entries.len() as int);
    assert(rows.map_values(|at: int| browser.entries[at].path) =~= rows.map_values(
        |row: int| entries[row].path,
    ));
    rows
}

/// With nothing marked, Enter on a row that can be queued queues that row alone,
/// and where the queue holds it already takes its last entry out again.
pub proof fn enter_queues_one_row(
    browser: BrowserView,
    key: KeyEvent,
    media: Option<MediaKey>,
    item: ItemView,
)
    requires
        plain(browser, key, KeyCode::Enter),
        browser.marked == Set::<usize>::empty(),
        match browser.tab {
            BrowserTab::Files => browser.cursor < browser.entries.len()
                && browser.entries[browser.cursor as int].kind == EntryKind::Audio && media
                == browser.entries[browser.cursor as int].media && item == ItemView::Path(
                browser.entries[browser.cursor as int].path,
            ),
            BrowserTab::Podcasts => browser.episodes matches Some(open) && browser.cursor
                < open.episodes.len() && open.episodes[browser.cursor as int].enclosure is Some
                && media == Some(open.episodes[browser.cursor as int].media) && item
                == ItemView::Episode(open.episodes[browser.cursor as int]),
            BrowserTab::Radio => browser.cursor < browser.stations.len() && media == Some(
                browser.stations[browser.cursor as int].media,
            ) && item == (ItemView::Station {
                url: browser.stations[browser.cursor as int].url,
                title: match browser.stations[browser.cursor as int].identity {
                    Some(identity) => match identity.name {
                        Some(name) => name,
                        None => browser.stations[browser.cursor as int].slug,
                    },
                    None => browser.stations[browser.cursor as int].slug,
                },
            }),
        },
        browser.entries.len() <= usize::MAX,
        browser.stations.len() <= usize::MAX,
        browser.episodes matches Some(open) ==> open.episodes.len() <= usize::MAX,
    ensures
        ({
            let (after, effect) = browser.keyed(key);
            &&& after == browser
            &&& (media matches Some(media) && in_queue(browser.queued, media)) ==> exists|i: int|
                0 <= i < browser.queued.len() && Some((#[trigger] browser.queued[i]).media) == media
                    && (forall|j: int|
                    i < j < browser.queued.len() ==> Some((#[trigger] browser.queued[j]).media)
                        != media) && effect == Some(BrowserEffectView::Remove(browser.queued[i].id))
            &&& !(media matches Some(media) && in_queue(browser.queued, media)) ==> effect == Some(
                BrowserEffectView::Enqueue { dest: browser.dest, items: seq![item] },
            )
        }),
{
    if let Some(media) = media {
        queued_as_the_last(browser.queued, media);
    }
    let at = browser.cursor as int;
    assert(browser.media_at(at) == media);
    assert(browser.item_at(at) == item);
    if browser.queued_row(at) is None {
        let wanted = |i: int| i == at;
        assert forall|i: int| 0 <= i < browser.rows() implies (#[trigger] wanted(i)
            <==> browser.picks().contains(i as usize) && browser.can_enqueue(i)
            && browser.queued_row(i) is None) by {}
        let rows = items_of_rows(browser, wanted, browser.rows() as int);
        assert(wanted(at));
        assert(rows.contains(at));
        assert(rows =~= seq![at]) by {
            let k = rows.index_of(at);
            if rows.len() > 1 {
                let other: int = if k == 0 {
                    1
                } else {
                    0
                };
                assert(wanted(rows[other]) && wanted(rows[k]));
                assert(rows[other] == rows[k]);
            }
        }
        assert(browser.items(browser.rows() as int) =~= seq![item]);
    }
}

/// Enter on a directory shows that directory, and on a feed its episodes: each is
/// asked for, and until the answer comes nothing is listed or marked.
pub proof fn enter_opens(browser: BrowserView, key: KeyEvent)
    requires
        plain(browser, key, KeyCode::Enter),
    ensures
        browser.tab == BrowserTab::Files && browser.cursor < browser.entries.len()
            && browser.entries[browser.cursor as int].kind == EntryKind::Directory ==> {
            let path = browser.entries[browser.cursor as int].path;
            let (after, effect) = browser.keyed(key);
            &&& effect == Some(BrowserEffectView::Request(RequestView::Directory(path)))
            &&& after.tab == BrowserTab::Files && after.cwd == path
            &&& after.entries.len() == 0 && after.loading && after.cursor == 0
            &&& after.marked == Set::<usize>::empty() && after.error is None
        },
        browser.tab == BrowserTab::Podcasts && browser.episodes is None && browser.cursor
            < browser.feeds.len() ==> {
            let slug = browser.feeds[browser.cursor as int].slug;
            let (after, effect) = browser.keyed(key);
            &&& effect == Some(BrowserEffectView::Request(RequestView::Episodes { slug }))
            &&& after.tab == BrowserTab::Podcasts && after.feeds == browser.feeds
            &&& after.episodes matches Some(open) && open.slug == slug && open.episodes.len() == 0
            &&& after.loading && after.cursor == 0
            &&& after.marked == Set::<usize>::empty() && after.error is None
        },
{
}

/// Back from a directory shows the one above it, where there is one, and back from
/// a feed's episodes the feeds again, with the cursor on the feed that was left.
pub proof fn back_leads_up(browser: BrowserView, key: KeyEvent, at: int)
    requires
        plain(browser, key, KeyCode::Backspace) || plain(browser, key, KeyCode::Left),
    ensures
        browser.tab == BrowserTab::Files ==> match crate::path::parent_of(browser.cwd) {
            Some(above) => browser.keyed(key).1 == Some(
                BrowserEffectView::Request(RequestView::Directory(above)),
            ) && browser.keyed(key).0.cwd == above && browser.keyed(key).0.loading
                && browser.keyed(key).0.entries.len() == 0,
            None => browser.keyed(key) == (browser, None::<BrowserEffectView>),
        },
        browser.tab == BrowserTab::Podcasts && browser.episodes is Some ==> {
            let (after, effect) = browser.keyed(key);
            &&& effect == Some(BrowserEffectView::Request(RequestView::Feeds))
            &&& after.tab == BrowserTab::Podcasts && after.episodes is None
            &&& after.feeds == browser.feeds && after.marked == Set::<usize>::empty()
            &&& 0 <= at < browser.feeds.len() && at <= usize::MAX && browser.feeds[at].slug
                == browser.episodes.unwrap().slug && (forall|i: int|
                0 <= i < at ==> (#[trigger] browser.feeds[i]).slug
                    != browser.episodes.unwrap().slug) ==> after.cursor == at
        },
        browser.tab == BrowserTab::Radio || (browser.tab == BrowserTab::Podcasts
            && browser.episodes is None) ==> browser.keyed(key) == (
            browser,
            None::<BrowserEffectView>,
        ),
{
    if let Some(open) = browser.episodes {
        let wanted = crate::tui::browser::feed_is(open.slug);
        crate::model::position_is_first(browser.feeds, wanted, 0);
        if 0 <= at < browser.feeds.len() && browser.feeds[at].slug == open.slug {
            assert(wanted(browser.feeds[at]));
            let found = crate::model::position(browser.feeds, wanted, 0).unwrap();
            assert(wanted(browser.feeds[found]));
            assert(browser.feeds[found].slug == open.slug);
        }
    }
}

/// The tabs go round, files, podcasts, stations and files again, and each asks for
/// its list anew.
pub proof fn tabs_go_round(browser: BrowserView, key: KeyEvent)
    requires
        plain(browser, key, KeyCode::Tab) || plain(browser, key, KeyCode::BackTab),
    ensures
        ({
            let (after, effect) = browser.keyed(key);
            &&& after.loading && after.cursor == 0 && after.marked == Set::<usize>::empty()
            &&& after.error is None && after.cwd == browser.cwd
            &&& browser.tab == BrowserTab::Files ==> after.tab == BrowserTab::Podcasts
                && after.feeds.len() == 0 && after.episodes is None && effect == Some(
                BrowserEffectView::Request(RequestView::Feeds),
            )
            &&& browser.tab == BrowserTab::Podcasts ==> after.tab == BrowserTab::Radio
                && after.stations.len() == 0 && effect == Some(
                BrowserEffectView::Request(RequestView::Stations),
            )
            &&& browser.tab == BrowserTab::Radio ==> after.tab == BrowserTab::Files
                && after.entries.len() == 0 && effect == Some(
                BrowserEffectView::Request(RequestView::Directory(browser.cwd)),
            )
        }),
{
}

/// The cursor moves one row at a time, and not past the first or the last; nothing
/// else changes.
pub proof fn cursor_moves_by_one(browser: BrowserView, key: KeyEvent, last: int)
    requires
        last == match browser.tab {
            BrowserTab::Files => browser.entries.len() as int,
            BrowserTab::Podcasts => match browser.episodes {
                Some(open) => open.episodes.len() as int,
                None => browser.feeds.len() as int,
            },
            BrowserTab::Radio => browser.stations.len() as int,
        } - 1,
        last < usize::MAX,
    ensures
        plain(browser, key, KeyCode::Down) || plain(browser, key, KeyCode::Char('j')) ==> {
            let (after, effect) = browser.keyed(key);
            &&& effect is None && after == (BrowserView { cursor: after.cursor, ..browser })
            &&& after.cursor == if browser.cursor < last {
                browser.cursor + 1
            } else {
                browser.cursor as int
            }
        },
        plain(browser, key, KeyCode::Up) || plain(browser, key, KeyCode::Char('k')) ==> {
            let (after, effect) = browser.keyed(key);
            &&& effect is None && after == (BrowserView { cursor: after.cursor, ..browser })
            &&& after.cursor == if browser.cursor > 0 {
                browser.cursor - 1
            } else {
                0
            }
        },
{
}

/// Space marks the row at the cursor, or takes its mark back, where it is an audio
/// file, a directory, an episode with an enclosure or a station. No other mark
/// changes, and on any other row nothing does.
pub proof fn space_marks_the_row(browser: BrowserView, key: KeyEvent, row: usize)
    requires
        plain(browser, key, KeyCode::Char(' ')),
    ensures
        ({
            let (after, effect) = browser.keyed(key);
            let at = browser.cursor as int;
            let markable = match browser.tab {
                BrowserTab::Files => at < browser.entries.len() && (browser.entries[at].kind
                    == EntryKind::Audio || browser.entries[at].kind == EntryKind::Directory),
                BrowserTab::Podcasts => browser.episodes matches Some(open) && at
                    < open.episodes.len() && open.episodes[at].enclosure is Some,
                BrowserTab::Radio => at < browser.stations.len(),
            };
            &&& effect is None && after == (BrowserView { marked: after.marked, ..browser })
            &&& after.marked.contains(row) == if markable && row == browser.cursor {
                !browser.marked.contains(row)
            } else {
                browser.marked.contains(row)
            }
        }),
{
}

/// An address is typed as it comes; Enter asks to subscribe to it, or on the
/// stations' tab to add it, without the space around it, and with nothing typed for
/// nothing. Esc drops it.
pub proof fn address_is_asked_for(browser: BrowserView, key: KeyEvent, typed: Seq<char>)
    requires
        browser.prompt == Some(typed),
        key.kind == KeyKind::Press,
    ensures
        key.code == KeyCode::Enter ==> {
            let (after, effect) = browser.keyed(key);
            let url = crate::text::trim(typed);
            &&& after.prompt is None
            &&& url.len() == 0 ==> effect is None && after.pending == browser.pending
            &&& url.len() > 0 ==> {
                let request = if browser.tab == BrowserTab::Radio {
                    RequestView::AddStation { url }
                } else {
                    RequestView::Subscribe { url }
                };
                effect == Some(BrowserEffectView::Request(request)) && after.pending == Some(
                    request,
                ) && (after.notice matches Some(notice) && notice.kind == NoticeKind::Working)
            }
        },
        key.code == KeyCode::Esc ==> browser.keyed(key) == (
            BrowserView { prompt: None, ..browser },
            None::<BrowserEffectView>,
        ),
        key.code == KeyCode::Backspace ==> browser.keyed(key) == (
            BrowserView {
                prompt: Some(
                    if typed.len() > 0 {
                        typed.take(typed.len() - 1)
                    } else {
                        typed
                    },
                ),
                ..browser
            },
            None::<BrowserEffectView>,
        ),
        (key.code matches KeyCode::Char(c) && !crate::text::is_control(c) && !key.control
            && !key.alt) ==> browser.keyed(key) == (
            BrowserView { prompt: Some(typed.push(key.code->Char_0)), ..browser },
            None::<BrowserEffectView>,
        ),
{
    if typed.len() > 0 {
        assert(typed.drop_last() =~= typed.take(typed.len() - 1));
    }
}

/// What is shown of a change: the station or the feed at the cursor, or the feed
/// whose episodes are shown.
pub open spec fn managed(browser: BrowserView) -> Option<Seq<char>> {
    match browser.tab {
        BrowserTab::Files => None,
        BrowserTab::Podcasts => match browser.episodes {
            Some(open) => Some(open.slug),
            None => if browser.cursor < browser.feeds.len() {
                Some(browser.feeds[browser.cursor as int].slug)
            } else {
                None
            },
        },
        BrowserTab::Radio => if browser.cursor < browser.stations.len() {
            Some(browser.stations[browser.cursor as int].slug)
        } else {
            None
        },
    }
}

/// `d` and then `y` ask for the removal of the feed or the station that is managed;
/// any other key in place of the `y` leaves everything as it was.
pub proof fn removal_takes_two_keys(browser: BrowserView, first: KeyEvent, second: KeyEvent)
    requires
        plain(browser, first, KeyCode::Char('d')),
        second.kind == KeyKind::Press,
        browser.tab != BrowserTab::Files,
        !browser.loading,
        browser.pending is None,
        managed(browser) is Some,
    ensures
        ({
            let slug = managed(browser).unwrap();
            let (asked, nothing) = browser.keyed(first);
            let (after, effect) = asked.keyed(second);
            let request = if browser.tab == BrowserTab::Radio {
                RequestView::RemoveStation { slug }
            } else {
                RequestView::Unsubscribe { slug }
            };
            &&& nothing is None && asked.confirm == Some(slug)
            &&& after.confirm is None
            &&& second.code == KeyCode::Char('y') && !second.control && !second.alt ==> effect
                == Some(BrowserEffectView::Request(request)) && after.pending == Some(request)
            &&& second.code != KeyCode::Char('y') || second.control || second.alt ==> effect is None
                && after.pending is None && after == (BrowserView { notice: None, ..browser })
        }),
{
}

/// `r` refreshes the feed, or probes the station, that is managed, `R` refreshes
/// every feed, and `a` begins to type an address; none of them does anything while
/// the list or a change is awaited.
pub proof fn letters_manage(browser: BrowserView, key: KeyEvent)
    requires
        browser.tab != BrowserTab::Files,
    ensures
        ({
            let (after, effect) = browser.keyed(key);
            let free = !browser.loading && browser.pending is None;
            &&& plain(browser, key, KeyCode::Char('r')) ==> match managed(browser) {
                Some(slug) => free ==> effect == Some(
                    BrowserEffectView::Request(
                        if browser.tab == BrowserTab::Radio {
                            RequestView::ReprobeStation { slug }
                        } else {
                            RequestView::Refresh { slug: Some(slug) }
                        },
                    ),
                ),
                None => effect is None,
            }
            &&& plain(browser, key, KeyCode::Char('R')) ==> effect == if free && browser.tab
                == BrowserTab::Podcasts && browser.feeds.len() > 0 {
                Some(BrowserEffectView::Request(RequestView::Refresh { slug: None }))
            } else {
                None
            }
            &&& plain(browser, key, KeyCode::Char('a')) ==> effect is None && after.prompt
                == if free {
                Some(Seq::<char>::empty())
            } else {
                None
            }
            &&& !free && (plain(browser, key, KeyCode::Char('r')) || plain(
                browser,
                key,
                KeyCode::Char('d'),
            )) ==> effect is None && after == browser
            &&& plain(browser, key, KeyCode::Esc) || plain(browser, key, KeyCode::Char('b'))
                ==> effect == Some(BrowserEffectView::Close)
        }),
{
}

/// The answer for the list on screen is what is listed from then on, or its error
/// with nothing listed; nothing is awaited or marked any more.
pub proof fn answer_is_listed(browser: BrowserView, result: ResultView)
    ensures
        ({
            let (after, request) = browser.applied(result);
            match result {
                ResultView::Directory { path, entries } => browser.tab == BrowserTab::Files
                    && crate::path::is_same(path, browser.cwd) ==> {
                    &&& request is None && !after.loading && after.marked == Set::<usize>::empty()
                    &&& match entries {
                        Ok(list) => after.entries == list && after.error is None,
                        Err(why) => after.entries.len() == 0 && after.error == Some(why),
                    }
                },
                ResultView::Feeds(feeds) => browser.tab == BrowserTab::Podcasts && browser.episodes
                    is None ==> {
                    &&& request is None && !after.loading && after.marked == Set::<usize>::empty()
                    &&& match feeds {
                        Ok(list) => after.feeds == list && after.error is None,
                        Err(why) => after.feeds.len() == 0 && after.error == Some(why),
                    }
                },
                ResultView::Episodes { slug, episodes } => browser.tab == BrowserTab::Podcasts && (
                browser.episodes matches Some(open) && open.slug == slug) ==> {
                    &&& request is None && !after.loading && after.marked == Set::<usize>::empty()
                    &&& after.episodes matches Some(open) && open.slug == slug && match episodes {
                        Ok(list) => open.episodes.to_multiset() == list.to_multiset() && dated(
                            open.episodes,
                        ) && after.error is None,
                        Err(why) => open.episodes.len() == 0 && after.error == Some(why),
                    }
                },
                ResultView::Stations(stations) => browser.tab == BrowserTab::Radio ==> {
                    &&& request is None && !after.loading && after.marked == Set::<usize>::empty()
                    &&& match stations {
                        Ok(list) => after.stations == list && after.error is None,
                        Err(why) => after.stations.len() == 0 && after.error == Some(why),
                    }
                },
                ResultView::Mutation { request: change, outcome } => browser.pending == Some(change)
                    ==> {
                    &&& after.pending is None
                    &&& after.notice matches Some(notice) && match outcome {
                        Ok(text) => notice.text == text && notice.kind == NoticeKind::Done,
                        Err(text) => notice.text == text && notice.kind == NoticeKind::Failed,
                    }
                    &&& browser.tab == BrowserTab::Files ==> request is None
                    &&& browser.tab == BrowserTab::Radio ==> request == Some(RequestView::Stations)
                        && after.loading
                    &&& browser.tab == BrowserTab::Podcasts ==> after.loading && request == Some(
                        match browser.episodes {
                            Some(open) => if change == (RequestView::Unsubscribe {
                                slug: open.slug,
                            }) {
                                RequestView::Feeds
                            } else {
                                RequestView::Episodes { slug: open.slug }
                            },
                            None => RequestView::Feeds,
                        },
                    )
                },
                ResultView::TreeCollected { .. } => true,
            }
        }),
{
    if let ResultView::Episodes { episodes: Ok(list), .. } = result {
        episodes_are_ordered(list);
    }
}

/// An answer for the list on screen leaves the cursor on its row, or on the last one where
/// there are fewer now, and changes nothing but that list.
pub proof fn cursor_survives_an_answer(browser: BrowserView, result: ResultView, rows: int)
    requires
        rows <= usize::MAX,
        match result {
            ResultView::Directory { path, entries } => browser.tab == BrowserTab::Files
                && crate::path::is_same(path, browser.cwd) && rows == match entries {
                Ok(list) => list.len() as int,
                Err(_) => 0,
            },
            ResultView::Feeds(feeds) => browser.tab == BrowserTab::Podcasts && browser.episodes
                is None && rows == match feeds {
                Ok(list) => list.len() as int,
                Err(_) => 0,
            },
            ResultView::Episodes { slug, episodes } => browser.tab == BrowserTab::Podcasts && (
            browser.episodes matches Some(open) && open.slug == slug) && rows == match episodes {
                Ok(list) => list.len() as int,
                Err(_) => 0,
            },
            ResultView::Stations(stations) => browser.tab == BrowserTab::Radio && rows
                == match stations {
                Ok(list) => list.len() as int,
                Err(_) => 0,
            },
            _ => false,
        },
    ensures
        ({
            let after = browser.applied(result).0;
            &&& after.cursor == if browser.cursor < rows {
                browser.cursor as int
            } else if rows > 0 {
                rows - 1
            } else {
                0
            }
            &&& after.tab == browser.tab && after.cwd == browser.cwd && after.dest == browser.dest
            &&& after.queued == browser.queued && after.prompt == browser.prompt
            &&& after.confirm == browser.confirm && after.pending == browser.pending
            &&& after.notice == browser.notice
            &&& !(result is Directory) ==> after.entries == browser.entries
            &&& !(result is Feeds) ==> after.feeds == browser.feeds
            &&& !(result is Stations) ==> after.stations == browser.stations
            &&& !(result is Episodes) ==> after.episodes == browser.episodes
        }),
{
    if let ResultView::Episodes { episodes: Ok(list), .. } = result {
        episodes_are_ordered(list);
    }
}

/// With nothing marked, `a` adds the file or the directory at the cursor, the directory by a
/// folder walk, and takes nothing out; on any other row, and on one that is queued, it does
/// nothing.
pub proof fn one_file_is_added(browser: BrowserView, key: KeyEvent)
    requires
        plain(browser, key, KeyCode::Char('a')),
        browser.tab == BrowserTab::Files,
        browser.marked == Set::<usize>::empty(),
        browser.cursor < browser.entries.len() <= usize::MAX,
    ensures
        ({
            let entry = browser.entries[browser.cursor as int];
            let queued = entry.media matches Some(media) && in_queue(browser.queued, media);
            let (after, effect) = browser.keyed(key);
            &&& after == browser
            &&& queued || entry.kind == EntryKind::Other ==> effect is None
            &&& !queued && entry.kind == EntryKind::Directory ==> effect == Some(
                BrowserEffectView::Request(
                    RequestView::CollectTree { roots: seq![entry.path], dest: browser.dest },
                ),
            )
            &&& !queued && entry.kind == EntryKind::Audio ==> effect == Some(
                BrowserEffectView::Enqueue {
                    dest: browser.dest,
                    items: seq![ItemView::Path(entry.path)],
                },
            )
        }),
{
    let at = browser.cursor as int;
    let entry = browser.entries[at];
    if let Some(media) = entry.media {
        queued_as_the_last(browser.queued, media);
    }
    let queued = entry.media matches Some(media) && in_queue(browser.queued, media);
    let count = browser.entries.len() as int;
    let wanted = |i: int| i == at && browser.can_mark(at) && browser.queued_row(at) is None;
    assert forall|i: int| 0 <= i < count implies (#[trigger] wanted(i) <==> browser.picks().contains(
        i as usize,
    ) && browser.can_mark(i) && browser.queued_row(i) is None) by {}
    roots_of_rows(browser, wanted, count);
    let rows = browser.roots(count);
    if wanted(at) {
        assert(rows.contains(at));
        let k = rows.index_of(at);
        if rows.len() > 1 {
            let other: int = if k == 0 {
                1
            } else {
                0
            };
            assert(wanted(rows[other]) && wanted(rows[k]));
        }
        assert(rows =~= seq![at]);
        let paths = rows.map_values(|row: int| browser.entries[row].path);
        assert(paths =~= seq![entry.path]);
        assert(paths.map_values(|path: Seq<char>| ItemView::Path(path)) =~= seq![
            ItemView::Path(entry.path),
        ]);
        assert(rows[0] == at);
    } else {
        if rows.len() > 0 {
            assert(wanted(rows[0]));
        }
    }
}

/// Enter on what can neither be opened nor queued does nothing.
pub proof fn enter_leaves_the_rest_alone(browser: BrowserView, key: KeyEvent)
    requires
        plain(browser, key, KeyCode::Enter),
        match browser.tab {
            BrowserTab::Files => browser.cursor >= browser.entries.len()
                || browser.entries[browser.cursor as int].kind == EntryKind::Other,
            BrowserTab::Podcasts => match browser.episodes {
                Some(open) => browser.cursor >= open.episodes.len()
                    || open.episodes[browser.cursor as int].enclosure is None,
                None => browser.cursor >= browser.feeds.len(),
            },
            BrowserTab::Radio => browser.stations.len() == 0 && browser.marked
                == Set::<usize>::empty(),
        },
    ensures
        browser.keyed(key) == (browser, None::<BrowserEffectView>),
{
}

// ---------------------------------------------------------------- the order

/// Whether the newest come first, and the undated last.
pub open spec fn dated(episodes: Seq<EpisodeView>) -> bool {
    forall|i: int, j: int|
        0 <= i < j < episodes.len() ==> match (
            (#[trigger] episodes[i]).published,
            (#[trigger] episodes[j]).published,
        ) {
            (Some(above), Some(below)) => above >= below,
            (None, Some(_)) => false,
            (_, None) => true,
        }
}

proof fn placing_keeps_dated(sorted: Seq<EpisodeView>, episode: EpisodeView, at: int)
    requires
        dated(sorted),
        0 <= at <= sorted.len(),
        forall|i: int|
            0 <= i < at ==> !crate::tui::browser::newer(
                episode.published,
                (#[trigger] sorted[i]).published,
            ),
    ensures
        dated(crate::tui::browser::placed(sorted, episode, at)),
        crate::tui::browser::placed(sorted, episode, at).to_multiset()
            == sorted.to_multiset().insert(episode),
        crate::tui::browser::placed(sorted, episode, at).len() == sorted.len() + 1,
    decreases sorted.len() - at,
{
    if at >= sorted.len() || crate::tui::browser::newer(episode.published, sorted[at].published) {
        let after = sorted.insert(at, episode);
        assert forall|i: int, j: int| 0 <= i < j < after.len() implies !crate::tui::browser::newer(
            (#[trigger] after[j]).published,
            (#[trigger] after[i]).published,
        ) by {
            let a = if i < at {
                i
            } else {
                i - 1
            };
            let b = if j < at {
                j
            } else {
                j - 1
            };
            if i != at && j != at {
                assert(after[i] == sorted[a]);
                assert(after[j] == sorted[b]);
            } else if j == at {
                assert(after[i] == sorted[i]);
            } else {
                assert(after[j] == sorted[j - 1]);
                assert(sorted[at].published == sorted[at].published);
            }
        }
        vstd::seq_lib::to_multiset_insert(sorted, at, episode);
    } else {
        placing_keeps_dated(sorted, episode, at + 1);
    }
}

/// Ordering by date shows every episode once, the newest first and the undated
/// last.
pub proof fn episodes_are_ordered(episodes: Seq<EpisodeView>)
    ensures
        dated(crate::tui::browser::by_date(episodes)),
        crate::tui::browser::by_date(episodes).to_multiset() == episodes.to_multiset(),
        crate::tui::browser::by_date(episodes).len() == episodes.len(),
    decreases episodes.len(),
{
    if episodes.len() > 0 {
        let before = episodes.drop_last();
        episodes_are_ordered(before);
        placing_keeps_dated(crate::tui::browser::by_date(before), episodes.last(), 0);
        assert(episodes =~= before.push(episodes.last()));
        vstd::seq_lib::to_multiset_build(before, episodes.last());
    } else {
        assert(episodes =~= Seq::<EpisodeView>::empty());
    }
}

/// A list that is in order already is left as it is, so that episodes of one
/// date, and undated ones, keep the order they had.
pub proof fn ordered_list_is_kept(episodes: Seq<EpisodeView>)
    requires
        dated(episodes),
    ensures
        crate::tui::browser::by_date(episodes) == episodes,
    decreases episodes.len(),
{
    if episodes.len() > 0 {
        let before = episodes.drop_last();
        assert(dated(before));
        ordered_list_is_kept(before);
        last_stays_last(before, episodes.last(), 0);
        assert(before.insert(before.len() as int, episodes.last()) =~= episodes);
    } else {
        assert(episodes =~= Seq::<EpisodeView>::empty());
    }
}

proof fn last_stays_last(sorted: Seq<EpisodeView>, episode: EpisodeView, at: int)
    requires
        0 <= at <= sorted.len(),
        forall|i: int|
            0 <= i < sorted.len() ==> !crate::tui::browser::newer(
                episode.published,
                (#[trigger] sorted[i]).published,
            ),
    ensures
        crate::tui::browser::placed(sorted, episode, at) == sorted.insert(
            sorted.len() as int,
            episode,
        ),
    decreases sorted.len() - at,
{
    if at < sorted.len() {
        last_stays_last(sorted, episode, at + 1);
    }
}

} // verus!
