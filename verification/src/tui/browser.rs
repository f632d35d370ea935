//! The on-demand browser: a Files tab over one directory at a time, a Podcasts
//! tab over the subscriptions and a feed's episodes, and a Radio tab over the
//! saved stations.
//!
//! The visible list is always the answer to the latest request: moving
//! elsewhere empties the list, and an answer for anywhere else is dropped.

use crate::application::browse::{BrowseRequest, BrowseResult, DirEntry, DirView, EntryKind,
    RequestView, ResultView};
use crate::application::command::{EnqueueItem, ItemView};
use crate::application::view::{QueueRow, RowView};
use crate::library::{EpisodeCandidate, EpisodeView, FeedSummary, FeedView, StationRow,
    StationRowView};
use crate::media::{MediaId, MediaKey};
use crate::path::{parent, same_path};
use crate::playlist::PlaylistId;
use crate::queue::QueueEntryId;
use crate::text::{chars_of, control, pop_char, push_char, same_text, trim_text};
use crate::tui::keys::{blocks_ordinary_bindings, KeyCode, KeyEvent, KeyKind};
use std::collections::BTreeSet;
use vstd::prelude::*;

verus! {

broadcast use crate::model::group_model;

#[derive(Clone, Copy, Debug, PartialEq, Eq, Structural)]
pub enum BrowserTab {
    Files,
    Podcasts,
    Radio,
}

#[derive(Clone, Copy, Debug, PartialEq, Eq, Structural)]
pub enum NoticeKind {
    /// A change is under way.
    Working,
    Done,
    Failed,
}

/// The progress or the outcome of a change, kept until the next key that
/// changes what is shown.
#[derive(Debug, PartialEq, Eq)]
pub struct Notice {
    pub text: String,
    pub kind: NoticeKind,
}

#[verifier::ext_equal]
pub struct NoticeView {
    pub text: Seq<char>,
    pub kind: NoticeKind,
}

impl View for Notice {
    type V = NoticeView;

    open spec fn view(&self) -> NoticeView {
        NoticeView { text: self.text@, kind: self.kind }
    }
}

/// A media that the queue holds, and the entry that it is.
#[derive(Debug, PartialEq, Eq)]
pub struct QueuedMedia {
    pub media: MediaId,
    pub id: QueueEntryId,
}

#[verifier::ext_equal]
pub struct QueuedView {
    pub media: MediaKey,
    pub id: QueueEntryId,
}

impl View for QueuedMedia {
    type V = QueuedView;

    open spec fn view(&self) -> QueuedView {
        QueuedView { media: self.media@, id: self.id }
    }
}

/// A feed whose episodes are shown.
#[derive(Debug, PartialEq, Eq)]
pub struct OpenFeed {
    pub slug: String,
    pub episodes: Vec<EpisodeCandidate>,
}

#[verifier::ext_equal]
pub struct OpenView {
    pub slug: Seq<char>,
    pub episodes: Seq<EpisodeView>,
}

impl View for OpenFeed {
    type V = OpenView;

    open spec fn view(&self) -> OpenView {
        OpenView { slug: self.slug@, episodes: crate::model::seq(self.episodes@) }
    }
}

#[derive(Debug)]
pub struct BrowserState {
    pub tab: BrowserTab,
    /// The directory that the Files tab shows; absolute.
    pub cwd: String,
    pub entries: Vec<DirEntry>,
    pub feeds: Vec<FeedSummary>,
    /// The feed being viewed; `None` while the Podcasts tab lists the feeds.
    pub episodes: Option<OpenFeed>,
    pub stations: Vec<StationRow>,
    /// A row of the visible list.
    pub cursor: usize,
    /// Rows of the visible list, only ever of those that can be marked.
    pub marked: BTreeSet<usize>,
    /// The playlist that everything added here is for, settled when the
    /// browser opened.
    pub dest: PlaylistId,
    /// Whether the visible list still waits for its answer.
    pub loading: bool,
    /// Why the visible list could not be read.
    pub error: Option<String>,
    /// The address being typed.
    pub prompt: Option<String>,
    /// The slug whose removal waits for a `y`.
    pub confirm: Option<String>,
    /// The change under way: it blocks another one and identifies its answer.
    pub pending: Option<BrowseRequest>,
    pub notice: Option<Notice>,
    /// What the queue holds, in its order.
    pub queued: Vec<QueuedMedia>,
}

#[verifier::ext_equal]
pub struct BrowserView {
    pub tab: BrowserTab,
    pub cwd: Seq<char>,
    pub entries: Seq<DirView>,
    pub feeds: Seq<FeedView>,
    pub episodes: Option<OpenView>,
    pub stations: Seq<StationRowView>,
    pub cursor: usize,
    pub marked: Set<usize>,
    pub dest: PlaylistId,
    pub loading: bool,
    pub error: Option<Seq<char>>,
    pub prompt: Option<Seq<char>>,
    pub confirm: Option<Seq<char>>,
    pub pending: Option<RequestView>,
    pub notice: Option<NoticeView>,
    pub queued: Seq<QueuedView>,
}

impl View for BrowserState {
    type V = BrowserView;

    open spec fn view(&self) -> BrowserView {
        BrowserView {
            tab: self.tab,
            cwd: self.cwd@,
            entries: crate::model::seq(self.entries@),
            feeds: crate::model::seq(self.feeds@),
            episodes: crate::model::opt(self.episodes),
            stations: crate::model::seq(self.stations@),
            cursor: self.cursor,
            marked: self.marked@,
            dest: self.dest,
            loading: self.loading,
            error: crate::model::opt(self.error),
            prompt: crate::model::opt(self.prompt),
            confirm: crate::model::opt(self.confirm),
            pending: crate::model::opt(self.pending),
            notice: crate::model::opt(self.notice),
            queued: crate::model::seq(self.queued@),
        }
    }
}

#[derive(Debug, PartialEq, Eq)]
pub enum BrowserEffect {
    Request(BrowseRequest),
    Enqueue { dest: PlaylistId, items: Vec<EnqueueItem> },
    /// A row that is already queued is taken out again.
    Remove(QueueEntryId),
    Close,
}

#[verifier::ext_equal]
pub enum BrowserEffectView {
    Request(RequestView),
    Enqueue { dest: PlaylistId, items: Seq<ItemView> },
    Remove(QueueEntryId),
    Close,
}

impl View for BrowserEffect {
    type V = BrowserEffectView;

    open spec fn view(&self) -> BrowserEffectView {
        match *self {
            BrowserEffect::Request(request) => BrowserEffectView::Request(request@),
            BrowserEffect::Enqueue { dest, items } => BrowserEffectView::Enqueue {
                dest,
                items: crate::model::seq(items@),
            },
            BrowserEffect::Remove(id) => BrowserEffectView::Remove(id),
            BrowserEffect::Close => BrowserEffectView::Close,
        }
    }
}

/// The browser after a key, and what it asks for.
pub type Turn = (BrowserView, Option<BrowserEffectView>);

// ---------------------------------------------------------------- the model

/// Whether an episode dated `a` comes before one dated `b`: the newer first, and
/// the undated last.
pub open spec fn newer(a: Option<i128>, b: Option<i128>) -> bool {
    match (a, b) {
        (Some(a), Some(b)) => a > b,
        (Some(_), None) => true,
        (None, _) => false,
    }
}

/// `episode` in front of the first of `sorted` that it is newer than, looking
/// from `at` on.
pub open spec fn placed(sorted: Seq<EpisodeView>, episode: EpisodeView, at: int) -> Seq<EpisodeView>
    decreases sorted.len() - at,
{
    if at >= sorted.len() || newer(episode.published, sorted[at].published) {
        sorted.insert(at, episode)
    } else {
        placed(sorted, episode, at + 1)
    }
}

/// Newest first; episodes of one date, and undated ones, in the order they had.
pub open spec fn by_date(episodes: Seq<EpisodeView>) -> Seq<EpisodeView>
    decreases episodes.len(),
{
    if episodes.len() == 0 {
        Seq::empty()
    } else {
        placed(by_date(episodes.drop_last()), episodes.last(), 0)
    }
}

/// The entry that a media is queued as: the last of them.
pub open spec fn queued_as(queued: Seq<QueuedView>, media: MediaKey) -> Option<QueueEntryId>
    decreases queued.len(),
{
    if queued.len() == 0 {
        None
    } else if queued.last().media == media {
        Some(queued.last().id)
    } else {
        queued_as(queued.drop_last(), media)
    }
}

impl BrowserView {
    /// A Files tab that waits for its listing.
    pub open spec fn fresh(cwd: Seq<char>, dest: PlaylistId) -> BrowserView {
        BrowserView {
            tab: BrowserTab::Files,
            cwd,
            entries: Seq::empty(),
            feeds: Seq::empty(),
            episodes: None,
            stations: Seq::empty(),
            cursor: 0,
            marked: Set::empty(),
            dest,
            loading: true,
            error: None,
            prompt: None,
            confirm: None,
            pending: None,
            notice: None,
            queued: Seq::empty(),
        }
    }

    /// How many rows the visible list has.
    pub open spec fn rows(self) -> nat {
        match self.tab {
            BrowserTab::Files => self.entries.len(),
            BrowserTab::Podcasts => match self.episodes {
                None => self.feeds.len(),
                Some(open) => open.episodes.len(),
            },
            BrowserTab::Radio => self.stations.len(),
        }
    }

    /// What a row would be queued as.
    pub open spec fn media_at(self, at: int) -> Option<MediaKey> {
        if !(0 <= at < self.rows()) {
            None
        } else {
            match self.tab {
                BrowserTab::Files => self.entries[at].media,
                BrowserTab::Podcasts => match self.episodes {
                    None => None,
                    Some(open) => Some(open.episodes[at].media),
                },
                BrowserTab::Radio => Some(self.stations[at].media),
            }
        }
    }

    /// The entry that a row is already queued as.
    pub open spec fn queued_row(self, at: int) -> Option<QueueEntryId> {
        match self.media_at(at) {
            Some(media) => queued_as(self.queued, media),
            None => None,
        }
    }

    /// Whether a row can be queued: an audio file, an episode with an
    /// enclosure, or a station.
    pub open spec fn can_enqueue(self, at: int) -> bool {
        0 <= at < self.rows() && match self.tab {
            BrowserTab::Files => self.entries[at].kind == EntryKind::Audio,
            BrowserTab::Podcasts => self.episodes matches Some(open)
                && open.episodes[at].enclosure is Some,
            BrowserTab::Radio => true,
        }
    }

    /// Whether a row can be marked: what can be queued, and a directory.
    pub open spec fn can_mark(self, at: int) -> bool {
        self.can_enqueue(at) || (self.tab == BrowserTab::Files && 0 <= at < self.entries.len()
            && self.entries[at].kind == EntryKind::Directory)
    }

    /// Whether a change may be asked for.
    pub open spec fn manages(self) -> bool {
        self.tab != BrowserTab::Files && !self.loading && self.pending is None
    }

    /// What a change acts on: the station, the open feed, or the feed.
    pub open spec fn target(self) -> Option<Seq<char>> {
        match self.tab {
            BrowserTab::Radio => if self.cursor < self.stations.len() {
                Some(self.stations[self.cursor as int].slug)
            } else {
                None
            },
            _ => match self.episodes {
                Some(open) => Some(open.slug),
                None => if self.cursor < self.feeds.len() {
                    Some(self.feeds[self.cursor as int].slug)
                } else {
                    None
                },
            },
        }
    }

    /// With a change asked for, and remembered until its answer.
    pub open spec fn submitted(self, request: RequestView) -> Turn {
        (
            BrowserView {
                notice: Some(
                    NoticeView {
                        text: match request {
                            RequestView::Subscribe { .. } => "Subscribing…"@,
                            RequestView::Refresh { .. } => "Refreshing…"@,
                            RequestView::Unsubscribe { .. } => "Removing…"@,
                            RequestView::AddStation { .. } => "Adding…"@,
                            RequestView::RemoveStation { .. } => "Removing…"@,
                            RequestView::ReprobeStation { .. } => "Re-probing…"@,
                            RequestView::CollectTree { .. } => "Adding…"@,
                            _ => "Loading…"@,
                        },
                        kind: NoticeKind::Working,
                    },
                ),
                pending: Some(request),
                ..self
            },
            Some(BrowserEffectView::Request(request)),
        )
    }

    /// A key while an address is typed.
    pub open spec fn prompted(self, key: KeyEvent) -> Turn {
        let typed = self.prompt.unwrap();
        match key.code {
            KeyCode::Esc => (BrowserView { prompt: None, ..self }, None),
            KeyCode::Backspace => (
                BrowserView {
                    prompt: Some(
                        if typed.len() > 0 {
                            typed.drop_last()
                        } else {
                            typed
                        },
                    ),
                    ..self
                },
                None,
            ),
            KeyCode::Enter => {
                let left = BrowserView { prompt: None, ..self };
                let url = crate::text::trim(typed);
                if url.len() == 0 {
                    (left, None)
                } else if self.tab == BrowserTab::Radio {
                    left.submitted(RequestView::AddStation { url })
                } else {
                    left.submitted(RequestView::Subscribe { url })
                }
            },
            KeyCode::Char(c) => if !crate::text::is_control(c) && !key.blocks() {
                (BrowserView { prompt: Some(typed.push(c)), ..self }, None)
            } else {
                (self, None)
            },
            _ => (self, None),
        }
    }

    /// Back at the feed list, on the feed that was left.
    pub open spec fn feed_left(self) -> BrowserView {
        match self.episodes {
            None => self,
            Some(open) => BrowserView {
                episodes: None,
                cursor: match crate::model::position(self.feeds, feed_is(open.slug), 0) {
                    Some(at) => at as usize,
                    None => 0,
                },
                marked: Set::empty(),
                loading: false,
                error: None,
                ..self
            },
        }
    }

    /// With the visible list empty and waiting.
    pub open spec fn waiting(self) -> BrowserView {
        BrowserView {
            notice: None,
            cursor: 0,
            marked: Set::empty(),
            loading: true,
            error: None,
            ..self
        }
    }

    /// The next tab.
    pub open spec fn tab_switched(self) -> Turn {
        let left = self.waiting();
        match self.tab {
            BrowserTab::Files => (
                BrowserView {
                    tab: BrowserTab::Podcasts,
                    episodes: None,
                    feeds: Seq::empty(),
                    ..left
                },
                Some(BrowserEffectView::Request(RequestView::Feeds)),
            ),
            BrowserTab::Podcasts => (
                BrowserView {
                    tab: BrowserTab::Radio,
                    episodes: None,
                    stations: Seq::empty(),
                    ..left
                },
                Some(BrowserEffectView::Request(RequestView::Stations)),
            ),
            BrowserTab::Radio => (
                BrowserView { tab: BrowserTab::Files, entries: Seq::empty(), ..left },
                Some(BrowserEffectView::Request(RequestView::Directory(self.cwd))),
            ),
        }
    }

    pub open spec fn directory_opened(self, path: Seq<char>) -> Turn {
        (
            BrowserView { entries: Seq::empty(), cwd: path, ..self.waiting() },
            Some(BrowserEffectView::Request(RequestView::Directory(path))),
        )
    }

    /// The rows that are acted on: the marked ones, or the one at the cursor.
    pub open spec fn picks(self) -> Set<usize> {
        if self.marked == Set::<usize>::empty() {
            Set::empty().insert(self.cursor)
        } else {
            self.marked
        }
    }

    /// What a row is queued from.
    pub open spec fn item_at(self, at: int) -> ItemView {
        match self.tab {
            BrowserTab::Files => ItemView::Path(self.entries[at].path),
            BrowserTab::Podcasts => ItemView::Episode(self.episodes.unwrap().episodes[at]),
            BrowserTab::Radio => ItemView::Station {
                url: self.stations[at].url,
                title: match self.stations[at].identity {
                    Some(identity) => match identity.name {
                        Some(name) => name,
                        None => self.stations[at].slug,
                    },
                    None => self.stations[at].slug,
                },
            },
        }
    }

    /// What the first `count` rows add: the picked ones that can be queued and
    /// are not, in the order of the list.
    pub open spec fn items(self, count: int) -> Seq<ItemView>
        decreases count,
    {
        if count <= 0 {
            Seq::empty()
        } else {
            let before = self.items(count - 1);
            if self.picks().contains((count - 1) as usize) && self.can_enqueue(count - 1)
                && self.queued_row(count - 1) is None {
                before.push(self.item_at(count - 1))
            } else {
                before
            }
        }
    }

    /// The picked rows among the first `count` that can be marked and are not
    /// queued, files and directories alike.
    pub open spec fn roots(self, count: int) -> Seq<int>
        decreases count,
    {
        if count <= 0 {
            Seq::empty()
        } else {
            let before = self.roots(count - 1);
            if self.picks().contains((count - 1) as usize) && self.can_mark(count - 1)
                && self.queued_row(count - 1) is None {
                before.push(count - 1)
            } else {
                before
            }
        }
    }

    /// The picked rows are queued; one alone that is queued already is taken
    /// out again.
    pub open spec fn selection_enqueued(self) -> Turn {
        let left = BrowserView { marked: Set::empty(), ..self };
        let items = self.items(self.rows() as int);
        if self.marked == Set::<usize>::empty() && self.queued_row(self.cursor as int) is Some {
            (
                self,
                Some(BrowserEffectView::Remove(self.queued_row(self.cursor as int).unwrap())),
            )
        } else {
            (
                left,
                if items.len() == 0 {
                    None
                } else {
                    Some(BrowserEffectView::Enqueue { dest: self.dest, items })
                },
            )
        }
    }

    /// The picked files and directories are added, and nothing is taken out:
    /// with a directory among them by a folder walk, and otherwise at once.
    pub open spec fn selection_added(self) -> Turn {
        let left = BrowserView { marked: Set::empty(), ..self };
        let roots = self.roots(self.rows() as int);
        let paths = roots.map_values(|at: int| self.entries[at].path);
        (
            left,
            if roots.len() == 0 {
                None
            } else if exists|i: int|
                0 <= i < roots.len() && self.entries[#[trigger] roots[i]].kind
                    == EntryKind::Directory {
                Some(
                    BrowserEffectView::Request(
                        RequestView::CollectTree { roots: paths, dest: self.dest },
                    ),
                )
            } else {
                Some(
                    BrowserEffectView::Enqueue {
                        dest: self.dest,
                        items: paths.map_values(|path: Seq<char>| ItemView::Path(path)),
                    },
                )
            },
        )
    }

    /// Enter: a directory or a feed opens, and anything else that can be is
    /// queued.
    pub open spec fn activated(self) -> Turn {
        match self.tab {
            BrowserTab::Files => if self.cursor < self.entries.len() {
                match self.entries[self.cursor as int].kind {
                    EntryKind::Directory => self.directory_opened(
                        self.entries[self.cursor as int].path,
                    ),
                    EntryKind::Audio => if self.marked == Set::<usize>::empty() {
                        self.selection_enqueued()
                    } else {
                        self.selection_added()
                    },
                    EntryKind::Other => (self, None),
                }
            } else {
                (self, None)
            },
            BrowserTab::Podcasts => match self.episodes {
                None => if self.cursor < self.feeds.len() {
                    let slug = self.feeds[self.cursor as int].slug;
                    (
                        BrowserView {
                            episodes: Some(OpenView { slug, episodes: Seq::empty() }),
                            ..self.waiting()
                        },
                        Some(BrowserEffectView::Request(RequestView::Episodes { slug })),
                    )
                } else {
                    (self, None)
                },
                Some(_) => if self.can_enqueue(self.cursor as int) {
                    self.selection_enqueued()
                } else {
                    (self, None)
                },
            },
            BrowserTab::Radio => self.selection_enqueued(),
        }
    }

    /// Back: to the directory above, or to the feed list, which is read again.
    pub open spec fn gone_back(self) -> Turn {
        match self.tab {
            BrowserTab::Files => match crate::path::parent_of(self.cwd) {
                Some(parent) => self.directory_opened(parent),
                None => (self, None),
            },
            BrowserTab::Podcasts => if self.episodes is Some {
                (
                    BrowserView { notice: None, ..self.feed_left() },
                    Some(BrowserEffectView::Request(RequestView::Feeds)),
                )
            } else {
                (self, None)
            },
            BrowserTab::Radio => (self, None),
        }
    }

    /// The mark at the cursor set or taken back.
    pub open spec fn mark_toggled(self) -> BrowserView {
        if !self.can_mark(self.cursor as int) {
            self
        } else if self.marked.contains(self.cursor) {
            BrowserView { marked: self.marked.remove(self.cursor), ..self }
        } else {
            BrowserView { marked: self.marked.insert(self.cursor), ..self }
        }
    }

    /// A refresh of one feed, or a probe of one station.
    pub open spec fn refreshed(self) -> Turn {
        match self.target() {
            None => (self, None),
            Some(slug) => if self.tab == BrowserTab::Radio {
                self.submitted(RequestView::ReprobeStation { slug })
            } else {
                self.submitted(RequestView::Refresh { slug: Some(slug) })
            },
        }
    }

    /// A character while nothing is typed or asked.
    pub open spec fn lettered(self, c: char) -> Turn {
        if c == 'k' {
            (self.moved_up(), None)
        } else if c == 'j' {
            (self.moved_down(), None)
        } else if c == ' ' {
            (self.mark_toggled(), None)
        } else if c == 'b' {
            (self, Some(BrowserEffectView::Close))
        } else if c == 'a' && self.tab == BrowserTab::Files {
            self.selection_added()
        } else if !self.manages() {
            (self, None)
        } else if c == 'a' {
            (BrowserView { notice: None, prompt: Some(Seq::empty()), ..self }, None)
        } else if c == 'r' {
            self.refreshed()
        } else if c == 'R' && self.tab == BrowserTab::Podcasts && self.feeds.len() > 0 {
            self.submitted(RequestView::Refresh { slug: None })
        } else if c == 'd' && self.target() is Some {
            (BrowserView { notice: None, confirm: self.target(), ..self }, None)
        } else {
            (self, None)
        }
    }

    pub open spec fn moved_up(self) -> BrowserView {
        BrowserView {
            cursor: if self.cursor > 0 {
                (self.cursor - 1) as usize
            } else {
                0
            },
            ..self
        }
    }

    pub open spec fn moved_down(self) -> BrowserView {
        BrowserView {
            cursor: if self.cursor + 1 < self.rows() {
                (self.cursor + 1) as usize
            } else {
                self.cursor
            },
            ..self
        }
    }

    /// One key. What is typed and what is asked take every key while they are
    /// up; a chord does nothing.
    pub open spec fn keyed(self, key: KeyEvent) -> Turn {
        if key.kind != KeyKind::Press {
            (self, None)
        } else if self.prompt is Some {
            self.prompted(key)
        } else if self.confirm is Some {
            let slug = self.confirm.unwrap();
            let left = BrowserView { confirm: None, ..self };
            if key.code == KeyCode::Char('y') && !key.blocks() {
                if self.tab == BrowserTab::Radio {
                    left.submitted(RequestView::RemoveStation { slug })
                } else {
                    left.submitted(RequestView::Unsubscribe { slug })
                }
            } else {
                (left, None)
            }
        } else if key.blocks() {
            (self, None)
        } else {
            match key.code {
                KeyCode::Up => (self.moved_up(), None),
                KeyCode::Down => (self.moved_down(), None),
                KeyCode::Tab => self.tab_switched(),
                KeyCode::BackTab => self.tab_switched(),
                KeyCode::Enter => self.activated(),
                KeyCode::Backspace => self.gone_back(),
                KeyCode::Left => self.gone_back(),
                KeyCode::Esc => (self, Some(BrowserEffectView::Close)),
                KeyCode::Char(c) => self.lettered(c),
                _ => (self, None),
            }
        }
    }

    /// With the visible list answered, or why it was not.
    pub open spec fn settled<T>(self, list: Result<Seq<T>, Seq<char>>) -> BrowserView {
        BrowserView {
            loading: false,
            marked: Set::empty(),
            error: match list {
                Ok(_) => None,
                Err(message) => Some(message),
            },
            ..self
        }
    }

    /// The cursor on a row.
    pub open spec fn clamped(self) -> BrowserView {
        BrowserView {
            cursor: if self.cursor < self.rows() {
                self.cursor
            } else if self.rows() > 0 {
                (self.rows() - 1) as usize
            } else {
                0
            },
            ..self
        }
    }

    /// The answer to a change. The episodes of a feed that is gone are left,
    /// and what is shown is read again.
    pub open spec fn changed(self, request: RequestView, outcome: Result<Seq<char>, Seq<char>>) -> (
        BrowserView,
        Option<RequestView>,
    ) {
        let answered = BrowserView { pending: None, ..self };
        let left = match (request, self.episodes) {
            (RequestView::Unsubscribe { slug }, Some(open)) => if open.slug == slug {
                answered.feed_left()
            } else {
                answered
            },
            _ => answered,
        };
        let told = BrowserView {
            notice: Some(
                match outcome {
                    Ok(text) => NoticeView { text, kind: NoticeKind::Done },
                    Err(text) => NoticeView { text, kind: NoticeKind::Failed },
                },
            ),
            ..left
        };
        match self.tab {
            BrowserTab::Files => (told.clamped(), None),
            BrowserTab::Podcasts => (
                (BrowserView { loading: true, ..told }).clamped(),
                Some(
                    match told.episodes {
                        Some(open) => RequestView::Episodes { slug: open.slug },
                        None => RequestView::Feeds,
                    },
                ),
            ),
            BrowserTab::Radio => (
                (BrowserView { loading: true, ..told }).clamped(),
                Some(RequestView::Stations),
            ),
        }
    }

    /// One answer: taken in where it is for the list on screen or for the
    /// change under way, and dropped otherwise.
    pub open spec fn applied(self, result: ResultView) -> (BrowserView, Option<RequestView>) {
        match result {
            ResultView::Directory { path, entries } => if self.tab == BrowserTab::Files
                && crate::path::is_same(path, self.cwd) {
                (
                    (BrowserView { entries: listed(entries), ..self.settled(entries) }).clamped(),
                    None,
                )
            } else {
                (self.clamped(), None)
            },
            ResultView::Feeds(feeds) => if self.tab == BrowserTab::Podcasts && self.episodes
                is None {
                ((BrowserView { feeds: listed(feeds), ..self.settled(feeds) }).clamped(), None)
            } else {
                (self.clamped(), None)
            },
            ResultView::Episodes { slug, episodes } => if self.tab == BrowserTab::Podcasts && (
            self.episodes matches Some(open) && open.slug == slug) {
                (
                    (BrowserView {
                        episodes: Some(OpenView { slug, episodes: by_date(listed(episodes)) }),
                        ..self.settled(episodes)
                    }).clamped(),
                    None,
                )
            } else {
                (self.clamped(), None)
            },
            ResultView::Stations(stations) => if self.tab == BrowserTab::Radio {
                (
                    (BrowserView {
                        stations: listed(stations),
                        ..self.settled(stations)
                    }).clamped(),
                    None,
                )
            } else {
                (self.clamped(), None)
            },
            ResultView::Mutation { request, outcome } => if self.pending == Some(request) {
                self.changed(request, outcome)
            } else {
                (self, None)
            },
            ResultView::TreeCollected { .. } => (self, None),
        }
    }
}

/// The list that was answered; none where there was an error.
pub open spec fn listed<T>(list: Result<Seq<T>, Seq<char>>) -> Seq<T> {
    match list {
        Ok(list) => list,
        Err(_) => Seq::empty(),
    }
}

/// Being the feed `slug`.
pub open spec fn feed_is(slug: Seq<char>) -> spec_fn(FeedView) -> bool {
    |feed: FeedView| feed.slug == slug
}

// ---------------------------------------------------------------- execution

fn is_newer(a: Option<i128>, b: Option<i128>) -> (before: bool)
    ensures
        before == newer(a, b),
{
    match (a, b) {
        (Some(a), Some(b)) => a > b,
        (Some(_), None) => true,
        (None, _) => false,
    }
}

fn place(sorted: &mut Vec<EpisodeCandidate>, episode: EpisodeCandidate)
    ensures
        crate::model::seq(final(sorted)@) == placed(
            crate::model::seq(old(sorted)@),
            episode@,
            0,
        ),
{
    let ghost before = crate::model::seq(sorted@);
    let mut at: usize = 0;
    while at < sorted.len() && !is_newer(episode.published, sorted[at].published)
        invariant
            at <= sorted@.len(),
            before == crate::model::seq(sorted@),
            placed(before, episode@, 0) == placed(before, episode@, at as int),
        decreases sorted@.len() - at,
    {
        assert(before[at as int] == sorted@[at as int]@);
        at += 1;
    }
    proof {
        if at < sorted@.len() {
            assert(before[at as int] == sorted@[at as int]@);
        }
    }
    sorted.insert(at, episode);
}

/// Newest first.
fn sorted_by_date(episodes: Vec<EpisodeCandidate>) -> (sorted: Vec<EpisodeCandidate>)
    ensures
        crate::model::seq(sorted@) == by_date(crate::model::seq(episodes@)),
{
    let ghost given = episodes@;
    let ghost all = crate::model::seq(episodes@);
    let mut sorted: Vec<EpisodeCandidate> = Vec::new();
    assert(all.take(0) =~= Seq::<EpisodeView>::empty());
    for episode in it: episodes
        invariant
            it.seq() == given,
            all == crate::model::seq(given),
            crate::model::seq(sorted@) == by_date(all.take(it.index() as int)),
    {
        let ghost at = it.index() as int;
        assert(all[at] == given[at]@);
        proof {
            assert(all.take(at + 1).drop_last() =~= all.take(at));
        }
        place(&mut sorted, episode);
    }
    proof {
        assert(all.take(all.len() as int) =~= all);
    }
    sorted
}

fn asked(effect: Option<BrowserEffect>) -> (effects: Vec<BrowserEffect>)
    ensures
        crate::model::seq(effects@) == match effect {
            Some(effect) => seq![effect@],
            None => Seq::empty(),
        },
{
    let mut effects: Vec<BrowserEffect> = Vec::new();
    if let Some(effect) = effect {
        effects.push(effect);
        proof {
            assert(crate::model::seq(effects@) =~= seq![effect@]);
        }
    }
    effects
}

impl BrowserState {
    /// A Files tab at `cwd`, waiting for its listing. Everything that is added
    /// here goes to `dest`.
    pub fn new(cwd: String, dest: PlaylistId) -> (browser: Self)
        ensures
            browser@ == BrowserView::fresh(cwd@, dest),
    {
        BrowserState {
            tab: BrowserTab::Files,
            cwd,
            entries: Vec::new(),
            feeds: Vec::new(),
            episodes: None,
            stations: Vec::new(),
            cursor: 0,
            marked: BTreeSet::new(),
            dest,
            loading: true,
            error: None,
            prompt: None,
            confirm: None,
            pending: None,
            notice: None,
            queued: Vec::new(),
        }
    }

    /// Takes note of what the queue holds.
    pub fn sync_queue(&mut self, rows: &Vec<QueueRow>)
        ensures
            final(self)@ == (BrowserView {
                queued: crate::model::seq(rows@).map_values(
                    |row: RowView| QueuedView { media: row.media, id: row.id },
                ),
                ..old(self)@
            }),
    {
        let ghost all = crate::model::seq(rows@).map_values(
            |row: RowView| QueuedView { media: row.media, id: row.id },
        );
        let mut queued: Vec<QueuedMedia> = Vec::new();
        let mut at: usize = 0;
        while at < rows.len()
            invariant
                at <= rows@.len(),
                all == crate::model::seq(rows@).map_values(
                    |row: RowView| QueuedView { media: row.media, id: row.id },
                ),
                crate::model::seq(queued@) == all.take(at as int),
            decreases rows@.len() - at,
        {
            assert(crate::model::seq(rows@)[at as int] == rows@[at as int]@);
            queued.push(QueuedMedia { media: rows[at].media.clone(), id: rows[at].id });
            at += 1;
            proof {
                assert(crate::model::seq(queued@) =~= all.take(at as int));
            }
        }
        proof {
            assert(all.take(at as int) =~= all);
        }
        self.queued = queued;
    }

    fn queued_entry(&self, media: &MediaId) -> (id: Option<QueueEntryId>)
        ensures
            id == queued_as(self@.queued, media@),
    {
        let mut left: usize = self.queued.len();
        proof {
            assert(self@.queued.take(left as int) =~= self@.queued);
        }
        while left > 0
            invariant
                left <= self.queued@.len(),
                queued_as(self@.queued, media@) == queued_as(
                    self@.queued.take(left as int),
                    media@,
                ),
            decreases left,
        {
            let ghost shown = self@.queued.take(left as int);
            assert(shown.last() == self.queued@[left - 1]@);
            assert(shown.drop_last() =~= self@.queued.take(left - 1));
            if self.queued[left - 1].media.same(media) {
                return Some(self.queued[left - 1].id);
            }
            left -= 1;
        }
        None
    }

    /// The entry that a row is already queued as.
    pub fn queued_at(&self, index: usize) -> (id: Option<QueueEntryId>)
        ensures
            id == self@.queued_row(index as int),
    {
        if index >= self.len() {
            return None;
        }
        match self.tab {
            BrowserTab::Files => {
                assert(self@.entries[index as int] == self.entries@[index as int]@);
                match &self.entries[index].media {
                    Some(media) => self.queued_entry(media),
                    None => None,
                }
            },
            BrowserTab::Podcasts => match &self.episodes {
                None => None,
                Some(open) => {
                    assert(open@.episodes[index as int] == open.episodes@[index as int]@);
                    self.queued_entry(&open.episodes[index].media)
                },
            },
            BrowserTab::Radio => {
                assert(self@.stations[index as int] == self.stations@[index as int]@);
                self.queued_entry(&self.stations[index].media)
            },
        }
    }

    /// How many rows the visible list has.
    pub fn len(&self) -> (len: usize)
        ensures
            len == self@.rows(),
    {
        match self.tab {
            BrowserTab::Files => self.entries.len(),
            BrowserTab::Podcasts => match &self.episodes {
                None => self.feeds.len(),
                Some(open) => open.episodes.len(),
            },
            BrowserTab::Radio => self.stations.len(),
        }
    }

    pub fn is_empty(&self) -> (empty: bool)
        ensures
            empty == (self@.rows() == 0),
    {
        self.len() == 0
    }

    /// Whether a row can be queued.
    pub fn enqueueable(&self, index: usize) -> (can: bool)
        ensures
            can == self@.can_enqueue(index as int),
    {
        if index >= self.len() {
            return false;
        }
        match self.tab {
            BrowserTab::Files => {
                assert(self@.entries[index as int] == self.entries@[index as int]@);
                self.entries[index].kind == EntryKind::Audio
            },
            BrowserTab::Podcasts => match &self.episodes {
                None => false,
                Some(open) => {
                    assert(open@.episodes[index as int] == open.episodes@[index as int]@);
                    open.episodes[index].enclosure.is_some()
                },
            },
            BrowserTab::Radio => true,
        }
    }

    /// Whether a row can be marked.
    pub fn markable(&self, index: usize) -> (can: bool)
        ensures
            can == self@.can_mark(index as int),
    {
        if self.enqueueable(index) {
            return true;
        }
        if self.tab == BrowserTab::Files && index < self.entries.len() {
            assert(self@.entries[index as int] == self.entries@[index as int]@);
            self.entries[index].kind == EntryKind::Directory
        } else {
            false
        }
    }

    fn can_manage(&self) -> (can: bool)
        ensures
            can == self@.manages(),
    {
        self.tab != BrowserTab::Files && !self.loading && self.pending.is_none()
    }

    fn target_slug(&self) -> (slug: Option<String>)
        ensures
            crate::model::opt(slug) == self@.target(),
    {
        if self.tab == BrowserTab::Radio {
            return if self.cursor < self.stations.len() {
                assert(self@.stations[self.cursor as int] == self.stations@[self.cursor as int]@);
                Some(self.stations[self.cursor].slug.clone())
            } else {
                None
            };
        }
        match &self.episodes {
            Some(open) => Some(open.slug.clone()),
            None => if self.cursor < self.feeds.len() {
                assert(self@.feeds[self.cursor as int] == self.feeds@[self.cursor as int]@);
                Some(self.feeds[self.cursor].slug.clone())
            } else {
                None
            },
        }
    }

    /// Sends a change, and remembers it until its answer comes.
    fn submit(&mut self, request: BrowseRequest) -> (effect: Option<BrowserEffect>)
        ensures
            (final(self)@, crate::model::opt(effect)) == old(self)@.submitted(request@),
    {
        let text = match &request {
            BrowseRequest::Subscribe { .. } => "Subscribing…",
            BrowseRequest::Refresh { .. } => "Refreshing…",
            BrowseRequest::Unsubscribe { .. } => "Removing…",
            BrowseRequest::AddStation { .. } => "Adding…",
            BrowseRequest::RemoveStation { .. } => "Removing…",
            BrowseRequest::ReprobeStation { .. } => "Re-probing…",
            BrowseRequest::CollectTree { .. } => "Adding…",
            BrowseRequest::Directory(_) | BrowseRequest::Feeds | BrowseRequest::Episodes { .. }
            | BrowseRequest::Stations => "Loading…",
        };
        self.notice = Some(Notice { text: text.to_owned(), kind: NoticeKind::Working });
        self.pending = Some(request.clone());
        Some(BrowserEffect::Request(request))
    }

    fn prompt_key(&mut self, key: KeyEvent, typed: String) -> (effect: Option<BrowserEffect>)
        requires
            old(self)@.prompt is None,
        ensures
            (final(self)@, crate::model::opt(effect)) == (BrowserView {
                prompt: Some(typed@),
                ..old(self)@
            }).prompted(key),
    {
        let mut typed = typed;
        match key.code {
            KeyCode::Esc => None,
            KeyCode::Backspace => {
                pop_char(&mut typed);
                self.prompt = Some(typed);
                None
            },
            KeyCode::Enter => {
                let url = trim_text(typed.as_str());
                if chars_of(url.as_str()).len() == 0 {
                    None
                } else if self.tab == BrowserTab::Radio {
                    self.submit(BrowseRequest::AddStation { url })
                } else {
                    self.submit(BrowseRequest::Subscribe { url })
                }
            },
            KeyCode::Char(c) => {
                if !control(c) && !blocks_ordinary_bindings(&key) {
                    push_char(&mut typed, c);
                }
                self.prompt = Some(typed);
                None
            },
            _ => {
                self.prompt = Some(typed);
                None
            },
        }
    }

    fn feed_place(&self, slug: &str) -> (at: usize)
        ensures
            at == match crate::model::position(self@.feeds, feed_is(slug@), 0) {
                Some(at) => at,
                None => 0,
            },
    {
        let ghost wanted = feed_is(slug@);
        let mut at: usize = 0;
        while at < self.feeds.len()
            invariant
                at <= self.feeds@.len(),
                wanted == feed_is(slug@),
                crate::model::position(self@.feeds, wanted, 0) == crate::model::position(
                    self@.feeds,
                    wanted,
                    at as int,
                ),
            decreases self.feeds@.len() - at,
        {
            assert(self@.feeds[at as int] == self.feeds@[at as int]@);
            if same_text(self.feeds[at].slug.as_str(), slug) {
                return at;
            }
            at += 1;
        }
        0
    }

    /// Returns to the feed list, on the feed that was left.
    fn leave_episodes(&mut self)
        ensures
            final(self)@ == old(self)@.feed_left(),
    {
        if let Some(open) = &self.episodes {
            let at = self.feed_place(open.slug.as_str());
            self.episodes = None;
            self.cursor = at;
            self.marked.clear();
            self.loading = false;
            self.error = None;
        }
    }

    /// Marks the visible list as waiting.
    fn start_loading(&mut self)
        ensures
            final(self)@ == old(self)@.waiting(),
    {
        self.notice = None;
        self.cursor = 0;
        self.marked.clear();
        self.loading = true;
        self.error = None;
    }

    /// Files, Podcasts, Radio, and Files again.
    fn switch_tab(&mut self) -> (effect: Option<BrowserEffect>)
        ensures
            (final(self)@, crate::model::opt(effect)) == old(self)@.tab_switched(),
    {
        self.start_loading();
        let request = match self.tab {
            BrowserTab::Files => {
                self.tab = BrowserTab::Podcasts;
                self.episodes = None;
                self.feeds = Vec::new();
                BrowseRequest::Feeds
            },
            BrowserTab::Podcasts => {
                self.tab = BrowserTab::Radio;
                self.episodes = None;
                self.stations = Vec::new();
                BrowseRequest::Stations
            },
            BrowserTab::Radio => {
                self.tab = BrowserTab::Files;
                self.entries = Vec::new();
                BrowseRequest::Directory(self.cwd.clone())
            },
        };
        Some(BrowserEffect::Request(request))
    }

    fn activate(&mut self) -> (effect: Option<BrowserEffect>)
        ensures
            (final(self)@, crate::model::opt(effect)) == old(self)@.activated(),
    {
        match self.tab {
            BrowserTab::Files => {
                if self.cursor >= self.entries.len() {
                    return None;
                }
                assert(self@.entries[self.cursor as int] == self.entries@[self.cursor as int]@);
                match self.entries[self.cursor].kind {
                    EntryKind::Directory => {
                        let path = self.entries[self.cursor].path.clone();
                        self.open_directory(path)
                    },
                    EntryKind::Audio => if self.marked.is_empty() {
                        self.enqueue_selection()
                    } else {
                        self.add_selection()
                    },
                    EntryKind::Other => None,
                }
            },
            BrowserTab::Podcasts => {
                if self.episodes.is_some() {
                    return if self.enqueueable(self.cursor) {
                        self.enqueue_selection()
                    } else {
                        None
                    };
                }
                if self.cursor >= self.feeds.len() {
                    return None;
                }
                assert(self@.feeds[self.cursor as int] == self.feeds@[self.cursor as int]@);
                let slug = self.feeds[self.cursor].slug.clone();
                self.start_loading();
                self.episodes = Some(OpenFeed { slug: slug.clone(), episodes: Vec::new() });
                Some(BrowserEffect::Request(BrowseRequest::Episodes { slug }))
            },
            BrowserTab::Radio => self.enqueue_selection(),
        }
    }

    fn open_directory(&mut self, path: String) -> (effect: Option<BrowserEffect>)
        ensures
            (final(self)@, crate::model::opt(effect)) == old(self)@.directory_opened(path@),
    {
        self.start_loading();
        self.entries = Vec::new();
        self.cwd = path.clone();
        Some(BrowserEffect::Request(BrowseRequest::Directory(path)))
    }

    fn picked(&self, index: usize) -> (picked: bool)
        ensures
            picked == self@.picks().contains(index),
    {
        if self.marked.is_empty() {
            index == self.cursor
        } else {
            self.marked.contains(&index)
        }
    }

    fn item(&self, index: usize) -> (item: EnqueueItem)
        requires
            self@.can_enqueue(index as int),
        ensures
            item@ == self@.item_at(index as int),
    {
        match self.tab {
            BrowserTab::Files => {
                assert(self@.entries[index as int] == self.entries@[index as int]@);
                EnqueueItem::Path(self.entries[index].path.clone())
            },
            BrowserTab::Podcasts => match &self.episodes {
                Some(open) => {
                    assert(open@.episodes[index as int] == open.episodes@[index as int]@);
                    EnqueueItem::Episode(open.episodes[index].clone())
                },
                None => EnqueueItem::Path(String::new()),
            },
            BrowserTab::Radio => {
                let station = &self.stations[index];
                assert(self@.stations[index as int] == self.stations@[index as int]@);
                let title = match &station.identity {
                    Some(identity) => match &identity.name {
                        Some(name) => name.clone(),
                        None => station.slug.clone(),
                    },
                    None => station.slug.clone(),
                };
                EnqueueItem::Station { url: station.url.as_str().to_owned(), title }
            },
        }
    }

    /// Queues the picked rows, in the order of the list; the marks go.
    fn enqueue_selection(&mut self) -> (effect: Option<BrowserEffect>)
        ensures
            (final(self)@, crate::model::opt(effect)) == old(self)@.selection_enqueued(),
    {
        if self.marked.is_empty() {
            if let Some(id) = self.queued_at(self.cursor) {
                return Some(BrowserEffect::Remove(id));
            }
        }
        let mut items: Vec<EnqueueItem> = Vec::new();
        let mut at: usize = 0;
        let count: usize = self.len();
        while at < count
            invariant
                at <= count == self@.rows(),
                self@ == old(self)@,
                crate::model::seq(items@) == self@.items(at as int),
            decreases count - at,
        {
            if self.picked(at) && self.enqueueable(at) && self.queued_at(at).is_none() {
                items.push(self.item(at));
            }
            at += 1;
        }
        self.marked.clear();
        if items.len() == 0 {
            None
        } else {
            Some(BrowserEffect::Enqueue { dest: self.dest, items })
        }
    }

    /// Adds the picked files and directories.
    fn add_selection(&mut self) -> (effect: Option<BrowserEffect>)
        requires
            old(self)@.tab == BrowserTab::Files,
        ensures
            (final(self)@, crate::model::opt(effect)) == old(self)@.selection_added(),
    {
        let ghost before = self@;
        let mut roots: Vec<String> = Vec::new();
        let mut folder: bool = false;
        let mut at: usize = 0;
        let count: usize = self.entries.len();
        while at < count
            invariant
                at <= count == self.entries@.len(),
                self@ == before,
                before.tab == BrowserTab::Files,
                crate::model::seq(roots@) == before.roots(at as int).map_values(
                    |at: int| before.entries[at].path,
                ),
                folder == exists|i: int|
                    0 <= i < before.roots(at as int).len() && before.entries[#[trigger] before.roots(
                        at as int,
                    )[i]].kind == EntryKind::Directory,
            decreases count - at,
        {
            let ghost chosen = before.roots(at as int);
            if self.picked(at) && self.markable(at) && self.queued_at(at).is_none() {
                assert(before.entries[at as int] == self.entries@[at as int]@);
                let ghost wider = before.roots(at + 1);
                assert(wider == chosen.push(at as int));
                let ghost was = folder;
                if self.entries[at].kind == EntryKind::Directory {
                    folder = true;
                    assert(wider[chosen.len() as int] == at);
                }
                proof {
                    if was {
                        let i = choose|i: int|
                            0 <= i < chosen.len() && before.entries[#[trigger] chosen[i]].kind
                                == EntryKind::Directory;
                        assert(wider[i] == chosen[i]);
                    }
                    if exists|i: int|
                        0 <= i < wider.len() && before.entries[#[trigger] wider[i]].kind
                            == EntryKind::Directory {
                        let i = choose|i: int|
                            0 <= i < wider.len() && before.entries[#[trigger] wider[i]].kind
                                == EntryKind::Directory;
                        if i < chosen.len() {
                            assert(chosen[i] == wider[i]);
                        }
                    }
                }
                roots.push(self.entries[at].path.clone());
                proof {
                    assert(crate::model::seq(roots@) =~= wider.map_values(
                        |at: int| before.entries[at].path,
                    ));
                }
            }
            at += 1;
        }
        self.marked.clear();
        if roots.len() == 0 {
            return None;
        }
        if folder {
            return Some(
                BrowserEffect::Request(BrowseRequest::CollectTree { roots, dest: self.dest }),
            );
        }
        let ghost paths = crate::model::seq(roots@);
        let ghost given = roots@;
        let mut items: Vec<EnqueueItem> = Vec::new();
        for path in it: roots
            invariant
                it.seq() == given,
                paths == crate::model::seq(given),
                crate::model::seq(items@) == paths.take(it.index() as int).map_values(
                    |path: Seq<char>| ItemView::Path(path),
                ),
        {
            let ghost next = it.index() as int;
            assert(paths[next] == given[next]@);
            items.push(EnqueueItem::Path(path));
            proof {
                assert(crate::model::seq(items@) =~= paths.take(next + 1).map_values(
                    |path: Seq<char>| ItemView::Path(path),
                ));
            }
        }
        proof {
            assert(paths.take(paths.len() as int) =~= paths);
        }
        Some(BrowserEffect::Enqueue { dest: self.dest, items })
    }

    fn back(&mut self) -> (effect: Option<BrowserEffect>)
        ensures
            (final(self)@, crate::model::opt(effect)) == old(self)@.gone_back(),
    {
        match self.tab {
            BrowserTab::Files => match parent(self.cwd.as_str()) {
                Some(above) => self.open_directory(above),
                None => None,
            },
            BrowserTab::Podcasts => {
                if self.episodes.is_none() {
                    return None;
                }
                self.leave_episodes();
                self.notice = None;
                Some(BrowserEffect::Request(BrowseRequest::Feeds))
            },
            BrowserTab::Radio => None,
        }
    }

    /// One key.
    pub fn handle_key(&mut self, key: KeyEvent) -> (effects: Vec<BrowserEffect>)
        ensures
            final(self)@ == old(self)@.keyed(key).0,
            crate::model::seq(effects@) == match old(self)@.keyed(key).1 {
                Some(effect) => seq![effect],
                None => Seq::empty(),
            },
    {
        asked(self.react(key))
    }

    fn react(&mut self, key: KeyEvent) -> (effect: Option<BrowserEffect>)
        ensures
            (final(self)@, crate::model::opt(effect)) == old(self)@.keyed(key),
    {
        if key.kind != KeyKind::Press {
            return None;
        }
        let prompt = self.prompt.take();
        if let Some(typed) = prompt {
            return self.prompt_key(key, typed);
        }
        let confirm = self.confirm.take();
        if let Some(slug) = confirm {
            return if key.code == KeyCode::Char('y') && !blocks_ordinary_bindings(&key) {
                if self.tab == BrowserTab::Radio {
                    self.submit(BrowseRequest::RemoveStation { slug })
                } else {
                    self.submit(BrowseRequest::Unsubscribe { slug })
                }
            } else {
                None
            };
        }
        assert(self@ == old(self)@);
        if blocks_ordinary_bindings(&key) {
            return None;
        }
        match key.code {
            KeyCode::Up => {
                self.cursor = self.cursor.saturating_sub(1);
                None
            },
            KeyCode::Down => {
                self.move_down();
                None
            },
            KeyCode::Tab | KeyCode::BackTab => self.switch_tab(),
            KeyCode::Enter => self.activate(),
            KeyCode::Backspace | KeyCode::Left => self.back(),
            KeyCode::Esc => Some(BrowserEffect::Close),
            KeyCode::Char(c) => self.letter(c),
            _ => None,
        }
    }

    fn move_down(&mut self)
        ensures
            final(self)@ == old(self)@.moved_down(),
    {
        let rows: usize = self.len();
        if rows > 0 && self.cursor < rows - 1 {
            self.cursor = self.cursor + 1;
        }
    }

    fn letter(&mut self, c: char) -> (effect: Option<BrowserEffect>)
        ensures
            (final(self)@, crate::model::opt(effect)) == old(self)@.lettered(c),
    {
        if c == 'k' {
            self.cursor = self.cursor.saturating_sub(1);
            return None;
        }
        if c == 'j' {
            self.move_down();
            return None;
        }
        if c == ' ' {
            self.toggle_mark();
            return None;
        }
        if c == 'b' {
            return Some(BrowserEffect::Close);
        }
        if c == 'a' && self.tab == BrowserTab::Files {
            return self.add_selection();
        }
        if !self.can_manage() {
            return None;
        }
        if c == 'a' {
            self.notice = None;
            self.prompt = Some(String::new());
            return None;
        }
        if c == 'r' {
            return match self.target_slug() {
                Some(slug) => if self.tab == BrowserTab::Radio {
                    self.submit(BrowseRequest::ReprobeStation { slug })
                } else {
                    self.submit(BrowseRequest::Refresh { slug: Some(slug) })
                },
                None => None,
            };
        }
        if c == 'R' && self.tab == BrowserTab::Podcasts && self.feeds.len() > 0 {
            return self.submit(BrowseRequest::Refresh { slug: None });
        }
        if c == 'd' {
            if let Some(slug) = self.target_slug() {
                self.notice = None;
                self.confirm = Some(slug);
            }
        }
        None
    }

    fn toggle_mark(&mut self)
        ensures
            final(self)@ == old(self)@.mark_toggled(),
    {
        if self.markable(self.cursor) {
            if self.marked.contains(&self.cursor) {
                let at: usize = self.cursor;
                let _ = self.marked.remove(&at);
            } else {
                let _ = self.marked.insert(self.cursor);
            }
        }
    }

    /// Ends the waiting of the visible list.
    fn settle<T: View>(&mut self, list: Result<Vec<T>, String>) -> (shown: Vec<T>)
        ensures
            final(self)@ == old(self)@.settled(crate::application::browse::listing(list)),
            crate::model::seq(shown@) == listed(crate::application::browse::listing(list)),
    {
        self.loading = false;
        self.marked.clear();
        match list {
            Ok(shown) => {
                self.error = None;
                shown
            },
            Err(message) => {
                self.error = Some(message);
                Vec::new()
            },
        }
    }

    fn clamp(&mut self)
        ensures
            final(self)@ == old(self)@.clamped(),
    {
        let rows: usize = self.len();
        if self.cursor >= rows {
            self.cursor = rows.saturating_sub(1);
        }
    }

    /// Takes in an answer, or drops it. Says what is to be read next.
    pub fn apply(&mut self, result: BrowseResult) -> (follow_up: Option<BrowseRequest>)
        ensures
            (final(self)@, crate::model::opt(follow_up)) == old(self)@.applied(result@),
    {
        match result {
            BrowseResult::Directory { path, entries } => {
                if self.tab == BrowserTab::Files && same_path(path.as_str(), self.cwd.as_str()) {
                    let shown = self.settle(entries);
                    self.entries = shown;
                }
                self.clamp();
                None
            },
            BrowseResult::Feeds(feeds) => {
                if self.tab == BrowserTab::Podcasts && self.episodes.is_none() {
                    let shown = self.settle(feeds);
                    self.feeds = shown;
                }
                self.clamp();
                None
            },
            BrowseResult::Episodes { slug, episodes } => {
                let viewing: bool = match &self.episodes {
                    Some(open) => same_text(open.slug.as_str(), slug.as_str()),
                    None => false,
                };
                if self.tab == BrowserTab::Podcasts && viewing {
                    let shown = self.settle(episodes);
                    self.episodes = Some(OpenFeed { slug, episodes: sorted_by_date(shown) });
                }
                self.clamp();
                None
            },
            BrowseResult::Stations(stations) => {
                if self.tab == BrowserTab::Radio {
                    let shown = self.settle(stations);
                    self.stations = shown;
                }
                self.clamp();
                None
            },
            BrowseResult::Mutation { request, outcome } => {
                let awaited: bool = match &self.pending {
                    Some(pending) => pending.same(&request),
                    None => false,
                };
                if !awaited {
                    return None;
                }
                self.change(request, outcome)
            },
            BrowseResult::TreeCollected(_) => None,
        }
    }

    fn change(&mut self, request: BrowseRequest, outcome: Result<String, String>) -> (follow_up:
        Option<BrowseRequest>)
        ensures
            (final(self)@, crate::model::opt(follow_up)) == old(self)@.changed(
                request@,
                match outcome {
                    Ok(text) => Ok(text@),
                    Err(text) => Err(text@),
                },
            ),
    {
        self.pending = None;
        if let BrowseRequest::Unsubscribe { slug } = &request {
            let gone: bool = match &self.episodes {
                Some(open) => same_text(open.slug.as_str(), slug.as_str()),
                None => false,
            };
            if gone {
                self.leave_episodes();
            }
        }
        self.notice = Some(
            match outcome {
                Ok(text) => Notice { text, kind: NoticeKind::Done },
                Err(text) => Notice { text, kind: NoticeKind::Failed },
            },
        );
        let follow_up = match self.tab {
            BrowserTab::Podcasts => {
                self.loading = true;
                Some(
                    match &self.episodes {
                        Some(open) => BrowseRequest::Episodes { slug: open.slug.clone() },
                        None => BrowseRequest::Feeds,
                    },
                )
            },
            BrowserTab::Radio => {
                self.loading = true;
                Some(BrowseRequest::Stations)
            },
            BrowserTab::Files => None,
        };
        self.clamp();
        follow_up
    }
}

} // verus!
