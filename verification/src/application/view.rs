//! What a front end draws from: queue rows, what is playing, the transport
//! phase and the status line. Every text here is already safe to print.

use crate::application::transport::PlaybackPhase;
use crate::clock::Duration;
use crate::media::{display_name, episode_name, stated_text, MediaId, MediaKey, SeekSupport};
use crate::persistence::model::{PersistedCheckpoint, PersistedState, StateView};
use crate::playback::{LoadRequestId, PlaybackState, Volume};
use crate::playlist::{PlaylistId, PlaylistView};
use crate::queue::{DisplayDuration, EntryView, QueueEntry, QueueEntryId};
use crate::text::{displayable, push_char, push_text, push_two_digits};
use vstd::prelude::*;

verus! {

broadcast use crate::model::group_model;

/// What listening history says about a media, as a row shows it.
#[derive(Clone, Copy, Debug, PartialEq, Eq, Structural)]
pub enum SavedHistory {
    Position { at: Duration, estimated: bool },
    Played,
    Unknown,
}

/// A completed media was played; else an estimate stands before an established
/// position; else the position is not known.
pub open spec fn history_of(entry: Option<PersistedCheckpoint>) -> Option<SavedHistory> {
    match entry {
        None => None,
        Some(entry) => Some(
            if entry.completed {
                SavedHistory::Played
            } else {
                match (entry.estimated, entry.position) {
                    (Some(at), _) => SavedHistory::Position { at, estimated: true },
                    (None, Some(at)) => SavedHistory::Position { at, estimated: false },
                    (None, None) => SavedHistory::Unknown,
                }
            },
        ),
    }
}

pub fn saved_history(entry: Option<&PersistedCheckpoint>) -> (history: Option<SavedHistory>)
    ensures
        history == history_of(
            match entry {
                Some(entry) => Some(*entry),
                None => None,
            },
        ),
{
    let entry = match entry {
        Some(entry) => entry,
        None => return None,
    };
    if entry.completed {
        return Some(SavedHistory::Played);
    }
    if let Some(at) = entry.estimated {
        return Some(SavedHistory::Position { at, estimated: true });
    }
    if let Some(at) = entry.position {
        return Some(SavedHistory::Position { at, estimated: false });
    }
    Some(SavedHistory::Unknown)
}

impl SavedHistory {
    /// `12:34 saved`, with a mark in front of an estimate; the minutes take as
    /// many digits as they need.
    pub open spec fn label(self) -> Seq<char> {
        match self {
            SavedHistory::Position { at, estimated } => {
                let secs = at.secs_spec() as nat;
                let mark: Seq<char> = if estimated {
                    seq!['~']
                } else {
                    seq![]
                };
                mark + crate::text::two_digits(secs / 60) + seq![':'] + crate::text::two_digits(
                    secs % 60,
                ) + " saved"@
            },
            SavedHistory::Played => "played"@,
            SavedHistory::Unknown => "position unknown"@,
        }
    }
}

pub fn format_saved(history: SavedHistory) -> (label: String)
    ensures
        label@ == history.label(),
{
    match history {
        SavedHistory::Position { at, estimated } => {
            let seconds: u64 = at.as_secs();
            let mut label = String::new();
            if estimated {
                push_char(&mut label, '~');
            }
            push_two_digits(&mut label, seconds / 60);
            push_char(&mut label, ':');
            push_two_digits(&mut label, seconds % 60);
            push_text(&mut label, " saved");
            proof {
                assert(label@ =~= history.label());
            }
            label
        },
        SavedHistory::Played => "played".to_owned(),
        SavedHistory::Unknown => "position unknown".to_owned(),
    }
}

#[derive(Debug)]
pub struct QueueRow {
    pub id: QueueEntryId,
    pub media: MediaId,
    pub title: String,
    pub subtitle: Option<String>,
    pub duration: Option<DisplayDuration>,
    pub saved: Option<SavedHistory>,
}

#[verifier::ext_equal]
pub struct RowView {
    pub id: QueueEntryId,
    pub media: MediaKey,
    pub title: Seq<char>,
    pub subtitle: Option<Seq<char>>,
    pub duration: Option<DisplayDuration>,
    pub saved: Option<SavedHistory>,
}

impl View for QueueRow {
    type V = RowView;

    open spec fn view(&self) -> RowView {
        RowView {
            id: self.id,
            media: self.media@,
            title: self.title@,
            subtitle: crate::model::opt(self.subtitle),
            duration: self.duration,
            saved: self.saved,
        }
    }
}

#[derive(Debug)]
pub struct NowPlaying {
    pub entry: Option<QueueEntryId>,
    pub title: String,
    pub artist: Option<String>,
    pub album: Option<String>,
    pub year: Option<String>,
    /// Whether the engine holds this entry's playback.
    pub loaded: bool,
    pub state: PlaybackState,
    pub position: Duration,
    pub duration: Option<DisplayDuration>,
    pub estimated_position: bool,
    pub degraded: bool,
    pub buffering: bool,
    pub seek: Option<SeekSupport>,
    pub saved: Option<SavedHistory>,
    pub session_rev: u64,
    pub load: Option<LoadRequestId>,
}

#[derive(Clone, Copy, Debug, PartialEq, Eq, Structural)]
pub enum PersistenceStatus {
    Saving,
    /// Nothing that is written reaches the disk.
    Unsaved,
    /// Writes should reach the disk, but the latest attempt failed.
    Failing,
}

/// One playlist as the tab strip shows it.
#[derive(Debug, PartialEq, Eq)]
pub struct PlaylistTab {
    pub id: PlaylistId,
    /// Already safe to print.
    pub name: String,
    pub playing: bool,
    pub shuffled: bool,
}

#[verifier::ext_equal]
pub struct TabView {
    pub id: PlaylistId,
    pub name: Seq<char>,
    pub playing: bool,
    pub shuffled: bool,
}

impl View for PlaylistTab {
    type V = TabView;

    open spec fn view(&self) -> TabView {
        TabView {
            id: self.id,
            name: self.name@,
            playing: self.playing,
            shuffled: self.shuffled,
        }
    }
}

#[derive(Debug)]
pub struct PlayerView {
    /// The rows of the viewed playlist; `active` and `now_playing` are the
    /// playing one's.
    pub rows: Vec<QueueRow>,
    pub tabs: Vec<PlaylistTab>,
    pub viewed: PlaylistId,
    pub active: Option<QueueEntryId>,
    pub now_playing: Option<NowPlaying>,
    pub phase: PlaybackPhase,
    pub volume: Volume,
    pub status: Option<String>,
    pub persistence: PersistenceStatus,
    pub last_requested: Option<QueueEntryId>,
    /// What the engine holds has no timeline and cannot seek.
    pub live: bool,
    /// A live source has lost its connection and is being reconnected.
    pub reconnecting: bool,
}

/// What is playing, its texts taken by what they hold.
#[verifier::ext_equal]
pub struct NowView {
    pub entry: Option<QueueEntryId>,
    pub title: Seq<char>,
    pub artist: Option<Seq<char>>,
    pub album: Option<Seq<char>>,
    pub year: Option<Seq<char>>,
    pub loaded: bool,
    pub state: PlaybackState,
    pub position: Duration,
    pub duration: Option<DisplayDuration>,
    pub estimated_position: bool,
    pub degraded: bool,
    pub buffering: bool,
    pub seek: Option<SeekSupport>,
    pub saved: Option<SavedHistory>,
    pub session_rev: u64,
    pub load: Option<LoadRequestId>,
}

impl View for NowPlaying {
    type V = NowView;

    open spec fn view(&self) -> NowView {
        NowView {
            entry: self.entry,
            title: self.title@,
            artist: crate::model::opt(self.artist),
            album: crate::model::opt(self.album),
            year: crate::model::opt(self.year),
            loaded: self.loaded,
            state: self.state,
            position: self.position,
            duration: self.duration,
            estimated_position: self.estimated_position,
            degraded: self.degraded,
            buffering: self.buffering,
            seek: self.seek,
            saved: self.saved,
            session_rev: self.session_rev,
            load: self.load,
        }
    }
}

#[verifier::ext_equal]
pub struct ScreenView {
    pub rows: Seq<RowView>,
    pub tabs: Seq<TabView>,
    pub viewed: PlaylistId,
    pub active: Option<QueueEntryId>,
    pub now_playing: Option<NowView>,
    pub phase: PlaybackPhase,
    pub volume: Volume,
    pub status: Option<Seq<char>>,
    pub persistence: PersistenceStatus,
    pub last_requested: Option<QueueEntryId>,
    pub live: bool,
    pub reconnecting: bool,
}

impl View for PlayerView {
    type V = ScreenView;

    open spec fn view(&self) -> ScreenView {
        ScreenView {
            rows: crate::model::seq(self.rows@),
            tabs: crate::model::seq(self.tabs@),
            viewed: self.viewed,
            active: self.active,
            now_playing: crate::model::opt(self.now_playing),
            phase: self.phase,
            volume: self.volume,
            status: crate::model::opt(self.status),
            persistence: self.persistence,
            last_requested: self.last_requested,
            live: self.live,
            reconnecting: self.reconnecting,
        }
    }
}

// ---------------------------------------------------------------- the model

/// A text that is there and not blank, without the space around it.
pub open spec fn filled_spec(text: Option<Seq<char>>) -> Option<Seq<char>> {
    match text {
        Some(text) => if crate::text::trim(text).len() > 0 {
            Some(crate::text::trim(text))
        } else {
            None
        },
        None => None,
    }
}

impl EntryView {
    /// The artist and the title, where the title line takes both: never for an
    /// episode.
    pub open spec fn combined(self) -> Option<(Seq<char>, Seq<char>)> {
        match (
            self.media,
            filled_spec(self.display.artist),
            filled_spec(self.display.title),
        ) {
            (MediaKey::PodcastEpisode { .. }, _, _) => None,
            (_, Some(artist), Some(title)) => Some((artist, title)),
            _ => None,
        }
    }

    /// The title, or the name that the media implies.
    pub open spec fn plain_title(self) -> Seq<char> {
        match (self.media, filled_spec(self.display.title)) {
            (MediaKey::PodcastEpisode { .. }, _) => crate::media::episode_title(self.display.title),
            (_, Some(title)) => title,
            (media, None) => media.name(),
        }
    }

    /// The title line of a row.
    pub open spec fn title_line(self) -> Seq<char> {
        crate::text::shown_text(
            match self.combined() {
                Some((artist, title)) => artist + seq![' ', '–', ' '] + title,
                None => self.plain_title(),
            },
        )
    }

    /// The line under the title: the album alone exactly where the title line
    /// took the artist, and otherwise both.
    pub open spec fn lower_line(self) -> Option<Seq<char>> {
        let album = filled_spec(self.display.album);
        let line = if self.combined() is Some {
            album
        } else {
            match (filled_spec(self.display.artist), album) {
                (Some(artist), Some(album)) => Some(artist + seq![' ', '·', ' '] + album),
                (Some(only), None) => Some(only),
                (None, only) => only,
            }
        };
        match line {
            Some(line) => Some(crate::text::shown_text(line)),
            None => None,
        }
    }
}

impl StateView {
    /// The tab of a playlist.
    pub open spec fn tab(self, playlist: PlaylistView) -> TabView {
        TabView {
            id: playlist.id,
            name: crate::text::shown_text(playlist.name),
            playing: playlist.id == self.playing,
            shuffled: playlist.shuffle is Some,
        }
    }

    /// The row of an entry.
    pub open spec fn row(self, entry: EntryView) -> RowView {
        RowView {
            id: entry.id,
            media: entry.media,
            title: entry.title_line(),
            subtitle: entry.lower_line(),
            duration: entry.display.duration,
            saved: history_of(self.entry_for(entry.media)),
        }
    }

    /// The rows of a playlist, in list order; none where it is not there.
    pub open spec fn rows(self, playlist: PlaylistId) -> Seq<RowView> {
        match self.playlist(playlist) {
            Some(playlist) => playlist.queue.entries.map_values(|entry: EntryView| self.row(entry)),
            None => Seq::empty(),
        }
    }
}

// ---------------------------------------------------------------- execution

pub fn playlist_tabs(state: &PersistedState) -> (tabs: Vec<PlaylistTab>)
    ensures
        crate::model::seq(tabs@) == state@.playlists.map_values(
            |playlist: PlaylistView| state@.tab(playlist),
        ),
{
    let playlists = state.playlists();
    let playing = state.playing();
    let mut tabs: Vec<PlaylistTab> = Vec::new();
    let ghost all = state@.playlists.map_values(|playlist: PlaylistView| state@.tab(playlist));
    let mut at: usize = 0;
    while at < playlists.len()
        invariant
            at <= playlists@.len(),
            crate::model::seq(playlists@) == state@.playlists,
            playing == state@.playing,
            all == state@.playlists.map_values(|playlist: PlaylistView| state@.tab(playlist)),
            crate::model::seq(tabs@) == all.take(at as int),
        decreases playlists@.len() - at,
    {
        let playlist = &playlists[at];
        assert(state@.playlists[at as int] == playlists@[at as int]@);
        tabs.push(
            PlaylistTab {
                id: playlist.id(),
                name: displayable(playlist.name()),
                playing: playlist.id() == playing,
                shuffled: playlist.shuffle().is_some(),
            },
        );
        at += 1;
        proof {
            assert(crate::model::seq(tabs@) =~= all.take(at as int));
        }
    }
    proof {
        assert(all.take(at as int) =~= all);
    }
    tabs
}

/// Every row of one playlist, in list order; none for one that is not there.
pub fn queue_rows(state: &PersistedState, playlist: PlaylistId) -> (rows: Vec<QueueRow>)
    ensures
        crate::model::seq(rows@) == state@.rows(playlist),
{
    let ghost all = state@.rows(playlist);
    let mut rows: Vec<QueueRow> = Vec::new();
    let playlist = match state.playlist(playlist) {
        Some(playlist) => playlist,
        None => {
            proof {
                assert(crate::model::seq(rows@) =~= all);
            }
            return rows;
        },
    };
    let entries = playlist.queue().entries();
    let mut at: usize = 0;
    while at < entries.len()
        invariant
            at <= entries@.len(),
            crate::model::seq(entries@) == playlist@.queue.entries,
            all == playlist@.queue.entries.map_values(|entry: EntryView| state@.row(entry)),
            crate::model::seq(rows@) == all.take(at as int),
        decreases entries@.len() - at,
    {
        let entry = &entries[at];
        assert(playlist@.queue.entries[at as int] == entries@[at as int]@);
        rows.push(
            QueueRow {
                id: entry.id(),
                media: entry.media().clone(),
                title: entry_title(entry),
                subtitle: entry_subtitle(entry),
                duration: entry.display().duration,
                saved: saved_history(state.entry_for(entry.media())),
            },
        );
        at += 1;
        proof {
            assert(crate::model::seq(rows@) =~= all.take(at as int));
        }
    }
    proof {
        assert(all.take(at as int) =~= all);
    }
    rows
}

fn filled(text: &Option<String>) -> (found: Option<String>)
    ensures
        crate::model::opt(found) == filled_spec(crate::model::opt(*text)),
{
    match text {
        Some(text) => stated_text(Some(text.as_str())),
        None => None,
    }
}

/// The artist and title of a row whose title line takes both: they are known,
/// and it is no episode.
fn combined_title(entry: &QueueEntry) -> (found: Option<(String, String)>)
    ensures
        match found {
            Some((artist, title)) => entry@.combined() == Some((artist@, title@)),
            None => entry@.combined() is None,
        },
{
    if let MediaId::PodcastEpisode { .. } = entry.media() {
        return None;
    }
    match (filled(&entry.display().artist), filled(&entry.display().title)) {
        (Some(artist), Some(title)) => Some((artist, title)),
        _ => None,
    }
}

/// The title line of a row: artist and title where both are known, else the
/// plain title.
pub fn entry_title(entry: &QueueEntry) -> (title: String)
    ensures
        title@ == entry@.title_line(),
{
    match combined_title(entry) {
        Some((artist, title)) => {
            let mut line = artist;
            push_char(&mut line, ' ');
            push_char(&mut line, '–');
            push_char(&mut line, ' ');
            push_text(&mut line, title.as_str());
            proof {
                assert(line@ =~= artist@ + seq![' ', '–', ' '] + title@);
            }
            displayable(line.as_str())
        },
        None => entry_plain_title(entry),
    }
}

/// The entry's title, or the name that its media implies.
pub fn entry_plain_title(entry: &QueueEntry) -> (title: String)
    ensures
        title@ == crate::text::shown_text(entry@.plain_title()),
{
    let display = entry.display();
    let name = match entry.media() {
        MediaId::PodcastEpisode { .. } => match &display.title {
            Some(title) => episode_name(Some(title.as_str())),
            None => episode_name(None),
        },
        media => match filled(&display.title) {
            Some(title) => title,
            None => display_name(media),
        },
    };
    displayable(name.as_str())
}

/// The line under the title: the album alone exactly where the title line took
/// the artist, and otherwise artist and album.
pub fn entry_subtitle(entry: &QueueEntry) -> (line: Option<String>)
    ensures
        crate::model::opt(line) == entry@.lower_line(),
{
    let album = filled(&entry.display().album);
    if combined_title(entry).is_some() {
        return match album {
            Some(album) => Some(displayable(album.as_str())),
            None => None,
        };
    }
    match (filled(&entry.display().artist), album) {
        (Some(artist), Some(album)) => {
            let mut line = artist;
            push_char(&mut line, ' ');
            push_char(&mut line, '·');
            push_char(&mut line, ' ');
            push_text(&mut line, album.as_str());
            proof {
                assert(line@ =~= artist@ + seq![' ', '·', ' '] + album@);
            }
            Some(displayable(line.as_str()))
        },
        (Some(only), None) => Some(displayable(only.as_str())),
        (None, Some(only)) => Some(displayable(only.as_str())),
        (None, None) => None,
    }
}

// --------------------------------------------------------------------- laws

/// Nothing that a row or a tab shows holds a control character.
pub proof fn rows_are_safe_to_print(state: StateView, entry: EntryView, playlist: PlaylistView)
    ensures
        crate::text::is_plain(state.row(entry).title),
        state.row(entry).subtitle matches Some(line) ==> crate::text::is_plain(line),
        crate::text::is_plain(state.tab(playlist).name),
{
    let combined = match entry.combined() {
        Some((artist, title)) => artist + seq![' ', '–', ' '] + title,
        None => entry.plain_title(),
    };
    crate::text::shown_text_is_plain(combined);
    crate::text::shown_text_is_plain(playlist.name);
    let album = filled_spec(entry.display.album);
    let line = if entry.combined() is Some {
        album
    } else {
        match (filled_spec(entry.display.artist), album) {
            (Some(artist), Some(album)) => Some(artist + seq![' ', '·', ' '] + album),
            (Some(only), None) => Some(only),
            (None, only) => only,
        }
    };
    if let Some(line) = line {
        crate::text::shown_text_is_plain(line);
    }
}

/// No row loses its artist, and none shows it twice: a known artist is in the
/// title line exactly where the line under it is the album alone.
pub proof fn artist_is_shown_once(entry: EntryView)
    requires
        filled_spec(entry.display.artist) is Some,
    ensures
        entry.combined() is Some ==> entry.lower_line() == match filled_spec(entry.display.album) {
            Some(album) => Some(crate::text::shown_text(album)),
            None => None,
        },
        entry.combined() is None ==> entry.lower_line() == Some(
            crate::text::shown_text(
                match filled_spec(entry.display.album) {
                    Some(album) => filled_spec(entry.display.artist).unwrap() + seq![' ', '·', ' ']
                        + album,
                    None => filled_spec(entry.display.artist).unwrap(),
                },
            ),
        ),
{
}

/// The label of a saved position tells the whole position: minutes and seconds in
/// digits, with a colon between, which together come to its seconds, fewer than
/// sixty of them behind the colon; and an estimate, and nothing else, has the mark
/// in front.
pub proof fn label_tells_the_position(at: Duration, estimated: bool)
    requires
        at.nanos as int / 1_000_000_000 <= u64::MAX,
    ensures
        exists|minutes: Seq<char>, seconds: Seq<char>|
            #![trigger crate::text::number_of(minutes), crate::text::number_of(seconds)]
            {
                &&& (SavedHistory::Position { at, estimated }).label() == (if estimated {
                    seq!['~']
                } else {
                    Seq::<char>::empty()
                }) + minutes + seq![':'] + seconds + " saved"@
                &&& crate::text::is_number(minutes) && minutes.len() >= 2
                &&& crate::text::is_number(seconds) && seconds.len() == 2
                &&& crate::text::number_of(seconds) < 60
                &&& crate::text::number_of(minutes) * 60 + crate::text::number_of(seconds)
                    == at.nanos as int / 1_000_000_000
            },
{
    let secs = at.secs_spec() as nat;
    let minutes = crate::text::two_digits(secs / 60);
    let seconds = crate::text::two_digits(secs % 60);
    crate::text::two_digits_read_back(secs / 60);
    crate::text::two_digits_read_back(secs % 60);
    assert((SavedHistory::Position { at, estimated }).label() =~= (if estimated {
        seq!['~']
    } else {
        Seq::<char>::empty()
    }) + minutes + seq![':'] + seconds + " saved"@);
    assert(crate::text::number_of(minutes) * 60 + crate::text::number_of(seconds) == at.nanos as int
        / 1_000_000_000);
}

/// Two saved positions of different whole seconds, or of which one is an estimate,
/// have different labels, and none is labelled as played or unknown.
pub proof fn labels_differ(a: Duration, first: bool, b: Duration, second: bool)
    requires
        a.nanos as int / 1_000_000_000 <= u64::MAX,
        b.nanos as int / 1_000_000_000 <= u64::MAX,
        a.nanos as int / 1_000_000_000 != b.nanos as int / 1_000_000_000 || first != second,
    ensures
        (SavedHistory::Position { at: a, estimated: first }).label() != (SavedHistory::Position {
            at: b,
            estimated: second,
        }).label(),
        (SavedHistory::Position { at: a, estimated: first }).label()
            != SavedHistory::Played.label(),
        (SavedHistory::Position { at: a, estimated: first }).label()
            != SavedHistory::Unknown.label(),
        SavedHistory::Played.label() != SavedHistory::Unknown.label(),
{
    reveal_strlit("played");
    reveal_strlit("position unknown");
    reveal_strlit(" saved");
    let one = (SavedHistory::Position { at: a, estimated: first }).label();
    let two = (SavedHistory::Position { at: b, estimated: second }).label();
    let x = a.secs_spec() as nat;
    let y = b.secs_spec() as nat;
    let xm = crate::text::two_digits(x / 60);
    let xs = crate::text::two_digits(x % 60);
    let ym = crate::text::two_digits(y / 60);
    let ys = crate::text::two_digits(y % 60);
    crate::text::two_digits_read_back(x / 60);
    crate::text::two_digits_read_back(x % 60);
    crate::text::two_digits_read_back(y / 60);
    crate::text::two_digits_read_back(y % 60);
    let p: int = if first {
        1
    } else {
        0
    };
    let q: int = if second {
        1
    } else {
        0
    };
    assert(xm.len() + p + 9 == one.len());
    assert(one[p] == xm[0]);
    assert(two[q] == ym[0]);
    assert(first ==> one[0] == '~');
    assert(second ==> two[0] == '~');
    assert(SavedHistory::Played.label()[0] == 'p');
    assert(SavedHistory::Unknown.label()[0] == 'p');
    assert(SavedHistory::Played.label().len() == 6);
    if one == two {
        assert(first == second);
        assert(xm.len() == ym.len());
        assert(one.subrange(p, p + xm.len()) =~= xm);
        assert(two.subrange(p, p + xm.len()) =~= ym);
        assert(one.subrange(p + xm.len() + 1, p + xm.len() + 3) =~= xs);
        assert(two.subrange(p + xm.len() + 1, p + xm.len() + 3) =~= ys);
        assert(x / 60 == y / 60);
        assert(x % 60 == y % 60);
        assert(x == y);
    }
}

/// What a row says of a media's history: that it was heard out if it was, and
/// otherwise where to go on, an estimate before an established position.
pub proof fn history_says_where_to_go_on(entry: PersistedCheckpoint)
    ensures
        history_of(None) is None,
        entry.completed <==> history_of(Some(entry)) == Some(SavedHistory::Played),
        !entry.completed && entry.estimated is Some ==> history_of(Some(entry)) == Some(
            SavedHistory::Position { at: entry.estimated.unwrap(), estimated: true },
        ),
        !entry.completed && entry.estimated is None && entry.position is Some ==> history_of(
            Some(entry),
        ) == Some(SavedHistory::Position { at: entry.position.unwrap(), estimated: false }),
        !entry.completed && entry.estimated is None && entry.position is None ==> history_of(
            Some(entry),
        ) == Some(SavedHistory::Unknown),
{
}

/// A text is shown without the space around it, and a blank one not at all.
pub proof fn blank_texts_are_not_shown(text: Seq<char>)
    ensures
        filled_spec(None) is None,
        crate::text::trim(text).len() == 0 ==> filled_spec(Some(text)) is None,
        crate::text::trim(text).len() > 0 ==> filled_spec(Some(text)) == Some(
            crate::text::trim(text),
        ),
{
}

} // verus!
