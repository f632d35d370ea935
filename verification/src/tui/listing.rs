//! What the browser shows: where its list is, the list itself, and the block
//! above it that asks or tells something. Every name is made safe to print.

use crate::application::browse::{DirEntry, DirView, EntryKind};
use crate::clock::Duration;
use crate::library::{EpisodeCandidate, EpisodeView, FeedSummary, FeedView, StationRow,
    StationRowView};
use crate::media::slice_text;
use crate::station::model::{IdentityView, StationIdentity};
use crate::text::{chars_of, displayable, push_char, push_decimal, push_text, same_text};
use crate::tui::browser::{BrowserState, BrowserTab, BrowserView, NoticeKind};
use crate::tui::geometry::{take_left, take_right, Rect};
use crate::tui::render::clock;
use crate::width::clip;
use vstd::prelude::*;

verus! {

broadcast use crate::model::group_model;

pub const NO_FEEDS: &'static str = "No subscriptions — press a to add a feed URL";

pub const NO_STATIONS: &'static str = "No saved stations — press a to add a stream URL";

pub const PROMPT: &'static str = "Feed URL: ";

pub const RADIO_PROMPT: &'static str = "Stream URL: ";

pub const LOADING: &'static str = "Loading…";

pub const EMPTY_DIRECTORY: &'static str = "(empty directory)";

pub const NO_EPISODES: &'static str = "No cached episodes";

pub const UNTITLED: &'static str = "(untitled)";

pub const UNREACHED: &'static str = "(unreached)";

pub const MARK_COLUMNS: u16 = 2;

pub const DETAIL_COLUMNS: u16 = 14;

/// A station's genre and bitrate need more room than the other tabs' details.
pub const RADIO_DETAIL_COLUMNS: u16 = 24;

/// The row width below which the detail column is dropped.
pub const DETAIL_MIN_ROW: u16 = 40;

/// How a text is coloured.
#[derive(Clone, Copy, Debug, PartialEq, Eq, Structural)]
pub enum Tone {
    Plain,
    Muted,
    /// Muted, and dim.
    Faint,
    Directory,
    Warning,
}

// ------------------------------------------------------------------ location

/// Being the feed of this slug.
pub open spec fn feed_is(slug: Seq<char>) -> spec_fn(FeedView) -> bool {
    |feed: FeedView| feed.slug == slug
}

impl BrowserView {
    /// The title of the open feed, its slug where it has none.
    pub open spec fn open_title(self, slug: Seq<char>) -> Seq<char> {
        match crate::model::position(self.feeds, feed_is(slug), 0) {
            Some(at) => match self.feeds[at].title {
                Some(title) => title,
                None => slug,
            },
            None => slug,
        }
    }

    /// The directory shown, the feed whose episodes are shown, or the heading
    /// of the list.
    pub open spec fn place(self) -> Seq<char> {
        match self.tab {
            BrowserTab::Files => crate::text::shown_text(self.cwd),
            BrowserTab::Podcasts => match self.episodes {
                None => "Subscriptions"@,
                Some(open) => "Subscriptions › "@ + crate::text::shown_text(
                    self.open_title(open.slug),
                ),
            },
            BrowserTab::Radio => "Radio"@,
        }
    }
}

fn open_title(browser: &BrowserState, slug: &str) -> (title: String)
    ensures
        title@ == browser@.open_title(slug@),
{
    let ghost wanted = feed_is(slug@);
    let mut at: usize = 0;
    while at < browser.feeds.len()
        invariant
            at <= browser.feeds@.len(),
            wanted == feed_is(slug@),
            crate::model::position(browser@.feeds, wanted, 0) == crate::model::position(
                browser@.feeds,
                wanted,
                at as int,
            ),
        decreases browser.feeds@.len() - at,
    {
        assert(browser@.feeds[at as int] == browser.feeds@[at as int]@);
        if same_text(browser.feeds[at].slug.as_str(), slug) {
            return match &browser.feeds[at].title {
                Some(title) => title.clone(),
                None => slug.to_owned(),
            };
        }
        at += 1;
    }
    slug.to_owned()
}

/// The directory shown, the feed whose episodes are shown, or the heading of
/// the list.
pub fn location(browser: &BrowserState) -> (text: String)
    ensures
        text@ == browser@.place(),
{
    match browser.tab {
        BrowserTab::Files => displayable(browser.cwd.as_str()),
        BrowserTab::Podcasts => match &browser.episodes {
            None => "Subscriptions".to_owned(),
            Some(open) => {
                let mut text = "Subscriptions › ".to_owned();
                let title = open_title(browser, open.slug.as_str());
                push_text(&mut text, displayable(title.as_str()).as_str());
                text
            },
        },
        BrowserTab::Radio => "Radio".to_owned(),
    }
}

// --------------------------------------------------------------- the list

impl BrowserView {
    /// What is shown in place of the rows: that the list is not there yet, why
    /// it could not be read, or that there is nothing in it.
    pub open spec fn list_notice(self) -> Option<(Seq<char>, Tone)> {
        if self.loading {
            Some((LOADING@, Tone::Muted))
        } else {
            match self.error {
                Some(error) => Some((crate::text::shown_text(error), Tone::Warning)),
                None => if self.rows() == 0 {
                    Some(
                        (
                            match self.tab {
                                BrowserTab::Files => EMPTY_DIRECTORY@,
                                BrowserTab::Podcasts => match self.episodes {
                                    None => NO_FEEDS@,
                                    Some(_) => NO_EPISODES@,
                                },
                                BrowserTab::Radio => NO_STATIONS@,
                            },
                            Tone::Muted,
                        ),
                    )
                } else {
                    None
                },
            }
        }
    }
}

pub fn list_notice(browser: &BrowserState) -> (notice: Option<(String, Tone)>)
    ensures
        match (notice, browser@.list_notice()) {
            (Some(shown), Some(stated)) => shown.0@ == stated.0 && shown.1 == stated.1,
            (None, None) => true,
            _ => false,
        },
{
    if browser.loading {
        return Some((LOADING.to_owned(), Tone::Muted));
    }
    if let Some(error) = &browser.error {
        return Some((displayable(error.as_str()), Tone::Warning));
    }
    if browser.is_empty() {
        let empty = match browser.tab {
            BrowserTab::Files => EMPTY_DIRECTORY,
            BrowserTab::Podcasts => match &browser.episodes {
                None => NO_FEEDS,
                Some(_) => NO_EPISODES,
            },
            BrowserTab::Radio => NO_STATIONS,
        };
        return Some((empty.to_owned(), Tone::Muted));
    }
    None
}

/// One row of the list: its label, what stands at its right, in a column
/// `detail_columns` wide, and how both are coloured.
#[derive(Debug, PartialEq, Eq)]
pub struct RowCells {
    pub label: String,
    pub detail: Option<String>,
    pub detail_columns: u16,
    pub tone: Tone,
}

#[verifier::ext_equal]
pub struct CellsView {
    pub label: Seq<char>,
    pub detail: Option<Seq<char>>,
    pub detail_columns: u16,
    pub tone: Tone,
}

impl View for RowCells {
    type V = CellsView;

    open spec fn view(&self) -> CellsView {
        CellsView {
            label: self.label@,
            detail: crate::model::opt(self.detail),
            detail_columns: self.detail_columns,
            tone: self.tone,
        }
    }
}

impl DirView {
    pub open spec fn cells(self) -> CellsView {
        let name = crate::text::shown_text(self.name);
        CellsView {
            label: if self.kind == EntryKind::Directory {
                name.push('/')
            } else {
                name
            },
            detail: None,
            detail_columns: DETAIL_COLUMNS,
            tone: match self.kind {
                EntryKind::Directory => Tone::Directory,
                EntryKind::Audio => Tone::Plain,
                EntryKind::Other => Tone::Muted,
            },
        }
    }
}

fn entry_cells(entry: &DirEntry) -> (cells: RowCells)
    ensures
        cells@ == entry@.cells(),
{
    let mut label = displayable(entry.name.as_str());
    let tone = match entry.kind {
        EntryKind::Directory => {
            push_char(&mut label, '/');
            Tone::Directory
        },
        EntryKind::Audio => Tone::Plain,
        EntryKind::Other => Tone::Muted,
    };
    RowCells { label, detail: None, detail_columns: DETAIL_COLUMNS, tone }
}

impl FeedView {
    pub open spec fn cells(self) -> CellsView {
        CellsView {
            label: crate::text::shown_text(
                match self.title {
                    Some(title) => title,
                    None => self.slug,
                },
            ),
            detail: Some(
                match self.episodes {
                    Some(count) => crate::text::decimal(count as nat) + " episodes"@,
                    None => "not refreshed"@,
                },
            ),
            detail_columns: DETAIL_COLUMNS,
            tone: Tone::Plain,
        }
    }
}

fn feed_cells(feed: &FeedSummary) -> (cells: RowCells)
    ensures
        cells@ == feed@.cells(),
{
    let label = match &feed.title {
        Some(title) => displayable(title.as_str()),
        None => displayable(feed.slug.as_str()),
    };
    let detail = match feed.episodes {
        Some(count) => {
            let mut detail = String::new();
            push_decimal(&mut detail, count as u64);
            push_text(&mut detail, " episodes");
            proof {
                assert(detail@ =~= crate::text::decimal(count as nat) + " episodes"@);
            }
            detail
        },
        None => "not refreshed".to_owned(),
    };
    RowCells { label, detail: Some(detail), detail_columns: DETAIL_COLUMNS, tone: Tone::Plain }
}

impl EpisodeView {
    /// A declared length is the feed's claim, so it is in parentheses.
    pub open spec fn cells(self) -> CellsView {
        CellsView {
            label: match self.title {
                Some(title) => crate::text::shown_text(title),
                None => UNTITLED@,
            },
            detail: match self.declared_duration {
                Some(length) => Some(seq!['('] + length.clock_spec() + seq![')']),
                None => None,
            },
            detail_columns: DETAIL_COLUMNS,
            tone: if self.enclosure is Some {
                Tone::Plain
            } else {
                Tone::Faint
            },
        }
    }
}

fn length_cell(length: Duration) -> (cell: String)
    ensures
        cell@ == seq!['('] + length.clock_spec() + seq![')'],
{
    let mut cell = String::new();
    push_char(&mut cell, '(');
    push_text(&mut cell, clock(length).as_str());
    push_char(&mut cell, ')');
    proof {
        assert(cell@ =~= seq!['('] + length.clock_spec() + seq![')']);
    }
    cell
}

fn episode_cells(episode: &EpisodeCandidate) -> (cells: RowCells)
    ensures
        cells@ == episode@.cells(),
{
    let label = match &episode.title {
        Some(title) => displayable(title.as_str()),
        None => UNTITLED.to_owned(),
    };
    let detail = match episode.declared_duration {
        Some(length) => Some(length_cell(length)),
        None => None,
    };
    let tone = if episode.enclosure.is_some() {
        Tone::Plain
    } else {
        Tone::Faint
    };
    RowCells { label, detail, detail_columns: DETAIL_COLUMNS, tone }
}

impl IdentityView {
    /// The genre and the bitrate, as far as they are known.
    pub open spec fn summary(self) -> Option<Seq<char>> {
        let rate = match self.bitrate_kbps {
            Some(kbps) => Some(crate::text::decimal(kbps as nat) + " kbps"@),
            None => None,
        };
        match (self.genre, rate) {
            (Some(genre), Some(rate)) => Some(
                crate::text::shown_text(genre) + seq![' ', '·', ' '] + rate,
            ),
            (Some(genre), None) => Some(crate::text::shown_text(genre)),
            (None, rate) => rate,
        }
    }
}

fn summary(identity: &StationIdentity) -> (text: Option<String>)
    ensures
        crate::model::opt(text) == identity@.summary(),
{
    let rate = match identity.bitrate_kbps {
        Some(kbps) => {
            let mut rate = String::new();
            push_decimal(&mut rate, kbps as u64);
            push_text(&mut rate, " kbps");
            proof {
                assert(rate@ =~= crate::text::decimal(kbps as nat) + " kbps"@);
            }
            Some(rate)
        },
        None => None,
    };
    match (&identity.genre, rate) {
        (Some(genre), Some(rate)) => {
            let mut text = displayable(genre.as_str());
            push_char(&mut text, ' ');
            push_char(&mut text, '·');
            push_char(&mut text, ' ');
            push_text(&mut text, rate.as_str());
            proof {
                assert(text@ =~= crate::text::shown_text(genre@) + seq![' ', '·', ' '] + rate@);
            }
            Some(text)
        },
        (Some(genre), None) => Some(displayable(genre.as_str())),
        (None, rate) => rate,
    }
}

impl StationRowView {
    /// A station that was reached: its slug and what is known of it, cut to its
    /// column. One that was not: its address.
    pub open spec fn cells(self) -> CellsView {
        match self.identity {
            Some(identity) => CellsView {
                label: crate::text::shown_text(self.slug),
                detail: match identity.summary() {
                    Some(text) => Some(
                        crate::width::clipped(text, RADIO_DETAIL_COLUMNS as usize),
                    ),
                    None => None,
                },
                detail_columns: RADIO_DETAIL_COLUMNS,
                tone: Tone::Plain,
            },
            None => CellsView {
                label: crate::text::shown_text(self.url),
                detail: Some(UNREACHED@),
                detail_columns: RADIO_DETAIL_COLUMNS,
                tone: Tone::Muted,
            },
        }
    }
}

fn station_cells(station: &StationRow) -> (cells: RowCells)
    ensures
        cells@ == station@.cells(),
{
    match &station.identity {
        Some(identity) => {
            let detail = match summary(identity) {
                Some(text) => Some(clip(text.as_str(), RADIO_DETAIL_COLUMNS as usize)),
                None => None,
            };
            RowCells {
                label: displayable(station.slug.as_str()),
                detail,
                detail_columns: RADIO_DETAIL_COLUMNS,
                tone: Tone::Plain,
            }
        },
        None => RowCells {
            label: displayable(station.url.as_str()),
            detail: Some(UNREACHED.to_owned()),
            detail_columns: RADIO_DETAIL_COLUMNS,
            tone: Tone::Muted,
        },
    }
}

impl BrowserView {
    /// What a row shows; none past the end.
    pub open spec fn cells_at(self, at: int) -> Option<CellsView> {
        if !(0 <= at < self.rows()) {
            None
        } else {
            Some(
                match self.tab {
                    BrowserTab::Files => self.entries[at].cells(),
                    BrowserTab::Podcasts => match self.episodes {
                        None => self.feeds[at].cells(),
                        Some(open) => open.episodes[at].cells(),
                    },
                    BrowserTab::Radio => self.stations[at].cells(),
                },
            )
        }
    }
}

/// What row `index` shows; none past the end.
pub fn row_cells(browser: &BrowserState, index: usize) -> (cells: Option<RowCells>)
    ensures
        crate::model::opt(cells) == browser@.cells_at(index as int),
{
    match browser.tab {
        BrowserTab::Files => if index < browser.entries.len() {
            Some(entry_cells(&browser.entries[index]))
        } else {
            None
        },
        BrowserTab::Podcasts => match &browser.episodes {
            None => if index < browser.feeds.len() {
                Some(feed_cells(&browser.feeds[index]))
            } else {
                None
            },
            Some(open) => if index < open.episodes.len() {
                Some(episode_cells(&open.episodes[index]))
            } else {
                None
            },
        },
        BrowserTab::Radio => if index < browser.stations.len() {
            Some(station_cells(&browser.stations[index]))
        } else {
            None
        },
    }
}

/// The parts of a row.
#[derive(Clone, Copy, Debug, PartialEq, Eq, Structural)]
pub struct ListColumns {
    pub mark: Rect,
    pub label: Rect,
    /// None where there is no detail, or no room for it.
    pub detail: Option<Rect>,
}

pub fn list_columns(area: Rect, detail: bool, detail_columns: u16) -> (columns: ListColumns)
    ensures
        ({
            let rest = area.right_of(MARK_COLUMNS);
            let shown = detail && rest.width >= DETAIL_MIN_ROW;
            &&& columns.mark == area.left_part(MARK_COLUMNS)
            &&& columns.detail == if shown {
                Some(rest.right_part(detail_columns))
            } else {
                None
            }
            &&& columns.label == if shown {
                rest.left_of(detail_columns).left_of(1)
            } else {
                rest
            }
        }),
{
    let mut rest = area;
    let mark = take_left(&mut rest, MARK_COLUMNS);
    if detail && rest.width >= DETAIL_MIN_ROW {
        let column = take_right(&mut rest, detail_columns);
        let _ = take_right(&mut rest, 1);
        ListColumns { mark, label: rest, detail: Some(column) }
    } else {
        ListColumns { mark, label: rest, detail: None }
    }
}

/// The rows of the list in the box of the browser: under the tabs and the
/// location, and above the hints where there is room for them.
pub fn list_area(body: Rect) -> (list: Rect)
    ensures
        list == (Rect {
            y: crate::tui::geometry::plus(body.y, 2),
            height: crate::tui::geometry::minus(
                body.height,
                if body.height >= 4 {
                    3
                } else {
                    2
                },
            ),
            ..body
        }).common(body),
{
    let hints: u16 = if body.height >= 4 {
        3
    } else {
        2
    };
    let list = Rect {
        x: body.x,
        y: body.y.saturating_add(2),
        width: body.width,
        height: body.height.saturating_sub(hints),
    };
    list.intersection(body)
}

// ----------------------------------------------------------------- notices

/// The place of the first newline, from `from` on; the end where there is none.
pub open spec fn line_end(text: Seq<char>, from: int) -> int
    decreases text.len() - from,
{
    if from >= text.len() || text[from] == '\n' {
        from
    } else {
        line_end(text, from + 1)
    }
}

/// A line without the carriage return that belongs to its newline.
pub open spec fn bare_line(line: Seq<char>) -> Seq<char> {
    if line.len() > 0 && line.last() == '\r' {
        line.drop_last()
    } else {
        line
    }
}

/// The lines of `text` from `from` on; a newline at the end starts no other.
pub open spec fn lines_from(text: Seq<char>, from: int) -> Seq<Seq<char>>
    decreases text.len() - from,
    via lines_end
{
    if from < 0 || from >= text.len() {
        Seq::empty()
    } else {
        let end = line_end(text, from);
        if end >= text.len() {
            seq![text.subrange(from, text.len() as int)]
        } else {
            seq![bare_line(text.subrange(from, end))] + lines_from(text, end + 1)
        }
    }
}

#[via_fn]
proof fn lines_end(text: Seq<char>, from: int) {
    if 0 <= from < text.len() {
        line_end_is_after(text, from);
    }
}

proof fn line_end_is_after(text: Seq<char>, from: int)
    requires
        0 <= from <= text.len(),
    ensures
        from <= line_end(text, from) <= text.len(),
    decreases text.len() - from,
{
    if from < text.len() && text[from] != '\n' {
        line_end_is_after(text, from + 1);
    }
}

/// Each line of a text, made safe to print.
pub open spec fn shown_lines(text: Seq<char>) -> Seq<Seq<char>> {
    lines_from(text, 0).map_values(|line: Seq<char>| crate::text::shown_text(line))
}

fn find_end(chars: &Vec<char>, from: usize) -> (end: usize)
    requires
        from <= chars@.len(),
    ensures
        end == line_end(chars@, from as int),
        from <= end <= chars@.len(),
{
    let mut at: usize = from;
    while at < chars.len() && chars[at] != '\n'
        invariant
            from <= at <= chars@.len(),
            line_end(chars@, from as int) == line_end(chars@, at as int),
        decreases chars@.len() - at,
    {
        at += 1;
    }
    at
}

/// Each line of a text, made safe to print.
pub fn displayable_lines(text: &str) -> (lines: Vec<String>)
    ensures
        crate::model::seq(lines@) == shown_lines(text@),
{
    let chars = chars_of(text);
    let ghost all = lines_from(text@, 0);
    let mut lines: Vec<String> = Vec::new();
    let mut from: usize = 0;
    let ghost mut done: int = 0;
    while from < chars.len()
        invariant
            from <= chars@.len(),
            chars@ == text@,
            0 <= done <= all.len(),
            all == lines_from(text@, 0),
            all.skip(done) == lines_from(text@, from as int),
            crate::model::seq(lines@) == shown_lines(text@).take(done),
        decreases chars@.len() - from,
    {
        let end: usize = find_end(&chars, from);
        let ghost rest = lines_from(text@, from as int);
        let stop: usize = if end < chars.len() && end > from && chars[end - 1] == '\r' {
            end - 1
        } else {
            end
        };
        let line = slice_text(&chars, from, stop);
        proof {
            assert(rest.len() > 0);
            assert(all.skip(done)[0] == all[done]);
            if end < chars@.len() {
                if end > from {
                    assert(text@.subrange(from as int, end as int).drop_last() =~= text@.subrange(
                        from as int,
                        end - 1,
                    ));
                }
                assert(line@ == bare_line(text@.subrange(from as int, end as int)));
                assert(all.skip(done + 1) =~= rest.skip(1));
                assert(rest.skip(1) =~= lines_from(text@, end + 1));
            } else {
                assert(all.skip(done + 1) =~= rest.skip(1));
                assert(rest.skip(1) =~= Seq::<Seq<char>>::empty());
            }
            assert(line@ == all[done]);
        }
        lines.push(displayable(line.as_str()));
        proof {
            assert(shown_lines(text@)[done] == crate::text::shown_text(all[done]));
            assert(crate::model::seq(lines@) =~= shown_lines(text@).take(done + 1));
            done = done + 1;
        }
        from = if end < chars.len() {
            end + 1
        } else {
            end
        };
    }
    proof {
        assert(all.skip(done).len() == 0);
        assert(shown_lines(text@).take(done) =~= shown_lines(text@));
    }
    lines
}

impl BrowserView {
    /// The block above the rows: the address being typed, the question before
    /// something is removed, or the notice.
    pub open spec fn block(self) -> Option<(Seq<Seq<char>>, Tone)> {
        match (self.prompt, self.confirm) {
            (Some(typed), _) => Some(
                (
                    seq![
                        (if self.tab == BrowserTab::Radio {
                            RADIO_PROMPT@
                        } else {
                            PROMPT@
                        }) + crate::text::shown_text(typed) + seq!['▏'],
                    ],
                    Tone::Plain,
                ),
            ),
            (None, Some(slug)) => Some(
                (seq!["Remove "@ + crate::text::shown_text(slug) + "? y/N"@], Tone::Warning),
            ),
            (None, None) => match self.notice {
                Some(notice) => Some(
                    (
                        shown_lines(notice.text),
                        if notice.kind == NoticeKind::Failed {
                            Tone::Warning
                        } else {
                            Tone::Muted
                        },
                    ),
                ),
                None => None,
            },
        }
    }
}

/// The lines of the block above the rows.
pub fn notice_lines(browser: &BrowserState) -> (block: Option<(Vec<String>, Tone)>)
    ensures
        match (block, browser@.block()) {
            (Some(shown), Some(stated)) => crate::model::seq(shown.0@) == stated.0 && shown.1
                == stated.1,
            (None, None) => true,
            _ => false,
        },
{
    if let Some(typed) = &browser.prompt {
        let mut line = match browser.tab {
            BrowserTab::Radio => RADIO_PROMPT.to_owned(),
            _ => PROMPT.to_owned(),
        };
        let ghost label = line@;
        push_text(&mut line, displayable(typed.as_str()).as_str());
        push_char(&mut line, '▏');
        proof {
            assert(line@ =~= label + crate::text::shown_text(typed@) + seq!['▏']);
        }
        let lines = vec![line];
        proof {
            assert(crate::model::seq(lines@) =~= seq![line@]);
        }
        return Some((lines, Tone::Plain));
    }
    if let Some(slug) = &browser.confirm {
        let mut line = "Remove ".to_owned();
        push_text(&mut line, displayable(slug.as_str()).as_str());
        push_text(&mut line, "? y/N");
        let lines = vec![line];
        proof {
            assert(crate::model::seq(lines@) =~= seq![line@]);
        }
        return Some((lines, Tone::Warning));
    }
    match &browser.notice {
        Some(notice) => {
            let tone = match notice.kind {
                NoticeKind::Failed => Tone::Warning,
                _ => Tone::Muted,
            };
            Some((displayable_lines(notice.text.as_str()), tone))
        },
        None => None,
    }
}

/// How much of a block is shown, and what it leaves for the rows.
#[derive(Clone, Copy, Debug, PartialEq, Eq, Structural)]
pub struct NoticeBlock {
    pub shown: usize,
    /// How many lines are not; a marker stands for them.
    pub hidden: usize,
    pub rest: Rect,
}

/// A block takes a third of the area; the last row of one that is cut is the
/// marker, with at least one line above it.
pub open spec fn notice_block(area: Rect, lines: nat) -> NoticeBlock {
    let third = area.height / 3;
    let whole = lines <= (if third >= 1 {
        third
    } else {
        1
    });
    let budget = if third >= 2 {
        third
    } else {
        2
    };
    let shown: nat = if whole {
        lines
    } else {
        (budget - 1) as nat
    };
    let height = if whole {
        lines as u16
    } else {
        budget
    };
    NoticeBlock {
        shown: shown as usize,
        hidden: (lines - shown) as usize,
        rest: (Rect {
            y: crate::tui::geometry::plus(area.y, height),
            height: crate::tui::geometry::minus(area.height, height),
            ..area
        }).common(area),
    }
}

pub fn place_notice(area: Rect, lines: usize) -> (block: NoticeBlock)
    ensures
        block == notice_block(area, lines as nat),
{
    let third: u16 = area.height / 3;
    let limit: u16 = if third >= 1 {
        third
    } else {
        1
    };
    let budget: u16 = if third >= 2 {
        third
    } else {
        2
    };
    let (shown, height): (usize, u16) = if lines <= limit as usize {
        (lines, lines as u16)
    } else {
        ((budget - 1) as usize, budget)
    };
    let rest = Rect {
        x: area.x,
        y: area.y.saturating_add(height),
        width: area.width,
        height: area.height.saturating_sub(height),
    };
    NoticeBlock { shown, hidden: lines - shown, rest: rest.intersection(area) }
}

/// `+3 more lines, see log`.
pub fn hidden_marker(hidden: usize) -> (marker: String)
    ensures
        marker@ == seq!['+'] + crate::text::decimal(hidden as nat) + " more lines, see log"@,
{
    let mut marker = String::new();
    push_char(&mut marker, '+');
    push_decimal(&mut marker, hidden as u64);
    push_text(&mut marker, " more lines, see log");
    proof {
        assert(marker@ =~= seq!['+'] + crate::text::decimal(hidden as nat)
            + " more lines, see log"@);
    }
    marker
}

// -------------------------------------------------------------------- laws

/// Every line of a block is either shown or counted by the marker, and a block
/// that is cut still shows a line.
pub proof fn no_line_is_lost(area: Rect, lines: nat)
    requires
        lines <= usize::MAX,
    ensures
        notice_block(area, lines).shown + notice_block(area, lines).hidden == lines,
        lines > 0 ==> notice_block(area, lines).shown > 0,
{
}

/// A block leaves two thirds of an area of six rows or more to the list.
pub proof fn block_leaves_the_rows(area: Rect, lines: nat)
    requires
        area.height >= 6,
        area.x + area.width <= u16::MAX,
        area.y + area.height <= u16::MAX,
    ensures
        3 * notice_block(area, lines).rest.height >= 2 * area.height,
{
}

/// A text that is cut stays safe to print.
proof fn clipped_text_is_plain(text: Seq<char>, width: usize)
    requires
        crate::text::is_plain(text),
    ensures
        crate::text::is_plain(crate::width::clipped(text, width)),
{
    let whole = crate::width::text_width(text);
    let widths = crate::width::widths_of(text);
    let shown = crate::width::clipped(text, width);
    if whole > width && width > 0 {
        crate::width::cut_keeps_the_beginning(text, whole, widths, width);
        assert forall|i: int| 0 <= i < shown.len() implies !crate::text::is_hidden(
            #[trigger] shown[i],
        ) by {
            if i < shown.len() - 1 {
                assert(shown[i] == text[i]);
            }
        }
    }
}

proof fn decimal_is_plain(n: nat)
    ensures
        crate::text::is_plain(crate::text::decimal(n)),
    decreases n,
{
    if n >= 10 {
        decimal_is_plain(n / 10);
    }
}

proof fn summary_is_plain(identity: IdentityView)
    ensures
        identity.summary() matches Some(text) ==> crate::text::is_plain(text),
{
    reveal_strlit(" kbps");
    if let Some(genre) = identity.genre {
        crate::text::shown_text_is_plain(genre);
    }
    if let Some(kbps) = identity.bitrate_kbps {
        decimal_is_plain(kbps as nat);
    }
}

/// What is shown of names that came from elsewhere holds no control character:
/// where the list is, an entry of a directory, a feed, an episode, a station
/// with what it says of itself, and a notice.
pub proof fn foreign_names_are_inert(
    browser: BrowserView,
    entry: DirView,
    feed: FeedView,
    episode: EpisodeView,
    station: StationRowView,
    notice: Seq<char>,
)
    ensures
        crate::text::is_plain(crate::text::shown_text(browser.cwd)),
        crate::text::is_plain(entry.cells().label),
        crate::text::is_plain(feed.cells().label),
        episode.title is Some ==> crate::text::is_plain(episode.cells().label),
        crate::text::is_plain(station.cells().label),
        station.cells().detail matches Some(detail) ==> crate::text::is_plain(detail),
        forall|i: int|
            0 <= i < shown_lines(notice).len() ==> crate::text::is_plain(
                #[trigger] shown_lines(notice)[i],
            ),
{
    crate::text::shown_text_is_plain(browser.cwd);
    crate::text::shown_text_is_plain(entry.name);
    crate::text::shown_text_is_plain(feed.slug);
    if let Some(title) = feed.title {
        crate::text::shown_text_is_plain(title);
    }
    if let Some(title) = episode.title {
        crate::text::shown_text_is_plain(title);
    }
    crate::text::shown_text_is_plain(station.slug);
    crate::text::shown_text_is_plain(station.url);
    reveal_strlit("(unreached)");
    if let Some(identity) = station.identity {
        summary_is_plain(identity);
        if let Some(text) = identity.summary() {
            clipped_text_is_plain(text, RADIO_DETAIL_COLUMNS as usize);
        }
    }
    assert forall|i: int| 0 <= i < shown_lines(notice).len() implies crate::text::is_plain(
        #[trigger] shown_lines(notice)[i],
    ) by {
        crate::text::shown_text_is_plain(lines_from(notice, 0)[i]);
    }
}

} // verus!
