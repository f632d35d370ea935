//! What the screen tells: every text against what it stands for, and every row
//! and label against the list it comes from.

use crate::application::view::{NowView, SavedHistory, ScreenView, TabView};
use crate::clock::Duration;
use crate::playback::PositionProvenance;
use crate::playlist::PlaylistId;
use crate::queue::{DisplayDuration, DurationSource, QueueEntryId};
use crate::tui::browser::{BrowserTab, BrowserView};
use crate::tui::geometry::{Position, Rect};
use crate::tui::listing::Tone;
use vstd::prelude::*;

verus! {

broadcast use crate::model::group_model;

// -------------------------------------------------------------------- times

/// A clock tells the whole time: under an hour in minutes and seconds of two digits
/// each, and from an hour on with the hours before them, which together come to its
/// seconds.
pub proof fn clock_tells_the_time(span: Duration)
    requires
        span.nanos as int / 1_000_000_000 <= u64::MAX,
    ensures
        ({
            let secs = span.nanos as int / 1_000_000_000;
            exists|hours: Seq<char>, minutes: Seq<char>, seconds: Seq<char>|
                #![trigger crate::text::number_of(hours), crate::text::number_of(minutes), crate::text::number_of(seconds)]
                {
                    &&& crate::text::is_number(minutes) && minutes.len() == 2
                    &&& crate::text::is_number(seconds) && seconds.len() == 2
                    &&& crate::text::number_of(minutes) < 60
                    &&& crate::text::number_of(seconds) < 60
                    &&& crate::text::number_of(hours) * 3600 + crate::text::number_of(minutes) * 60
                        + crate::text::number_of(seconds) == secs
                    &&& secs < 3600 ==> span.clock_spec() == minutes + seq![':'] + seconds
                    &&& secs >= 3600 ==> crate::text::is_number(hours) && span.clock_spec() == hours
                        + seq![':'] + minutes + seq![':'] + seconds
                }
        }),
{
    let secs = span.secs_spec() as nat;
    let hours = crate::text::two_digits(secs / 3600);
    let minutes = crate::text::two_digits((secs / 60) % 60);
    let seconds = crate::text::two_digits(secs % 60);
    crate::text::two_digits_read_back(secs / 3600);
    crate::text::two_digits_read_back((secs / 60) % 60);
    crate::text::two_digits_read_back(secs % 60);
    let full = span.hms_spec();
    assert(crate::text::number_of(hours) * 3600 + crate::text::number_of(minutes) * 60
        + crate::text::number_of(seconds) == secs);
    if secs < 3600 {
        assert(hours == seq!['0'] + crate::text::decimal(0));
        assert(crate::text::decimal(0) =~= seq![crate::text::digit(0)]);
        assert(crate::text::digit(0) == '0');
        assert(hours =~= seq!['0', '0']);
        assert(full.take(3) =~= seq!['0', '0', ':']);
        assert(full.skip(3) =~= minutes + seq![':'] + seconds);
    } else {
        if full.take(3) == seq!['0', '0', ':'] {
            assert(full.take(3)[0] == full[0] && full.take(3)[1] == full[1]);
            assert(full.take(3)[2] == full[2]);
            assert(hours[0] == full[0]);
            if secs / 3600 < 10 {
                crate::text::decimals_read_back(secs / 3600);
                assert(hours[1] == crate::text::decimal(secs / 3600)[0]);
                assert(hours[1] == full[1]);
            } else {
                crate::text::decimals_read_back(secs / 3600);
            }
        }
    }
}

/// A length says where it is from: one that was decoded stands as it is, with the mark
/// where it is an estimate, and one that was declared is in parentheses.
pub proof fn length_says_where_it_is_from(value: Duration)
    ensures
        (DisplayDuration {
            value,
            source: DurationSource::Decoded(PositionProvenance::Established),
        }).label() == value.clock_spec(),
        (DisplayDuration {
            value,
            source: DurationSource::Decoded(PositionProvenance::Estimated),
        }).label() == seq!['~'] + value.clock_spec(),
        (DisplayDuration { value, source: DurationSource::Declared }).label() == seq!['(']
            + value.clock_spec() + seq![')'],
{
}

/// A loaded track shows its position, with the mark where it is an estimate, and its
/// length; one that is not loaded what is remembered of it, and its length beside that.
pub proof fn time_is_told(now: NowView)
    ensures
        now.loaded ==> crate::tui::render::time_label(Some(now)) == (if now.estimated_position {
            seq!['~']
        } else {
            Seq::<char>::empty()
        }) + now.position.clock_spec() + " / "@ + (match now.duration {
            Some(duration) => duration.label(),
            None => crate::tui::render::UNKNOWN_TIME@,
        }),
        !now.loaded && now.duration is None ==> crate::tui::render::time_label(Some(now))
            == match now.saved {
            Some(history) => history.label(),
            None => crate::tui::render::UNKNOWN_TIME@,
        },
        !now.loaded && now.saved is Some && now.duration is Some ==> crate::tui::render::time_label(
            Some(now),
        ) == now.saved.unwrap().label() + seq![' ', '·', ' '] + now.duration.unwrap().label(),
{
}

/// The bar of a loaded track whose length was decoded is filled up to its position, and
/// never past its end; without such a length, or before it is loaded, it is empty.
pub proof fn bar_is_filled_to_the_position(now: NowView, length: Duration)
    ensures
        ({
            let ratio = crate::tui::render::bar_ratio(Some(now));
            let decoded = now.duration matches Some(DisplayDuration {
                value,
                source: DurationSource::Decoded(_),
            }) && value == length && value.nanos > 0;
            &&& now.loaded && decoded ==> (ratio matches Some(ratio) && ratio.whole == length
                && ratio.played.nanos <= length.nanos && (now.position.nanos <= length.nanos
                ==> ratio.played == now.position) && (now.position.nanos > length.nanos
                ==> ratio.played == length))
            &&& !now.loaded ==> ratio is None
            &&& (now.duration matches Some(shown) ==> shown.source == DurationSource::Declared)
                ==> ratio is None
            &&& crate::tui::render::bar_ratio(None) is None
        }),
{
}

// ---------------------------------------------------------------- now playing

/// Of what plays the title is told first, then the artist where it is known, then the
/// album and the year as far as they are.
pub proof fn playing_track_is_told(view: ScreenView, now: NowView)
    requires
        view.now_playing == Some(now),
    ensures
        ({
            let lines = view.info();
            let artists: int = if now.artist is Some {
                1
            } else {
                0
            };
            let releases: int = if now.album is Some || now.year is Some {
                1
            } else {
                0
            };
            &&& lines.len() == 1 + artists + releases
            &&& lines[0] == now.title
            &&& now.artist is Some ==> lines[1] == now.artist.unwrap()
            &&& now.album is Some && now.year is None ==> lines[1 + artists] == now.album.unwrap()
            &&& now.album is None && now.year is Some ==> lines[1 + artists] == now.year.unwrap()
            &&& now.album is Some && now.year is Some ==> lines[1 + artists] == now.album.unwrap()
                + seq![' ', '·', ' '] + now.year.unwrap()
        }),
{
}

/// Every phase has a word of its own.
pub proof fn phases_are_told_apart(a: ScreenView, b: ScreenView)
    requires
        a.phase != b.phase,
    ensures
        a.phase_word() != b.phase_word(),
{
    reveal_strlit("idle");
    reveal_strlit("loading");
    reveal_strlit("failed");
    reveal_strlit("playing");
    reveal_strlit("reconnecting…");
    reveal_strlit("paused");
    reveal_strlit("stopped");
    reveal_strlit("ended");
    assert("idle"@.len() == 4 && "loading"@.len() == 7 && "failed"@.len() == 6);
    assert("playing"@.len() == 7 && "paused"@.len() == 6 && "stopped"@.len() == 7);
    assert("ended"@.len() == 5 && "reconnecting…"@.len() == 13);
    assert("loading"@[0] == 'l' && "playing"@[0] == 'p' && "stopped"@[0] == 's');
    assert("failed"@[0] == 'f' && "paused"@[0] == 'p');
}

/// The volume is told in digits, right-aligned, with its sign.
pub proof fn volume_is_told(percent: u8)
    requires
        percent <= 100,
    ensures
        ({
            let text = crate::tui::render::volume_text(percent);
            let digits = text.subrange(5 - crate::text::decimal(percent as nat).len(), 5);
            &&& text.len() == 6 && text[5] == '%'
            &&& crate::text::number_of(digits) == percent
            &&& forall|i: int|
                0 <= i < 5 - crate::text::decimal(percent as nat).len() ==> #[trigger] text[i]
                    == ' '
        }),
{
    let digits = crate::text::decimal(percent as nat);
    crate::text::decimals_read_back(percent as nat);
    if percent >= 10 {
        let tens = crate::text::decimal((percent / 10) as nat);
        if percent >= 100 {
            assert(crate::text::decimal(10nat) == crate::text::decimal(1nat).push(
                crate::text::digit(0),
            ));
            assert(crate::text::decimal(1nat) =~= seq![crate::text::digit(1)]);
            assert(percent == 100);
            assert(tens.len() == 2);
        } else {
            assert(tens =~= seq![crate::text::digit((percent / 10) as nat)]);
        }
        assert(digits == tens.push(crate::text::digit((percent % 10) as nat)));
    }
    assert(digits.len() <= 3);
    let text = crate::tui::render::volume_text(percent);
    assert(text.subrange(5 - digits.len(), 5) =~= digits);
}

// ---------------------------------------------------------------------- rows

/// The visible rows are consecutive rows of the list, one under the other from the top of
/// the body, as many as fit; the selected one is marked and is among them, and the one
/// that plays is marked.
pub proof fn rows_are_shown_in_order(
    view: ScreenView,
    body: Rect,
    offset: usize,
    selected: Option<QueueEntryId>,
    k: int,
) -> (first: int)
    requires
        body.height > 0,
        body.x + body.width <= u16::MAX,
        body.y + body.height <= u16::MAX,
        view.rows.len() <= usize::MAX,
        0 <= k < view.rows.len(),
        selected == Some(view.rows[k].id),
        forall|i: int| 0 <= i < k ==> (#[trigger] view.rows[i]).id != view.rows[k].id,
    ensures
        ({
            let rows = view.rows_in(body, offset, selected);
            &&& 0 <= first <= k < first + rows.len()
            &&& first + rows.len() <= view.rows.len()
            &&& rows.len() <= body.height
            &&& rows.len() == body.height || first + rows.len() == view.rows.len()
            &&& view.rows.len() >= body.height ==> rows.len() == body.height
            &&& offset <= k && k < offset + body.height && offset + body.height <= view.rows.len()
                ==> first == offset
            &&& forall|i: int|
                #![trigger rows[i]]
                0 <= i < rows.len() ==> {
                    &&& rows[i].index == first + i
                    &&& rows[i].id == view.rows[first + i].id
                    &&& rows[i].area.x == body.x && rows[i].area.width == body.width
                    &&& rows[i].area.y == body.y + i && rows[i].area.height == 1
                    &&& rows[i].playing <==> view.active == Some(rows[i].id)
                    &&& rows[i].selected <==> first + i == k
                }
        }),
{
    let ids = view.ids();
    let wanted = crate::playlist::entry_is(view.rows[k].id);
    crate::model::position_is_first(ids, wanted, 0);
    assert(ids[k] == view.rows[k].id);
    assert(wanted(ids[k]));
    let found = view.row_of(selected).unwrap();
    assert(wanted(ids[found]));
    assert(ids[found] == view.rows[found].id);
    assert(found == k);
    let first = crate::tui::layout::first_visible(
        view.rows.len() as int,
        offset as int,
        Some(k),
        body.height as int,
    );
    let rows = view.rows_in(body, offset, selected);
    assert(0 <= first <= k < first + body.height);
    assert(rows.len() <= body.height);
    assert forall|i: int| #![trigger rows[i]] 0 <= i < rows.len() implies rows[i].index == first + i
        && rows[i].id == view.rows[first + i].id && rows[i].area.x == body.x && rows[i].area.width
        == body.width && rows[i].area.y == body.y + i && rows[i].area.height == 1 && (
    rows[i].playing <==> view.active == Some(rows[i].id)) && (rows[i].selected <==> first + i
        == k) by {
        assert(i < 65536);
        assert((i as u16) == i);
        assert(((first + i) as usize) == first + i);
    }
    first
}

/// One track is told as one, and any other number in digits.
pub proof fn tracks_are_counted(count: nat)
    ensures
        count == 1 ==> crate::tui::render::tracks_text(count) == " 1 track "@,
        count != 1 ==> crate::tui::render::tracks_text(count) == " "@ + crate::text::decimal(count)
            + " tracks "@ && crate::text::number_of(crate::text::decimal(count)) == count,
{
    crate::text::decimals_read_back(count);
}

// ---------------------------------------------------------------------- tabs

/// A tab's label is its name, with the mark of what plays in front exactly where it plays
/// and the mark of a shuffle behind exactly where it is shuffled.
pub proof fn tab_label_tells(tab: TabView)
    ensures
        ({
            let front: int = if tab.playing {
                crate::tui::tabs::PLAYING_MARK@.len() as int
            } else {
                0
            };
            let label = tab.label();
            &&& label.subrange(front, front + tab.name.len()) == tab.name
            &&& tab.playing ==> crate::tui::tabs::PLAYING_MARK@.is_prefix_of(label)
            &&& label.len() == front + tab.name.len() + (if tab.shuffled {
                crate::tui::tabs::SHUFFLE_MARK@.len() as int
            } else {
                0
            })
            &&& tab.shuffled ==> label.skip(front + tab.name.len())
                == crate::tui::tabs::SHUFFLE_MARK@
        }),
{
    let front: int = if tab.playing {
        crate::tui::tabs::PLAYING_MARK@.len() as int
    } else {
        0
    };
    let label = tab.label();
    assert(label.subrange(front, front + tab.name.len()) =~= tab.name);
    if tab.shuffled {
        assert(label.skip(front + tab.name.len()) =~= crate::tui::tabs::SHUFFLE_MARK@);
    }
}

/// The labels shown are those of consecutive tabs, the viewed one among them and marked
/// as viewed, and no other is.
pub proof fn labels_are_consecutive_tabs(
    tabs: Seq<TabView>,
    viewed: PlaylistId,
    width: usize,
    k: int,
) -> (first: int)
    requires
        width > 0,
        0 <= k < tabs.len(),
        tabs[k].id == viewed,
        forall|i: int| 0 <= i < k ==> (#[trigger] tabs[i]).id != viewed,
    ensures
        ({
            let labels = crate::tui::tabs::labels_shown(tabs, viewed, width);
            &&& 0 <= first <= k < first + labels.len() <= tabs.len()
            &&& forall|i: int|
                #![trigger labels[i]]
                0 <= i < labels.len() ==> {
                    &&& labels[i].id == tabs[first + i].id
                    &&& labels[i].text == crate::width::clipped(tabs[first + i].label(), width)
                    &&& labels[i].playing == tabs[first + i].playing
                    &&& labels[i].viewed <==> first + i == k
                }
        }),
{
    let wanted = crate::tui::tabs::tab_is(viewed);
    crate::model::position_is_first(tabs, wanted, 0);
    assert(wanted(tabs[k]));
    let found = crate::tui::tabs::place_of(tabs, viewed);
    assert(wanted(tabs[found]));
    assert(tabs[found].id == viewed);
    assert(found == k);
    let widths = crate::tui::tabs::label_widths(tabs);
    let gap = crate::width::text_width(crate::tui::tabs::GAP@);
    crate::tui::tabs::strip_fits(widths, gap, width, k);
    crate::tui::tabs::window(widths, gap, width, k).0
}

/// In one label, the place of the viewed tab among all is told, counted from one.
pub proof fn place_is_told(at: nat, count: nat)
    ensures
        exists|place: Seq<char>, all: Seq<char>|
            #![trigger crate::text::number_of(place), crate::text::number_of(all)]
            crate::tui::tabs::place_text(at as int, count) == seq![' '] + place + seq!['/'] + all
                && crate::text::is_number(place) && crate::text::is_number(all)
                && crate::text::number_of(place) == at + 1 && crate::text::number_of(all) == count,
{
    crate::text::decimals_read_back((at + 1) as nat);
    crate::text::decimals_read_back(count);
    let place = crate::text::decimal((at + 1) as nat);
    let all = crate::text::decimal(count);
    assert(crate::text::number_of(place) == at + 1 && crate::text::number_of(all) == count);
    assert(crate::tui::tabs::place_text(at as int, count) =~= seq![' '] + place + seq!['/'] + all);
}

// -------------------------------------------------------------------- layout

/// Taking rows off the top, or columns off the left, divides an area: every cell of it is
/// in one of the two parts and none in both.
pub proof fn parts_divide_an_area(area: Rect, count: u16, point: Position)
    requires
        area.x + area.width <= u16::MAX,
        area.y + area.height <= u16::MAX,
    ensures
        area.top_part(count).covers(point) || area.below(count).covers(point) <==> area.covers(
            point,
        ),
        !(area.top_part(count).covers(point) && area.below(count).covers(point)),
        area.top_part(count).covers(point) <==> area.covers(point) && point.y < area.y + count,
        area.left_part(count).covers(point) || area.right_of(count).covers(point) <==> area.covers(
            point,
        ),
        !(area.left_part(count).covers(point) && area.right_of(count).covers(point)),
        area.left_part(count).covers(point) <==> area.covers(point) && point.x < area.x + count,
        area.last_row().covers(point) <==> area.covers(point) && point.y + 1 == area.y
            + area.height,
        area.above_last().covers(point) <==> area.covers(point) && point.y + 1 < area.y
            + area.height,
{
}

/// A list is scrolled as it was, as long as that leaves no row empty that could be filled
/// and the selected row is in sight; otherwise by as little as it takes.
pub proof fn scrolling_stays_put(len: int, offset: int, row: int, capacity: int)
    requires
        0 <= row < len,
        0 <= offset,
        0 < capacity,
    ensures
        ({
            let first = crate::tui::layout::first_visible(len, offset, Some(row), capacity);
            let last = if len > capacity {
                len - capacity
            } else {
                0
            };
            &&& 0 <= first <= last
            &&& offset <= last && offset <= row < offset + capacity ==> first == offset
            &&& offset <= last && row < offset ==> first == row
            &&& offset <= last && row >= offset + capacity ==> first + capacity == row + 1
            &&& offset > last && row >= last ==> first == last
        }),
{
}

// ---------------------------------------------------------------- the browser

/// In place of the rows the browser says what it waits for, why there are none, or that
/// there are none; with rows it says nothing.
pub proof fn list_is_explained(browser: BrowserView, rows: int)
    requires
        rows == match browser.tab {
            BrowserTab::Files => browser.entries.len() as int,
            BrowserTab::Podcasts => match browser.episodes {
                Some(open) => open.episodes.len() as int,
                None => browser.feeds.len() as int,
            },
            BrowserTab::Radio => browser.stations.len() as int,
        },
    ensures
        ({
            let notice = browser.list_notice();
            &&& browser.loading ==> notice == Some(
                (crate::tui::listing::LOADING@, Tone::Muted),
            )
            &&& !browser.loading && browser.error is Some ==> notice == Some(
                (crate::text::shown_text(browser.error.unwrap()), Tone::Warning),
            )
            &&& !browser.loading && browser.error is None && rows > 0 ==> notice is None
            &&& !browser.loading && browser.error is None && rows == 0 ==> (notice matches Some(
                said,
            ) && said.1 == Tone::Muted)
        }),
{
}

/// Each row of the browser is told by what it is: a directory by its name with a slash, a
/// file by its name, a feed and an episode by their titles, a station by its slug, or by
/// its address where it was never reached.
pub proof fn browser_rows_are_told(browser: BrowserView, at: int)
    requires
        0 <= at,
    ensures
        ({
            let cells = browser.cells_at(at);
            &&& browser.tab == BrowserTab::Files && at < browser.entries.len() ==> (
            cells matches Some(told) && told.label == (if browser.entries[at].kind
                == crate::application::browse::EntryKind::Directory {
                crate::text::shown_text(browser.entries[at].name).push('/')
            } else {
                crate::text::shown_text(browser.entries[at].name)
            }) && told.detail is None)
            &&& browser.tab == BrowserTab::Podcasts && browser.episodes is None && at
                < browser.feeds.len() ==> (cells matches Some(told) && told.label
                == crate::text::shown_text(
                match browser.feeds[at].title {
                    Some(title) => title,
                    None => browser.feeds[at].slug,
                },
            ) && (browser.feeds[at].episodes matches Some(count) ==> told.detail == Some(
                crate::text::decimal(count as nat) + " episodes"@,
            )))
            &&& browser.tab == BrowserTab::Podcasts ==> (browser.episodes matches Some(open) ==> (at
                < open.episodes.len() ==> (cells matches Some(told) && (
            open.episodes[at].title matches Some(title) ==> told.label == crate::text::shown_text(
                title,
            )) && (open.episodes[at].declared_duration matches Some(length) ==> told.detail == Some(
                seq!['('] + length.clock_spec() + seq![')'],
            )))))
            &&& browser.tab == BrowserTab::Radio && at < browser.stations.len() ==> (
            cells matches Some(told) && told.label == crate::text::shown_text(
                if browser.stations[at].identity is Some {
                    browser.stations[at].slug
                } else {
                    browser.stations[at].url
                },
            ))
        }),
{
}

/// Saved histories are told apart from each other on an unloaded track.
pub proof fn remembered_position_is_told(now: NowView, at: Duration, estimated: bool)
    requires
        !now.loaded,
        now.duration is None,
        now.saved == Some(SavedHistory::Position { at, estimated }),
    ensures
        crate::tui::render::time_label(Some(now)) == (SavedHistory::Position {
            at,
            estimated,
        }).label(),
{
}

/// The buttons of the transport stand in a row, each to the right of the one before it, and
/// no cell belongs to two of them.
pub proof fn buttons_stand_in_a_row(area: Rect, widths: Seq<u16>, i: int, j: int, point: Position)
    requires
        0 <= i < j < widths.len(),
        area.x + area.width <= u16::MAX,
        area.y + area.height <= u16::MAX,
    ensures
        ({
            let one = crate::tui::render::after_buttons(area, widths, i).left_part(widths[i]);
            let two = crate::tui::render::after_buttons(area, widths, j).left_part(widths[j]);
            &&& one.x + one.width <= two.x || one.width == 0 || two.width == 0
            &&& one.covers(point) ==> area.covers(point)
            &&& !(one.covers(point) && two.covers(point))
        }),
{
    row_is_left_over(area, widths, 0, i);
    row_is_left_over(area, widths, 0, j);
    row_is_left_over(area, widths, i + 1, j);
}

proof fn row_is_left_over(area: Rect, widths: Seq<u16>, few: int, many: int)
    requires
        0 <= few <= many <= widths.len(),
        area.x + area.width <= u16::MAX,
        area.y + area.height <= u16::MAX,
    ensures
        ({
            let a = crate::tui::render::after_buttons(area, widths, few);
            let b = crate::tui::render::after_buttons(area, widths, many);
            &&& a.x <= b.x && b.x + b.width == a.x + a.width
            &&& b.y == a.y && b.height == a.height
            &&& area.x <= a.x && a.x + a.width == area.x + area.width && a.y == area.y && a.height
                == area.height
        }),
    decreases many, few,
{
    if few < many {
        row_is_left_over(area, widths, few, many - 1);
    } else if few > 0 {
        row_is_left_over(area, widths, few - 1, few - 1);
    }
}

/// Where the browser is: the directory, the feed that is open by its title, or the list.
pub proof fn place_in_the_browser_is_told(browser: BrowserView, k: int)
    ensures
        browser.tab == BrowserTab::Files ==> browser.place() == crate::text::shown_text(
            browser.cwd,
        ),
        browser.tab == BrowserTab::Podcasts ==> (browser.episodes matches Some(open) ==> (0 <= k
            < browser.feeds.len() && browser.feeds[k].slug == open.slug && (forall|i: int|
            0 <= i < k ==> (#[trigger] browser.feeds[i]).slug != open.slug) ==> browser.place()
            == "Subscriptions › "@ + crate::text::shown_text(
            match browser.feeds[k].title {
                Some(title) => title,
                None => open.slug,
            },
        ))),
{
    if let Some(open) = browser.episodes {
        let wanted = crate::tui::listing::feed_is(open.slug);
        crate::model::position_is_first(browser.feeds, wanted, 0);
        if 0 <= k < browser.feeds.len() && browser.feeds[k].slug == open.slug {
            assert(wanted(browser.feeds[k]));
            let found = crate::model::position(browser.feeds, wanted, 0).unwrap();
            assert(wanted(browser.feeds[found]));
            assert(browser.feeds[found].slug == open.slug);
        }
    }
}

/// The question before a playlist is deleted names it.
pub proof fn question_names_the_playlist(view: ScreenView, id: PlaylistId, k: int)
    requires
        0 <= k < view.tabs.len(),
        view.tabs[k].id == id,
        forall|i: int| 0 <= i < k ==> (#[trigger] view.tabs[i]).id != id,
    ensures
        ({
            let asked = crate::tui::render::delete_question(view, id);
            let front = "Delete playlist \""@.len() as int;
            asked.len() >= front + view.tabs[k].name.len() && asked.subrange(
                front,
                front + view.tabs[k].name.len(),
            ) == view.tabs[k].name
        }),
{
    let wanted = crate::tui::tabs::tab_is(id);
    crate::model::position_is_first(view.tabs, wanted, 0);
    assert(wanted(view.tabs[k]));
    let found = crate::model::position(view.tabs, wanted, 0).unwrap();
    assert(wanted(view.tabs[found]));
    assert(view.tabs[found].id == id);
    let asked = crate::tui::render::delete_question(view, id);
    let front = "Delete playlist \""@.len() as int;
    assert(asked.subrange(front, front + view.tabs[k].name.len()) =~= view.tabs[k].name);
}

} // verus!
