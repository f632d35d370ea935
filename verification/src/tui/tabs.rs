//! The playlist tab strip: which labels fit, in terminal columns.

use crate::application::view::{PlaylistTab, TabView};
use crate::playlist::PlaylistId;
use crate::text::{push_char, push_decimal, push_text};
use crate::width::{clip, width_of};
use vstd::prelude::*;

verus! {

broadcast use crate::model::group_model;

pub const PLAYING_MARK: &'static str = "▶";

/// Letters, not a glyph: no monospace font carries a shuffle sign.
pub const SHUFFLE_MARK: &'static str = " ·shfl";

pub const GAP: &'static str = "  ";

#[derive(Debug, PartialEq, Eq)]
pub struct TabLabel {
    pub id: PlaylistId,
    pub text: String,
    pub viewed: bool,
    pub playing: bool,
}

#[verifier::ext_equal]
pub struct LabelView {
    pub id: PlaylistId,
    pub text: Seq<char>,
    pub viewed: bool,
    pub playing: bool,
}

impl View for TabLabel {
    type V = LabelView;

    open spec fn view(&self) -> LabelView {
        LabelView { id: self.id, text: self.text@, viewed: self.viewed, playing: self.playing }
    }
}

impl TabView {
    /// The name between its marks.
    pub open spec fn label(self) -> Seq<char> {
        let front: Seq<char> = if self.playing {
            PLAYING_MARK@
        } else {
            Seq::empty()
        };
        let back: Seq<char> = if self.shuffled {
            SHUFFLE_MARK@
        } else {
            Seq::empty()
        };
        front + self.name + back
    }
}

/// Being the tab of a playlist.
pub open spec fn tab_is(id: PlaylistId) -> spec_fn(TabView) -> bool {
    |tab: TabView| tab.id == id
}

/// The place of the viewed tab; the first where it is gone.
pub open spec fn place_of(tabs: Seq<TabView>, viewed: PlaylistId) -> int {
    match crate::model::position(tabs, tab_is(viewed), 0) {
        Some(at) => at,
        None => 0,
    }
}

/// Where the strip begins, and what it then takes: as many tabs in front of
/// `start` as fit.
pub open spec fn leftmost(
    widths: Seq<usize>,
    gap: usize,
    width: usize,
    start: int,
    used: nat,
) -> (int, nat)
    decreases start,
{
    if start <= 0 || used + widths[start - 1] + gap > width {
        (start, used)
    } else {
        leftmost(widths, gap, width, start - 1, used + widths[start - 1] as nat + gap as nat)
    }
}

/// Where the strip ends, and what it then takes: as many tabs from `end` on as
/// fit.
pub open spec fn rightmost(
    widths: Seq<usize>,
    gap: usize,
    width: usize,
    end: int,
    used: nat,
) -> (int, nat)
    decreases widths.len() - end,
{
    if end >= widths.len() || used + widths[end] + gap > width {
        (end, used)
    } else {
        rightmost(widths, gap, width, end + 1, used + widths[end] as nat + gap as nat)
    }
}

/// The tabs shown: the one at `at`, as many before it as fit with it, and then
/// as many after.
pub open spec fn window(widths: Seq<usize>, gap: usize, width: usize, at: int) -> (int, int) {
    let own: nat = if widths[at] <= width {
        widths[at] as nat
    } else {
        width as nat
    };
    let (start, used) = leftmost(widths, gap, width, at, own);
    (start, rightmost(widths, gap, width, at + 1, used).0)
}

/// The widths of the labels.
pub open spec fn label_widths(tabs: Seq<TabView>) -> Seq<usize> {
    tabs.map_values(|tab: TabView| crate::width::text_width(tab.label()))
}

/// The labels that fit in `width` columns.
pub open spec fn labels_shown(tabs: Seq<TabView>, viewed: PlaylistId, width: usize) -> Seq<
    LabelView,
> {
    if width == 0 || tabs.len() == 0 {
        Seq::empty()
    } else {
        let at = place_of(tabs, viewed);
        let (start, end) = window(
            label_widths(tabs),
            crate::width::text_width(GAP@),
            width,
            at,
        );
        Seq::new(
            (end - start) as nat,
            |i: int|
                LabelView {
                    id: tabs[start + i].id,
                    text: crate::width::clipped(tabs[start + i].label(), width),
                    viewed: start + i == at,
                    playing: tabs[start + i].playing,
                },
        )
    }
}

fn label(tab: &PlaylistTab) -> (text: String)
    ensures
        text@ == tab@.label(),
{
    let mut text = String::new();
    if tab.playing {
        push_text(&mut text, PLAYING_MARK);
    }
    push_text(&mut text, tab.name.as_str());
    if tab.shuffled {
        push_text(&mut text, SHUFFLE_MARK);
    }
    proof {
        assert(text@ =~= tab@.label());
    }
    text
}

fn index_of(tabs: &[PlaylistTab], viewed: PlaylistId) -> (at: usize)
    ensures
        at == place_of(crate::model::seq(tabs@), viewed),
        tabs@.len() > 0 ==> at < tabs@.len(),
{
    let ghost all = crate::model::seq(tabs@);
    let ghost wanted = tab_is(viewed);
    let mut at: usize = 0;
    while at < tabs.len()
        invariant
            at <= tabs@.len(),
            all == crate::model::seq(tabs@),
            wanted == tab_is(viewed),
            crate::model::position(all, wanted, 0) == crate::model::position(
                all,
                wanted,
                at as int,
            ),
        decreases tabs@.len() - at,
    {
        assert(all[at as int] == tabs@[at as int]@);
        if tabs[at].id == viewed {
            return at;
        }
        at += 1;
    }
    0
}

/// The tabs shown of those as wide as `widths`, with `gap` columns between two.
pub fn window_measured(widths: &Vec<usize>, gap: usize, width: usize, at: usize) -> (shown: (
    usize,
    usize,
))
    requires
        at < widths@.len(),
    ensures
        window(widths@, gap, width, at as int) == (shown.0 as int, shown.1 as int),
        shown.0 <= at < shown.1 <= widths@.len(),
{
    let mut used: usize = if widths[at] <= width {
        widths[at]
    } else {
        width
    };
    let ghost own = used as nat;
    let mut start: usize = at;
    while start > 0 && widths[start - 1] <= width - used && gap <= width - used - widths[start - 1]
        invariant
            start <= at < widths@.len(),
            used <= width,
            leftmost(widths@, gap, width, at as int, own) == leftmost(
                widths@,
                gap,
                width,
                start as int,
                used as nat,
            ),
        decreases start,
    {
        used = used + widths[start - 1] + gap;
        start -= 1;
    }
    let ghost left = used as nat;
    let count: usize = widths.len();
    let mut end: usize = at + 1;
    while end < count && widths[end] <= width - used && gap <= width - used - widths[end]
        invariant
            at < end <= count == widths@.len(),
            used <= width,
            rightmost(widths@, gap, width, at + 1, left) == rightmost(
                widths@,
                gap,
                width,
                end as int,
                used as nat,
            ),
        decreases widths@.len() - end,
    {
        used = used + widths[end] + gap;
        end += 1;
    }
    (start, end)
}

/// The labels that fit in `width` columns, always with the viewed tab: as many
/// tabs before it as fit with it, then as many after.
pub fn strip(tabs: &[PlaylistTab], viewed: PlaylistId, width: usize) -> (labels: Vec<TabLabel>)
    ensures
        crate::model::seq(labels@) == labels_shown(crate::model::seq(tabs@), viewed, width),
{
    let ghost all = crate::model::seq(tabs@);
    let mut labels: Vec<TabLabel> = Vec::new();
    if width == 0 || tabs.len() == 0 {
        return labels;
    }
    let at = index_of(tabs, viewed);
    let mut texts: Vec<String> = Vec::new();
    let mut widths: Vec<usize> = Vec::new();
    let mut next: usize = 0;
    while next < tabs.len()
        invariant
            next <= tabs@.len(),
            all == crate::model::seq(tabs@),
            texts@.len() == next,
            forall|i: int| 0 <= i < next ==> (#[trigger] texts@[i])@ == all[i].label(),
            widths@ == label_widths(all).take(next as int),
        decreases tabs@.len() - next,
    {
        assert(all[next as int] == tabs@[next as int]@);
        let text = label(&tabs[next]);
        widths.push(width_of(text.as_str()));
        texts.push(text);
        next += 1;
        proof {
            assert(widths@ =~= label_widths(all).take(next as int));
        }
    }
    proof {
        assert(widths@ =~= label_widths(all));
    }
    let (start, end) = window_measured(&widths, width_of(GAP), width, at);
    let ghost shown = labels_shown(all, viewed, width);
    let mut index: usize = start;
    while index < end
        invariant
            start <= index <= end <= tabs@.len(),
            all == crate::model::seq(tabs@),
            texts@.len() == tabs@.len(),
            forall|i: int| 0 <= i < tabs@.len() ==> (#[trigger] texts@[i])@ == all[i].label(),
            shown == Seq::new(
                (end - start) as nat,
                |i: int|
                    LabelView {
                        id: all[start + i].id,
                        text: crate::width::clipped(all[start + i].label(), width),
                        viewed: start + i == at,
                        playing: all[start + i].playing,
                    },
            ),
            crate::model::seq(labels@) == shown.take(index - start),
        decreases end - index,
    {
        assert(all[index as int] == tabs@[index as int]@);
        let ghost before = labels@;
        labels.push(
            TabLabel {
                id: tabs[index].id,
                text: clip(texts[index].as_str(), width),
                viewed: index == at,
                playing: tabs[index].playing,
            },
        );
        proof {
            assert(labels@.last()@ =~= shown[index - start]);
            assert(crate::model::seq(labels@) =~= shown.take(index - start + 1));
        }
        index += 1;
    }
    proof {
        assert(shown.take(end - start) =~= shown);
    }
    labels
}

/// ` 2/5`: the place of a tab among all.
pub open spec fn place_text(at: int, count: nat) -> Seq<char> {
    seq![' '] + crate::text::decimal((at + 1) as nat) + seq!['/'] + crate::text::decimal(count)
}

/// The strip in one label: the viewed one and its place.
pub open spec fn compacted(tabs: Seq<TabView>, viewed: PlaylistId, width: usize) -> Seq<char> {
    if tabs.len() == 0 {
        Seq::empty()
    } else {
        let at = place_of(tabs, viewed);
        let place = place_text(at, tabs.len());
        let taken = crate::width::text_width(place);
        let room = if taken <= width {
            (width - taken) as usize
        } else {
            0
        };
        crate::width::clipped(crate::width::clipped(tabs[at].label(), room) + place, width)
    }
}

/// The viewed label and its place, cut to `width` columns.
pub fn compact(tabs: &[PlaylistTab], viewed: PlaylistId, width: usize) -> (text: String)
    ensures
        text@ == compacted(crate::model::seq(tabs@), viewed, width),
{
    let ghost all = crate::model::seq(tabs@);
    if tabs.len() == 0 {
        return String::new();
    }
    let at = index_of(tabs, viewed);
    assert(all[at as int] == tabs@[at as int]@);
    let mut place = String::new();
    push_char(&mut place, ' ');
    push_decimal(&mut place, at as u64 + 1);
    push_char(&mut place, '/');
    push_decimal(&mut place, tabs.len() as u64);
    proof {
        assert(place@ =~= place_text(at as int, all.len()));
    }
    let room = width.saturating_sub(width_of(place.as_str()));
    let mut text = clip(label(&tabs[at]).as_str(), room);
    push_text(&mut text, place.as_str());
    clip(text.as_str(), width)
}

// --------------------------------------------------------------------- laws

/// The columns of the tabs from `start` to `end`, with a gap between two.
pub open spec fn span(widths: Seq<usize>, gap: usize, start: int, end: int) -> nat
    decreases end - start,
{
    if end - start <= 0 {
        0
    } else if end - start == 1 {
        widths[start] as nat
    } else {
        span(widths, gap, start, end - 1) + gap as nat + widths[end - 1] as nat
    }
}

proof fn span_grows_left(widths: Seq<usize>, gap: usize, start: int, end: int)
    requires
        0 < start < end <= widths.len(),
    ensures
        span(widths, gap, start - 1, end) == widths[start - 1] as nat + gap as nat + span(
            widths,
            gap,
            start,
            end,
        ),
    decreases end - start,
{
    if end - start > 1 {
        span_grows_left(widths, gap, start, end - 1);
    } else {
        assert(span(widths, gap, start - 1, start) == widths[start - 1]);
    }
}

proof fn leftmost_fits(widths: Seq<usize>, gap: usize, width: usize, start: int, used: nat, end: int)
    requires
        0 <= start < end <= widths.len(),
        used <= width,
        used == span(widths, gap, start, end),
    ensures
        ({
            let (first, taken) = leftmost(widths, gap, width, start, used);
            &&& 0 <= first <= start
            &&& taken <= width
            &&& taken == span(widths, gap, first, end)
            &&& first > 0 ==> span(widths, gap, first - 1, end) > width
        }),
    decreases start,
{
    if start > 0 {
        span_grows_left(widths, gap, start, end);
        if used + widths[start - 1] + gap <= width {
            leftmost_fits(
                widths,
                gap,
                width,
                start - 1,
                used + widths[start - 1] as nat + gap as nat,
                end,
            );
        }
    }
}

proof fn rightmost_fits(widths: Seq<usize>, gap: usize, width: usize, start: int, end: int, used: nat)
    requires
        0 <= start < end <= widths.len(),
        used <= width,
        used == span(widths, gap, start, end),
    ensures
        ({
            let (last, taken) = rightmost(widths, gap, width, end, used);
            &&& end <= last <= widths.len()
            &&& taken <= width
            &&& taken == span(widths, gap, start, last)
            &&& last < widths.len() ==> span(widths, gap, start, last + 1) > width
        }),
    decreases widths.len() - end,
{
    if end < widths.len() && used + widths[end] + gap <= width {
        rightmost_fits(
            widths,
            gap,
            width,
            start,
            end + 1,
            used + widths[end] as nat + gap as nat,
        );
    }
}

/// What stands before a tab depends on the tabs before it alone.
proof fn leftmost_sees_the_left(
    a: Seq<usize>,
    b: Seq<usize>,
    gap: usize,
    width: usize,
    start: int,
    used: nat,
)
    requires
        forall|i: int| 0 <= i < start ==> #[trigger] a[i] == b[i],
    ensures
        leftmost(a, gap, width, start, used) == leftmost(b, gap, width, start, used),
    decreases start,
{
    if start > 0 {
        assert(a[start - 1] == b[start - 1]);
        leftmost_sees_the_left(
            a,
            b,
            gap,
            width,
            start - 1,
            used + a[start - 1] as nat + gap as nat,
        );
    }
}

/// What stands after a tab depends on the tabs after it alone.
proof fn rightmost_sees_the_right(
    a: Seq<usize>,
    b: Seq<usize>,
    gap: usize,
    width: usize,
    end: int,
    used: nat,
)
    requires
        0 <= end,
        a.len() == b.len(),
        forall|i: int| end <= i < a.len() ==> #[trigger] a[i] == b[i],
    ensures
        rightmost(a, gap, width, end, used) == rightmost(b, gap, width, end, used),
    decreases a.len() - end,
{
    if end < a.len() {
        assert(a[end] == b[end]);
        rightmost_sees_the_right(
            a,
            b,
            gap,
            width,
            end + 1,
            used + a[end] as nat + gap as nat,
        );
    }
}

/// The widths as they are counted: a viewed label that is wider than the strip
/// is cut, and takes no more than the strip.
pub open spec fn shown_widths(widths: Seq<usize>, width: usize, at: int) -> Seq<usize> {
    if widths[at] <= width {
        widths
    } else {
        widths.update(at, width)
    }
}

/// The viewed tab is always shown, the strip never takes more than its width,
/// and nothing more would fit: not before what is shown once the viewed tab is
/// in, nor after it.
pub proof fn strip_fits(widths: Seq<usize>, gap: usize, width: usize, at: int)
    requires
        0 <= at < widths.len(),
    ensures
        ({
            let (start, end) = window(widths, gap, width, at);
            let shown = shown_widths(widths, width, at);
            &&& 0 <= start <= at < end <= widths.len()
            &&& span(shown, gap, start, end) <= width
            &&& start > 0 ==> span(shown, gap, start - 1, at + 1) > width
            &&& end < widths.len() ==> span(shown, gap, start, end + 1) > width
        }),
{
    let shown = shown_widths(widths, width, at);
    let own = shown[at] as nat;
    leftmost_sees_the_left(widths, shown, gap, width, at, own);
    leftmost_fits(shown, gap, width, at, own, at + 1);
    let (start, used) = leftmost(shown, gap, width, at, own);
    rightmost_sees_the_right(widths, shown, gap, width, at + 1, used);
    rightmost_fits(shown, gap, width, start, at + 1, used);
}

/// Whatever the width, the viewed label is among those shown.
pub proof fn viewed_label_is_shown(tabs: Seq<TabView>, viewed: PlaylistId, width: usize)
    requires
        tabs.len() > 0,
        width > 0,
    ensures
        exists|i: int|
            0 <= i < labels_shown(tabs, viewed, width).len() && (#[trigger] labels_shown(
                tabs,
                viewed,
                width,
            )[i]).viewed,
{
    let at = place_of(tabs, viewed);
    crate::model::position_is_first(tabs, tab_is(viewed), 0);
    let widths = label_widths(tabs);
    let gap = crate::width::text_width(GAP@);
    let own: nat = if widths[at] <= width {
        widths[at] as nat
    } else {
        width as nat
    };
    leftmost_stays(widths, gap, width, at, own);
    let (start, used) = leftmost(widths, gap, width, at, own);
    rightmost_stays(widths, gap, width, at + 1, used);
    let shown = labels_shown(tabs, viewed, width);
    assert(shown[at - start].viewed);
}

proof fn leftmost_stays(widths: Seq<usize>, gap: usize, width: usize, start: int, used: nat)
    requires
        0 <= start,
    ensures
        0 <= leftmost(widths, gap, width, start, used).0 <= start,
    decreases start,
{
    if start > 0 && used + widths[start - 1] + gap <= width {
        leftmost_stays(
            widths,
            gap,
            width,
            start - 1,
            used + widths[start - 1] as nat + gap as nat,
        );
    }
}

proof fn rightmost_stays(widths: Seq<usize>, gap: usize, width: usize, end: int, used: nat)
    requires
        end <= widths.len(),
    ensures
        end <= rightmost(widths, gap, width, end, used).0 <= widths.len(),
    decreases widths.len() - end,
{
    if end < widths.len() && used + widths[end] + gap <= width {
        rightmost_stays(widths, gap, width, end + 1, used + widths[end] as nat + gap as nat);
    }
}

} // verus!
