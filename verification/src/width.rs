//! Text measured in terminal columns, and cut to a number of them.

use crate::text::{chars_of, push_char};
use unicode_width::{UnicodeWidthChar, UnicodeWidthStr};
use vstd::prelude::*;

verus! {

/// The columns that a text takes, as `unicode_width::UnicodeWidthStr::width`
/// gives them.
pub uninterp spec fn text_width(text: Seq<char>) -> usize;

/// The columns that a character takes, as
/// `unicode_width::UnicodeWidthChar::width` gives them; none for a control
/// character.
pub uninterp spec fn char_width(c: char) -> Option<usize>;

/// Measures a text, with `unicode_width::UnicodeWidthStr::width`. The result
/// depends on the characters alone; it is not claimed to be the sum of their
/// own widths, which it need not be.
#[verifier::external_body]
pub(crate) fn width_of(text: &str) -> (width: usize)
    ensures
        width == text_width(text@),
{
    UnicodeWidthStr::width(text)
}

/// Measures a character, with `unicode_width::UnicodeWidthChar::width`. The
/// result depends on the character alone.
#[verifier::external_body]
pub(crate) fn width_of_char(c: char) -> (width: Option<usize>)
    ensures
        width == char_width(c),
{
    UnicodeWidthChar::width(c)
}

/// The columns of a character, none where it has no width of its own.
pub open spec fn columns_of(c: char) -> usize {
    match char_width(c) {
        Some(width) => width,
        None => 0,
    }
}

/// The columns of each character of `text`.
pub open spec fn widths_of(text: Seq<char>) -> Seq<usize> {
    text.map_values(|c: char| columns_of(c))
}

/// What the widths come to.
pub open spec fn total(widths: Seq<usize>) -> nat
    decreases widths.len(),
{
    if widths.len() == 0 {
        0
    } else {
        total(widths.drop_last()) + widths.last() as nat
    }
}

/// How many characters of these widths fit with one column to spare: as many
/// as there are before the first that does not, looking from `at` on.
pub open spec fn fitting(widths: Seq<usize>, width: nat, at: int) -> int
    decreases widths.len() - at,
{
    if at >= widths.len() || total(widths.take(at + 1)) + 1 > width {
        at
    } else {
        fitting(widths, width, at + 1)
    }
}

/// A text that is `whole` columns wide, its characters as wide as `widths`, cut
/// to `width` columns: as it is where it fits, and otherwise with an ellipsis
/// for what was cut.
pub open spec fn cut(text: Seq<char>, whole: usize, widths: Seq<usize>, width: usize) -> Seq<char> {
    if whole <= width {
        text
    } else if width == 0 {
        Seq::empty()
    } else {
        text.take(fitting(widths, width as nat, 0)).push('…')
    }
}

/// `text` cut to `width` columns, ending in an ellipsis where anything was cut.
pub open spec fn clipped(text: Seq<char>, width: usize) -> Seq<char> {
    cut(text, text_width(text), widths_of(text), width)
}

/// Cuts a text whose measures are known. It is cut between characters, so a
/// combining mark may lose its base.
pub fn clip_measured(text: &str, whole: usize, widths: &Vec<usize>, width: usize) -> (out: String)
    requires
        widths@.len() == text@.len(),
    ensures
        out@ == cut(text@, whole, widths@, width),
{
    if whole <= width {
        return text.to_owned();
    }
    let mut out = String::new();
    if width == 0 {
        return out;
    }
    let chars = chars_of(text);
    let mut used: usize = 0;
    let mut at: usize = 0;
    while at < chars.len() && widths[at] < width - used
        invariant
            at <= chars@.len(),
            chars@ == text@,
            widths@.len() == text@.len(),
            used < width,
            used == total(widths@.take(at as int)),
            out@ == text@.take(at as int),
            fitting(widths@, width as nat, 0) == fitting(widths@, width as nat, at as int),
        decreases chars@.len() - at,
    {
        proof {
            assert(widths@.take(at + 1).drop_last() =~= widths@.take(at as int));
            assert(text@.take(at + 1) =~= text@.take(at as int).push(text@[at as int]));
        }
        push_char(&mut out, chars[at]);
        used = used + widths[at];
        at += 1;
    }
    proof {
        if at < chars@.len() {
            assert(widths@.take(at + 1).drop_last() =~= widths@.take(at as int));
        }
    }
    push_char(&mut out, '…');
    out
}

fn measured(text: &str) -> (widths: Vec<usize>)
    ensures
        widths@ == widths_of(text@),
{
    let chars = chars_of(text);
    let mut widths: Vec<usize> = Vec::new();
    let mut at: usize = 0;
    while at < chars.len()
        invariant
            at <= chars@.len(),
            chars@ == text@,
            widths@ == widths_of(text@).take(at as int),
        decreases chars@.len() - at,
    {
        let width: usize = match width_of_char(chars[at]) {
            Some(width) => width,
            None => 0,
        };
        widths.push(width);
        at += 1;
        proof {
            assert(widths@ =~= widths_of(text@).take(at as int));
        }
    }
    proof {
        assert(widths_of(text@).take(at as int) =~= widths_of(text@));
    }
    widths
}

/// `text` cut to `width` columns, ending in an ellipsis where anything was cut.
pub fn clip(text: &str, width: usize) -> (out: String)
    ensures
        out@ == clipped(text@, width),
{
    clip_measured(text, width_of(text), &measured(text), width)
}

proof fn fitting_fits(widths: Seq<usize>, width: nat, at: int)
    requires
        0 <= at <= widths.len(),
        total(widths.take(at)) + 1 <= width,
    ensures
        ({
            let kept = fitting(widths, width, at);
            &&& at <= kept <= widths.len()
            &&& total(widths.take(kept)) + 1 <= width
            &&& kept < widths.len() ==> total(widths.take(kept + 1)) + 1 > width
        }),
    decreases widths.len() - at,
{
    if at < widths.len() && total(widths.take(at + 1)) + 1 <= width {
        fitting_fits(widths, width, at + 1);
    }
}

/// A text that is cut keeps as much of its beginning as leaves a column for the
/// ellipsis, and no less.
pub proof fn cut_keeps_the_beginning(
    text: Seq<char>,
    whole: usize,
    widths: Seq<usize>,
    width: usize,
)
    requires
        widths.len() == text.len(),
        whole > width > 0,
    ensures
        ({
            let kept = fitting(widths, width as nat, 0);
            &&& 0 <= kept <= text.len()
            &&& cut(text, whole, widths, width) == text.take(kept).push('…')
            &&& total(widths.take(kept)) + 1 <= width
            &&& kept < text.len() ==> total(widths.take(kept + 1)) + 1 > width
        }),
{
    assert(widths.take(0) =~= Seq::<usize>::empty());
    fitting_fits(widths, width as nat, 0);
}

/// A text that fits is shown as it is.
pub proof fn fitting_text_is_whole(text: Seq<char>, width: usize)
    requires
        text_width(text) <= width,
    ensures
        clipped(text, width) == text,
{
}

} // verus!
