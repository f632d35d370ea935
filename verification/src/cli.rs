//! The command line: its modes, its commands and the numbers it takes.

use crate::text::chars_of;
use vstd::prelude::*;

verus! {

/// Whether the player captures the mouse. Off leaves the terminal's own
/// selection and scrolling alone.
#[derive(Clone, Copy, Debug, PartialEq, Eq, Structural)]
pub enum MouseMode {
    On,
    Off,
}

impl Default for MouseMode {
    fn default() -> (mode: Self)
        ensures
            mode == MouseMode::On,
    {
        MouseMode::On
    }
}

/// How the player draws cover art: `Auto` asks the terminal and falls back to
/// half-blocks, `Blocks` draws half-blocks without asking, and `Off` never
/// loads any.
#[derive(Clone, Copy, Debug, PartialEq, Eq, Structural)]
pub enum ArtworkMode {
    Auto,
    Blocks,
    Off,
}

impl Default for ArtworkMode {
    fn default() -> (mode: Self)
        ensures
            mode == ArtworkMode::Auto,
    {
        ArtworkMode::Auto
    }
}

#[allow(inconsistent_fields)]
#[derive(Debug, PartialEq, Eq)]
pub enum CliCommand {
    /// A file or an address, or with an index a feed's episode.
    Play { source: String, index: Option<usize>, probe_only: bool },
    Subscribe { url: String, slug: Option<String> },
    Unsubscribe { slug: String },
    Tui { mouse: MouseMode, artwork: ArtworkMode },
    Feeds,
    Refresh { slug: Option<String> },
    Episodes { slug: String, limit: Option<usize>, reverse: bool },
}

#[derive(Debug, PartialEq, Eq)]
pub struct Cli {
    /// None opens the player.
    pub command: Option<CliCommand>,
}

pub open spec fn is_digit(c: char) -> bool {
    '0' <= c && c <= '9'
}

/// What decimal digits come to.
pub open spec fn number_of(digits: Seq<char>) -> nat
    decreases digits.len(),
{
    if digits.len() == 0 {
        0
    } else {
        number_of(digits.drop_last()) * 10 + (digits.last() as u32 - '0' as u32) as nat
    }
}

/// The digits of a number: those after a plus sign, where there is one.
pub open spec fn digits_of(text: Seq<char>) -> Seq<char> {
    if text.len() > 0 && text[0] == '+' {
        text.skip(1)
    } else {
        text
    }
}

/// The number that a text writes in decimal, if it is one that a `usize` holds.
pub open spec fn parsed(text: Seq<char>) -> Option<usize> {
    let digits = digits_of(text);
    if digits.len() > 0 && (forall|i: int| 0 <= i < digits.len() ==> is_digit(#[trigger] digits[i]))
        && number_of(digits) <= usize::MAX {
        Some(number_of(digits) as usize)
    } else {
        None
    }
}

proof fn longer_is_larger(digits: Seq<char>, count: int)
    requires
        0 <= count <= digits.len(),
        forall|i: int| 0 <= i < digits.len() ==> is_digit(#[trigger] digits[i]),
    ensures
        number_of(digits.take(count)) <= number_of(digits),
    decreases digits.len() - count,
{
    if count < digits.len() {
        longer_is_larger(digits, count + 1);
        assert(digits.take(count + 1).drop_last() =~= digits.take(count));
        assert(digits.take(count + 1).last() == digits[count]);
    } else {
        assert(digits.take(count) =~= digits);
    }
}

/// Reads a decimal number, with or without a plus sign.
pub fn parse_usize(text: &str) -> (number: Option<usize>)
    ensures
        number == parsed(text@),
{
    let chars = chars_of(text);
    let ghost digits = digits_of(text@);
    let start: usize = if chars.len() > 0 && chars[0] == '+' {
        1
    } else {
        0
    };
    if start == chars.len() {
        return None;
    }
    let mut number: usize = 0;
    let mut at: usize = start;
    proof {
        assert(digits.take(0) =~= Seq::<char>::empty());
    }
    while at < chars.len()
        invariant
            start <= at <= chars@.len(),
            start <= 1,
            chars@ == text@,
            digits == digits_of(text@),
            digits == text@.skip(start as int),
            number == number_of(digits.take(at - start)),
            forall|i: int| 0 <= i < at - start ==> is_digit(#[trigger] digits[i]),
        decreases chars@.len() - at,
    {
        let c: char = chars[at];
        assert(digits[at - start] == c);
        if c < '0' || c > '9' {
            return None;
        }
        proof {
            assert(digits.take(at - start + 1).drop_last() =~= digits.take(at - start));
        }
        let digit: usize = (c as u32 - '0' as u32) as usize;
        if number > (usize::MAX - digit) / 10 {
            proof {
                if forall|i: int| 0 <= i < digits.len() ==> is_digit(#[trigger] digits[i]) {
                    longer_is_larger(digits, at - start + 1);
                }
                assert(number * 10 + digit > usize::MAX);
            }
            return None;
        }
        number = number * 10 + digit;
        at += 1;
    }
    proof {
        assert(digits.take(at - start) =~= digits);
    }
    Some(number)
}

pub const INDEX_EXPECTED: &'static str =
    "expected a positive episode index: play <path-or-url> or play <slug> <index>";

pub const COUNT_EXPECTED: &'static str = "expected a positive count";

/// A number above zero: an episode index counts from one.
pub fn positive_index(value: &str) -> (index: Result<usize, String>)
    ensures
        match (index, parsed(value@)) {
            (Ok(index), Some(number)) => index == number && number > 0,
            (Err(message), None) => message@ == INDEX_EXPECTED@,
            (Err(message), Some(number)) => number == 0 && message@ == INDEX_EXPECTED@,
            (Ok(_), None) => false,
        },
{
    match parse_usize(value) {
        Some(number) => if number > 0 {
            Ok(number)
        } else {
            Err(INDEX_EXPECTED.to_owned())
        },
        None => Err(INDEX_EXPECTED.to_owned()),
    }
}

/// A number above zero: a limit of zero would list nothing and call it success.
pub fn positive_count(value: &str) -> (count: Result<usize, String>)
    ensures
        match (count, parsed(value@)) {
            (Ok(count), Some(number)) => count == number && number > 0,
            (Err(message), None) => message@ == COUNT_EXPECTED@,
            (Err(message), Some(number)) => number == 0 && message@ == COUNT_EXPECTED@,
            (Ok(_), None) => false,
        },
{
    match parse_usize(value) {
        Some(number) => if number > 0 {
            Ok(number)
        } else {
            Err(COUNT_EXPECTED.to_owned())
        },
        None => Err(COUNT_EXPECTED.to_owned()),
    }
}

/// A number is read back from its decimal form.
pub proof fn decimal_reads_back(n: nat)
    requires
        n <= usize::MAX,
    ensures
        parsed(crate::text::decimal(n)) == Some(n as usize),
{
    decimal_is_its_number(n);
}

proof fn decimal_is_its_number(n: nat)
    ensures
        number_of(crate::text::decimal(n)) == n,
        crate::text::decimal(n).len() > 0,
        forall|i: int|
            0 <= i < crate::text::decimal(n).len() ==> is_digit(
                #[trigger] crate::text::decimal(n)[i],
            ),
    decreases n,
{
    let text = crate::text::decimal(n);
    assert(crate::text::digit(n % 10) as u32 == 0x30 + n % 10);
    if n >= 10 {
        decimal_is_its_number(n / 10);
        assert(text.drop_last() =~= crate::text::decimal(n / 10));
        assert(text.last() == crate::text::digit(n % 10));
    } else {
        assert(text.drop_last() =~= Seq::<char>::empty());
        assert(number_of(text.drop_last()) == 0);
        assert(n % 10 == n);
    }
}

} // verus!
