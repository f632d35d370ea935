//! Text as sequences of characters: trimming, decimal numbers, and the
//! characters a terminal may be shown.

use vstd::prelude::*;
use vstd::string::StringExecFns;

verus! {

/// Appends one character, with `String::push`: the text grows by exactly that
/// character, at its end.
#[verifier::external_body]
pub(crate) fn push_char(text: &mut String, c: char)
    ensures
        final(text)@ == old(text)@.push(c),
{
    text.push(c);
}

/// The characters of a text, in order.
pub fn chars_of(text: &str) -> (out: Vec<char>)
    ensures
        out@ == text@,
{
    let mut out: Vec<char> = Vec::new();
    for c in it: text.chars()
        invariant
            it.seq() == text@,
            out@ == text@.take(it.index() as int),
    {
        out.push(c);
        proof {
            assert(text@.take(it.index() + 1) =~= text@.take(it.index() as int).push(c));
        }
    }
    proof {
        assert(text@.take(text@.len() as int) =~= text@);
    }
    out
}

/// The text made of `chars`.
pub fn text_of(chars: &Vec<char>) -> (out: String)
    ensures
        out@ == chars@,
{
    let mut out = String::new();
    let mut at: usize = 0;
    while at < chars.len()
        invariant
            at <= chars@.len(),
            out@ == chars@.take(at as int),
        decreases chars@.len() - at,
    {
        proof {
            assert(chars@.take(at + 1) =~= chars@.take(at as int).push(chars@[at as int]));
        }
        push_char(&mut out, chars[at]);
        at += 1;
    }
    proof {
        assert(chars@.take(chars@.len() as int) =~= chars@);
    }
    out
}

/// Appends a text.
pub fn push_text(out: &mut String, text: &str)
    ensures
        final(out)@ == old(out)@ + text@,
{
    out.append(text);
}

/// Whether two texts hold the same characters.
pub fn same_text(a: &str, b: &str) -> (same: bool)
    ensures
        same == (a@ == b@),
{
    a.to_owned() == b.to_owned()
}

/// The characters with the `White_Space` property.
pub open spec fn is_white_space(c: char) -> bool {
    let n = c as u32;
    ||| 0x09 <= n <= 0x0d
    ||| n == 0x20
    ||| n == 0x85
    ||| n == 0xa0
    ||| n == 0x1680
    ||| 0x2000 <= n <= 0x200a
    ||| n == 0x2028
    ||| n == 0x2029
    ||| n == 0x202f
    ||| n == 0x205f
    ||| n == 0x3000
}

pub fn white_space(c: char) -> (white: bool)
    ensures
        white == is_white_space(c),
{
    let n: u32 = c as u32;
    (0x09 <= n && n <= 0x0d) || n == 0x20 || n == 0x85 || n == 0xa0 || n == 0x1680 || (0x2000 <= n
        && n <= 0x200a) || n == 0x2028 || n == 0x2029 || n == 0x202f || n == 0x205f || n == 0x3000
}

/// What is left once leading white space is gone.
pub open spec fn trim_start(s: Seq<char>) -> Seq<char>
    decreases s.len(),
{
    if s.len() > 0 && is_white_space(s[0]) {
        trim_start(s.skip(1))
    } else {
        s
    }
}

/// What is left once trailing white space is gone.
pub open spec fn trim_end(s: Seq<char>) -> Seq<char>
    decreases s.len(),
{
    if s.len() > 0 && is_white_space(s.last()) {
        trim_end(s.drop_last())
    } else {
        s
    }
}

pub open spec fn trim(s: Seq<char>) -> Seq<char> {
    trim_end(trim_start(s))
}

/// Drops white space from the front.
pub fn trim_start_chars(chars: &Vec<char>) -> (out: Vec<char>)
    ensures
        out@ == trim_start(chars@),
{
    let mut at: usize = 0;
    proof {
        assert(chars@.skip(0) =~= chars@);
    }
    while at < chars.len() && white_space(chars[at])
        invariant
            at <= chars@.len(),
            trim_start(chars@.skip(at as int)) == trim_start(chars@),
        decreases chars@.len() - at,
    {
        proof {
            assert(chars@.skip(at as int).skip(1) =~= chars@.skip(at + 1));
        }
        at += 1;
    }
    let mut out: Vec<char> = Vec::new();
    let start: usize = at;
    while at < chars.len()
        invariant
            start <= at <= chars@.len(),
            out@ == chars@.subrange(start as int, at as int),
        decreases chars@.len() - at,
    {
        out.push(chars[at]);
        at += 1;
        proof {
            assert(out@ =~= chars@.subrange(start as int, at as int));
        }
    }
    proof {
        assert(out@ =~= chars@.skip(start as int));
        assert(start < chars@.len() ==> chars@.skip(start as int)[0] == chars@[start as int]);
    }
    out
}

/// Drops white space from the end.
pub fn trim_end_chars(chars: Vec<char>) -> (out: Vec<char>)
    ensures
        out@ == trim_end(chars@),
{
    let mut out = chars;
    while out.len() > 0 && white_space(out[out.len() - 1])
        invariant
            trim_end(out@) == trim_end(chars@),
        decreases out@.len(),
    {
        let _ = out.pop();
    }
    out
}

pub fn trim_chars(chars: &Vec<char>) -> (out: Vec<char>)
    ensures
        out@ == trim(chars@),
{
    trim_end_chars(trim_start_chars(chars))
}

/// Text without the white space around it.
pub fn trim_text(text: &str) -> (out: String)
    ensures
        out@ == trim(text@),
{
    text_of(&trim_chars(&chars_of(text)))
}

/// Drops the last character, where there is one.
pub fn pop_char(text: &mut String)
    ensures
        final(text)@ == if old(text)@.len() > 0 {
            old(text)@.drop_last()
        } else {
            old(text)@
        },
{
    let mut chars = chars_of(text.as_str());
    if chars.len() > 0 {
        let _ = chars.pop();
        *text = text_of(&chars);
    }
}

/// The control characters.
pub open spec fn is_control(c: char) -> bool {
    let n = c as u32;
    n <= 0x1f || 0x7f <= n <= 0x9f
}

pub fn control(c: char) -> (controls: bool)
    ensures
        controls == is_control(c),
{
    let n: u32 = c as u32;
    n <= 0x1f || (0x7f <= n && n <= 0x9f)
}

/// The character for a digit below sixteen.
pub open spec fn digit(d: nat) -> char {
    if d < 10 {
        (0x30 + d) as char
    } else {
        (0x57 + d) as char
    }
}

fn digit_char(d: u8) -> (c: char)
    requires
        d < 16,
    ensures
        c == digit(d as nat),
{
    if d < 10 {
        (0x30u8 + d) as char
    } else {
        (0x57u8 + d) as char
    }
}

/// A number in decimal, without leading zeros.
pub open spec fn decimal(n: nat) -> Seq<char>
    decreases n,
{
    if n < 10 {
        seq![digit(n)]
    } else {
        decimal(n / 10).push(digit(n % 10))
    }
}

/// Two numbers are written differently.
pub proof fn decimals_differ(a: nat, b: nat)
    requires
        a != b,
    ensures
        decimal(a) != decimal(b),
    decreases a,
{
    if decimal(a) == decimal(b) {
        assert(decimal(a).last() == digit(a % 10));
        assert(decimal(b).last() == digit(b % 10));
        assert(digit(a % 10) as u32 == 0x30 + a % 10);
        assert(digit(b % 10) as u32 == 0x30 + b % 10);
        assert(decimal(a).drop_last() =~= if a < 10 {
            Seq::empty()
        } else {
            decimal(a / 10)
        });
        assert(decimal(b).drop_last() =~= if b < 10 {
            Seq::empty()
        } else {
            decimal(b / 10)
        });
        if a >= 10 && b >= 10 {
            decimals_differ(a / 10, b / 10);
        }
    }
}

pub fn push_decimal(out: &mut String, n: u64)
    ensures
        final(out)@ == old(out)@ + decimal(n as nat),
    decreases n,
{
    if n >= 10 {
        push_decimal(out, n / 10);
    }
    push_char(out, digit_char((n % 10) as u8));
    proof {
        assert(out@ =~= old(out)@ + decimal(n as nat));
    }
}

/// A number as decimal text.
pub fn decimal_text(n: u64) -> (out: String)
    ensures
        out@ == decimal(n as nat),
{
    let mut out = String::new();
    push_decimal(&mut out, n);
    proof {
        assert(out@ =~= decimal(n as nat));
    }
    out
}

/// At least two digits: a leading zero below ten.
pub open spec fn two_digits(n: nat) -> Seq<char> {
    if n < 10 {
        seq!['0'] + decimal(n)
    } else {
        decimal(n)
    }
}

pub fn push_two_digits(out: &mut String, n: u64)
    ensures
        final(out)@ == old(out)@ + two_digits(n as nat),
{
    if n < 10 {
        push_char(out, '0');
    }
    push_decimal(out, n);
    proof {
        assert(out@ =~= old(out)@ + two_digits(n as nat));
    }
}

/// Trimming takes the white space at both ends, all of it and nothing else.
pub proof fn trimming_takes_the_ends(s: Seq<char>) -> (front: int)
    ensures
        0 <= front,
        front + trim(s).len() <= s.len(),
        s.subrange(front, front + trim(s).len()) == trim(s),
        forall|i: int| 0 <= i < front ==> is_white_space(#[trigger] s[i]),
        forall|i: int| front + trim(s).len() <= i < s.len() ==> is_white_space(#[trigger] s[i]),
        trim(s).len() > 0 ==> !is_white_space(trim(s)[0]) && !is_white_space(trim(s).last()),
{
    let front = start_trimmed(s);
    let rest = trim_start(s);
    end_trimmed(rest);
    assert(s.subrange(front, front + trim(s).len()) =~= trim(s));
    assert forall|i: int| front + trim(s).len() <= i < s.len() implies is_white_space(
        #[trigger] s[i],
    ) by {
        assert(s[i] == rest[i - front]);
    }
    front
}

proof fn start_trimmed(s: Seq<char>) -> (front: int)
    ensures
        0 <= front <= s.len(),
        trim_start(s) == s.skip(front),
        forall|i: int| 0 <= i < front ==> is_white_space(#[trigger] s[i]),
        trim_start(s).len() > 0 ==> !is_white_space(trim_start(s)[0]),
    decreases s.len(),
{
    if s.len() > 0 && is_white_space(s[0]) {
        let rest = s.skip(1);
        let front = start_trimmed(rest);
        assert(rest.skip(front) =~= s.skip(front + 1));
        assert forall|i: int| 0 <= i < front + 1 implies is_white_space(#[trigger] s[i]) by {
            if i > 0 {
                assert(s[i] == rest[i - 1]);
            }
        }
        front + 1
    } else {
        assert(s.skip(0) =~= s);
        0
    }
}

proof fn end_trimmed(s: Seq<char>)
    ensures
        trim_end(s).len() <= s.len(),
        trim_end(s) == s.take(trim_end(s).len() as int),
        forall|i: int| trim_end(s).len() <= i < s.len() ==> is_white_space(#[trigger] s[i]),
        trim_end(s).len() > 0 ==> !is_white_space(trim_end(s).last()),
    decreases s.len(),
{
    if s.len() > 0 && is_white_space(s.last()) {
        let rest = s.drop_last();
        end_trimmed(rest);
        assert(rest.take(trim_end(s).len() as int) =~= s.take(trim_end(s).len() as int));
        assert forall|i: int| trim_end(s).len() <= i < s.len() implies is_white_space(
            #[trigger] s[i],
        ) by {
            if i < rest.len() {
                assert(s[i] == rest[i]);
            }
        }
    } else {
        assert(s.take(s.len() as int) =~= s);
    }
}

/// The number that decimal digits come to.
pub open spec fn number_of(digits: Seq<char>) -> nat
    decreases digits.len(),
{
    if digits.len() == 0 {
        0
    } else {
        number_of(digits.drop_last()) * 10 + (digits.last() as u32 - 0x30) as nat
    }
}

/// Whether a text is digits from `0` to `9` alone.
pub open spec fn is_number(text: Seq<char>) -> bool {
    text.len() > 0 && forall|i: int| 0 <= i < text.len() ==> '0' <= #[trigger] text[i] <= '9'
}

/// A number written in decimals is read back as itself.
pub proof fn decimals_read_back(n: nat)
    ensures
        number_of(decimal(n)) == n,
        is_number(decimal(n)),
        decimal(n)[0] == '0' ==> n == 0,
    decreases n,
{
    assert(digit(n % 10) as u32 == 0x30 + n % 10);
    if n < 10 {
        assert(decimal(n).drop_last() =~= Seq::empty());
        assert(number_of(Seq::empty()) == 0);
        assert(decimal(n).last() == digit(n));
    } else {
        decimals_read_back(n / 10);
        assert(decimal(n).drop_last() =~= decimal(n / 10));
        assert(decimal(n).last() == digit(n % 10));
        assert forall|i: int| 0 <= i < decimal(n).len() implies '0' <= #[trigger] decimal(
            n,
        )[i] <= '9' by {
            if i < decimal(n / 10).len() {
                assert(decimal(n)[i] == decimal(n / 10)[i]);
            }
        }
        assert(decimal(n)[0] == decimal(n / 10)[0]);
    }
}

/// So is one with a leading zero, and below a hundred it has two digits.
pub proof fn two_digits_read_back(n: nat)
    ensures
        number_of(two_digits(n)) == n,
        is_number(two_digits(n)),
        two_digits(n).len() >= 2,
        n < 100 ==> two_digits(n).len() == 2,
{
    decimals_read_back(n);
    if n < 10 {
        let text = two_digits(n);
        assert(text.drop_last() =~= seq!['0']);
        assert(seq!['0'].drop_last() =~= Seq::empty());
        assert(number_of(Seq::empty()) == 0);
        assert(number_of(seq!['0']) == 0);
        assert(text.last() == digit(n));
        assert(digit(n) as u32 == 0x30 + n);
    } else {
        let tens = decimal(n / 10);
        assert(decimal(n) == tens.push(digit(n % 10)));
        decimals_read_back(n / 10);
        if n < 100 {
            assert(tens =~= seq![digit(n / 10)]);
        }
    }
}

/// A number in lower-case hexadecimal, without leading zeros.
pub open spec fn hexadecimal(n: nat) -> Seq<char>
    decreases n,
{
    if n < 16 {
        seq![digit(n)]
    } else {
        hexadecimal(n / 16).push(digit(n % 16))
    }
}

pub fn push_hexadecimal(out: &mut String, n: u32)
    ensures
        final(out)@ == old(out)@ + hexadecimal(n as nat),
    decreases n,
{
    if n >= 16 {
        push_hexadecimal(out, n / 16);
    }
    push_char(out, digit_char((n % 16) as u8));
    proof {
        assert(out@ =~= old(out)@ + hexadecimal(n as nat));
    }
}

/// A control character, or one that reorders the text around it: neither may
/// reach a terminal as it stands.
pub open spec fn is_hidden(c: char) -> bool {
    let n = c as u32;
    ||| n <= 0x1f
    ||| 0x7f <= n <= 0x9f
    ||| n == 0x61c
    ||| 0x200e <= n <= 0x200f
    ||| 0x202a <= n <= 0x202e
    ||| 0x2066 <= n <= 0x2069
}

pub fn hidden(c: char) -> (hides: bool)
    ensures
        hides == is_hidden(c),
{
    let n: u32 = c as u32;
    n <= 0x1f || (0x7f <= n && n <= 0x9f) || n == 0x61c || (0x200e <= n && n <= 0x200f) || (0x202a
        <= n && n <= 0x202e) || (0x2066 <= n && n <= 0x2069)
}

/// A character as it is shown: a hidden one by its number, as `\u{1b}`.
pub open spec fn shown(c: char) -> Seq<char> {
    if is_hidden(c) {
        seq!['\\', 'u', '{'] + hexadecimal(c as u32 as nat) + seq!['}']
    } else {
        seq![c]
    }
}

/// Text as it is shown.
pub open spec fn shown_text(s: Seq<char>) -> Seq<char>
    decreases s.len(),
{
    if s.len() == 0 {
        Seq::empty()
    } else {
        shown_text(s.drop_last()) + shown(s.last())
    }
}

/// Text that is safe to print: every control or reordering character replaced
/// by its number.
pub fn displayable(text: &str) -> (out: String)
    ensures
        out@ == shown_text(text@),
{
    let chars = chars_of(text);
    let mut out = String::new();
    let mut at: usize = 0;
    while at < chars.len()
        invariant
            at <= chars@.len(),
            chars@ == text@,
            out@ == shown_text(text@.take(at as int)),
        decreases chars@.len() - at,
    {
        let c: char = chars[at];
        let ghost before = out@;
        proof {
            assert(text@.take(at + 1).drop_last() =~= text@.take(at as int));
        }
        if hidden(c) {
            push_char(&mut out, '\\');
            push_char(&mut out, 'u');
            push_char(&mut out, '{');
            push_hexadecimal(&mut out, c as u32);
            push_char(&mut out, '}');
        } else {
            push_char(&mut out, c);
        }
        proof {
            assert(out@ =~= before + shown(c));
        }
        at += 1;
    }
    proof {
        assert(text@.take(text@.len() as int) =~= text@);
    }
    out
}

/// No character of `s` is hidden.
pub open spec fn is_plain(s: Seq<char>) -> bool {
    forall|i: int| 0 <= i < s.len() ==> !is_hidden(#[trigger] s[i])
}

proof fn hexadecimal_is_plain(n: nat)
    ensures
        is_plain(hexadecimal(n)),
    decreases n,
{
    if n >= 16 {
        hexadecimal_is_plain(n / 16);
    }
}

/// Nothing that is shown holds a control or a reordering character.
pub proof fn shown_text_is_plain(s: Seq<char>)
    ensures
        is_plain(shown_text(s)),
    decreases s.len(),
{
    if s.len() > 0 {
        shown_text_is_plain(s.drop_last());
        hexadecimal_is_plain(s.last() as u32 as nat);
        assert(is_plain(shown(s.last())));
    }
}

/// Text without hidden characters is shown as it is.
pub proof fn plain_text_is_shown_unchanged(s: Seq<char>)
    requires
        is_plain(s),
    ensures
        shown_text(s) == s,
    decreases s.len(),
{
    if s.len() > 0 {
        plain_text_is_shown_unchanged(s.drop_last());
        assert(s =~= s.drop_last().push(s.last()));
    } else {
        assert(shown_text(s) =~= s);
    }
}

/// Whatever is shown, no character of it is a control character, nor one that reorders the
/// text around it: a terminal is told nothing but what to print.
pub proof fn terminals_are_told_nothing(s: Seq<char>, i: int)
    requires
        0 <= i < shown_text(s).len(),
    ensures
        ({
            let n = shown_text(s)[i] as u32;
            &&& n >= 0x20 && !(0x7f <= n <= 0x9f)
            &&& n != 0x61c && n != 0x200e && n != 0x200f
            &&& !(0x202a <= n <= 0x202e) && !(0x2066 <= n <= 0x2069)
        }),
{
    shown_text_is_plain(s);
    assert(!is_hidden(shown_text(s)[i]));
}

/// Texts are shown one after the other, and of a single character either itself or, where it
/// may not be printed, its number between `\u{` and `}`.
pub proof fn texts_are_shown_in_parts(a: Seq<char>, b: Seq<char>, c: char)
    ensures
        shown_text(a + b) == shown_text(a) + shown_text(b),
        shown_text(seq![c]) == seq![c] || shown_text(seq![c]) == seq!['\\', 'u', '{']
            + hexadecimal(c as u32 as nat) + seq!['}'],
        0x20 <= c as u32 <= 0x7e ==> shown_text(seq![c]) == seq![c],
    decreases b.len(),
{
    assert(seq![c].drop_last() =~= Seq::<char>::empty());
    assert(shown_text(Seq::<char>::empty()) == Seq::<char>::empty());
    assert(seq![c].last() == c);
    assert(shown_text(seq![c]) =~= shown(c));
    if b.len() == 0 {
        assert(a + b =~= a);
        assert(shown_text(a) + shown_text(b) =~= shown_text(a));
    } else {
        texts_are_shown_in_parts(a, b.drop_last(), c);
        assert((a + b).drop_last() =~= a + b.drop_last());
        assert((a + b).last() == b.last());
        assert(shown_text(a + b) =~= shown_text(a) + shown_text(b));
    }
}

/// Blanks, tabs, line ends and the wider spaces count as white space, and nothing that
/// leaves a mark does.
pub proof fn white_space_leaves_no_mark(c: char)
    ensures
        c == ' ' || c == '\t' || c == '\n' || c == '\r' || c as u32 == 0xa0 || c as u32 == 0x3000
            ==> is_white_space(c),
        0x21 <= c as u32 <= 0x7e ==> !is_white_space(c) && !is_control(c),
        c as u32 <= 0x1f || c as u32 == 0x7f ==> is_control(c),
{
}

} // verus!
