//! Text: the operations on strings that the rest of the library is written with.
//!
//! A string is modelled by the sequence of its characters.

use vstd::prelude::*;
use vstd::utf8::{encode_scalar, encode_utf8, encode_utf8_decode_utf8};

verus! {

// ---------------------------------------------------------------------------
// Calls into the standard library
// ---------------------------------------------------------------------------

/// `String::push` appends one character and leaves the rest of the string alone.
pub assume_specification [ String::push ](s: &mut String, c: char)
    ensures
        final(s)@ == old(s)@.push(c),
;

/// Whether a character has the Unicode property `White_Space`.
pub open spec fn white_space(c: char) -> bool {
    ||| 0x09 <= c as u32 <= 0x0D
    ||| c as u32 == 0x20
    ||| c as u32 == 0x85
    ||| c as u32 == 0xA0
    ||| c as u32 == 0x1680
    ||| 0x2000 <= c as u32 <= 0x200A
    ||| 0x2028 <= c as u32 <= 0x2029
    ||| c as u32 == 0x202F
    ||| c as u32 == 0x205F
    ||| c as u32 == 0x3000
}

/// `char::is_whitespace` tells whether its argument has the Unicode property `White_Space`, which
/// is written out in [`white_space`].
pub assume_specification [ char::is_whitespace ](c: char) -> (answer: bool)
    ensures
        answer == white_space(c),
;

/// The lower-case form of a text, as `str::to_lowercase` gives it.
pub uninterp spec fn lowercase(text: Seq<char>) -> Seq<char>;

/// Calls `str::to_lowercase`. What it returns is a function of the text; nothing more is claimed.
#[verifier::external_body]
pub(crate) fn to_lowercase(text: &str) -> (lower: String)
    ensures
        lower@ == lowercase(text@),
{
    text.to_lowercase()
}

/// A text in quotes with its special characters escaped, as `Debug` for `str` writes it.
pub uninterp spec fn debug_form(text: Seq<char>) -> Seq<char>;

/// Formats a text with `{:?}`. What comes out is a function of the text; nothing more is claimed.
#[verifier::external_body]
pub(crate) fn quoted(text: &str) -> (out: String)
    ensures
        out@ == debug_form(text@),
{
    format!("{:?}", text)
}

// ---------------------------------------------------------------------------
// Characters and equality
// ---------------------------------------------------------------------------

/// The characters of a string, in order.
pub fn chars_of(text: &str) -> (chars: Vec<char>)
    ensures
        chars@ == text@,
{
    let mut chars: Vec<char> = Vec::new();
    for c in it: text.chars()
        invariant
            it.seq() == text@,
            chars@ == text@.take(it.index()),
    {
        chars.push(c);
        assert(text@.take(it.index() + 1) =~= text@.take(it.index()).push(text@[it.index()]));
    }
    assert(text@.take(text@.len() as int) =~= text@);
    chars
}

/// Whether two strings hold the same characters.
pub fn same_text(a: &str, b: &str) -> (same: bool)
    ensures
        same == (a@ == b@),
{
    proof {
        encode_utf8_decode_utf8(a@);
        encode_utf8_decode_utf8(b@);
    }
    let x = a.as_bytes();
    let y = b.as_bytes();
    if x.len() != y.len() {
        return false;
    }
    let n: usize = x.len();
    for i in 0..n
        invariant
            n == x@.len(),
            n == y@.len(),
            x@ == encode_utf8(a@),
            y@ == encode_utf8(b@),
            forall|j: int| 0 <= j < i ==> x@[j] == y@[j],
    {
        if x[i] != y[i] {
            return false;
        }
    }
    assert(x@ =~= y@);
    true
}

/// Whether `needle` stands somewhere in `hay` as one unbroken piece.
pub open spec fn occurs(hay: Seq<char>, needle: Seq<char>) -> bool {
    exists|at: int| #[trigger] occurs_at(hay, needle, at)
}

pub open spec fn occurs_at(hay: Seq<char>, needle: Seq<char>, at: int) -> bool {
    &&& 0 <= at
    &&& at + needle.len() <= hay.len()
    &&& hay.subrange(at, at + needle.len()) == needle
}

/// Whether `needle` occurs in `hay`.
pub fn contains_text(hay: &str, needle: &str) -> (found: bool)
    ensures
        found == occurs(hay@, needle@),
{
    let h = chars_of(hay);
    let n = chars_of(needle);
    if n.len() == 0 {
        assert(hay@.subrange(0, 0) =~= needle@);
        assert(occurs_at(hay@, needle@, 0));
        return true;
    }
    if n.len() > h.len() {
        return false;
    }
    let size: usize = h.len();
    let last: usize = size - n.len();
    let mut at: usize = 0;
    while at <= last
        invariant
            h@ == hay@,
            n@ == needle@,
            size == h@.len(),
            last == size - n@.len(),
            at <= last + 1,
            last < size,
            forall|j: int| 0 <= j < at ==> !occurs_at(hay@, needle@, j),
        decreases last + 1 - at,
    {
        let mut k: usize = 0;
        while k < n.len() && h[at + k] == n[k]
            invariant
                h@ == hay@,
                n@ == needle@,
                size == h@.len(),
                last == size - n@.len(),
                at <= last,
                k <= n@.len(),
                forall|j: int| 0 <= j < k ==> h@[at + j] == n@[j],
            decreases n@.len() - k,
        {
            k = k + 1;
        }
        if k == n.len() {
            assert(hay@.subrange(at as int, at + needle@.len()) =~= needle@);
            assert(occurs_at(hay@, needle@, at as int));
            return true;
        }
        assert(hay@.subrange(at as int, at + needle@.len())[k as int] == h@[at + k]);
        at = at + 1;
    }
    false
}

/// Whether a text is empty or white space throughout.
pub open spec fn blank(text: Seq<char>) -> bool {
    forall|i: int| 0 <= i < text.len() ==> white_space(#[trigger] text[i])
}

/// Whether a text is empty or white space throughout.
pub fn is_blank(text: &str) -> (answer: bool)
    ensures
        answer == blank(text@),
{
    let chars = chars_of(text);
    let n: usize = chars.len();
    for i in 0..n
        invariant
            n == chars@.len(),
            chars@ == text@,
            forall|j: int| 0 <= j < i ==> white_space(#[trigger] text@[j]),
    {
        if !chars[i].is_whitespace() {
            assert(!white_space(text@[i as int]));
            return false;
        }
    }
    true
}

/// A text without the slashes at its end.
pub open spec fn without_trailing_slashes(text: Seq<char>) -> Seq<char>
    decreases text.len(),
{
    if text.len() > 0 && text.last() == '/' {
        without_trailing_slashes(text.drop_last())
    } else {
        text
    }
}

/// Strips the slashes at the end of a text.
pub fn trim_end_slashes(text: &str) -> (out: String)
    ensures
        out@ == without_trailing_slashes(text@),
{
    let chars = chars_of(text);
    let mut n: usize = chars.len();
    assert(text@.take(n as int) =~= text@);
    while n > 0 && chars[n - 1] == '/'
        invariant
            chars@ == text@,
            n <= chars@.len(),
            without_trailing_slashes(text@) == without_trailing_slashes(text@.take(n as int)),
        decreases n,
    {
        assert(text@.take(n as int).drop_last() =~= text@.take(n - 1));
        n = n - 1;
    }
    assert(text@.subrange(0, n as int) =~= text@.take(n as int));
    text.substring_char(0, n).to_string()
}

// ---------------------------------------------------------------------------
// Numbers
// ---------------------------------------------------------------------------

/// The character of a decimal digit.
pub open spec fn digit_char(d: nat) -> char {
    ('0' as u32 + d) as char
}

/// A natural number in decimal notation.
pub open spec fn decimal(n: nat) -> Seq<char>
    decreases n,
{
    if n < 10 {
        seq![digit_char(n)]
    } else {
        decimal(n / 10).push(digit_char(n % 10))
    }
}

/// Writes a number in decimal notation.
pub fn to_decimal(n: u64) -> (out: String)
    ensures
        out@ == decimal(n as nat),
    decreases n,
{
    let mut out = if n < 10 {
        String::new()
    } else {
        to_decimal(n / 10)
    };
    let d: u8 = 48 + (n % 10) as u8;
    assert(d as char == digit_char((n % 10) as nat));
    out.push(d as char);
    assert(n < 10 ==> out@ =~= decimal(n as nat));
    out
}

/// Whether `c` is an ASCII digit.
pub open spec fn is_digit(c: char) -> bool {
    '0' <= c <= '9'
}

/// The number that a row of digits denotes.
pub open spec fn digits_value(text: Seq<char>) -> nat
    decreases text.len(),
{
    if text.len() == 0 {
        0
    } else {
        digits_value(text.drop_last()) * 10 + (text.last() as u32 - '0' as u32) as nat
    }
}

/// The number that a text denotes: one or more ASCII digits whose value fits in 64 bits.
pub open spec fn unsigned_value(text: Seq<char>) -> Option<u64> {
    if text.len() > 0 && (forall|i: int| 0 <= i < text.len() ==> is_digit(#[trigger] text[i]))
        && digits_value(text) <= u64::MAX {
        Some(digits_value(text) as u64)
    } else {
        None
    }
}

proof fn lemma_digits_value_grows(text: Seq<char>, n: int)
    requires
        0 <= n <= text.len(),
    ensures
        digits_value(text.take(n)) <= digits_value(text),
    decreases text.len() - n,
{
    if n < text.len() {
        lemma_digits_value_grows(text, n + 1);
        assert(text.take(n + 1).drop_last() =~= text.take(n));
    } else {
        assert(text.take(n) =~= text);
    }
}

/// Reads a number written in decimal digits.
pub fn parse_unsigned(text: &str) -> (value: Option<u64>)
    ensures
        value == unsigned_value(text@),
{
    let chars = chars_of(text);
    let n: usize = chars.len();
    if n == 0 {
        return None;
    }
    let mut value: u64 = 0;
    let mut i: usize = 0;
    while i < n
        invariant
            n == chars@.len(),
            chars@ == text@,
            i <= n,
            value == digits_value(text@.take(i as int)),
            forall|j: int| 0 <= j < i ==> is_digit(#[trigger] text@[j]),
        decreases n - i,
    {
        let c = chars[i];
        if !('0' <= c && c <= '9') {
            assert(!is_digit(text@[i as int]));
            return None;
        }
        let d: u64 = (c as u32 - 48) as u64;
        assert(text@.take(i + 1).drop_last() =~= text@.take(i as int));
        proof {
            lemma_digits_value_grows(text@, i + 1);
        }
        if value > (u64::MAX - d) / 10 {
            assert(digits_value(text@.take(i + 1)) == value * 10 + d);
            return None;
        }
        value = value * 10 + d;
        i = i + 1;
    }
    assert(text@.take(n as int) =~= text@);
    Some(value)
}

// ---------------------------------------------------------------------------
// Lines
// ---------------------------------------------------------------------------

/// What the strings of a list hold.
pub open spec fn texts(list: Seq<String>) -> Seq<Seq<char>> {
    list.map_values(|s: String| s@)
}

/// Where the first line feed stands, or the length of a text that has none.
pub open spec fn line_end(text: Seq<char>) -> nat
    decreases text.len(),
{
    if text.len() == 0 || text[0] == '\n' {
        0
    } else {
        1 + line_end(text.drop_first())
    }
}

/// A line without the carriage return that belongs to its line ending.
pub open spec fn without_return(line: Seq<char>) -> Seq<char> {
    if line.len() > 0 && line.last() == '\r' {
        line.drop_last()
    } else {
        line
    }
}

/// The lines of a text. A line ends at a line feed, or at a carriage return and a line feed,
/// which are not part of it; the ending of the last line may be missing.
pub open spec fn lines(text: Seq<char>) -> Seq<Seq<char>>
    decreases text.len(),
{
    if text.len() == 0 {
        Seq::empty()
    } else if line_end(text) >= text.len() {
        seq![text]
    } else {
        seq![without_return(text.take(line_end(text) as int))] + lines(
            text.skip(line_end(text) as int + 1),
        )
    }
}

pub proof fn lemma_line_end(text: Seq<char>, at: nat)
    requires
        at <= text.len(),
        forall|j: int| 0 <= j < at ==> text[j] != '\n',
        at < text.len() ==> text[at as int] == '\n',
    ensures
        line_end(text) == at,
    decreases at,
{
    if at > 0 {
        assert forall|j: int| 0 <= j < at - 1 implies text.drop_first()[j] != '\n' by {
            assert(text[j + 1] != '\n');
        }
        lemma_line_end(text.drop_first(), (at - 1) as nat);
    }
}

/// What [`line_end`] finds.
proof fn lemma_line_end_found(text: Seq<char>)
    ensures
        line_end(text) <= text.len(),
        line_end(text) < text.len() ==> text[line_end(text) as int] == '\n',
        forall|j: int| 0 <= j < line_end(text) ==> #[trigger] text[j] != '\n',
    decreases text.len(),
{
    if text.len() > 0 && text[0] != '\n' {
        let rest = text.drop_first();
        lemma_line_end_found(rest);
        assert forall|j: int| 0 <= j < line_end(text) implies #[trigger] text[j] != '\n' by {
            if j > 0 {
                assert(rest[j - 1] == text[j]);
            }
        }
    }
}

/// The lines of a text that goes on behind a line feed are those up to it and those behind it.
pub proof fn law_lines_up_to_and_behind(a: Seq<char>, b: Seq<char>)
    ensures
        lines(a.push('\n') + b) == lines(a.push('\n')) + lines(b),
    decreases a.len(),
{
    let ended = a.push('\n');
    let whole = ended + b;
    lemma_line_end_found(ended);
    let at = line_end(ended);
    assert(at < ended.len()) by {
        assert(ended[a.len() as int] == '\n');
    }
    lemma_line_end(whole, at);
    assert(whole.take(at as int) =~= ended.take(at as int));
    let first = seq![without_return(ended.take(at as int))];
    if at < a.len() {
        let rest = a.skip(at as int + 1);
        assert(ended.skip(at as int + 1) =~= rest.push('\n'));
        assert(whole.skip(at as int + 1) =~= rest.push('\n') + b);
        law_lines_up_to_and_behind(rest, b);
        assert(first + (lines(rest.push('\n')) + lines(b)) =~= (first + lines(rest.push('\n')))
            + lines(b));
    } else {
        assert(whole.skip(at as int + 1) =~= b);
        assert(ended.skip(at as int + 1) =~= Seq::<char>::empty());
        assert(lines(Seq::<char>::empty()).len() == 0);
        assert(lines(ended) =~= first);
    }
}

/// A line feed behind a text ends its last line, or adds an empty one where there is none to end.
/// A carriage return at the end of the text would become part of the line ending.
pub proof fn law_line_feed_ends_the_last_line(a: Seq<char>)
    requires
        a.len() > 0 ==> a.last() != '\r',
    ensures
        lines(a.push('\n')) == if a.len() == 0 || a.last() == '\n' {
            lines(a).push(Seq::empty())
        } else {
            lines(a)
        },
    decreases a.len(),
{
    let ended = a.push('\n');
    lemma_line_end_found(a);
    let at = line_end(a);
    lemma_line_end(ended, at);
    assert(ended.take(at as int) =~= a.take(at as int));
    let first = seq![without_return(a.take(at as int))];
    if at < a.len() {
        let rest = a.skip(at as int + 1);
        assert(ended.skip(at as int + 1) =~= rest.push('\n'));
        if rest.len() > 0 {
            assert(rest.last() == a.last());
        } else {
            assert(a.last() == a[at as int]);
        }
        law_line_feed_ends_the_last_line(rest);
        assert(lines(ended) =~= first + lines(rest.push('\n')));
        assert(lines(a) =~= first + lines(rest));
        assert(first + lines(rest).push(Seq::empty()) =~= lines(a).push(Seq::empty()));
    } else {
        assert(a.take(at as int) =~= a);
        assert(ended.skip(at as int + 1) =~= Seq::<char>::empty());
        assert(lines(Seq::<char>::empty()).len() == 0);
        assert(lines(ended) =~= first);
        if a.len() > 0 {
            assert(a[a.len() - 1] != '\n');
            assert(lines(ended) =~= lines(a));
        } else {
            assert(a =~= Seq::<char>::empty());
            assert(lines(ended) =~= lines(a).push(Seq::empty()));
        }
    }
}

/// Whether a text ends in a carriage return.
pub open spec fn ends_in_return(text: Seq<char>) -> bool {
    text.len() > 0 && text.last() == '\r'
}

/// A line feed behind a text that ends in a carriage return takes it from the last line into the
/// line ending.
pub proof fn law_line_feed_takes_the_return(a: Seq<char>)
    requires
        ends_in_return(a),
    ensures
        lines(a).len() > 0,
        ends_in_return(lines(a).last()),
        lines(a.push('\n')) == lines(a).drop_last().push(lines(a).last().drop_last()),
    decreases a.len(),
{
    let ended = a.push('\n');
    lemma_line_end_found(a);
    let at = line_end(a);
    lemma_line_end(ended, at);
    assert(ended.take(at as int) =~= a.take(at as int));
    if at < a.len() {
        let first = seq![without_return(a.take(at as int))];
        assert(a[at as int] != a.last());
        let rest = a.skip(at as int + 1);
        assert(rest.last() == a.last());
        assert(ended.skip(at as int + 1) =~= rest.push('\n'));
        law_line_feed_takes_the_return(rest);
        assert(lines(a) =~= first + lines(rest));
        assert(lines(a).last() == lines(rest).last());
        assert(lines(ended) =~= first + lines(rest.push('\n')));
        assert(lines(ended) =~= lines(a).drop_last().push(lines(a).last().drop_last()));
    } else {
        assert(a.take(at as int) =~= a);
        assert(ended.skip(at as int + 1) =~= Seq::<char>::empty());
        assert(lines(Seq::<char>::empty()).len() == 0);
        assert(lines(a) =~= seq![a]);
        assert(lines(ended) =~= seq![a.drop_last()]);
        assert(lines(ended) =~= lines(a).drop_last().push(a.drop_last()));
    }
}

/// The lines of a blank text are blank.
pub proof fn law_lines_of_blank_text(text: Seq<char>)
    requires
        blank(text),
    ensures
        forall|i: int| 0 <= i < lines(text).len() ==> blank(#[trigger] lines(text)[i]),
    decreases text.len(),
{
    if text.len() > 0 {
        lemma_line_end_found(text);
        let at = line_end(text);
        if at < text.len() {
            let rest = text.skip(at as int + 1);
            assert forall|i: int| 0 <= i < rest.len() implies white_space(#[trigger] rest[i]) by {
                assert(rest[i] == text[i + at + 1]);
            }
            law_lines_of_blank_text(rest);
            let first = without_return(text.take(at as int));
            assert forall|i: int| 0 <= i < first.len() implies white_space(#[trigger] first[i]) by {
                assert(first[i] == text[i]);
            }
            assert forall|i: int| 0 <= i < lines(text).len() implies blank(
                #[trigger] lines(text)[i],
            ) by {
                if i > 0 {
                    assert(lines(text)[i] == lines(rest)[i - 1]);
                }
            }
        }
    }
}

/// The string of the characters from `from` up to `to`.
pub fn text_between(chars: &Vec<char>, from: usize, to: usize) -> (out: String)
    requires
        from <= to <= chars@.len(),
    ensures
        out@ == chars@.subrange(from as int, to as int),
{
    let mut out = String::new();
    let mut i: usize = from;
    assert(chars@.subrange(from as int, from as int) =~= Seq::<char>::empty());
    while i < to
        invariant
            from <= i <= to <= chars@.len(),
            out@ == chars@.subrange(from as int, i as int),
        decreases to - i,
    {
        out.push(chars[i]);
        assert(chars@.subrange(from as int, i as int).push(chars@[i as int]) =~= chars@.subrange(
            from as int,
            i + 1,
        ));
        i = i + 1;
    }
    out
}

/// Splits a text into its lines.
pub fn split_lines(text: &str) -> (out: Vec<String>)
    ensures
        texts(out@) == lines(text@),
{
    let chars = chars_of(text);
    let n: usize = chars.len();
    let mut out: Vec<String> = Vec::new();
    let mut start: usize = 0;
    assert(text@.skip(0) =~= text@);
    assert(texts(out@) + lines(text@) =~= lines(text@));
    while start < n
        invariant
            n == chars@.len(),
            chars@ == text@,
            start <= n,
            texts(out@) + lines(text@.skip(start as int)) == lines(text@),
        decreases n - start,
    {
        let mut end: usize = start;
        while end < n && chars[end] != '\n'
            invariant
                n == chars@.len(),
                start <= end <= n,
                forall|j: int| start <= j < end ==> chars@[j] != '\n',
            decreases n - end,
        {
            end = end + 1;
        }
        let ghost rest = text@.skip(start as int);
        proof {
            assert forall|j: int| 0 <= j < end - start implies rest[j] != '\n' by {
                assert(rest[j] == chars@[start + j]);
            }
            lemma_line_end(rest, (end - start) as nat);
        }
        let ghost before = texts(out@);
        if end == n {
            assert(chars@.subrange(start as int, n as int) =~= rest);
            out.push(text_between(&chars, start, n));
            assert(texts(out@) =~= before.push(rest));
            assert(text@.skip(n as int).len() == 0);
            assert(texts(out@) + lines(text@.skip(n as int)) =~= before + lines(rest));
            start = n;
        } else {
            let stop: usize = if end > start && chars[end - 1] == '\r' {
                end - 1
            } else {
                end
            };
            let ghost line = without_return(rest.take(end - start));
            assert(chars@.subrange(start as int, stop as int) =~= line);
            out.push(text_between(&chars, start, stop));
            assert(texts(out@) =~= before.push(line));
            assert(rest.skip(end - start + 1) =~= text@.skip(end + 1));
            assert(texts(out@) + lines(text@.skip(end + 1)) =~= before + lines(rest));
            start = end + 1;
        }
    }
    assert(text@.skip(n as int).len() == 0);
    assert(texts(out@) + lines(text@.skip(n as int)) =~= texts(out@));
    out
}

// ---------------------------------------------------------------------------
// Truncation
// ---------------------------------------------------------------------------

/// The length of a text in UTF-8 bytes.
pub open spec fn utf8_len(text: Seq<char>) -> nat {
    encode_utf8(text).len()
}

/// How many characters from the start of a text fit into `max` UTF-8 bytes.
pub open spec fn fitting(text: Seq<char>, max: nat) -> nat
    decreases text.len(),
{
    if text.len() == 0 || encode_scalar(text[0] as u32).len() > max {
        0
    } else {
        1 + fitting(text.drop_first(), (max - encode_scalar(text[0] as u32).len()) as nat)
    }
}

/// The longest beginning of a text that fits into `max` UTF-8 bytes.
pub open spec fn fitting_prefix(text: Seq<char>, max: nat) -> Seq<char> {
    text.take(fitting(text, max) as int)
}

/// A text cut down to `max` UTF-8 bytes: the text itself where it fits, else as many whole
/// characters as fit, followed by an ellipsis.
pub open spec fn truncated(text: Seq<char>, max: nat) -> Seq<char> {
    if utf8_len(text) <= max {
        text
    } else {
        fitting_prefix(text, max) + "…"@
    }
}

proof fn lemma_utf8_len_push(text: Seq<char>, c: char)
    ensures
        utf8_len(text.push(c)) == utf8_len(text) + encode_scalar(c as u32).len(),
    decreases text.len(),
{
    if text.len() == 0 {
        assert(text.push(c).drop_first() =~= Seq::<char>::empty());
        assert(text.push(c)[0] == c);
        assert(encode_utf8(Seq::<char>::empty()).len() == 0);
    } else {
        lemma_utf8_len_push(text.drop_first(), c);
        assert(text.push(c).drop_first() =~= text.drop_first().push(c));
    }
}

proof fn lemma_fitting_step(text: Seq<char>, max: nat, n: int)
    requires
        0 <= n < text.len(),
        utf8_len(text.take(n)) <= max,
        utf8_len(text.take(n + 1)) > max,
    ensures
        fitting(text, max) == n,
    decreases n,
{
    let w = encode_scalar(text[0] as u32).len();
    if n == 0 {
        assert(text.take(1).drop_first() =~= Seq::<char>::empty());
        assert(encode_utf8(Seq::<char>::empty()).len() == 0);
        assert(utf8_len(text.take(1)) == w);
    } else {
        let rest = text.drop_first();
        assert(text.take(n).drop_first() =~= rest.take(n - 1));
        assert(text.take(n + 1).drop_first() =~= rest.take(n));
        assert(utf8_len(text.take(n)) == w + utf8_len(rest.take(n - 1)));
        assert(utf8_len(text.take(n + 1)) == w + utf8_len(rest.take(n)));
        lemma_fitting_step(rest, (max - w) as nat, n - 1);
    }
}

/// The beginning that truncation keeps is the longest one that fits: it takes at most `max`
/// bytes, and no longer beginning does.
pub proof fn law_fitting_prefix_is_longest(text: Seq<char>, max: nat)
    ensures
        fitting(text, max) <= text.len(),
        utf8_len(fitting_prefix(text, max)) <= max,
        forall|n: int|
            fitting(text, max) < n <= text.len() ==> utf8_len(#[trigger] text.take(n)) > max,
    decreases text.len(),
{
    if text.len() == 0 {
        assert(text.take(0).len() == 0);
    } else {
        let w = encode_scalar(text[0] as u32).len();
        let rest = text.drop_first();
        if w > max {
            assert(text.take(0).len() == 0);
            assert forall|n: int| 0 < n <= text.len() implies utf8_len(#[trigger] text.take(n))
                > max by {
                assert(text.take(n)[0] == text[0]);
            }
        } else {
            let left = (max - w) as nat;
            law_fitting_prefix_is_longest(rest, left);
            let k = fitting(rest, left) as int;
            assert(text.take(k + 1).drop_first() =~= rest.take(k));
            assert(text.take(k + 1)[0] == text[0]);
            assert forall|n: int| k + 1 < n <= text.len() implies utf8_len(#[trigger] text.take(n))
                > max by {
                assert(text.take(n).drop_first() =~= rest.take(n - 1));
                assert(text.take(n)[0] == text[0]);
            }
        }
    }
}

/// The number of bytes of a character in UTF-8.
fn width(c: char) -> (bytes: usize)
    ensures
        bytes == encode_scalar(c as u32).len(),
        1 <= bytes <= 4,
{
    let code: u32 = c as u32;
    if code <= 0x7F {
        1
    } else if code <= 0x7FF {
        2
    } else if code <= 0xFFFF {
        3
    } else {
        4
    }
}

/// Cuts a text down to `max` UTF-8 bytes and marks the cut with an ellipsis.
pub fn truncate(text: &str, max: usize) -> (out: String)
    ensures
        out@ == truncated(text@, max as nat),
{
    let chars = chars_of(text);
    let n: usize = chars.len();
    let mut used: usize = 0;
    let mut kept = String::new();
    assert(text@.take(0) =~= Seq::<char>::empty());
    for i in 0..n
        invariant
            n == chars@.len(),
            chars@ == text@,
            kept@ == text@.take(i as int),
            used == utf8_len(kept@),
            used <= max,
    {
        let c = chars[i];
        let w: usize = width(c);
        proof {
            lemma_utf8_len_push(kept@, c);
            assert(kept@.push(c) =~= text@.take(i + 1));
        }
        if w > max - used {
            proof {
                lemma_fitting_step(text@, max as nat, i as int);
                law_fitting_prefix_is_longest(text@, max as nat);
                assert(text@.take(text@.len() as int) =~= text@);
            }
            kept.append("…");
            return kept;
        }
        used = used + w;
        kept.push(c);
    }
    assert(text@.take(n as int) =~= text@);
    kept
}

} // verus!
