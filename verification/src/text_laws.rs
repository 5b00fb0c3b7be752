//! What holds of the operations on texts.

use vstd::prelude::*;
use vstd::utf8::encode_utf8;

use crate::text::{
    blank, decimal, digits_value, ends_in_return, fitting, law_fitting_prefix_is_longest, lines,
    occurs, occurs_at, texts, truncated, unsigned_value, white_space, without_trailing_slashes,
};

verus! {

/// A piece occurs in a text exactly if the text is something, the piece, and something.
pub proof fn law_occurrence(before: Seq<char>, piece: Seq<char>, after: Seq<char>, hay: Seq<char>)
    ensures
        occurs(before + piece + after, piece),
        occurs(hay, piece) ==> exists|a: Seq<char>, b: Seq<char>|
            hay == #[trigger] ((a + piece) + b),
{
    let whole = before + piece + after;
    let at = before.len() as int;
    assert(whole.subrange(at, at + piece.len()) =~= piece);
    assert(occurs_at(whole, piece, at));
    if occurs(hay, piece) {
        let at = choose|at: int| #[trigger] occurs_at(hay, piece, at);
        let a = hay.take(at);
        let b = hay.skip(at + piece.len());
        assert(hay =~= (a + piece) + b);
    }
}

/// A text is blank exactly if all of its characters are white space.
pub proof fn law_blank(text: Seq<char>, c: char)
    ensures
        blank(Seq::empty()),
        blank(text.push(c)) <==> blank(text) && white_space(c),
        white_space(' ') && white_space('\t') && white_space('\n') && white_space('\r'),
        '!' <= c <= '~' ==> !white_space(c),
{
    let longer = text.push(c);
    assert(longer[text.len() as int] == c);
    if blank(longer) {
        assert forall|i: int| 0 <= i < text.len() implies white_space(#[trigger] text[i]) by {
            assert(longer[i] == text[i]);
        }
    }
}

/// What remains without the slashes at the end is a beginning of the text that ends in no slash, and
/// what is missing is slashes.
pub proof fn law_slashes_stripped(text: Seq<char>)
    ensures
        ({
            let rest = without_trailing_slashes(text);
            &&& rest.len() <= text.len()
            &&& rest == text.take(rest.len() as int)
            &&& rest.len() > 0 ==> rest.last() != '/'
            &&& forall|i: int| rest.len() <= i < text.len() ==> #[trigger] text[i] == '/'
        }),
    decreases text.len(),
{
    let rest = without_trailing_slashes(text);
    if text.len() > 0 && text.last() == '/' {
        let short = text.drop_last();
        law_slashes_stripped(short);
        assert(rest =~= text.take(rest.len() as int));
        assert forall|i: int| rest.len() <= i < text.len() implies #[trigger] text[i] == '/' by {
            if i < short.len() {
                assert(short[i] == text[i]);
            }
        }
    } else {
        assert(text =~= text.take(text.len() as int));
    }
}

/// One more digit makes a number ten times as large, and adds the digit.
pub proof fn law_digits(text: Seq<char>, c: char)
    ensures
        digits_value(Seq::empty()) == 0,
        '0' <= c <= '9' ==> digits_value(text.push(c)) == 10 * digits_value(text) + (c as int
            - '0' as int),
{
    assert(text.push(c).drop_last() =~= text);
}

/// A text is a number exactly if it is one or more digits whose value fits in 64 bits.
pub proof fn law_numbers_read(text: Seq<char>)
    ensures
        text.len() == 0 ==> unsigned_value(text) is None,
        (exists|i: int| 0 <= i < text.len() && !('0' <= #[trigger] text[i] <= '9'))
            ==> unsigned_value(text) is None,
        text.len() > 0 && (forall|i: int| 0 <= i < text.len() ==> '0' <= #[trigger] text[i] <= '9')
            ==> (digits_value(text) <= u64::MAX ==> unsigned_value(text) == Some(
            digits_value(text) as u64,
        )) && (digits_value(text) > u64::MAX ==> unsigned_value(text) is None),
{
}

/// A number in decimal notation is digits alone, the first of which is zero for zero only, and reads
/// as the number.
pub proof fn law_decimal(n: nat)
    ensures
        decimal(n).len() > 0,
        forall|i: int| 0 <= i < decimal(n).len() ==> '0' <= #[trigger] decimal(n)[i] <= '9',
        decimal(n)[0] == '0' ==> n == 0,
        digits_value(decimal(n)) == n,
        n <= u64::MAX ==> unsigned_value(decimal(n)) == Some(n as u64),
    decreases n,
{
    if n < 10 {
        law_digits(Seq::empty(), decimal(n)[0]);
        assert(decimal(n) =~= Seq::<char>::empty().push(decimal(n)[0]));
    } else {
        law_decimal(n / 10);
        let short = decimal(n / 10);
        let last = decimal(n).last();
        law_digits(short, last);
        assert(decimal(n) =~= short.push(last));
        assert forall|i: int| 0 <= i < decimal(n).len() implies '0' <= #[trigger] decimal(n)[i]
            <= '9' by {
            if i < short.len() {
                assert(decimal(n)[i] == short[i]);
            }
        }
        assert(decimal(n)[0] == short[0]);
    }
}

/// A text without a line feed is one line, and the empty text is none.
pub proof fn law_single_line(text: Seq<char>)
    requires
        forall|i: int| 0 <= i < text.len() ==> #[trigger] text[i] != '\n',
    ensures
        lines(text) == if text.len() == 0 {
            Seq::<Seq<char>>::empty()
        } else {
            seq![text]
        },
{
    if text.len() > 0 {
        crate::text::lemma_line_end(text, text.len());
    }
}

/// What stands before the first line feed is the first line, without a carriage return at its end,
/// and what stands behind it is split in the same way.
pub proof fn law_first_line(line: Seq<char>, rest: Seq<char>)
    requires
        forall|i: int| 0 <= i < line.len() ==> #[trigger] line[i] != '\n',
    ensures
        line.len() > 0 && line.last() == '\r' ==> lines(line.push('\n') + rest) == seq![
            line.drop_last(),
        ] + lines(rest),
        line.len() == 0 || line.last() != '\r' ==> lines(line.push('\n') + rest) == seq![line]
            + lines(rest),
{
    let text = line.push('\n') + rest;
    crate::text::lemma_line_end(text, line.len());
    assert(text.take(line.len() as int) =~= line);
    assert(text.skip(line.len() as int + 1) =~= rest);
}

/// A text ends in a carriage return exactly if that is its last character.
pub proof fn law_ends_in_return(text: Seq<char>, c: char)
    ensures
        !ends_in_return(Seq::empty()),
        ends_in_return(text.push(c)) <==> c == '\r',
{
}

/// A text that fits is kept whole. Of any other the beginning is kept that fits and would not with
/// one more character, and an ellipsis marks the cut.
pub proof fn law_truncation(text: Seq<char>, max: nat)
    ensures
        encode_utf8(text).len() <= max ==> truncated(text, max) == text,
        encode_utf8(text).len() > max ==> ({
            let kept = truncated(text, max).drop_last();
            &&& truncated(text, max).len() > 0
            &&& truncated(text, max).last() == '…'
            &&& kept.len() < text.len()
            &&& kept == text.take(kept.len() as int)
            &&& encode_utf8(kept).len() <= max
            &&& encode_utf8(text.take(kept.len() as int + 1)).len() > max
        }),
{
    if encode_utf8(text).len() > max {
        reveal_strlit("…");
        law_fitting_prefix_is_longest(text, max);
        let n = fitting(text, max) as int;
        if n == text.len() {
            assert(text.take(n) =~= text);
        }
        assert("…"@ =~= seq!['…']);
        assert(truncated(text, max).drop_last() =~= text.take(n));
        assert(text.take(n + 1).len() == n + 1);
    }
}

/// The texts of a list are those of its strings, one by one.
pub proof fn law_texts(list: Seq<String>)
    ensures
        texts(list).len() == list.len(),
        forall|i: int| 0 <= i < list.len() ==> #[trigger] texts(list)[i] == list[i]@,
{
}

} // verus!
