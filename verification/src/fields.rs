//! What the texts typed into the panel's fields mean.
use vstd::prelude::*;
use vstd::string::*;

use crate::text;

verus! {

pub open spec fn is_digit(c: char) -> bool {
    0x30 <= c as int <= 0x39
}

pub open spec fn all_digits(text: Seq<char>) -> bool {
    forall|i: int| 0 <= i < text.len() ==> is_digit(#[trigger] text[i])
}

/// The number that digits denote.
pub open spec fn digits_value(text: Seq<char>) -> nat
    decreases text.len(),
{
    if text.len() == 0 {
        0
    } else {
        digits_value(text.drop_last()) * 10 + (text.last() as nat - 0x30) as nat
    }
}

/// A text without one leading plus sign.
pub open spec fn without_sign(text: Seq<char>) -> Seq<char> {
    if text.len() > 0 && text[0] == '+' {
        text.skip(1)
    } else {
        text
    }
}

/// The number of seconds that a text denotes: decimal digits, perhaps behind a plus sign, that
/// fit 32 bits.
pub open spec fn seconds_of(text: Seq<char>) -> Option<u32> {
    let digits = without_sign(text);
    if digits.len() > 0 && all_digits(digits) && digits_value(digits) <= u32::MAX {
        Some(digits_value(digits) as u32)
    } else {
        None
    }
}

proof fn lemma_digits_value_grows(text: Seq<char>, n: int)
    requires
        0 <= n <= text.len(),
        all_digits(text),
    ensures
        digits_value(text.take(n)) <= digits_value(text),
    decreases text.len() - n,
{
    if n < text.len() {
        lemma_digits_value_grows(text, n + 1);
        assert(text.take(n + 1).drop_last() =~= text.take(n));
    } else {
        assert(text.take(n) =~= text);
    }
}

/// The number of seconds that a text denotes.
pub fn parse_seconds(text: &str) -> (r: Option<u32>)
    ensures
        r == seconds_of(text@),
{
    let chars: Vec<char> = text::chars_of(text);
    let begin: usize = if chars.len() > 0 && chars[0] == '+' {
        1
    } else {
        0
    };
    let ghost digits = without_sign(text@);
    proof {
        assert(digits =~= text@.skip(begin as int));
    }
    if begin >= chars.len() {
        return None;
    }
    let mut value: u64 = 0;
    let mut i: usize = begin;
    proof {
        assert(digits.take(0) =~= Seq::empty());
    }
    while i < chars.len()
        invariant
            begin <= i <= chars@.len(),
            chars@ == text@,
            digits == text@.skip(begin as int),
            digits == without_sign(text@),
            forall|k: int| 0 <= k < i - begin ==> is_digit(#[trigger] digits[k]),
            value == digits_value(digits.take(i - begin)),
            value <= u32::MAX,
        decreases chars@.len() - i,
    {
        let c: char = chars[i];
        proof {
            assert(digits[i - begin] == c);
            assert(digits.take(i - begin + 1).drop_last() =~= digits.take(i - begin));
        }
        if !('0' <= c && c <= '9') {
            proof {
                assert(!is_digit(digits[i - begin]));
            }
            return None;
        }
        value = value * 10 + (c as u64 - 0x30);
        i = i + 1;
        if value > 0xffff_ffff {
            proof {
                if all_digits(digits) {
                    lemma_digits_value_grows(digits, i - begin);
                }
            }
            return None;
        }
    }
    proof {
        assert(digits.take(i - begin) =~= digits);
    }
    Some(value as u32)
}

proof fn lemma_decimal(n: nat)
    ensures
        all_digits(text::decimal_digits(n)),
        text::decimal_digits(n).len() > 0,
        digits_value(text::decimal_digits(n)) == n,
    decreases n,
{
    reveal_with_fuel(digits_value, 2);
    let d = text::decimal_digits(n);
    if n >= 10 {
        lemma_decimal(n / 10);
        assert(d.drop_last() =~= text::decimal_digits(n / 10));
    } else {
        assert(d.drop_last() =~= Seq::empty());
    }
}

/// Seconds that are shown for editing and saved without a change stay the same.
pub proof fn law_shown_seconds_are_read_back(seconds: u32)
    ensures
        seconds_of(text::decimal_digits(seconds as nat)) == Some(seconds),
{
    lemma_decimal(seconds as nat);
    let d = text::decimal_digits(seconds as nat);
    assert(is_digit(d[0]));
}

pub open spec fn is_separator(c: char) -> bool {
    c == ',' || c == '，' || c == ';' || c == '；' || c == '\n'
}

/// The entry that a piece of a list gives: none where it is blank.
pub open spec fn entry_of(piece: Seq<char>) -> Seq<Seq<char>> {
    if text::trimmed(piece).len() == 0 {
        Seq::empty()
    } else {
        seq![text::trimmed(piece)]
    }
}

/// The entries of a list, the first of which has begun already.
pub open spec fn entries_from(text: Seq<char>, begun: Seq<char>) -> Seq<Seq<char>>
    decreases text.len(),
{
    if text.len() == 0 {
        entry_of(begun)
    } else if is_separator(text[0]) {
        entry_of(begun) + entries_from(text.skip(1), Seq::empty())
    } else {
        entries_from(text.skip(1), begun.push(text[0]))
    }
}

/// The entries of a list, set apart by commas, semicolons or line ends.
pub open spec fn entries_of(text: Seq<char>) -> Seq<Seq<char>> {
    entries_from(text, Seq::empty())
}

fn push_entry(out: &mut Vec<String>, piece: &str)
    ensures
        text::views(final(out)@) == text::views(old(out)@) + entry_of(piece@),
{
    let entry: String = text::trim(piece);
    if !entry.as_str().is_empty() {
        proof {
            text::lemma_views_push(out@, entry);
            assert(text::views(out@) + seq![entry@] =~= text::views(out@).push(entry@));
        }
        out.push(entry);
    } else {
        proof {
            assert(text::views(out@) + Seq::<Seq<char>>::empty() =~= text::views(out@));
        }
    }
}

/// The entries of a list, set apart by commas, semicolons or line ends.
pub fn split_list(text: &str) -> (r: Vec<String>)
    ensures
        text::views(r@) == entries_of(text@),
{
    let chars: Vec<char> = text::chars_of(text);
    let mut out: Vec<String> = Vec::new();
    let mut piece: String = String::new();
    let mut i: usize = 0;
    proof {
        assert(text@.skip(0) =~= text@);
        assert(text::views(out@) + entries_of(text@) =~= entries_of(text@));
        assert(piece@ =~= Seq::<char>::empty());
    }
    while i < chars.len()
        invariant
            i <= chars@.len(),
            chars@ == text@,
            entries_of(text@) == text::views(out@) + entries_from(text@.skip(i as int), piece@),
        decreases chars@.len() - i,
    {
        let c: char = chars[i];
        let ghost rest = text@.skip(i as int);
        let ghost before = text::views(out@);
        let ghost begun = piece@;
        proof {
            assert(rest.skip(1) =~= text@.skip(i + 1));
            assert(rest[0] == c);
        }
        if c == ',' || c == '，' || c == ';' || c == '；' || c == '\n' {
            push_entry(&mut out, piece.as_str());
            piece = String::new();
            proof {
                assert(piece@ =~= Seq::<char>::empty());
                assert(before + (entry_of(begun) + entries_from(rest.skip(1), Seq::empty()))
                    =~= (before + entry_of(begun)) + entries_from(rest.skip(1), Seq::empty()));
            }
        } else {
            piece.push(c);
        }
        i = i + 1;
    }
    proof {
        assert(text@.skip(i as int) =~= Seq::<char>::empty());
    }
    push_entry(&mut out, piece.as_str());
    out
}

/// Seconds are read from decimal digits alone, with a plus sign before them at most, and are the
/// number that the digits stand for.
pub proof fn law_seconds_are_what_the_digits_say(text: Seq<char>, digits: Seq<char>)
    requires
        text == digits || text == seq!['+'] + digits,
        digits.len() > 0 ==> digits[0] != '+',
    ensures
        seconds_of(text) is Some <==> digits.len() > 0 && (forall|i: int|
            0 <= i < digits.len() ==> '0' <= #[trigger] digits[i] <= '9') && text::number_read(
            digits,
        ) <= u32::MAX,
        seconds_of(text) is Some ==> seconds_of(text)->0 == text::number_read(digits),
{
    assert(without_sign(text) =~= digits);
    if all_digits(digits) {
        lemma_digits_read(digits);
    }
    assert(all_digits(digits) <==> forall|i: int|
        0 <= i < digits.len() ==> '0' <= #[trigger] digits[i] <= '9') by {
        if all_digits(digits) {
            assert forall|i: int| 0 <= i < digits.len() implies '0' <= #[trigger] digits[i]
                <= '9' by {
                assert(is_digit(digits[i]));
            }
        }
    }
}

proof fn lemma_digits_read(digits: Seq<char>)
    requires
        all_digits(digits),
    ensures
        digits_value(digits) == text::number_read(digits),
    decreases digits.len(),
{
    if digits.len() > 0 {
        assert(is_digit(digits[digits.len() - 1]));
        assert forall|i: int| 0 <= i < digits.drop_last().len() implies is_digit(
            #[trigger] digits.drop_last()[i],
        ) by {
            assert(is_digit(digits[i]));
        }
        lemma_digits_read(digits.drop_last());
    }
}

/// A list is read entry by entry: what stands before the first comma, semicolon or line end is the
/// first entry, without the white space around it and left out where nothing is left of it.
pub proof fn law_entries_are_read_off(piece: Seq<char>, separator: char, rest: Seq<char>)
    requires
        separator == ',' || separator == '，' || separator == ';' || separator == '；' || separator
            == '\n',
        forall|i: int|
            0 <= i < piece.len() ==> piece[i] != ',' && piece[i] != '，' && piece[i] != ';'
                && piece[i] != '；' && piece[i] != '\n',
    ensures
        text::trimmed(piece).len() > 0 ==> entries_of(piece + seq![separator] + rest) == seq![
            text::trimmed(piece),
        ] + entries_of(rest),
        text::trimmed(piece).len() == 0 ==> entries_of(piece + seq![separator] + rest)
            == entries_of(rest),
        text::trimmed(piece).len() > 0 ==> entries_of(piece) == seq![text::trimmed(piece)],
        text::trimmed(piece).len() == 0 ==> entries_of(piece).len() == 0,
{
    let none = Seq::<char>::empty();
    let tail = seq![separator] + rest;
    assert(piece + seq![separator] + rest =~= piece + tail);
    lemma_entry_grows(none, piece, tail);
    lemma_entry_grows(none, piece, none);
    assert(piece + none =~= piece);
    assert(none + piece =~= piece);
    assert(tail[0] == separator);
    assert(tail.skip(1) =~= rest);
    assert(Seq::<Seq<char>>::empty() + entries_from(rest, none) =~= entries_from(rest, none));
}

proof fn lemma_entry_grows(begun: Seq<char>, piece: Seq<char>, rest: Seq<char>)
    requires
        forall|i: int| 0 <= i < piece.len() ==> !is_separator(#[trigger] piece[i]),
    ensures
        entries_from(piece + rest, begun) == entries_from(rest, begun + piece),
    decreases piece.len(),
{
    if piece.len() == 0 {
        assert(piece + rest =~= rest);
        assert(begun + piece =~= begun);
    } else {
        assert((piece + rest)[0] == piece[0]);
        assert((piece + rest).skip(1) =~= piece.skip(1) + rest);
        lemma_entry_grows(begun.push(piece[0]), piece.skip(1), rest);
        assert(begun.push(piece[0]) + piece.skip(1) =~= begun + piece);
    }
}

} // verus!
