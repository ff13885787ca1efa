//! Text primitives: the operations of `str`, `String` and `char` that the rest of the library
//! builds on, each with the characters it reads and writes stated over `Seq<char>`.
use vstd::prelude::*;
use vstd::string::*;

verus! {

/// `<str as PartialEq>::eq`: two strings are equal exactly when they hold the same characters.
pub assume_specification[ <str as PartialEq<str>>::eq ](a: &str, b: &str) -> (r: bool)
    ensures
        r == (a@ == b@),
;

/// `String::push`: appends one character at the end.
pub assume_specification[ String::push ](s: &mut String, ch: char)
    ensures
        final(s)@ == old(s)@.push(ch),
;

/// The code points with the Unicode property `White_Space`.
pub open spec fn is_whitespace(c: char) -> bool {
    let point = c as u32;
    ||| 0x9 <= point <= 0xd
    ||| point == 0x20
    ||| point == 0x85
    ||| point == 0xa0
    ||| point == 0x1680
    ||| 0x2000 <= point <= 0x200a
    ||| point == 0x2028
    ||| point == 0x2029
    ||| point == 0x202f
    ||| point == 0x205f
    ||| point == 0x3000
}

/// `char::is_whitespace`: answers whether the character has the Unicode property `White_Space`.
pub assume_specification[ char::is_whitespace ](c: char) -> (r: bool)
    ensures
        r == is_whitespace(c),
;

/// The code points of the general category `Cc`, the control codes.
pub open spec fn is_control(c: char) -> bool {
    c as u32 <= 0x1f || 0x7f <= c as u32 <= 0x9f
}

/// `char::is_control`: answers whether the character is a control code (general category `Cc`).
pub assume_specification[ char::is_control ](c: char) -> (r: bool)
    ensures
        r == is_control(c),
;

/// Whether two strings hold the same characters.
pub fn same(a: &str, b: &str) -> (r: bool)
    ensures
        r == (a@ == b@),
{
    *a == *b
}

/// The characters of an optional string, or the absence of one.
pub open spec fn opt_view(value: Option<String>) -> Option<Seq<char>> {
    match value {
        Some(text) => Some(text@),
        None => None,
    }
}

/// The characters of each string of a list.
pub open spec fn views(parts: Seq<String>) -> Seq<Seq<char>> {
    Seq::new(parts.len(), |i: int| parts[i]@)
}

/// The texts of a list written one after another.
pub open spec fn concat(parts: Seq<Seq<char>>) -> Seq<char>
    decreases parts.len(),
{
    if parts.len() == 0 {
        Seq::empty()
    } else {
        concat(parts.drop_last()) + parts.last()
    }
}

/// The texts of a list written one after another, with a separator between neighbours.
pub open spec fn joined(parts: Seq<Seq<char>>, separator: Seq<char>) -> Seq<char>
    decreases parts.len(),
{
    if parts.len() == 0 {
        Seq::empty()
    } else if parts.len() == 1 {
        parts[0]
    } else {
        joined(parts.drop_last(), separator) + separator + parts.last()
    }
}

pub proof fn lemma_views_push(parts: Seq<String>, part: String)
    ensures
        views(parts.push(part)) == views(parts).push(part@),
{
    assert(views(parts.push(part)) =~= views(parts).push(part@));
}

/// A list's leading texts are no longer than all of them.
pub proof fn lemma_concat_prefix(parts: Seq<Seq<char>>, n: int)
    requires
        0 <= n <= parts.len(),
    ensures
        concat(parts.take(n)).len() <= concat(parts).len(),
    decreases parts.len(),
{
    if n == parts.len() {
        assert(parts.take(n) =~= parts);
    } else {
        lemma_concat_prefix(parts.drop_last(), n);
        assert(parts.drop_last().take(n) =~= parts.take(n));
    }
}

/// The characters of a string as a vector.
pub fn chars_of(text: &str) -> (r: Vec<char>)
    ensures
        r@ == text@,
{
    let mut out: Vec<char> = Vec::new();
    for c in it: text.chars()
        invariant
            out@ == text@.take(it.index()),
            it.seq() == text@,
    {
        proof {
            assert(text@.take(it.index() + 1) =~= text@.take(it.index()).push(c));
        }
        out.push(c);
    }
    proof {
        assert(text@.take(text@.len() as int) =~= text@);
    }
    out
}

/// A string of the characters `from..to` of a vector.
pub fn string_of(chars: &Vec<char>, from: usize, to: usize) -> (r: String)
    requires
        from <= to <= chars@.len(),
    ensures
        r@ == chars@.subrange(from as int, to as int),
{
    let mut out: String = String::new();
    let mut i: usize = from;
    while i < to
        invariant
            from <= i <= to <= chars@.len(),
            out@ == chars@.subrange(from as int, i as int),
        decreases to - i,
    {
        proof {
            assert(chars@.subrange(from as int, i + 1) =~= chars@.subrange(
                from as int,
                i as int,
            ).push(chars@[i as int]));
        }
        out.push(chars[i]);
        i = i + 1;
    }
    out
}

/// The bytes that a text takes.
pub fn byte_len(text: &str) -> (r: usize)
    ensures
        r == text.spec_bytes().len(),
{
    text.as_bytes().len()
}

/// Two texts, one after the other.
pub fn add2(a: &str, b: &str) -> (r: String)
    ensures
        r@ == a@ + b@,
{
    let mut out: String = a.to_owned();
    out.append(b);
    out
}

/// Three texts, one after another.
pub fn add3(a: &str, b: &str, c: &str) -> (r: String)
    ensures
        r@ == a@ + b@ + c@,
{
    let mut out: String = add2(a, b);
    out.append(c);
    out
}

/// Adds a string to a list.
pub fn push_line(lines: &mut Vec<String>, line: String)
    ensures
        views(final(lines)@) == views(old(lines)@).push(line@),
{
    proof {
        lemma_views_push(lines@, line);
    }
    lines.push(line);
}

/// The same lines again.
pub fn copy_lines(lines: &Vec<String>) -> (r: Vec<String>)
    ensures
        views(r@) == views(lines@),
{
    let mut out: Vec<String> = Vec::new();
    let mut i: usize = 0;
    while i < lines.len()
        invariant
            i <= lines@.len(),
            out@.len() == i,
            forall|k: int| 0 <= k < i ==> (#[trigger] out@[k])@ == lines@[k]@,
        decreases lines@.len() - i,
    {
        out.push(lines[i].clone());
        i = i + 1;
    }
    proof {
        assert(views(out@) =~= views(lines@));
    }
    out
}

/// A list of strings that holds none.
pub fn no_lines() -> (r: Vec<String>)
    ensures
        views(r@) == Seq::<Seq<char>>::empty(),
{
    let lines: Vec<String> = Vec::new();
    proof {
        assert(views(lines@) =~= Seq::<Seq<char>>::empty());
    }
    lines
}

/// The strings of a list, with a separator between neighbours.
pub fn join(parts: &Vec<String>, separator: &str) -> (r: String)
    ensures
        r@ == joined(views(parts@), separator@),
{
    let mut out: String = String::new();
    let mut i: usize = 0;
    while i < parts.len()
        invariant
            i <= parts@.len(),
            out@ == joined(views(parts@).take(i as int), separator@),
        decreases parts@.len() - i,
    {
        proof {
            let next = views(parts@).take(i + 1);
            assert(next.drop_last() =~= views(parts@).take(i as int));
            assert(next.last() == parts@[i as int]@);
            if i == 0 {
                assert(out@ + next.last() =~= next[0]);
            }
        }
        if i > 0 {
            out.append(separator);
        }
        out.append(parts[i].as_str());
        i = i + 1;
    }
    proof {
        assert(views(parts@).take(parts@.len() as int) =~= views(parts@));
    }
    out
}

/// Whether the text has the pattern at the given position.
pub open spec fn matches_at(text: Seq<char>, pattern: Seq<char>, at: int) -> bool {
    0 <= at && at + pattern.len() <= text.len() && text.subrange(at, at + pattern.len()) == pattern
}

/// Whether the text begins with the prefix.
pub open spec fn has_prefix(text: Seq<char>, prefix: Seq<char>) -> bool {
    matches_at(text, prefix, 0)
}

/// Whether the pattern occurs anywhere in the text.
pub open spec fn occurs_in(pattern: Seq<char>, text: Seq<char>) -> bool {
    exists|at: int| matches_at(text, pattern, at)
}

pub fn chars_match_at(text: &Vec<char>, pattern: &Vec<char>, at: usize) -> (r: bool)
    ensures
        r == matches_at(text@, pattern@, at as int),
{
    if at > text.len() || pattern.len() > text.len() - at {
        return false;
    }
    let end: usize = at + pattern.len();
    let mut i: usize = 0;
    while i < pattern.len()
        invariant
            at + pattern@.len() == end <= text@.len(),
            i <= pattern@.len(),
            forall|k: int| 0 <= k < i ==> text@[at + k] == pattern@[k],
        decreases pattern@.len() - i,
    {
        if text[at + i] != pattern[i] {
            proof {
                assert(text@.subrange(at as int, at + pattern@.len())[i as int] != pattern@[i as int]);
            }
            return false;
        }
        i = i + 1;
    }
    proof {
        assert(text@.subrange(at as int, at + pattern@.len()) =~= pattern@);
    }
    true
}

/// Whether the text begins with the prefix.
pub fn starts_with(text: &str, prefix: &str) -> (r: bool)
    ensures
        r == has_prefix(text@, prefix@),
{
    chars_match_at(&chars_of(text), &chars_of(prefix), 0)
}

/// What follows the prefix, where the text begins with it.
pub fn strip_prefix(text: &str, prefix: &str) -> (r: Option<String>)
    ensures
        match r {
            Some(rest) => has_prefix(text@, prefix@) && rest@ == text@.skip(prefix@.len() as int),
            None => !has_prefix(text@, prefix@),
        },
{
    let chars: Vec<char> = chars_of(text);
    let head: Vec<char> = chars_of(prefix);
    if chars_match_at(&chars, &head, 0) {
        proof {
            assert(chars@.subrange(prefix@.len() as int, text@.len() as int) =~= text@.skip(
                prefix@.len() as int,
            ));
        }
        Some(string_of(&chars, head.len(), chars.len()))
    } else {
        None
    }
}

/// Whether the pattern occurs anywhere in the text.
pub fn contains(text: &str, pattern: &str) -> (r: bool)
    ensures
        r == occurs_in(pattern@, text@),
{
    let chars: Vec<char> = chars_of(text);
    let needle: Vec<char> = chars_of(pattern);
    let mut at: usize = 0;
    while at < chars.len()
        invariant
            at <= chars@.len(),
            chars@ == text@,
            needle@ == pattern@,
            forall|k: int| 0 <= k < at ==> !matches_at(text@, pattern@, k),
        decreases chars@.len() - at,
    {
        if chars_match_at(&chars, &needle, at) {
            return true;
        }
        at = at + 1;
    }
    let last: bool = chars_match_at(&chars, &needle, at);
    proof {
        assert(last == matches_at(text@, pattern@, at as int));
        assert(forall|k: int| matches_at(text@, pattern@, k) ==> 0 <= k <= at);
    }
    last
}

/// Whether the character occurs in the text.
pub fn contains_char(text: &str, c: char) -> (r: bool)
    ensures
        r == text@.contains(c),
{
    let chars: Vec<char> = chars_of(text);
    let mut i: usize = 0;
    while i < chars.len()
        invariant
            i <= chars@.len(),
            chars@ == text@,
            forall|k: int| 0 <= k < i ==> text@[k] != c,
        decreases chars@.len() - i,
    {
        if chars[i] == c {
            proof {
                assert(text@[i as int] == c);
            }
            return true;
        }
        i = i + 1;
    }
    false
}

/// The text with another behind each of its characters.
pub open spec fn interleaved(text: Seq<char>, with: Seq<char>) -> Seq<char>
    decreases text.len(),
{
    if text.len() == 0 {
        Seq::empty()
    } else {
        interleaved(text.drop_last(), with).push(text.last()) + with
    }
}

/// The text with every occurrence of the pattern replaced, found from the left and not
/// overlapping. The empty pattern occurs before every character and at the end.
pub open spec fn replaced(text: Seq<char>, pattern: Seq<char>, with: Seq<char>) -> Seq<char>
    decreases text.len(),
{
    if pattern.len() == 0 {
        with + interleaved(text, with)
    } else if text.len() == 0 {
        Seq::empty()
    } else if has_prefix(text, pattern) {
        with + replaced(text.skip(pattern.len() as int), pattern, with)
    } else {
        seq![text[0]] + replaced(text.skip(1), pattern, with)
    }
}

/// Two texts share no character.
pub open spec fn apart(a: Seq<char>, b: Seq<char>) -> bool {
    forall|i: int, j: int|
        0 <= i < a.len() && 0 <= j < b.len() ==> #[trigger] a[i] != #[trigger] b[j]
}

/// What begins a text after a replacement that it is apart from, began the text before, and the
/// pattern did not.
proof fn lemma_replaced_prefix(
    text: Seq<char>,
    pattern: Seq<char>,
    with: Seq<char>,
    part: Seq<char>,
)
    requires
        pattern.len() > 0,
        with.len() > 0,
        part.len() > 0,
        apart(part, with),
        has_prefix(replaced(text, pattern, with), part),
    ensures
        has_prefix(text, part),
        !has_prefix(text, pattern),
    decreases text.len(),
{
    let after = replaced(text, pattern, with);
    assert(after.subrange(0, part.len() as int)[0] == part[0]);
    assert(after[0] == part[0]);
    if has_prefix(text, pattern) {
        assert(after[0] == with[0]);
        assert(part[0] != with[0]);
    } else {
        let rest = replaced(text.skip(1), pattern, with);
        assert(part[0] == text[0]);
        if part.len() > 1 {
            let tail = part.skip(1);
            assert(rest.subrange(0, tail.len() as int) =~= tail) by {
                assert forall|i: int| 0 <= i < tail.len() implies rest[i] == tail[i] by {
                    assert(after.subrange(0, part.len() as int)[i + 1] == part[i + 1]);
                }
            }
            assert(apart(tail, with)) by {
                assert forall|i: int, j: int|
                    0 <= i < tail.len() && 0 <= j < with.len() implies #[trigger] tail[i]
                    != #[trigger] with[j] by {
                    assert(part[i + 1] != with[j]);
                }
            }
            lemma_replaced_prefix(text.skip(1), pattern, with, tail);
            assert(text.subrange(0, part.len() as int) =~= part) by {
                assert forall|i: int| 0 <= i < part.len() implies text[i] == part[i] by {
                    if i > 0 {
                        assert(text.skip(1).subrange(0, tail.len() as int)[i - 1] == tail[i - 1]);
                    }
                }
            }
        } else {
            assert(text.subrange(0, 1) =~= part);
        }
    }
}

/// What occurs in a text after a replacement that it is apart from, occurred before, and is not
/// what was replaced.
pub proof fn lemma_replaced_occurs(
    text: Seq<char>,
    pattern: Seq<char>,
    with: Seq<char>,
    part: Seq<char>,
    at: int,
)
    requires
        pattern.len() > 0,
        with.len() > 0,
        part.len() > 0,
        apart(part, with),
        matches_at(replaced(text, pattern, with), part, at),
    ensures
        occurs_in(part, text),
        part != pattern,
    decreases text.len(),
{
    let after = replaced(text, pattern, with);
    if at == 0 {
        lemma_replaced_prefix(text, pattern, with, part);
        assert(matches_at(text, part, 0));
    } else if has_prefix(text, pattern) {
        let n = pattern.len() as int;
        let rest = replaced(text.skip(n), pattern, with);
        if at < with.len() {
            assert(after.subrange(at, at + part.len())[0] == part[0]);
            assert(after[at] == with[at]);
            assert(part[0] != with[at]);
        } else {
            let k = at - with.len();
            assert(rest.subrange(k, k + part.len()) =~= after.subrange(at, at + part.len()));
            lemma_replaced_occurs(text.skip(n), pattern, with, part, k);
            let j = choose|j: int| matches_at(text.skip(n), part, j);
            assert(text.subrange(j + n, j + n + part.len()) =~= text.skip(n).subrange(
                j,
                j + part.len(),
            ));
            assert(matches_at(text, part, j + n));
        }
    } else {
        let rest = replaced(text.skip(1), pattern, with);
        assert(rest.subrange(at - 1, at - 1 + part.len()) =~= after.subrange(at, at + part.len()));
        lemma_replaced_occurs(text.skip(1), pattern, with, part, at - 1);
        let j = choose|j: int| matches_at(text.skip(1), part, j);
        assert(text.subrange(j + 1, j + 1 + part.len()) =~= text.skip(1).subrange(
            j,
            j + part.len(),
        ));
        assert(matches_at(text, part, j + 1));
    }
}

/// A text in which the pattern does not occur is left as it is.
pub proof fn lemma_replaced_absent(text: Seq<char>, pattern: Seq<char>, with: Seq<char>)
    requires
        pattern.len() > 0,
        !occurs_in(pattern, text),
    ensures
        replaced(text, pattern, with) == text,
    decreases text.len(),
{
    if text.len() > 0 {
        assert(!matches_at(text, pattern, 0));
        let rest = text.skip(1);
        assert forall|at: int| !matches_at(rest, pattern, at) by {
            if matches_at(rest, pattern, at) {
                assert(text.subrange(at + 1, at + 1 + pattern.len()) =~= rest.subrange(
                    at,
                    at + pattern.len(),
                ));
                assert(matches_at(text, pattern, at + 1));
            }
        }
        lemma_replaced_absent(rest, pattern, with);
        assert(seq![text[0]] + rest =~= text);
    }
}

/// The text with every occurrence of the pattern replaced, found from the left and not
/// overlapping.
pub fn replace(text: &str, pattern: &str, with: &str) -> (r: String)
    ensures
        r@ == replaced(text@, pattern@, with@),
{
    let chars: Vec<char> = chars_of(text);
    let needle: Vec<char> = chars_of(pattern);
    if needle.len() == 0 {
        let mut out: String = with.to_owned();
        let mut i: usize = 0;
        proof {
            assert(text@.take(0) =~= Seq::empty());
            assert(out@ =~= with@ + interleaved(text@.take(0), with@));
        }
        while i < chars.len()
            invariant
                i <= chars@.len(),
                chars@ == text@,
                out@ == with@ + interleaved(text@.take(i as int), with@),
            decreases chars@.len() - i,
        {
            let ghost before = out@;
            out.push(chars[i]);
            out.append(with);
            proof {
                let next = text@.take(i + 1);
                assert(next.drop_last() =~= text@.take(i as int));
                assert(out@ =~= with@ + interleaved(next, with@));
            }
            i = i + 1;
        }
        proof {
            assert(text@.take(i as int) =~= text@);
        }
        return out;
    }
    let mut out: String = String::new();
    let mut at: usize = 0;
    proof {
        assert(text@.skip(0) =~= text@);
        assert(out@ + replaced(text@, pattern@, with@) =~= replaced(text@, pattern@, with@));
    }
    while at < chars.len()
        invariant
            at <= chars@.len(),
            chars@ == text@,
            needle@ == pattern@,
            pattern@.len() > 0,
            replaced(text@, pattern@, with@) == out@ + replaced(
                text@.skip(at as int),
                pattern@,
                with@,
            ),
        decreases chars@.len() - at,
    {
        let ghost rest = text@.skip(at as int);
        let ghost before = out@;
        let found: bool = chars_match_at(&chars, &needle, at);
        proof {
            if at + pattern@.len() <= text@.len() {
                assert(rest.subrange(0, pattern@.len() as int) =~= text@.subrange(
                    at as int,
                    at + pattern@.len(),
                ));
            }
            assert(found == has_prefix(rest, pattern@));
        }
        if found {
            out.append(with);
            at = at + needle.len();
            proof {
                assert(rest.skip(pattern@.len() as int) =~= text@.skip(at as int));
                assert(before + (with@ + replaced(text@.skip(at as int), pattern@, with@)) =~= (before
                    + with@) + replaced(text@.skip(at as int), pattern@, with@));
            }
        } else {
            out.push(chars[at]);
            at = at + 1;
            proof {
                assert(rest.skip(1) =~= text@.skip(at as int));
                assert(before + (seq![rest[0]] + replaced(text@.skip(at as int), pattern@, with@))
                    =~= out@ + replaced(text@.skip(at as int), pattern@, with@));
            }
        }
    }
    proof {
        assert(text@.skip(at as int) =~= Seq::<char>::empty());
        assert(out@ + replaced(text@.skip(at as int), pattern@, with@) =~= out@);
    }
    out
}

/// The text without its leading white space.
pub open spec fn trimmed_start(text: Seq<char>) -> Seq<char>
    decreases text.len(),
{
    if text.len() > 0 && is_whitespace(text[0]) {
        trimmed_start(text.skip(1))
    } else {
        text
    }
}

/// The text without its trailing white space.
pub open spec fn trimmed_end(text: Seq<char>) -> Seq<char>
    decreases text.len(),
{
    if text.len() > 0 && is_whitespace(text.last()) {
        trimmed_end(text.drop_last())
    } else {
        text
    }
}

/// The text without its leading and trailing white space.
pub open spec fn trimmed(text: Seq<char>) -> Seq<char> {
    trimmed_end(trimmed_start(text))
}

pub proof fn lemma_trimmed_start(text: Seq<char>)
    ensures
        trimmed_start(text).len() <= text.len(),
        trimmed_start(text) == text.skip(text.len() - trimmed_start(text).len()),
        trimmed_start(text).len() > 0 ==> !is_whitespace(trimmed_start(text)[0]),
    decreases text.len(),
{
    if text.len() > 0 && is_whitespace(text[0]) {
        lemma_trimmed_start(text.skip(1));
        assert(text.skip(1).skip(text.len() - 1 - trimmed_start(text).len()) =~= text.skip(
            text.len() - trimmed_start(text).len(),
        ));
    } else {
        assert(text.skip(0) =~= text);
    }
}

pub proof fn lemma_trimmed_end(text: Seq<char>)
    ensures
        trimmed_end(text).len() <= text.len(),
        trimmed_end(text) == text.take(trimmed_end(text).len() as int),
        trimmed_end(text).len() > 0 ==> !is_whitespace(trimmed_end(text).last()),
    decreases text.len(),
{
    if text.len() > 0 && is_whitespace(text.last()) {
        lemma_trimmed_end(text.drop_last());
        assert(text.drop_last().take(trimmed_end(text).len() as int) =~= text.take(
            trimmed_end(text).len() as int,
        ));
    } else {
        assert(text.take(text.len() as int) =~= text);
    }
}

/// Trimmed text is a part of the text that neither begins nor ends with white space, and trimming
/// it again changes nothing.
pub proof fn lemma_trimmed(text: Seq<char>)
    ensures
        exists|from: int, to: int|
            0 <= from <= to <= text.len() && trimmed(text) == #[trigger] text.subrange(from, to),
        trimmed(text).len() > 0 ==> !is_whitespace(trimmed(text)[0]) && !is_whitespace(
            trimmed(text).last(),
        ),
        trimmed(trimmed(text)) == trimmed(text),
{
    let head = trimmed_start(text);
    lemma_trimmed_start(text);
    lemma_trimmed_end(head);
    let from = text.len() - head.len();
    let to = from + trimmed(text).len();
    assert(text.subrange(from, to) =~= head.take(trimmed(text).len() as int));
}

/// The text without its leading white space.
pub fn trim_start(text: &str) -> (r: String)
    ensures
        r@ == trimmed_start(text@),
{
    let chars: Vec<char> = chars_of(text);
    let mut from: usize = 0;
    proof {
        assert(text@.skip(0) =~= text@);
    }
    while from < chars.len() && chars[from].is_whitespace()
        invariant
            from <= chars@.len(),
            chars@ == text@,
            trimmed_start(text@) == trimmed_start(text@.skip(from as int)),
        decreases chars@.len() - from,
    {
        proof {
            assert(text@.skip(from as int).skip(1) =~= text@.skip(from + 1));
        }
        from = from + 1;
    }
    proof {
        assert(chars@.subrange(from as int, text@.len() as int) =~= text@.skip(from as int));
    }
    string_of(&chars, from, chars.len())
}

/// The text without its trailing white space.
pub fn trim_end(text: &str) -> (r: String)
    ensures
        r@ == trimmed_end(text@),
{
    let chars: Vec<char> = chars_of(text);
    let mut to: usize = chars.len();
    proof {
        assert(text@.take(to as int) =~= text@);
    }
    while to > 0 && chars[to - 1].is_whitespace()
        invariant
            to <= chars@.len(),
            chars@ == text@,
            trimmed_end(text@) == trimmed_end(text@.take(to as int)),
        decreases to,
    {
        proof {
            assert(text@.take(to as int).drop_last() =~= text@.take(to - 1));
        }
        to = to - 1;
    }
    proof {
        assert(chars@.subrange(0, to as int) =~= text@.take(to as int));
    }
    string_of(&chars, 0, to)
}

/// The text without its leading and trailing white space.
pub fn trim(text: &str) -> (r: String)
    ensures
        r@ == trimmed(text@),
{
    trim_end(trim_start(text).as_str())
}

/// How many characters of a text stand before its first white space.
pub open spec fn word_len(text: Seq<char>) -> nat
    decreases text.len(),
{
    if text.len() == 0 || is_whitespace(text[0]) {
        0
    } else {
        1 + word_len(text.skip(1))
    }
}

/// A text without its first word.
pub open spec fn after_word(text: Seq<char>) -> Seq<char> {
    text.skip(word_len(text) as int)
}

/// A text without its first word.
pub fn drop_word(text: &str) -> (r: String)
    ensures
        r@ == after_word(text@),
{
    let chars: Vec<char> = chars_of(text);
    let mut at: usize = 0;
    proof {
        assert(text@.skip(0) =~= text@);
    }
    while at < chars.len() && !chars[at].is_whitespace()
        invariant
            at <= chars@.len(),
            chars@ == text@,
            word_len(text@) == at + word_len(text@.skip(at as int)),
        decreases chars@.len() - at,
    {
        proof {
            assert(text@.skip(at as int).skip(1) =~= text@.skip(at + 1));
        }
        at = at + 1;
    }
    proof {
        assert(chars@.subrange(at as int, chars@.len() as int) =~= text@.skip(at as int));
    }
    string_of(&chars, at, chars.len())
}

/// The words of a text, the first of which has begun already.
pub open spec fn words_from(text: Seq<char>, begun: Seq<char>) -> Seq<Seq<char>>
    decreases text.len(),
{
    let done = if begun.len() == 0 {
        Seq::empty()
    } else {
        seq![begun]
    };
    if text.len() == 0 {
        done
    } else if is_whitespace(text[0]) {
        done + words_from(text.skip(1), Seq::empty())
    } else {
        words_from(text.skip(1), begun.push(text[0]))
    }
}

/// The words of a text, which white space sets apart.
pub open spec fn words_of(text: Seq<char>) -> Seq<Seq<char>> {
    words_from(text, Seq::empty())
}

/// The words of a text, which white space sets apart.
pub fn split_words(text: &str) -> (r: Vec<String>)
    ensures
        views(r@) == words_of(text@),
{
    let chars: Vec<char> = chars_of(text);
    let mut out: Vec<String> = Vec::new();
    let mut word: String = String::new();
    let mut i: usize = 0;
    proof {
        assert(text@.skip(0) =~= text@);
        assert(views(out@) + words_from(text@, Seq::empty()) =~= words_of(text@));
        assert(word@ =~= Seq::<char>::empty());
    }
    while i < chars.len()
        invariant
            i <= chars@.len(),
            chars@ == text@,
            words_of(text@) == views(out@) + words_from(text@.skip(i as int), word@),
        decreases chars@.len() - i,
    {
        let ghost rest = text@.skip(i as int);
        let ghost before = views(out@);
        let ghost begun = word@;
        proof {
            assert(rest.skip(1) =~= text@.skip(i + 1));
            assert(rest[0] == chars@[i as int]);
        }
        if chars[i].is_whitespace() {
            if !word.as_str().is_empty() {
                proof {
                    lemma_views_push(out@, word);
                    assert(before + (seq![begun] + words_from(rest.skip(1), Seq::empty()))
                        =~= before.push(begun) + words_from(rest.skip(1), Seq::empty()));
                }
                out.push(word);
                word = String::new();
            } else {
                proof {
                    assert(Seq::<Seq<char>>::empty() + words_from(rest.skip(1), Seq::empty())
                        =~= words_from(rest.skip(1), Seq::empty()));
                    assert(begun =~= Seq::<char>::empty());
                }
            }
        } else {
            word.push(chars[i]);
        }
        i = i + 1;
    }
    proof {
        assert(text@.skip(i as int) =~= Seq::<char>::empty());
    }
    if !word.as_str().is_empty() {
        proof {
            lemma_views_push(out@, word);
            assert(views(out@) + seq![word@] =~= views(out@).push(word@));
        }
        out.push(word);
    } else {
        proof {
            assert(views(out@) + Seq::<Seq<char>>::empty() =~= views(out@));
        }
    }
    out
}

/// The decimal digits of a number, the most significant first.
pub open spec fn decimal_digits(n: nat) -> Seq<char>
    decreases n,
{
    let digit = (0x30 + n % 10) as char;
    if n < 10 {
        seq![digit]
    } else {
        decimal_digits(n / 10).push(digit)
    }
}

/// A decimal digit as a character.
pub fn digit_char(d: u64) -> (r: char)
    requires
        d < 10,
    ensures
        r == (0x30 + d) as char,
{
    match d {
        0 => '0',
        1 => '1',
        2 => '2',
        3 => '3',
        4 => '4',
        5 => '5',
        6 => '6',
        7 => '7',
        8 => '8',
        _ => '9',
    }
}

/// A number in decimal notation.
pub fn decimal(n: u64) -> (r: String)
    ensures
        r@ == decimal_digits(n as nat),
    decreases n,
{
    if n < 10 {
        let mut out: String = String::new();
        out.push(digit_char(n));
        out
    } else {
        let mut out: String = decimal(n / 10);
        out.push(digit_char(n % 10));
        out
    }
}

/// Nothing but white space.
pub open spec fn is_blank(text: Seq<char>) -> bool {
    forall|i: int| 0 <= i < text.len() ==> is_whitespace(#[trigger] text[i])
}

/// No white space at all, and not empty.
pub open spec fn is_word(text: Seq<char>) -> bool {
    &&& text.len() > 0
    &&& forall|i: int| 0 <= i < text.len() ==> !is_whitespace(#[trigger] text[i])
}

/// The white space around a text does not count: whatever stands before and behind, a text that
/// begins and ends with something else comes out whole.
pub proof fn law_trimming_finds_the_text_between(
    before: Seq<char>,
    core: Seq<char>,
    behind: Seq<char>,
)
    requires
        is_blank(before),
        is_blank(behind),
        core.len() > 0 ==> !is_whitespace(core[0]) && !is_whitespace(core.last()),
    ensures
        trimmed(before + core + behind) == core,
{
    let all = before + core + behind;
    assert(all =~= before + (core + behind));
    lemma_blank_start(before, core + behind);
    if core.len() > 0 {
        assert((core + behind)[0] == core[0]);
        assert(trimmed_start(core + behind) == core + behind);
    } else {
        assert(core + behind =~= behind);
        assert(behind =~= behind + Seq::<char>::empty());
        lemma_blank_start(behind, Seq::empty());
        assert(trimmed_start(core + behind) =~= core);
        assert(trimmed_end(Seq::<char>::empty()) =~= Seq::<char>::empty());
    }
    if core.len() > 0 {
        lemma_blank_end(core, behind);
    }
}

proof fn lemma_blank_start(blank: Seq<char>, rest: Seq<char>)
    requires
        is_blank(blank),
    ensures
        trimmed_start(blank + rest) == trimmed_start(rest),
    decreases blank.len(),
{
    if blank.len() == 0 {
        assert(blank + rest =~= rest);
    } else {
        assert((blank + rest)[0] == blank[0]);
        assert((blank + rest).skip(1) =~= blank.skip(1) + rest);
        lemma_blank_start(blank.skip(1), rest);
    }
}

proof fn lemma_blank_end(rest: Seq<char>, blank: Seq<char>)
    requires
        is_blank(blank),
    ensures
        trimmed_end(rest + blank) == trimmed_end(rest),
    decreases blank.len(),
{
    if blank.len() == 0 {
        assert(rest + blank =~= rest);
    } else {
        assert((rest + blank).last() == blank.last());
        assert((rest + blank).drop_last() =~= rest + blank.drop_last());
        lemma_blank_end(rest, blank.drop_last());
    }
}

/// Trimming takes away white space alone: the text is some white space, what comes out, and some
/// white space.
pub proof fn law_trimming_takes_white_space_alone(text: Seq<char>)
    ensures
        exists|before: Seq<char>, behind: Seq<char>|
            is_blank(before) && is_blank(behind) && text == #[trigger] (before + trimmed(text)
                + behind),
{
    lemma_start_taken(text);
    lemma_end_taken(trimmed_start(text));
    let head = trimmed_start(text);
    let before = text.take(text.len() - head.len());
    let behind = head.skip(trimmed(text).len() as int);
    lemma_trimmed_start(text);
    lemma_trimmed_end(head);
    assert(text =~= before + trimmed(text) + behind);
    assert(is_blank(before) && is_blank(behind));
}

proof fn lemma_start_taken(text: Seq<char>)
    ensures
        trimmed_start(text).len() <= text.len(),
        is_blank(text.take(text.len() - trimmed_start(text).len())),
    decreases text.len(),
{
    if text.len() > 0 && is_whitespace(text[0]) {
        let rest = text.skip(1);
        lemma_start_taken(rest);
        let count = text.len() - trimmed_start(text).len();
        assert forall|i: int| 0 <= i < count implies is_whitespace(#[trigger] text.take(count)[i]) by {
            if i > 0 {
                assert(rest.take(count - 1)[i - 1] == text[i]);
            }
        }
    }
}

proof fn lemma_end_taken(text: Seq<char>)
    ensures
        trimmed_end(text).len() <= text.len(),
        is_blank(text.skip(trimmed_end(text).len() as int)),
    decreases text.len(),
{
    if text.len() > 0 && is_whitespace(text.last()) {
        let rest = text.drop_last();
        lemma_end_taken(rest);
        let count = trimmed_end(text).len() as int;
        assert forall|i: int| 0 <= i < text.skip(count).len() implies is_whitespace(
            #[trigger] text.skip(count)[i],
        ) by {
            if i + 1 < text.skip(count).len() {
                assert(rest.skip(count)[i] == text[count + i]);
            }
        }
    }
}

/// The words of a text are read off one by one: behind some white space, a run without white space
/// that is followed by white space or by nothing is the first word, and the rest holds the others.
pub proof fn law_words_are_read_off(before: Seq<char>, word: Seq<char>, rest: Seq<char>)
    requires
        is_blank(before),
        is_word(word),
        rest.len() == 0 || is_whitespace(rest[0]),
    ensures
        words_of(before + word + rest) == seq![word] + words_of(rest),
{
    lemma_words_skip_blank(before, word + rest);
    assert(before + word + rest =~= before + (word + rest));
    lemma_word_grows(Seq::empty(), word, rest);
    assert(Seq::<char>::empty() + word =~= word);
    if rest.len() > 0 {
        assert(Seq::<Seq<char>>::empty() + words_from(rest.skip(1), Seq::empty())
            =~= words_from(rest.skip(1), Seq::empty()));
    } else {
        assert(words_from(rest, Seq::empty()) =~= Seq::<Seq<char>>::empty());
        assert(seq![word] + Seq::<Seq<char>>::empty() =~= seq![word]);
    }
}

/// White space holds no words.
pub proof fn law_white_space_holds_no_words(blank: Seq<char>)
    requires
        is_blank(blank),
    ensures
        words_of(blank) == Seq::<Seq<char>>::empty(),
{
    lemma_words_skip_blank(blank, Seq::empty());
    assert(blank + Seq::<char>::empty() =~= blank);
}

proof fn lemma_words_skip_blank(blank: Seq<char>, rest: Seq<char>)
    requires
        is_blank(blank),
    ensures
        words_from(blank + rest, Seq::empty()) == words_from(rest, Seq::empty()),
    decreases blank.len(),
{
    if blank.len() == 0 {
        assert(blank + rest =~= rest);
    } else {
        assert((blank + rest)[0] == blank[0]);
        assert((blank + rest).skip(1) =~= blank.skip(1) + rest);
        lemma_words_skip_blank(blank.skip(1), rest);
        assert(Seq::<Seq<char>>::empty() + words_from(blank.skip(1) + rest, Seq::empty())
            =~= words_from(blank.skip(1) + rest, Seq::empty()));
    }
}

proof fn lemma_word_grows(begun: Seq<char>, word: Seq<char>, rest: Seq<char>)
    requires
        forall|i: int| 0 <= i < word.len() ==> !is_whitespace(#[trigger] word[i]),
    ensures
        words_from(word + rest, begun) == words_from(rest, begun + word),
    decreases word.len(),
{
    if word.len() == 0 {
        assert(word + rest =~= rest);
        assert(begun + word =~= begun);
    } else {
        assert((word + rest)[0] == word[0]);
        assert((word + rest).skip(1) =~= word.skip(1) + rest);
        lemma_word_grows(begun.push(word[0]), word.skip(1), rest);
        assert(begun.push(word[0]) + word.skip(1) =~= begun + word);
    }
}

/// Replacing goes from the left: up to the first place where the pattern stands the text stays as
/// it is, the pattern gives way to what replaces it, and what follows is treated alike.
pub proof fn law_the_first_occurrence_is_replaced(
    text: Seq<char>,
    pattern: Seq<char>,
    with: Seq<char>,
    at: int,
)
    requires
        pattern.len() > 0,
        matches_at(text, pattern, at),
        forall|i: int| 0 <= i < at ==> !matches_at(text, pattern, i),
    ensures
        replaced(text, pattern, with) == text.take(at) + with + replaced(
            text.skip(at + pattern.len()),
            pattern,
            with,
        ),
    decreases at,
{
    if at == 0 {
        assert(text.take(0) + with =~= with);
    } else {
        assert(!matches_at(text, pattern, 0));
        let rest = text.skip(1);
        assert(rest.subrange(at - 1, at - 1 + pattern.len()) =~= text.subrange(
            at,
            at + pattern.len(),
        ));
        assert forall|i: int| 0 <= i < at - 1 implies !matches_at(rest, pattern, i) by {
            assert(!matches_at(text, pattern, i + 1));
            if matches_at(rest, pattern, i) {
                assert(rest.subrange(i, i + pattern.len()) =~= text.subrange(
                    i + 1,
                    i + 1 + pattern.len(),
                ));
            }
        }
        law_the_first_occurrence_is_replaced(rest, pattern, with, at - 1);
        assert(rest.skip(at - 1 + pattern.len()) =~= text.skip(at + pattern.len()));
        assert(seq![text[0]] + rest.take(at - 1) =~= text.take(at));
        let tail = replaced(text.skip(at + pattern.len()), pattern, with);
        assert(seq![text[0]] + (rest.take(at - 1) + with + tail) =~= text.take(at) + with + tail);
    }
}

/// A text without the pattern stays as it is.
pub proof fn law_nothing_else_is_replaced(text: Seq<char>, pattern: Seq<char>, with: Seq<char>)
    requires
        pattern.len() > 0,
        forall|i: int| 0 <= i < text.len() ==> !matches_at(text, pattern, i),
    ensures
        replaced(text, pattern, with) == text,
{
    assert forall|i: int| !matches_at(text, pattern, i) by {}
    lemma_replaced_absent(text, pattern, with);
}

/// The number that decimal digits stand for.
pub open spec fn number_read(digits: Seq<char>) -> int
    decreases digits.len(),
{
    if digits.len() == 0 {
        0
    } else {
        number_read(digits.drop_last()) * 10 + (digits.last() as int - '0' as int)
    }
}

/// A number that is written down reads back as itself, in digits alone and without a leading zero.
pub proof fn law_a_written_number_reads_back(n: nat)
    ensures
        number_read(decimal_digits(n)) == n,
        forall|i: int|
            0 <= i < decimal_digits(n).len() ==> '0' <= #[trigger] decimal_digits(n)[i] <= '9',
        n > 0 ==> decimal_digits(n)[0] != '0',
        decimal_digits(n).len() > 0,
    decreases n,
{
    let digit = (0x30 + n % 10) as char;
    assert(digit as int == 0x30 + n % 10);
    if n < 10 {
        assert(decimal_digits(n).drop_last() =~= Seq::<char>::empty());
        assert(number_read(Seq::<char>::empty()) == 0);
    } else {
        law_a_written_number_reads_back(n / 10);
        assert(decimal_digits(n).drop_last() =~= decimal_digits(n / 10));
    }
}

/// Joined texts stand one behind the other, with the separator between two of them.
pub proof fn law_joining_puts_the_separator_between(
    parts: Seq<Seq<char>>,
    separator: Seq<char>,
)
    requires
        parts.len() > 1,
    ensures
        joined(parts, separator) == parts[0] + separator + joined(parts.skip(1), separator),
    decreases parts.len(),
{
    let rest = parts.skip(1);
    if parts.len() == 2 {
        assert(joined(parts.drop_last(), separator) == parts[0]);
        assert(rest.len() == 1 && rest[0] == parts[1]);
    } else {
        law_joining_puts_the_separator_between(parts.drop_last(), separator);
        assert(parts.drop_last().skip(1) =~= rest.drop_last());
        assert(joined(parts, separator) =~= parts[0] + separator + (joined(
            rest.drop_last(),
            separator,
        ) + separator + rest.last()));
    }
}

/// Taking the leading white space away takes white space alone.
pub proof fn law_trimming_start_takes_white_space_alone(text: Seq<char>)
    ensures
        trimmed_start(text).len() <= text.len(),
        trimmed_start(text) == text.skip(text.len() - trimmed_start(text).len()),
        is_blank(text.take(text.len() - trimmed_start(text).len())),
        trimmed_start(text).len() > 0 ==> !is_whitespace(trimmed_start(text)[0]),
{
    lemma_trimmed_start(text);
    lemma_start_taken(text);
}

/// The text behind its first word: the white space before the word and the word are passed over.
pub proof fn law_a_word_is_passed_over(before: Seq<char>, word: Seq<char>, rest: Seq<char>)
    requires
        is_blank(before),
        is_word(word),
        rest.len() == 0 || is_whitespace(rest[0]),
    ensures
        after_word(trimmed_start(before + word + rest)) == rest,
{
    assert(before + word + rest =~= before + (word + rest));
    lemma_blank_start(before, word + rest);
    assert((word + rest)[0] == word[0]);
    lemma_word_len(word, rest);
    assert((word + rest).skip(word.len() as int) =~= rest);
}

proof fn lemma_word_len(word: Seq<char>, rest: Seq<char>)
    requires
        forall|i: int| 0 <= i < word.len() ==> !is_whitespace(#[trigger] word[i]),
        rest.len() == 0 || is_whitespace(rest[0]),
    ensures
        word_len(word + rest) == word.len(),
    decreases word.len(),
{
    if word.len() == 0 {
        assert(word + rest =~= rest);
    } else {
        assert((word + rest)[0] == word[0]);
        assert((word + rest).skip(1) =~= word.skip(1) + rest);
        lemma_word_len(word.skip(1), rest);
    }
}

} // verus!
