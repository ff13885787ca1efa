//! Display columns: grapheme clusters, terminal cell widths, and fitting text to a width.
use unicode_segmentation::UnicodeSegmentation;
use unicode_width::UnicodeWidthStr;
use vstd::prelude::*;
use vstd::string::*;

use crate::text;

verus! {

/// The extended grapheme clusters that `UnicodeSegmentation::graphemes` yields.
pub uninterp spec fn graphemes(text: Seq<char>) -> Seq<Seq<char>>;

/// The columns that `UnicodeWidthStr::width` counts.
pub uninterp spec fn display_width(text: Seq<char>) -> nat;

/// `UnicodeSegmentation::graphemes` with extended clusters: cuts the text into its grapheme
/// clusters. No cluster is empty, and one after another they are the text again.
#[verifier::external_body]
pub(crate) fn split_graphemes(text: &str) -> (r: Vec<String>)
    ensures
        text::views(r@) == graphemes(text@),
        text::concat(text::views(r@)) == text@,
        forall|i: int| 0 <= i < r@.len() ==> (#[trigger] r@[i])@.len() > 0,
{
    UnicodeSegmentation::graphemes(text, true).map(str::to_owned).collect()
}

/// `UnicodeWidthStr::width`: the number of terminal columns that the text takes.
#[verifier::external_body]
pub(crate) fn width_of(text: &str) -> (r: usize)
    ensures
        r == display_width(text@),
{
    UnicodeWidthStr::width(text)
}

/// The columns of a list of clusters, each measured by itself.
pub open spec fn total_width(clusters: Seq<Seq<char>>) -> nat
    decreases clusters.len(),
{
    if clusters.len() == 0 {
        0
    } else {
        total_width(clusters.drop_last()) + display_width(clusters.last())
    }
}

/// How many leading clusters leave one of `width` columns free.
pub open spec fn fit_count(clusters: Seq<Seq<char>>, width: int) -> nat
    decreases clusters.len(),
{
    if clusters.len() == 0 || display_width(clusters[0]) + 1 > width {
        0
    } else {
        1 + fit_count(clusters.skip(1), width - display_width(clusters[0]))
    }
}

/// The text cut to a width: unchanged where it fits, otherwise as many leading clusters as leave
/// a column for the ellipsis that marks the cut.
pub open spec fn fitted(text: Seq<char>, width: nat) -> Seq<char> {
    if display_width(text) <= width {
        text
    } else if width == 0 {
        Seq::empty()
    } else {
        text::concat(graphemes(text).take(fit_count(graphemes(text), width as int) as int)).push('…')
    }
}

/// The clusters that `fit_count` keeps exist, and leave a column free.
pub proof fn lemma_fit_count(clusters: Seq<Seq<char>>, width: int)
    requires
        width > 0,
    ensures
        fit_count(clusters, width) <= clusters.len(),
        total_width(clusters.take(fit_count(clusters, width) as int)) + 1 <= width,
    decreases clusters.len(),
{
    let n = fit_count(clusters, width);
    if n == 0 {
        assert(clusters.take(0) =~= Seq::empty());
    } else {
        let rest = clusters.skip(1);
        lemma_fit_count(rest, width - display_width(clusters[0]));
        lemma_total_width_cons(clusters[0], rest.take(n - 1));
        assert(seq![clusters[0]] + rest.take(n - 1) =~= clusters.take(n as int));
    }
}

proof fn lemma_total_width_cons(head: Seq<char>, rest: Seq<Seq<char>>)
    ensures
        total_width(seq![head] + rest) == display_width(head) + total_width(rest),
    decreases rest.len(),
{
    let all = seq![head] + rest;
    if rest.len() == 0 {
        assert(all.drop_last() =~= Seq::empty());
        assert(total_width(all.drop_last()) == 0);
    } else {
        lemma_total_width_cons(head, rest.drop_last());
        assert(all.drop_last() =~= seq![head] + rest.drop_last());
    }
}

/// Cut text keeps a prefix of the clusters, and those clusters with the ellipsis do not take more
/// than `width` columns.
pub proof fn law_fitted_text_stays_within_its_width(text: Seq<char>, width: nat)
    requires
        display_width(text) > width,
        width > 0,
    ensures
        exists|n: int|
            0 <= n <= graphemes(text).len() && fitted(text, width) == #[trigger] text::concat(
                graphemes(text).take(n),
            ).push('…') && total_width(graphemes(text).take(n)) + 1 <= width,
{
    let n = fit_count(graphemes(text), width as int) as int;
    lemma_fit_count(graphemes(text), width as int);
    assert(fitted(text, width) == text::concat(graphemes(text).take(n)).push('…'));
}

/// The text cut to a width in terminal columns.
pub fn fit_display_width(content: &str, width: usize) -> (r: String)
    ensures
        r@ == fitted(content@, width as nat),
{
    if width_of(content) <= width {
        return content.to_owned();
    }
    if width == 0 {
        return String::new();
    }
    let clusters: Vec<String> = split_graphemes(content);
    let ghost all = graphemes(content@);
    let mut out: String = String::new();
    let mut used: usize = 0;
    let mut i: usize = 0;
    proof {
        assert(all.skip(0) =~= all);
        assert(all.take(0) =~= Seq::empty());
    }
    while i < clusters.len()
        invariant_except_break
            i + fit_count(all.skip(i as int), width - used) == fit_count(all, width as int),
        invariant
            i <= clusters@.len(),
            text::views(clusters@) == all,
            used < width,
            out@ == text::concat(all.take(i as int)),
        ensures
            i == fit_count(all, width as int),
        decreases clusters@.len() - i,
    {
        let columns: usize = width_of(clusters[i].as_str());
        proof {
            assert(all.skip(i as int)[0] == clusters@[i as int]@);
            assert(all.skip(i as int).skip(1) =~= all.skip(i + 1));
        }
        if columns > width - 1 - used {
            break;
        }
        out.append(clusters[i].as_str());
        used = used + columns;
        i = i + 1;
        proof {
            assert(all.take(i as int).drop_last() =~= all.take(i - 1));
        }
    }
    out.push('…');
    out
}

/// A character written a number of times.
pub open spec fn repeated(c: char, count: nat) -> Seq<char> {
    Seq::new(count, |i: int| c)
}

/// A character written a number of times.
pub fn repeat_char(c: char, count: usize) -> (r: String)
    ensures
        r@ == repeated(c, count as nat),
{
    let mut out: String = String::new();
    let mut i: usize = 0;
    while i < count
        invariant
            i <= count,
            out@ == repeated(c, i as nat),
        decreases count - i,
    {
        out.push(c);
        i = i + 1;
        proof {
            assert(out@ =~= repeated(c, i as nat));
        }
    }
    out
}

/// A difference, or zero where it would be negative.
pub open spec fn minus(a: int, b: int) -> nat {
    if a > b {
        (a - b) as nat
    } else {
        0
    }
}

pub open spec fn least(a: int, b: int) -> int {
    if a <= b {
        a
    } else {
        b
    }
}

/// A label column and a value column, two spaces apart. The label column is at most as wide as
/// leaves eight columns, and the value takes what is left of the width.
pub open spec fn column_text(name: Seq<char>, value: Seq<char>, width: nat, label_width: nat) -> Seq<
    char,
> {
    let label = least(label_width as int, minus(width as int, 8) as int) as nat;
    let shown = fitted(name, label);
    shown + repeated(' ', minus(label as int, display_width(shown) as int)) + "  "@ + fitted(
        value,
        minus(width as int, label as int + 2),
    )
}

/// Width is measured in terminal cells, never in bytes or characters.
pub fn column_line(name: &str, value: &str, width: usize, label_width: usize) -> (r: String)
    ensures
        r@ == column_text(name@, value@, width as nat, label_width as nat),
{
    let room: usize = width.saturating_sub(8);
    let label: usize = if label_width < room {
        label_width
    } else {
        room
    };
    let shown: String = fit_display_width(name, label);
    let padding: String = repeat_char(' ', label.saturating_sub(width_of(shown.as_str())));
    let rest: String = fit_display_width(value, width.saturating_sub(label).saturating_sub(2));
    let mut out: String = shown;
    out.append(padding.as_str());
    out.append("  ");
    out.append(rest.as_str());
    out
}

/// Text laid into lines: the full lines, and the line being filled with the columns it takes.
pub ghost struct Wrap {
    pub lines: Seq<Seq<char>>,
    pub line: Seq<char>,
    pub column: nat,
}

/// A cluster that no longer fits starts a new line; a line that is full is closed.
pub open spec fn wrap_step(state: Wrap, cluster: Seq<char>, width: nat) -> Wrap {
    let columns = display_width(cluster);
    let opened = if state.column > 0 && state.column + columns > width {
        Wrap { lines: state.lines.push(state.line), line: Seq::empty(), column: 0 }
    } else {
        state
    };
    let filled = Wrap {
        line: opened.line + cluster,
        column: opened.column + columns,
        ..opened
    };
    if filled.column >= width {
        Wrap { lines: filled.lines.push(filled.line), line: Seq::empty(), column: 0 }
    } else {
        filled
    }
}

/// The clusters laid into lines of a width.
pub open spec fn wrapped(clusters: Seq<Seq<char>>, width: nat) -> Wrap
    decreases clusters.len(),
{
    if clusters.len() == 0 {
        Wrap { lines: Seq::empty(), line: Seq::empty(), column: 0 }
    } else {
        wrap_step(wrapped(clusters.drop_last(), width), clusters.last(), width)
    }
}

/// A width of no columns counts as one.
pub open spec fn at_least_one(width: nat) -> nat {
    if width == 0 {
        1
    } else {
        width
    }
}

/// The lines that a text takes at a width, the line being filled last.
pub open spec fn wrapped_lines(text: Seq<char>, width: nat) -> Seq<Seq<char>> {
    let w = wrapped(graphemes(text), at_least_one(width));
    w.lines.push(w.line)
}

pub proof fn lemma_wrapped_keeps_text(clusters: Seq<Seq<char>>, width: nat)
    requires
        width > 0,
    ensures
        text::concat(wrapped(clusters, width).lines) + wrapped(clusters, width).line == text::concat(clusters),
        wrapped(clusters, width).column < width,
    decreases clusters.len(),
{
    if clusters.len() > 0 {
        let before = wrapped(clusters.drop_last(), width);
        lemma_wrapped_keeps_text(clusters.drop_last(), width);
        let cluster = clusters.last();
        let columns = display_width(cluster);
        let opened = if before.column > 0 && before.column + columns > width {
            Wrap { lines: before.lines.push(before.line), line: Seq::empty(), column: 0 }
        } else {
            before
        };
        assert(before.lines.push(before.line).drop_last() =~= before.lines);
        assert(text::concat(opened.lines) + opened.line =~= text::concat(before.lines) + before.line);
        let line = opened.line + cluster;
        assert(opened.lines.push(line).drop_last() =~= opened.lines);
        assert(text::concat(opened.lines) + line =~= text::concat(opened.lines) + opened.line + cluster);
        assert(text::concat(opened.lines.push(line)) + Seq::<char>::empty() =~= text::concat(opened.lines)
            + line);
    } else {
        assert(text::concat(Seq::<Seq<char>>::empty()) + Seq::<char>::empty() =~= text::concat(clusters));
    }
}

/// Wrapping loses nothing and adds nothing: the lines one after another are the text, whose
/// clusters one after another are the text.
pub proof fn law_wrapping_keeps_the_text(text: Seq<char>, width: nat)
    requires
        text::concat(graphemes(text)) == text,
    ensures
        text::concat(wrapped_lines(text, width)) == text,
{
    let w = wrapped(graphemes(text), at_least_one(width));
    lemma_wrapped_keeps_text(graphemes(text), at_least_one(width));
    assert(wrapped_lines(text, width).drop_last() =~= w.lines);
}

/// The lines that a text takes at a width, measured in terminal columns.
pub fn wrapped_input_lines(value: &str, width: usize) -> (r: Vec<String>)
    ensures
        text::views(r@) == wrapped_lines(value@, width as nat),
        text::concat(text::views(r@)) == value@,
        r@.len() > 0,
{
    let limit: usize = if width == 0 {
        1
    } else {
        width
    };
    let clusters: Vec<String> = split_graphemes(value);
    let ghost all = graphemes(value@);
    let mut lines: Vec<String> = Vec::new();
    let mut line: String = String::new();
    let mut column: usize = 0;
    let mut i: usize = 0;
    proof {
        assert(all.take(0) =~= Seq::empty());
        assert(text::views(lines@) =~= Seq::<Seq<char>>::empty());
    }
    while i < clusters.len()
        invariant
            i <= clusters@.len(),
            text::views(clusters@) == all,
            0 < limit,
            column < limit,
            wrapped(all.take(i as int), limit as nat) == (Wrap {
                lines: text::views(lines@),
                line: line@,
                column: column as nat,
            }),
        decreases clusters@.len() - i,
    {
        let columns: usize = width_of(clusters[i].as_str());
        proof {
            assert(all.take(i + 1).drop_last() =~= all.take(i as int));
            assert(all.take(i + 1).last() == clusters@[i as int]@);
        }
        if column > 0 && columns > limit - column {
            proof {
                text::lemma_views_push(lines@, line);
            }
            lines.push(line);
            line = String::new();
            column = 0;
        }
        line.append(clusters[i].as_str());
        if columns >= limit - column {
            proof {
                text::lemma_views_push(lines@, line);
            }
            lines.push(line);
            line = String::new();
            column = 0;
        } else {
            column = column + columns;
        }
        i = i + 1;
    }
    proof {
        assert(all.take(all.len() as int) =~= all);
        text::lemma_views_push(lines@, line);
        lemma_wrapped_keeps_text(all, limit as nat);
        let full = text::views(lines@).push(line@);
        assert(full.drop_last() =~= text::views(lines@));
    }
    lines.push(line);
    lines
}

/// The row and the column at which a cursor that stands behind `cursor` clusters is shown.
pub open spec fn cursor_place(text: Seq<char>, cursor: nat, width: nat) -> (nat, nat) {
    let clusters = graphemes(text);
    let w = wrapped(
        clusters.take(least(cursor as int, clusters.len() as int)),
        at_least_one(width),
    );
    (w.lines.len(), w.column)
}

/// The cursor behind the whole text stands in the last of its lines.
pub proof fn law_cursor_at_the_end_is_on_the_last_line(text: Seq<char>, cursor: nat, width: nat)
    requires
        cursor >= graphemes(text).len(),
    ensures
        cursor_place(text, cursor, width).0 + 1 == wrapped_lines(text, width).len(),
{
    assert(graphemes(text).take(graphemes(text).len() as int) =~= graphemes(text));
}

/// The row and the column at which a cursor that stands behind `cursor` clusters is shown.
pub fn wrapped_cursor_position(value: &str, cursor: usize, width: usize) -> (r: (usize, usize))
    ensures
        (r.0 as nat, r.1 as nat) == cursor_place(value@, cursor as nat, width as nat),
{
    let limit: usize = if width == 0 {
        1
    } else {
        width
    };
    let clusters: Vec<String> = split_graphemes(value);
    let ghost all = graphemes(value@);
    let end: usize = if cursor < clusters.len() {
        cursor
    } else {
        clusters.len()
    };
    let mut row: usize = 0;
    let mut column: usize = 0;
    let mut i: usize = 0;
    proof {
        assert(all.take(0) =~= Seq::empty());
    }
    while i < end
        invariant
            i <= end <= clusters@.len(),
            text::views(clusters@) == all,
            0 < limit,
            column < limit,
            column > 0 ==> row < i,
            row <= i,
            wrapped(all.take(i as int), limit as nat).lines.len() == row,
            wrapped(all.take(i as int), limit as nat).column == column,
        decreases end - i,
    {
        let columns: usize = width_of(clusters[i].as_str());
        proof {
            assert(all.take(i + 1).drop_last() =~= all.take(i as int));
            assert(all.take(i + 1).last() == clusters@[i as int]@);
        }
        if column > 0 && columns > limit - column {
            row = row + 1;
            column = 0;
        }
        if columns >= limit - column {
            row = row + 1;
            column = 0;
        } else {
            column = column + columns;
        }
        i = i + 1;
    }
    (row, column)
}

proof fn lemma_lines_grow(clusters: Seq<Seq<char>>, n: int, width: nat)
    requires
        0 <= n <= clusters.len(),
    ensures
        wrapped(clusters.take(n), width).lines.len() <= wrapped(clusters, width).lines.len(),
    decreases clusters.len(),
{
    if n < clusters.len() {
        lemma_lines_grow(clusters.drop_last(), n, width);
        assert(clusters.drop_last().take(n) =~= clusters.take(n));
    } else {
        assert(clusters.take(n) =~= clusters);
    }
}

/// The cursor stands in one of the lines of its text, and within the width.
pub proof fn law_the_cursor_stands_in_its_text(text: Seq<char>, cursor: nat, width: nat)
    ensures
        cursor_place(text, cursor, width).0 < wrapped_lines(text, width).len(),
        cursor_place(text, cursor, width).1 < at_least_one(width),
{
    let clusters = graphemes(text);
    let n = least(cursor as int, clusters.len() as int);
    lemma_lines_grow(clusters, n, at_least_one(width));
    lemma_wrapped_keeps_text(clusters.take(n), at_least_one(width));
}

/// A text that has room stays as it is.
pub proof fn law_a_text_with_room_stays(text: Seq<char>, width: nat)
    ensures
        display_width(text) <= width ==> fitted(text, width) == text,
        display_width(text) > 0 ==> fitted(text, 0).len() == 0,
{
}

/// A text is cut no sooner than it must be: one more cluster would leave no room for the sign that
/// something is missing.
pub proof fn law_a_text_is_cut_as_late_as_possible(clusters: Seq<Seq<char>>, width: nat)
    requires
        width > 0,
    ensures
        ({
            let n = fit_count(clusters, width as int) as int;
            &&& 0 <= n <= clusters.len()
            &&& total_width(clusters.take(n)) + 1 <= width
            &&& n < clusters.len() ==> total_width(clusters.take(n + 1)) + 1 > width
        }),
{
    lemma_fit_count(clusters, width as int);
    lemma_fit_count_most(clusters, width as int);
}

proof fn lemma_fit_count_most(clusters: Seq<Seq<char>>, width: int)
    ensures
        fit_count(clusters, width) <= clusters.len(),
        fit_count(clusters, width) < clusters.len() ==> total_width(
            clusters.take(fit_count(clusters, width) as int + 1),
        ) + 1 > width,
    decreases clusters.len(),
{
    if clusters.len() > 0 {
        let first = clusters[0];
        let rest = clusters.skip(1);
        if display_width(first) + 1 > width {
            let none = Seq::<Seq<char>>::empty();
            assert(clusters.take(1) =~= seq![first] + none);
            lemma_total_width_cons(first, none);
        } else {
            lemma_fit_count_most(rest, width - display_width(first));
            let n = fit_count(clusters, width) as int;
            if n < clusters.len() {
                assert(clusters.take(n + 1) =~= seq![first] + rest.take(n));
                lemma_total_width_cons(first, rest.take(n));
            }
        }
    }
}

/// A text that is narrower than the screen stays on one line.
pub proof fn law_short_texts_stay_on_one_line(clusters: Seq<Seq<char>>, width: nat)
    requires
        total_width(clusters) < width,
    ensures
        wrapped(clusters, width).lines.len() == 0,
        wrapped(clusters, width).line == text::concat(clusters),
        wrapped(clusters, width).column == total_width(clusters),
    decreases clusters.len(),
{
    if clusters.len() > 0 {
        law_short_texts_stay_on_one_line(clusters.drop_last(), width);
    }
}

/// A line ends only where it is full or the next cluster has no room on it, and a cluster is never
/// parted.
pub proof fn law_lines_end_where_they_are_full(state: Wrap, cluster: Seq<char>, width: nat)
    requires
        state.column < width,
    ensures
        ({
            let after = wrap_step(state, cluster, width);
            &&& state.column + display_width(cluster) < width ==> after.lines == state.lines
                && after.line == state.line + cluster && after.column == state.column
                + display_width(cluster)
            &&& state.column > 0 && state.column + display_width(cluster) > width
                ==> after.lines.len() > state.lines.len() && after.lines[state.lines.len() as int]
                == state.line
            &&& state.column + display_width(cluster) == width ==> after.lines == state.lines.push(
                state.line + cluster,
            ) && after.line.len() == 0
            &&& after.column < width
        }),
{
}

/// A row of two columns shows the beginning of its name first, and the column behind it begins at
/// the same place whatever the name is.
pub proof fn law_columns_begin_at_the_same_place(
    name: Seq<char>,
    value: Seq<char>,
    width: nat,
    label_width: nat,
)
    requires
        label_width + 8 <= width,
    ensures
        display_width(name) <= label_width && display_width(value) + label_width + 2 <= width
            ==> column_text(name, value, width, label_width) == name + repeated(
            ' ',
            (label_width - display_width(name)) as nat,
        ) + seq![' ', ' '] + value,
{
    reveal_strlit("  ");
    assert("  "@ =~= seq![' ', ' ']);
}

} // verus!
