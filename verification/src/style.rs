//! Styled text: spans with the role of their colour, and the lines made of them.
use vstd::prelude::*;
use vstd::string::*;

use crate::text;
use crate::unicode;

verus! {

/// The role that a colour plays. A theme gives each of the first ten its colour; the others are
/// the terminal's own.
#[derive(Clone, Copy, Debug, PartialEq, Eq, Structural)]
pub enum Tone {
    Background,
    Content,
    Time,
    Info,
    Warning,
    Success,
    Rank,
    Host,
    Name,
    Frame,
    Assistant,
    Black,
    Cyan,
    Green,
    Red,
    Yellow,
    DarkGray,
    LightRed,
    StatusRed,
    StatusOrange,
    StatusGreen,
    StatusBlue,
}

/// A run of text in one style.
#[derive(Debug)]
pub struct Span {
    pub content: String,
    pub tone: Option<Tone>,
    pub background: Option<Tone>,
    pub bold: bool,
}

/// A run of text as contracts speak of it.
pub ghost struct SpanView {
    pub content: Seq<char>,
    pub tone: Option<Tone>,
    pub background: Option<Tone>,
    pub bold: bool,
}

impl View for Span {
    type V = SpanView;

    open spec fn view(&self) -> SpanView {
        SpanView {
            content: self.content@,
            tone: self.tone,
            background: self.background,
            bold: self.bold,
        }
    }
}

pub open spec fn span_views(spans: Seq<Span>) -> Seq<SpanView> {
    Seq::new(spans.len(), |i: int| spans[i]@)
}

pub open spec fn plain(content: Seq<char>) -> SpanView {
    SpanView { content, tone: None, background: None, bold: false }
}

pub open spec fn toned(content: Seq<char>, tone: Tone) -> SpanView {
    SpanView { content, tone: Some(tone), background: None, bold: false }
}

/// Bold text on a ground of its own.
pub open spec fn grounded(content: Seq<char>, tone: Tone, background: Tone) -> SpanView {
    SpanView { content, tone: Some(tone), background: Some(background), bold: true }
}

pub open spec fn bold_toned(content: Seq<char>, tone: Tone) -> SpanView {
    SpanView { content, tone: Some(tone), background: None, bold: true }
}

impl Span {
    pub fn raw(content: String) -> (r: Self)
        ensures
            r@ == plain(content@),
    {
        Span { content, tone: None, background: None, bold: false }
    }

    pub fn styled(content: String, tone: Tone) -> (r: Self)
        ensures
            r@ == toned(content@, tone),
    {
        Span { content, tone: Some(tone), background: None, bold: false }
    }

    pub fn on_ground(content: String, tone: Tone, background: Tone) -> (r: Self)
        ensures
            r@ == grounded(content@, tone, background),
    {
        Span { content, tone: Some(tone), background: Some(background), bold: true }
    }

    pub fn bold(content: String, tone: Tone) -> (r: Self)
        ensures
            r@ == bold_toned(content@, tone),
    {
        Span { content, tone: Some(tone), background: None, bold: true }
    }
}

pub proof fn lemma_span_push(spans: Seq<Span>, span: Span)
    ensures
        span_views(spans.push(span)) == span_views(spans).push(span@),
{
    assert(span_views(spans.push(span)) =~= span_views(spans).push(span@));
}

/// Adds a span to a line.
pub fn push_span(spans: &mut Vec<Span>, span: Span)
    ensures
        span_views(final(spans)@) == span_views(old(spans)@).push(span@),
{
    proof {
        lemma_span_push(spans@, span);
    }
    spans.push(span);
}

/// A line without spans.
pub fn no_spans() -> (r: Vec<Span>)
    ensures
        span_views(r@) == Seq::<SpanView>::empty(),
{
    let spans: Vec<Span> = Vec::new();
    proof {
        assert(span_views(spans@) =~= Seq::<SpanView>::empty());
    }
    spans
}

/// Adds the spans of another line to a line.
pub fn append_spans(spans: &mut Vec<Span>, more: Vec<Span>)
    ensures
        span_views(final(spans)@) == span_views(old(spans)@) + span_views(more@),
{
    let mut rest: Vec<Span> = more;
    let ghost before = spans@;
    let ghost added = rest@;
    spans.append(&mut rest);
    proof {
        assert(span_views(spans@) =~= span_views(before) + span_views(added));
    }
}

/// The columns of a line, each span measured by itself.
pub open spec fn line_width(spans: Seq<SpanView>) -> nat
    decreases spans.len(),
{
    if spans.len() == 0 {
        0
    } else {
        line_width(spans.drop_last()) + unicode::display_width(spans.last().content)
    }
}

/// The columns of a line, or the greatest number where there are more.
pub fn line_display_width(spans: &Vec<Span>) -> (r: usize)
    ensures
        r == unicode::least(line_width(span_views(spans@)) as int, usize::MAX as int),
{
    let ghost all = span_views(spans@);
    let mut total: usize = 0;
    let mut i: usize = 0;
    proof {
        assert(all.take(0) =~= Seq::empty());
    }
    while i < spans.len()
        invariant
            i <= spans@.len(),
            all == span_views(spans@),
            total == unicode::least(line_width(all.take(i as int)) as int, usize::MAX as int),
        decreases spans@.len() - i,
    {
        proof {
            assert(all.take(i + 1).drop_last() =~= all.take(i as int));
            assert(all.take(i + 1).last() == spans@[i as int]@);
        }
        total = total.saturating_add(unicode::width_of(spans[i].content.as_str()));
        i = i + 1;
    }
    proof {
        assert(all.take(i as int) =~= all);
    }
    total
}

/// The text of a line.
pub open spec fn line_text(spans: Seq<SpanView>) -> Seq<char>
    decreases spans.len(),
{
    if spans.len() == 0 {
        Seq::empty()
    } else {
        line_text(spans.drop_last()) + spans.last().content
    }
}

/// The lines of a text, each made of spans.
pub open spec fn line_views(lines: Seq<Vec<Span>>) -> Seq<Seq<SpanView>> {
    Seq::new(lines.len(), |i: int| span_views(lines[i]@))
}

/// Text that is being laid into lines: the lines that are done, the spans of the line being filled,
/// what of the span being laid stands in that line, and the columns that are taken.
pub ghost struct SpanWrap {
    pub lines: Seq<Seq<SpanView>>,
    pub current: Seq<SpanView>,
    pub segment: Seq<char>,
    pub column: nat,
}

/// What of the span stands in the line becomes a span of the line.
pub open spec fn flushed(state: SpanWrap, look: SpanView) -> SpanWrap {
    if state.segment.len() == 0 {
        state
    } else {
        SpanWrap {
            current: state.current.push(SpanView { content: state.segment, ..look }),
            segment: Seq::empty(),
            ..state
        }
    }
}

/// The line being filled is done.
pub open spec fn line_closed(state: SpanWrap, look: SpanView) -> SpanWrap {
    let whole = flushed(state, look);
    SpanWrap { lines: whole.lines.push(whole.current), current: Seq::empty(), column: 0, ..whole }
}

/// A line feed ends the line, and so does a cluster that no longer fits.
pub open spec fn cluster_laid(state: SpanWrap, look: SpanView, cluster: Seq<char>, width: nat) -> SpanWrap {
    if cluster == seq!['\n'] {
        line_closed(state, look)
    } else {
        let columns = unicode::display_width(cluster);
        let open = if state.column > 0 && state.column + columns > width {
            line_closed(state, look)
        } else {
            state
        };
        SpanWrap { segment: open.segment + cluster, column: open.column + columns, ..open }
    }
}

pub open spec fn clusters_laid(
    state: SpanWrap,
    look: SpanView,
    clusters: Seq<Seq<char>>,
    width: nat,
) -> SpanWrap
    decreases clusters.len(),
{
    if clusters.len() == 0 {
        state
    } else {
        cluster_laid(
            clusters_laid(state, look, clusters.drop_last(), width),
            look,
            clusters.last(),
            width,
        )
    }
}

pub open spec fn span_laid(state: SpanWrap, span: SpanView, width: nat) -> SpanWrap {
    flushed(clusters_laid(state, span, unicode::graphemes(span.content), width), span)
}

pub open spec fn spans_laid(spans: Seq<SpanView>, width: nat) -> SpanWrap
    decreases spans.len(),
{
    if spans.len() == 0 {
        SpanWrap {
            lines: Seq::empty(),
            current: Seq::empty(),
            segment: Seq::empty(),
            column: 0,
        }
    } else {
        span_laid(spans_laid(spans.drop_last(), width), spans.last(), width)
    }
}

/// The lines that styled text takes at a width.
pub open spec fn wrapped_spans(spans: Seq<SpanView>, width: nat) -> Seq<Seq<SpanView>> {
    let laid = spans_laid(spans, unicode::at_least_one(width));
    if spans.len() == 0 {
        Seq::empty()
    } else if laid.current.len() > 0 || laid.lines.len() == 0 {
        laid.lines.push(laid.current)
    } else {
        laid.lines
    }
}

struct Laying {
    lines: Vec<Vec<Span>>,
    current: Vec<Span>,
    segment: String,
    column: usize,
}

impl Laying {
    spec fn state(self) -> SpanWrap {
        SpanWrap {
            lines: line_views(self.lines@),
            current: span_views(self.current@),
            segment: self.segment@,
            column: self.column as nat,
        }
    }

    fn flush(&mut self, look: &Span)
        ensures
            final(self).state() == flushed(old(self).state(), look@),
    {
        if !self.segment.as_str().is_empty() {
            let mut content: String = String::new();
            std::mem::swap(&mut self.segment, &mut content);
            push_span(
                &mut self.current,
                Span {
                    content,
                    tone: look.tone,
                    background: look.background,
                    bold: look.bold,
                },
            );
            proof {
                assert(self.segment@ =~= Seq::empty());
            }
        }
    }

    fn close(&mut self, look: &Span)
        ensures
            final(self).state() == line_closed(old(self).state(), look@),
    {
        self.flush(look);
        let mut line: Vec<Span> = Vec::new();
        std::mem::swap(&mut self.current, &mut line);
        let ghost before = self.lines@;
        self.lines.push(line);
        self.column = 0;
        proof {
            assert(line_views(self.lines@) =~= line_views(before).push(span_views(line@)));
            assert(span_views(self.current@) =~= Seq::empty());
        }
    }

    fn lay(&mut self, look: &Span, cluster: &str, width: usize)
        ensures
            final(self).state() == cluster_laid(old(self).state(), look@, cluster@, width as nat),
    {
        proof {
            reveal_strlit("\n");
            assert("\n"@ =~= seq!['\n']);
        }
        if text::same(cluster, "\n") {
            self.close(look);
            return;
        }
        let columns: usize = unicode::width_of(cluster);
        if self.column > 0 && (self.column > width || columns > width - self.column) {
            self.close(look);
        }
        self.segment.append(cluster);
        self.column = self.column + columns;
    }
}

/// Lays styled text into lines of a width, measured in terminal columns.
pub fn wrap_styled_spans(spans: &Vec<Span>, width: u16) -> (r: Vec<Vec<Span>>)
    ensures
        line_views(r@) == wrapped_spans(span_views(spans@), width as nat),
{
    if spans.len() == 0 {
        let none: Vec<Vec<Span>> = Vec::new();
        proof {
            assert(line_views(none@) =~= Seq::empty());
        }
        return none;
    }
    let limit: usize = if width == 0 {
        1
    } else {
        width as usize
    };
    let ghost all = span_views(spans@);
    let mut laying: Laying = Laying {
        lines: Vec::new(),
        current: Vec::new(),
        segment: String::new(),
        column: 0,
    };
    proof {
        assert(all.take(0) =~= Seq::empty());
        assert(line_views(laying.lines@) =~= Seq::empty());
        assert(span_views(laying.current@) =~= Seq::empty());
    }
    let mut i: usize = 0;
    while i < spans.len()
        invariant
            i <= spans@.len(),
            all == span_views(spans@),
            laying.state() == spans_laid(all.take(i as int), limit as nat),
        decreases spans@.len() - i,
    {
        let span: &Span = &spans[i];
        let ghost start = laying.state();
        let clusters: Vec<String> = unicode::split_graphemes(span.content.as_str());
        let ghost parts = unicode::graphemes(span.content@);
        let mut k: usize = 0;
        proof {
            assert(parts.take(0) =~= Seq::empty());
        }
        while k < clusters.len()
            invariant
                k <= clusters@.len(),
                text::views(clusters@) == parts,
                laying.state() == clusters_laid(start, span@, parts.take(k as int), limit as nat),
            decreases clusters@.len() - k,
        {
            proof {
                assert(parts.take(k + 1).drop_last() =~= parts.take(k as int));
                assert(parts.take(k + 1).last() == clusters@[k as int]@);
            }
            laying.lay(span, clusters[k].as_str(), limit);
            k = k + 1;
        }
        laying.flush(span);
        proof {
            assert(parts.take(k as int) =~= parts);
            assert(all.take(i + 1).drop_last() =~= all.take(i as int));
            assert(all.take(i + 1).last() == span@);
        }
        i = i + 1;
    }
    proof {
        assert(all.take(i as int) =~= all);
    }
    let Laying { lines, current, segment: _, column: _ } = laying;
    let mut lines: Vec<Vec<Span>> = lines;
    if current.len() > 0 || lines.len() == 0 {
        let ghost before = lines@;
        lines.push(current);
        proof {
            assert(line_views(lines@) =~= line_views(before).push(span_views(current@)));
        }
    }
    lines
}

/// Adds a line to lines.
pub fn push_spans(lines: &mut Vec<Vec<Span>>, line: Vec<Span>)
    ensures
        line_views(final(lines)@) == line_views(old(lines)@).push(span_views(line@)),
{
    let ghost before = lines@;
    lines.push(line);
    proof {
        assert(line_views(lines@) =~= line_views(before).push(span_views(line@)));
    }
}

/// Adds lines to lines.
pub fn append_lines(lines: &mut Vec<Vec<Span>>, more: Vec<Vec<Span>>)
    ensures
        line_views(final(lines)@) == line_views(old(lines)@) + line_views(more@),
{
    let mut rest: Vec<Vec<Span>> = more;
    let ghost before = lines@;
    let ghost added = rest@;
    lines.append(&mut rest);
    proof {
        assert(line_views(lines@) =~= line_views(before) + line_views(added));
    }
}

/// The text of lines one after another.
pub open spec fn lines_text(lines: Seq<Seq<SpanView>>) -> Seq<char>
    decreases lines.len(),
{
    if lines.len() == 0 {
        Seq::empty()
    } else {
        lines_text(lines.drop_last()) + line_text(lines.last())
    }
}

/// The text that has been laid so far.
pub open spec fn laid_text(state: SpanWrap) -> Seq<char> {
    lines_text(state.lines) + line_text(state.current) + state.segment
}

proof fn lemma_flushed(state: SpanWrap, look: SpanView)
    ensures
        laid_text(flushed(state, look)) == laid_text(state),
        flushed(state, look).segment.len() == 0,
{
    if state.segment.len() > 0 {
        let after = flushed(state, look);
        assert(after.current.drop_last() =~= state.current);
        assert(laid_text(after) =~= laid_text(state));
    }
}

proof fn lemma_closed(state: SpanWrap, look: SpanView)
    ensures
        laid_text(line_closed(state, look)) == laid_text(state),
{
    lemma_flushed(state, look);
    let whole = flushed(state, look);
    let after = line_closed(state, look);
    assert(after.lines.drop_last() =~= whole.lines);
    assert(laid_text(after) =~= laid_text(whole));
}

proof fn lemma_clusters_laid(
    state: SpanWrap,
    look: SpanView,
    clusters: Seq<Seq<char>>,
    width: nat,
)
    requires
        forall|k: int| 0 <= k < clusters.len() ==> #[trigger] clusters[k] != seq!['\n'],
    ensures
        laid_text(clusters_laid(state, look, clusters, width)) == laid_text(state) + text::concat(
            clusters,
        ),
    decreases clusters.len(),
{
    if clusters.len() > 0 {
        lemma_clusters_laid(state, look, clusters.drop_last(), width);
        let before = clusters_laid(state, look, clusters.drop_last(), width);
        let cluster = clusters.last();
        lemma_closed(before, look);
        assert(laid_text(cluster_laid(before, look, cluster, width)) =~= laid_text(before)
            + cluster);
        assert(laid_text(clusters_laid(state, look, clusters, width)) =~= laid_text(state)
            + text::concat(clusters));
    } else {
        assert(laid_text(state) + text::concat(clusters) =~= laid_text(state));
    }
}

/// A span holds no line feed, and its clusters one after another are its text.
pub open spec fn on_one_line(span: SpanView) -> bool {
    let clusters = unicode::graphemes(span.content);
    &&& text::concat(clusters) == span.content
    &&& forall|k: int| 0 <= k < clusters.len() ==> #[trigger] clusters[k] != seq!['\n']
}

proof fn lemma_spans_laid(spans: Seq<SpanView>, width: nat)
    requires
        forall|i: int| 0 <= i < spans.len() ==> on_one_line(#[trigger] spans[i]),
    ensures
        laid_text(spans_laid(spans, width)) == line_text(spans),
        spans_laid(spans, width).segment.len() == 0,
    decreases spans.len(),
{
    if spans.len() > 0 {
        lemma_spans_laid(spans.drop_last(), width);
        let before = spans_laid(spans.drop_last(), width);
        let span = spans.last();
        let clusters = unicode::graphemes(span.content);
        assert(on_one_line(span));
        lemma_clusters_laid(before, span, clusters, width);
        lemma_flushed(clusters_laid(before, span, clusters, width), span);
    } else {
        assert(laid_text(spans_laid(spans, width)) =~= line_text(spans));
    }
}

/// Wrapping styled text without line feeds loses nothing and adds nothing: the lines one after
/// another hold the text of the spans one after another.
pub proof fn law_wrapping_styled_text_keeps_it(spans: Seq<SpanView>, width: nat)
    requires
        forall|i: int| 0 <= i < spans.len() ==> on_one_line(#[trigger] spans[i]),
    ensures
        lines_text(wrapped_spans(spans, width)) == line_text(spans),
{
    let limit = unicode::at_least_one(width);
    let laid = spans_laid(spans, limit);
    lemma_spans_laid(spans, limit);
    if spans.len() > 0 {
        if laid.current.len() > 0 || laid.lines.len() == 0 {
            assert(laid.lines.push(laid.current).drop_last() =~= laid.lines);
        }
        assert(lines_text(wrapped_spans(spans, width)) =~= laid_text(laid));
    }
}

/// Styled text goes on in its line as long as it fits, goes to the next line where it does not, and
/// always does at a line end.
pub proof fn law_styled_lines_end_where_they_are_full(
    state: SpanWrap,
    look: SpanView,
    cluster: Seq<char>,
    width: nat,
)
    ensures
        ({
            let after = cluster_laid(state, look, cluster, width);
            let columns = unicode::display_width(cluster);
            let breaks = cluster == seq!['\n'];
            &&& breaks ==> after.lines.len() == state.lines.len() + 1 && after.column == 0
                && after.segment.len() == 0
            &&& !breaks && state.column + columns <= width ==> after.lines == state.lines
                && after.segment == state.segment + cluster && after.column == state.column
                + columns
            &&& !breaks && state.column > 0 && state.column + columns > width ==> after.lines.len()
                == state.lines.len() + 1 && after.segment == cluster && after.column == columns
        }),
{
    assert(Seq::<char>::empty() + cluster =~= cluster);
}

} // verus!
