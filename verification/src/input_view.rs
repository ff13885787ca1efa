//! The box in which the line is typed.
use vstd::prelude::*;
use vstd::string::*;

use crate::app::TerminalApp;
use crate::meter;
use crate::meter::{MeterLine, MicrophoneLevel};
use crate::notice::DeliveryStatus;
use crate::status_view;
use crate::style;
use crate::style::{Span, SpanView, Tone};
use crate::text;
use crate::unicode;

verus! {

/// The most lines of typed text that are shown at once.
pub const MAX_INPUT_CONTENT_LINES: usize = 4;

/// The columns that typed text can take in a box of a width.
pub open spec fn content_columns(width: u16) -> nat {
    unicode::at_least_one(unicode::minus(width as int, 5))
}

pub fn input_content_width(width: u16) -> (r: usize)
    ensures
        r == content_columns(width),
{
    if width <= 6 {
        1
    } else {
        (width - 5) as usize
    }
}

/// The typed text as it is shown: a secret shows only how long it is.
pub open spec fn shown_input(app: TerminalApp) -> Seq<char> {
    let line = app.desk.input.text();
    if app.desk.secret_mode {
        unicode::repeated('•', unicode::graphemes(line).len())
    } else {
        line
    }
}

/// A secret is never shown: what is shown of it depends on nothing but its length.
pub proof fn law_secrets_are_not_shown(app: TerminalApp, other: TerminalApp)
    requires
        app.desk.secret_mode,
        other.desk.secret_mode,
        unicode::graphemes(app.desk.input.text()).len() == unicode::graphemes(
            other.desk.input.text(),
        ).len(),
    ensures
        shown_input(app) == shown_input(other),
{
}

/// A label on dark ground.
fn label(content: &str, tone: Tone) -> (r: Span)
    ensures
        r@ == style::grounded(" "@ + content@ + " "@, tone, Tone::Black),
{
    Span::on_ground(text::add3(" ", content, " "), tone, Tone::Black)
}

/// The sign of a delivery: at rest, under way, or how it ended.
pub open spec fn delivery_sign(status: DeliveryStatus, tick: u64) -> (Seq<char>, Tone) {
    match status {
        DeliveryStatus::Idle => ("↑"@, Tone::Success),
        DeliveryStatus::Sending
        | DeliveryStatus::AwaitingEcho
        | DeliveryStatus::Verifying => (spinner(tick % 10), Tone::Info),
        DeliveryStatus::Delivered => ("✓"@, Tone::Success),
        DeliveryStatus::Uncertain => ("?"@, Tone::Warning),
        DeliveryStatus::Failed => ("×"@, Tone::Warning),
    }
}

pub open spec fn spinner(turn: u64) -> Seq<char> {
    if turn == 0 {
        "⠋"@
    } else if turn == 1 {
        "⠙"@
    } else if turn == 2 {
        "⠹"@
    } else if turn == 3 {
        "⠸"@
    } else if turn == 4 {
        "⠼"@
    } else if turn == 5 {
        "⠴"@
    } else if turn == 6 {
        "⠦"@
    } else if turn == 7 {
        "⠧"@
    } else if turn == 8 {
        "⠇"@
    } else {
        "⠏"@
    }
}

fn spinner_frame(turn: u64) -> (r: &'static str)
    ensures
        r@ == spinner(turn),
{
    if turn == 0 {
        "⠋"
    } else if turn == 1 {
        "⠙"
    } else if turn == 2 {
        "⠹"
    } else if turn == 3 {
        "⠸"
    } else if turn == 4 {
        "⠼"
    } else if turn == 5 {
        "⠴"
    } else if turn == 6 {
        "⠦"
    } else if turn == 7 {
        "⠧"
    } else if turn == 8 {
        "⠇"
    } else {
        "⠏"
    }
}

/// Only a message whose echo came back has the sign of one that was delivered.
pub proof fn law_only_delivered_messages_are_ticked(status: DeliveryStatus, tick: u64)
    requires
        delivery_sign(status, tick).0 == "✓"@,
    ensures
        status == DeliveryStatus::Delivered,
{
    reveal_strlit("✓");
    reveal_strlit("↑");
    reveal_strlit("?");
    reveal_strlit("×");
    reveal_strlit("⠋");
    reveal_strlit("⠙");
    reveal_strlit("⠹");
    reveal_strlit("⠸");
    reveal_strlit("⠼");
    reveal_strlit("⠴");
    reveal_strlit("⠦");
    reveal_strlit("⠧");
    reveal_strlit("⠇");
    reveal_strlit("⠏");
    assert("✓"@[0] == '✓');
    if status != DeliveryStatus::Delivered {
        let sign = delivery_sign(status, tick).0;
        assert(sign[0] != '✓');
    }
}

/// A number that may not be known.
pub open spec fn count_text(count: Option<u64>) -> Seq<char> {
    match count {
        Some(count) => text::decimal_digits(count as nat),
        None => "--"@,
    }
}

fn count_label(count: Option<u64>) -> (r: String)
    ensures
        r@ == count_text(count),
{
    match count {
        Some(count) => text::decimal(count),
        None => "--".to_owned(),
    }
}

/// The columns that a counter takes.
pub open spec fn counter_width(sign: Seq<char>, count: Option<u64>) -> nat {
    unicode::display_width(sign) + unicode::display_width(count_text(count)) + 3
}

pub open spec fn counter_view(sign: Seq<char>, count: Option<u64>, tone: Tone) -> SpanView {
    style::grounded(" "@ + (sign + " "@ + count_text(count)) + " "@, tone, Tone::Black)
}

/// The counters that fit: who has watched, the likes, and who is here. One that does not fit hides
/// those behind it.
pub open spec fn counters(app: TerminalApp, width: u16) -> Seq<SpanView> {
    let s = app.stream.status;
    let watched = counter_width("◉"@, s.watched);
    let likes = counter_width("♥"@, s.likes);
    let online = counter_width("●"@, s.online_viewers);
    if watched > width {
        Seq::empty()
    } else {
        let one = Seq::empty().push(counter_view("◉"@, s.watched, Tone::Rank));
        if watched + likes > width {
            one
        } else {
            let two = one.push(counter_view("♥"@, s.likes, Tone::Warning));
            if watched + likes + online > width {
                two
            } else {
                two.push(counter_view("●"@, s.online_viewers, Tone::Success))
            }
        }
    }
}

fn push_counter(
    spans: &mut Vec<Span>,
    room: usize,
    sign: &str,
    count: Option<u64>,
    tone: Tone,
) -> (r: Option<usize>)
    ensures
        match r {
            Some(left) => {
                &&& counter_width(sign@, count) <= room
                &&& left == room - counter_width(sign@, count)
                &&& style::span_views(final(spans)@) == style::span_views(old(spans)@).push(
                    counter_view(sign@, count, tone),
                )
            },
            None => {
                &&& counter_width(sign@, count) > room
                &&& *final(spans) == *old(spans)
            },
        },
{
    let value: String = count_label(count);
    let first: usize = unicode::width_of(sign);
    let second: usize = unicode::width_of(value.as_str());
    if room < 3 || first > room - 3 || second > room - 3 - first {
        return None;
    }
    style::push_span(spans, label(text::add3(sign, " ", value.as_str()).as_str(), tone));
    Some(room - 3 - first - second)
}

/// What stands in the upper edge of the box, at the left and at the right.
pub open spec fn titles(app: TerminalApp, tick: u64, width: u16) -> (Seq<SpanView>, Seq<SpanView>) {
    if app.review.edit is Some {
        (
            Seq::empty().push(
                style::grounded(
                    " "@ + "编辑待确认回复 · Enter保存 · Esc取消 · 不发送"@ + " "@,
                    Tone::Warning,
                    Tone::Black,
                ),
            ),
            Seq::empty(),
        )
    } else if app.desk.search is Some {
        (
            Seq::empty().push(style::plain(" 命令搜索 · 输入中文 · Esc恢复草稿 "@)),
            Seq::empty(),
        )
    } else if app.desk.secret_mode {
        (
            Seq::empty().push(
                style::grounded(
                    " "@ + "OBS 密码 · Enter保存 · Esc取消"@ + " "@,
                    Tone::Warning,
                    Tone::Black,
                ),
            ),
            Seq::empty(),
        )
    } else if app.desk.stop_flow is Some {
        (
            Seq::empty().push(
                style::grounded(
                    " "@ + "停止推流 · 请在弹窗中操作"@ + " "@,
                    Tone::Warning,
                    Tone::Black,
                ),
            ),
            Seq::empty(),
        )
    } else {
        let (sign, tone) = delivery_sign(app.stream.board@.delivery_status, tick);
        let shown = " "@ + sign + " "@;
        (
            Seq::empty().push(style::bold_toned(shown, tone)),
            counters(app, status_view::left_of(width, (unicode::display_width(shown) + 6) as int)),
        )
    }
}

/// The meter of the microphone that is shown, if any.
pub open spec fn shown_meter(
    app: TerminalApp,
    level: Option<MicrophoneLevel>,
    room: nat,
) -> Option<(Seq<SpanView>, nat)> {
    if app.desk.secret_mode || app.desk.stop_flow is Some || !status_view::obs_answers(app) {
        None
    } else {
        meter::meter(app.stream.status.microphone, level, room)
    }
}

/// A piece of the edge.
pub open spec fn edge(count: int) -> SpanView {
    style::toned(unicode::repeated('─', count as nat), Tone::Info)
}

/// The upper edge of the box.
pub open spec fn top_spans(
    app: TerminalApp,
    level: Option<MicrophoneLevel>,
    tick: u64,
    width: u16,
) -> Seq<SpanView> {
    let (left, right) = titles(app, tick, width);
    let room = unicode::minus(
        width - 6 - style::line_width(left) - style::line_width(right),
        0,
    );
    let shown = shown_meter(app, level, room);
    let taken = match shown {
        Some((_, width)) => width,
        None => 0,
    };
    let rest = unicode::minus(room as int, taken as int) as int;
    let before = Seq::empty().push(style::toned("╭──"@, Tone::Info)) + left;
    let opened = before.push(edge(rest / 2));
    let metered = match shown {
        Some((spans, _)) => opened + spans,
        None => opened,
    };
    (metered.push(edge(rest - rest / 2)) + right).push(style::toned("──╮"@, Tone::Info))
}

/// One line of typed text between the edges of the box.
pub open spec fn content_spans(content: Seq<char>, width: u16, last: bool) -> Seq<SpanView> {
    let fill = unicode::minus(
        content_columns(width) as int,
        unicode::display_width(content) as int,
    ) as int;
    Seq::empty().push(
        style::toned(
            if last {
                "╰─ "@
            } else {
                "│  "@
            },
            Tone::Info,
        ),
    ).push(style::toned(content, Tone::Content)).push(status_view::spaces(fill)).push(
        style::toned(
            if last {
                "─╯"@
            } else {
                " │"@
            },
            Tone::Info,
        ),
    )
}

/// The line of typed text in a box that is too narrow to wrap it.
pub open spec fn prompt_spans(content: Seq<char>, width: u16) -> Seq<SpanView> {
    let fill = unicode::minus(width - 5 - unicode::display_width(content), 0) as int;
    Seq::empty().push(style::toned("╰─ "@, Tone::Info)).push(
        style::toned(content, Tone::Content),
    ).push(status_view::spaces(fill)).push(style::toned("─╯"@, Tone::Info))
}

/// The lines of typed text that are shown at once.
pub open spec fn content_rows(height: u16) -> nat {
    unicode::at_least_one(unicode::minus(height as int, 1))
}

/// The first line of typed text that is shown, so that the cursor is among them.
pub open spec fn first_row(row: nat, lines: nat, rows: nat) -> nat {
    unicode::least(
        unicode::minus(row as int, rows - 1) as int,
        unicode::minus(lines as int, rows as int) as int,
    ) as nat
}

/// The lines of the box.
pub open spec fn box_lines(
    app: TerminalApp,
    level: Option<MicrophoneLevel>,
    tick: u64,
    width: u16,
    height: u16,
) -> Seq<Seq<SpanView>> {
    let top = Seq::empty().push(top_spans(app, level, tick, width));
    let shown = shown_input(app);
    if width < 6 {
        top.push(prompt_spans(shown, width))
    } else {
        let lines = unicode::wrapped_lines(shown, content_columns(width));
        let rows = content_rows(height);
        let row = unicode::cursor_place(
            shown,
            app.desk.input.cluster_position(),
            content_columns(width),
        ).0;
        let first = first_row(row, lines.len(), rows);
        top + Seq::new(
            rows,
            |i: int| content_spans(line_at(lines, first + i), width, i + 1 == rows),
        )
    }
}

/// A line, or nothing where there is none.
pub open spec fn line_at(lines: Seq<Seq<char>>, at: int) -> Seq<char> {
    if at < lines.len() {
        lines[at]
    } else {
        Seq::empty()
    }
}

/// Where the cursor is shown, counted from the corner of the box. It is not shown while something
/// else takes the keys.
pub open spec fn box_cursor(app: TerminalApp, width: u16, height: u16) -> Option<(int, int)> {
    let shown = shown_input(app);
    let cursor = app.desk.input.cluster_position();
    if app.desk.stop_flow is Some || app.panel is Some {
        None
    } else if width < 6 {
        let before = text::concat(
            unicode::graphemes(shown).take(
                unicode::least(cursor as int, unicode::graphemes(shown).len() as int),
            ),
        );
        Some(
            (
                3 + unicode::least(
                    unicode::display_width(before) as int,
                    unicode::minus(width as int, 4) as int,
                ),
                1,
            ),
        )
    } else {
        let lines = unicode::wrapped_lines(shown, content_columns(width));
        let (row, column) = unicode::cursor_place(shown, cursor, content_columns(width));
        Some(((3 + column) as int, 1 + row - first_row(row, lines.len(), content_rows(height))))
    }
}

/// The cursor is shown inside the box, between its edges.
pub proof fn law_the_cursor_stays_in_the_box(app: TerminalApp, width: u16, height: u16)
    requires
        width >= 6,
        height >= 2,
    ensures
        box_cursor(app, width, height) matches Some((x, y)) ==> 3 <= x < width - 2 && 1 <= y
            < height,
{
    let shown = shown_input(app);
    unicode::law_the_cursor_stands_in_its_text(
        shown,
        app.desk.input.cluster_position(),
        content_columns(width),
    );
}

/// The box and its cursor.
#[derive(Debug)]
pub struct InputBox {
    pub lines: Vec<Vec<Span>>,
    pub cursor: Option<(u16, u16)>,
}

fn content_line(content: &str, width: u16, last: bool) -> (r: Vec<Span>)
    ensures
        style::span_views(r@) == content_spans(content@, width, last),
{
    let fill: usize = input_content_width(width).saturating_sub(unicode::width_of(content));
    let mut spans: Vec<Span> = style::no_spans();
    style::push_span(
        &mut spans,
        Span::styled(
            if last {
                "╰─ ".to_owned()
            } else {
                "│  ".to_owned()
            },
            Tone::Info,
        ),
    );
    style::push_span(&mut spans, Span::styled(content.to_owned(), Tone::Content));
    style::push_span(&mut spans, Span::raw(unicode::repeat_char(' ', fill)));
    style::push_span(
        &mut spans,
        Span::styled(
            if last {
                "─╯".to_owned()
            } else {
                " │".to_owned()
            },
            Tone::Info,
        ),
    );
    spans
}

fn input_prompt_line(content: &str, width: u16) -> (r: Vec<Span>)
    ensures
        style::span_views(r@) == prompt_spans(content@, width),
{
    let fill: usize = (width as usize).saturating_sub(5).saturating_sub(
        unicode::width_of(content),
    );
    let mut spans: Vec<Span> = style::no_spans();
    style::push_span(&mut spans, Span::styled("╰─ ".to_owned(), Tone::Info));
    style::push_span(&mut spans, Span::styled(content.to_owned(), Tone::Content));
    style::push_span(&mut spans, Span::raw(unicode::repeat_char(' ', fill)));
    style::push_span(&mut spans, Span::styled("─╯".to_owned(), Tone::Info));
    spans
}

impl TerminalApp {
    /// The typed text as it is shown.
    pub fn visible_input(&self) -> (r: String)
        ensures
            r@ == shown_input(*self),
    {
        if self.desk.secret_mode {
            unicode::repeat_char('•', unicode::split_graphemes(self.desk.input.as_str()).len())
        } else {
            self.desk.input.as_str().to_owned()
        }
    }

    /// The lines that the box takes at a width.
    pub fn input_area_height(&self, width: u16) -> (r: u16)
        ensures
            r == 1 + unicode::least(
                unicode::wrapped_lines(shown_input(*self), content_columns(width)).len() as int,
                MAX_INPUT_CONTENT_LINES as int,
            ),
    {
        let lines: usize = unicode::wrapped_input_lines(
            self.visible_input().as_str(),
            input_content_width(width),
        ).len();
        if lines < MAX_INPUT_CONTENT_LINES {
            lines as u16 + 1
        } else {
            MAX_INPUT_CONTENT_LINES as u16 + 1
        }
    }

    fn delivery_status_title(&self, tick: u64) -> (r: Span)
        ensures
            r@ == ({
                let (sign, tone) = delivery_sign(self.stream.board@.delivery_status, tick);
                style::bold_toned(" "@ + sign + " "@, tone)
            }),
    {
        let (sign, tone): (&'static str, Tone) = match self.stream.board.delivery_status {
            DeliveryStatus::Idle => ("↑", Tone::Success),
            DeliveryStatus::Sending
            | DeliveryStatus::AwaitingEcho
            | DeliveryStatus::Verifying => (spinner_frame(tick % 10), Tone::Info),
            DeliveryStatus::Delivered => ("✓", Tone::Success),
            DeliveryStatus::Uncertain => ("?", Tone::Warning),
            DeliveryStatus::Failed => ("×", Tone::Warning),
        };
        Span::bold(text::add3(" ", sign, " "), tone)
    }

    /// The counters that fit into a width.
    pub fn input_business_title(&self, width: u16) -> (r: Vec<Span>)
        ensures
            style::span_views(r@) == counters(*self, width),
    {
        let mut spans: Vec<Span> = style::no_spans();
        if let Some(room) = push_counter(
            &mut spans,
            width as usize,
            "◉",
            self.stream.status.watched,
            Tone::Rank,
        ) {
            if let Some(room) = push_counter(
                &mut spans,
                room,
                "♥",
                self.stream.status.likes,
                Tone::Warning,
            ) {
                push_counter(
                    &mut spans,
                    room,
                    "●",
                    self.stream.status.online_viewers,
                    Tone::Success,
                );
            }
        }
        spans
    }

    fn input_titles(&self, tick: u64, width: u16) -> (r: (Vec<Span>, Vec<Span>))
        ensures
            (style::span_views(r.0@), style::span_views(r.1@)) == titles(*self, tick, width),
    {
        let mut left: Vec<Span> = style::no_spans();
        if self.review.edit.is_some() {
            style::push_span(
                &mut left,
                label("编辑待确认回复 · Enter保存 · Esc取消 · 不发送", Tone::Warning),
            );
        } else if self.desk.search.is_some() {
            style::push_span(
                &mut left,
                Span::raw(" 命令搜索 · 输入中文 · Esc恢复草稿 ".to_owned()),
            );
        } else if self.desk.secret_mode {
            style::push_span(
                &mut left,
                label("OBS 密码 · Enter保存 · Esc取消", Tone::Warning),
            );
        } else if self.desk.stop_flow.is_some() {
            style::push_span(&mut left, label("停止推流 · 请在弹窗中操作", Tone::Warning));
        } else {
            let sign: Span = self.delivery_status_title(tick);
            let taken: usize = unicode::width_of(sign.content.as_str()).saturating_add(6);
            let room: u16 = if taken >= width as usize {
                0
            } else {
                width - taken as u16
            };
            style::push_span(&mut left, sign);
            return (left, self.input_business_title(room));
        }
        (left, style::no_spans())
    }

    fn input_top_line(&self, level: Option<MicrophoneLevel>, tick: u64, width: u16) -> (r: Vec<
        Span,
    >)
        ensures
            style::span_views(r@) == top_spans(*self, level, tick, width),
    {
        let (left, right): (Vec<Span>, Vec<Span>) = self.input_titles(tick, width);
        let room: usize = (width as usize).saturating_sub(6).saturating_sub(
            style::line_display_width(&left),
        ).saturating_sub(style::line_display_width(&right));
        let meter: Option<MeterLine> = if self.desk.secret_mode || self.desk.stop_flow.is_some()
            || self.stream.status.obs_error.is_some() || self.stream.status.obs.is_none() {
            None
        } else {
            meter::microphone_meter(self.stream.status.microphone, level, room)
        };
        let taken: usize = match &meter {
            Some(meter) => meter.width,
            None => 0,
        };
        let rest: usize = room.saturating_sub(taken);
        let mut spans: Vec<Span> = style::no_spans();
        style::push_span(&mut spans, Span::styled("╭──".to_owned(), Tone::Info));
        style::append_spans(&mut spans, left);
        style::push_span(
            &mut spans,
            Span::styled(unicode::repeat_char('─', rest / 2), Tone::Info),
        );
        if let Some(meter) = meter {
            style::append_spans(&mut spans, meter.spans);
        }
        style::push_span(
            &mut spans,
            Span::styled(unicode::repeat_char('─', rest - rest / 2), Tone::Info),
        );
        style::append_spans(&mut spans, right);
        style::push_span(&mut spans, Span::styled("──╮".to_owned(), Tone::Info));
        spans
    }

    fn columns_before_cursor(&self, shown: &str) -> (r: usize)
        ensures
            r == unicode::display_width(
                text::concat(
                    unicode::graphemes(shown@).take(
                        unicode::least(
                            self.desk.input.cluster_position() as int,
                            unicode::graphemes(shown@).len() as int,
                        ),
                    ),
                ),
            ),
    {
        let clusters: Vec<String> = unicode::split_graphemes(shown);
        let cursor: usize = self.desk.input.cursor();
        let ghost all = unicode::graphemes(shown@);
        let mut before: String = String::new();
        let mut i: usize = 0;
        proof {
            assert(all.take(0) =~= Seq::empty());
            assert(before@ =~= text::concat(all.take(0)));
        }
        while i < cursor && i < clusters.len()
            invariant
                i <= cursor,
                i <= clusters@.len(),
                text::views(clusters@) == all,
                before@ == text::concat(all.take(i as int)),
            decreases clusters@.len() - i,
        {
            proof {
                assert(all.take(i + 1).drop_last() =~= all.take(i as int));
                assert(all.take(i + 1).last() == clusters@[i as int]@);
            }
            before.append(clusters[i].as_str());
            i = i + 1;
        }
        unicode::width_of(before.as_str())
    }

    /// The box in which the line is typed, with the meter of the microphone in its upper edge.
    pub fn draw_input(
        &self,
        level: Option<MicrophoneLevel>,
        tick: u64,
        width: u16,
        height: u16,
    ) -> (r: InputBox)
        ensures
            style::line_views(r.lines@) == box_lines(*self, level, tick, width, height),
            match r.cursor {
                Some((x, y)) => Some((x as int, y as int)),
                None => None,
            } == box_cursor(*self, width, height),
    {
        let mut lines: Vec<Vec<Span>> = Vec::new();
        proof {
            assert(style::line_views(lines@) =~= Seq::empty());
        }
        style::push_spans(&mut lines, self.input_top_line(level, tick, width));
        let hidden: bool = self.desk.stop_flow.is_some() || self.panel.is_some();
        let shown: String = self.visible_input();
        if width < 6 {
            style::push_spans(&mut lines, input_prompt_line(shown.as_str(), width));
            if hidden {
                return InputBox { lines, cursor: None };
            }
            let columns: usize = self.columns_before_cursor(shown.as_str());
            let most: u16 = width.saturating_sub(4);
            let x: u16 = if columns < most as usize {
                3 + columns as u16
            } else {
                3 + most
            };
            return InputBox { lines, cursor: Some((x, 1)) };
        }
        let columns: usize = input_content_width(width);
        let wrapped: Vec<String> = unicode::wrapped_input_lines(shown.as_str(), columns);
        let cursor: usize = self.desk.input.cursor();
        let (row, column): (usize, usize) = unicode::wrapped_cursor_position(
            shown.as_str(),
            cursor,
            columns,
        );
        proof {
            unicode::law_the_cursor_stands_in_its_text(
                shown@,
                cursor as nat,
                columns as nat,
            );
        }
        let rows: usize = if height <= 2 {
            1
        } else {
            (height - 1) as usize
        };
        let low: usize = row.saturating_sub(rows - 1);
        let high: usize = wrapped.len().saturating_sub(rows);
        let first: usize = if low <= high {
            low
        } else {
            high
        };
        let ghost all = unicode::wrapped_lines(shown@, columns as nat);
        let ghost top = style::line_views(lines@);
        let ghost body = Seq::new(
            rows as nat,
            |i: int| content_spans(line_at(all, first + i), width, i + 1 == rows),
        );
        let mut i: usize = 0;
        proof {
            assert(top + body.take(0) =~= top);
        }
        while i < rows
            invariant
                i <= rows <= 65535,
                first <= wrapped@.len(),
                text::views(wrapped@) == all,
                body == Seq::new(
                    rows as nat,
                    |i: int| content_spans(line_at(all, first + i), width, i + 1 == rows),
                ),
                style::line_views(lines@) == top + body.take(i as int),
            decreases rows - i,
        {
            let content: &str = if i < wrapped.len() - first {
                wrapped[first + i].as_str()
            } else {
                ""
            };
            proof {
                reveal_strlit("");
                assert(content@ =~= line_at(all, first + i));
                assert(top + body.take(i + 1) =~= (top + body.take(i as int)).push(
                    body[i as int],
                ));
            }
            style::push_spans(&mut lines, content_line(content, width, i + 1 == rows));
            i = i + 1;
        }
        proof {
            assert(body.take(i as int) =~= body);
        }
        if hidden {
            return InputBox { lines, cursor: None };
        }
        InputBox { lines, cursor: Some((3 + column as u16, 1 + (row - first) as u16)) }
    }
}

/// What is typed shows as it is typed; of a secret only dots show.
pub proof fn law_the_typed_line_is_shown(app: TerminalApp)
    ensures
        !app.desk.secret_mode ==> shown_input(app) == app.desk.input.text(),
        app.desk.secret_mode ==> forall|i: int|
            0 <= i < shown_input(app).len() ==> shown_input(app)[i] == '•',
{
}

/// Each outcome of sending has its own sign.
pub proof fn law_outcomes_have_their_signs(status: DeliveryStatus, tick: u64)
    ensures
        status == DeliveryStatus::Idle ==> delivery_sign(status, tick).0 == "↑"@,
        status == DeliveryStatus::Delivered ==> delivery_sign(status, tick) == (
            "✓"@,
            Tone::Success,
        ),
        status == DeliveryStatus::Uncertain ==> delivery_sign(status, tick) == ("?"@, Tone::Warning),
        status == DeliveryStatus::Failed ==> delivery_sign(status, tick) == ("×"@, Tone::Warning),
        status == DeliveryStatus::Sending || status == DeliveryStatus::AwaitingEcho || status
            == DeliveryStatus::Verifying ==> delivery_sign(status, tick).1 == Tone::Info,
{
}

/// Of the counts, those who watched come first, then the likes, then those who are there now; each
/// shows its own number, and one that is not known shows none.
pub proof fn law_counts_show_their_own_numbers(app: TerminalApp, width: u16)
    ensures
        ({
            let shown = counters(app, width);
            let status = app.stream.status;
            &&& shown.len() <= 3
            &&& shown.len() > 0 ==> text::occurs_in(count_text(status.watched), shown[0].content)
            &&& shown.len() > 1 ==> text::occurs_in(count_text(status.likes), shown[1].content)
            &&& shown.len() > 2 ==> text::occurs_in(
                count_text(status.online_viewers),
                shown[2].content,
            )
            &&& status.watched is Some ==> count_text(status.watched) == text::decimal_digits(
                status.watched->0 as nat,
            )
        }),
{
    let status = app.stream.status;
    lemma_counter_shows("◉"@, status.watched, Tone::Rank);
    lemma_counter_shows("♥"@, status.likes, Tone::Warning);
    lemma_counter_shows("●"@, status.online_viewers, Tone::Success);
}

proof fn lemma_counter_shows(sign: Seq<char>, count: Option<u64>, tone: Tone)
    ensures
        text::occurs_in(count_text(count), counter_view(sign, count, tone).content),
{
    let number = count_text(count);
    let content = counter_view(sign, count, tone).content;
    let head = " "@ + sign + " "@;
    assert(content =~= head + number + " "@);
    assert(content.subrange(head.len() as int, (head.len() + number.len()) as int) =~= number);
    assert(text::matches_at(content, number, head.len() as int));
}

/// The rows of the box are those around the cursor, and as many as there is room for.
pub proof fn law_the_cursors_row_is_in_the_box(row: nat, lines: nat, rows: nat)
    requires
        row < lines,
        rows > 0,
    ensures
        first_row(row, lines, rows) <= row < first_row(row, lines, rows) + rows,
        lines <= rows ==> first_row(row, lines, rows) == 0,
        lines > rows ==> first_row(row, lines, rows) + rows <= lines,
{
}

} // verus!
