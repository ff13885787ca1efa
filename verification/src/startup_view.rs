//! What the screen shows while the checks of the beginning run.
use vstd::prelude::*;
use vstd::string::*;

use crate::geometry;
use crate::geometry::Rect;
use crate::startup::{Startup, StartupCheck, StartupGate};
use crate::style;
use crate::style::{Span, SpanView, Tone};
use crate::text;
use crate::unicode;

verus! {

/// The mark, the text and the colour of a check.
pub open spec fn check_parts(status: StartupCheck) -> (Seq<char>, Seq<char>, Tone) {
    match status {
        StartupCheck::Waiting => ("· "@, "等待"@, Tone::Frame),
        StartupCheck::Running => ("› "@, "检查中"@, Tone::Info),
        StartupCheck::Passed(detail) => ("✓ "@, detail@, Tone::Success),
        StartupCheck::Skipped(detail) => ("– "@, detail@, Tone::Time),
        StartupCheck::Warning(detail) => ("! "@, detail@, Tone::Warning),
    }
}

/// One check on a line.
pub open spec fn check_spans(label: Seq<char>, status: StartupCheck) -> Seq<SpanView> {
    let (mark, detail, tone) = check_parts(status);
    Seq::empty().push(style::toned(mark, tone)).push(
        style::toned(label + "  "@, Tone::Content),
    ).push(style::toned(detail, tone))
}

pub fn startup_check_line(label: &str, status: StartupCheck) -> (r: Vec<Span>)
    ensures
        style::span_views(r@) == check_spans(label@, status),
{
    let (mark, detail, tone): (&'static str, &'static str, Tone) = match status {
        StartupCheck::Waiting => ("· ", "等待", Tone::Frame),
        StartupCheck::Running => ("› ", "检查中", Tone::Info),
        StartupCheck::Passed(detail) => ("✓ ", detail, Tone::Success),
        StartupCheck::Skipped(detail) => ("– ", detail, Tone::Time),
        StartupCheck::Warning(detail) => ("! ", detail, Tone::Warning),
    };
    let mut spans: Vec<Span> = style::no_spans();
    style::push_span(&mut spans, Span::styled(mark.to_owned(), tone));
    style::push_span(&mut spans, Span::styled(text::add2(label, "  "), Tone::Content));
    style::push_span(&mut spans, Span::styled(detail.to_owned(), tone));
    spans
}

/// The cells of the bar that are filled: all once the data is there, and before that as many as
/// the time says, again and again.
pub open spec fn progress_cells(elapsed: u64, ready: bool, width: nat) -> nat {
    if ready {
        width
    } else if width == 0 {
        0
    } else {
        (elapsed / 90) as nat % width
    }
}

pub open spec fn progress_spans(elapsed: u64, ready: bool, width: nat) -> Seq<SpanView> {
    let filled = progress_cells(elapsed, ready, width);
    Seq::empty().push(style::toned(unicode::repeated('━', filled), Tone::Info)).push(
        style::toned(
            unicode::repeated('─', unicode::minus(width as int, filled as int)),
            Tone::Frame,
        ),
    )
}

/// The bar is full exactly when the data is there.
pub proof fn law_only_a_full_bar_is_done(elapsed: u64, ready: bool, width: nat)
    requires
        width > 0,
    ensures
        (progress_cells(elapsed, ready, width) == width) == ready,
{
}

pub fn startup_progress_line(elapsed: u64, ready: bool, width: usize) -> (r: Vec<Span>)
    ensures
        style::span_views(r@) == progress_spans(elapsed, ready, width as nat),
{
    let filled: usize = if ready {
        width
    } else if width == 0 {
        0
    } else {
        ((elapsed / 90) % (width as u64)) as usize
    };
    let mut spans: Vec<Span> = style::no_spans();
    style::push_span(&mut spans, Span::styled(unicode::repeat_char('━', filled), Tone::Info));
    style::push_span(
        &mut spans,
        Span::styled(unicode::repeat_char('─', width - filled), Tone::Frame),
    );
    spans
}

/// The cursor of the logo blinks.
pub open spec fn blink(tick: u64) -> Seq<char> {
    if tick / 3 % 2 == 0 {
        "▮"@
    } else {
        " "@
    }
}

fn blinking(tick: u64) -> (r: &'static str)
    ensures
        r@ == blink(tick),
{
    if tick / 3 % 2 == 0 {
        "▮"
    } else {
        " "
    }
}

/// What is being done, or what stands in the way. Of a password only its length is shown, up to a
/// limit.
pub open spec fn active_view(start: Startup, tick: u64) -> (Seq<char>, Tone) {
    match start.gate {
        StartupGate::Blocked => if start.view.asks_for_password() {
            ("启动已阻断 · OBS 需要配置"@, Tone::Warning)
        } else {
            ("启动已阻断 · 检查未通过"@, Tone::Warning)
        },
        StartupGate::EnteringObsPassword(line) => (
            "OBS 密码 "@ + unicode::repeated(
                '●',
                unicode::least(unicode::graphemes(line.text()).len() as int, 16) as nat,
            ) + blink(tick),
            Tone::Info,
        ),
        StartupGate::Skipped => ("已跳过未通过检查"@, Tone::Warning),
        _ => (start.view.label(), Tone::Time),
    }
}

/// The keys that mean something now.
pub open spec fn footer_view(start: Startup) -> (Seq<char>, Tone) {
    match start.gate {
        StartupGate::Blocked => if start.view.asks_for_password() {
            ("Enter 配置 OBS · S 跳过 · Ctrl+C 退出"@, Tone::Warning)
        } else {
            ("Enter 重试 · S 跳过 · Ctrl+C 退出"@, Tone::Warning)
        },
        StartupGate::EnteringObsPassword(_) => (
            "Enter 保存 · Esc 返回 · Ctrl+C 退出"@,
            Tone::Info,
        ),
        _ => ("Ctrl+C 取消"@, Tone::Frame),
    }
}

/// The screen is too small for the logo.
pub open spec fn is_tight(area: Rect) -> bool {
    area.width < 42 || area.height < 16
}

/// Where the parts of the beginning stand: the logo, the name below it, and the checks.
#[derive(Clone, Copy, Debug, PartialEq, Eq, Structural)]
pub enum StartupLayout {
    Tight(Rect),
    Full { logo: Rect, identity: Rect, status: Rect },
}

pub open spec fn layout_of(area: Rect) -> StartupLayout {
    if is_tight(area) {
        let height = geometry::smaller(area.height, 3);
        StartupLayout::Tight(
            Rect {
                x: area.x,
                y: (area.y + (area.height - height) / 2) as u16,
                width: area.width,
                height,
            },
        )
    } else {
        let y = (area.y + (area.height - 16) / 2) as u16;
        let width = geometry::smaller(area.width, 46);
        StartupLayout::Full {
            logo: Rect { x: area.x, y, width: area.width, height: 5 },
            identity: Rect { x: area.x, y: (y + 5) as u16, width: area.width, height: 1 },
            status: Rect {
                x: (area.x + (area.width - width) / 2) as u16,
                y: (y + 7) as u16,
                width,
                height: 9,
            },
        }
    }
}

/// Where the parts of the beginning stand.
pub fn startup_layout(area: Rect) -> (r: StartupLayout)
    requires
        area.wf(),
    ensures
        r == layout_of(area),
{
    if area.width < 42 || area.height < 16 {
        let height: u16 = geometry::min_u16(area.height, 3);
        return StartupLayout::Tight(
            Rect {
                x: area.x,
                y: area.y + (area.height - height) / 2,
                width: area.width,
                height,
            },
        );
    }
    let y: u16 = area.y + (area.height - 16) / 2;
    let width: u16 = geometry::min_u16(area.width, 46);
    StartupLayout::Full {
        logo: Rect { x: area.x, y, width: area.width, height: 5 },
        identity: Rect { x: area.x, y: y + 5, width: area.width, height: 1 },
        status: Rect { x: area.x + (area.width - width) / 2, y: y + 7, width, height: 9 },
    }
}

/// Every part of the beginning lies on the screen.
pub proof fn law_the_beginning_fits_the_screen(area: Rect)
    requires
        area.wf(),
    ensures
        match layout_of(area) {
            StartupLayout::Tight(part) => area.covers(part),
            StartupLayout::Full { logo, identity, status } => area.covers(logo) && area.covers(
                identity,
            ) && area.covers(status),
        },
{
}

/// The lines of the checks.
pub open spec fn status_text(start: Startup, tick: u64, elapsed: u64) -> Seq<Seq<SpanView>> {
    let (active, active_tone) = active_view(start, tick);
    let (footer, footer_tone) = footer_view(start);
    Seq::empty().push(Seq::empty().push(style::bold_toned("启动自检"@, Tone::Content))).push(
        progress_spans(elapsed, start.data_ready, 24),
    ).push(
        Seq::empty().push(style::toned("› "@, Tone::Info)).push(
            style::toned(active, active_tone),
        ),
    ).push(check_spans("本地数据"@, start.view.local)).push(
        check_spans("登录状态"@, start.view.account),
    ).push(check_spans("B 站房间"@, start.view.room)).push(
        check_spans("直播指标"@, start.view.metrics),
    ).push(check_spans("OBS 连接"@, start.view.obs)).push(
        Seq::empty().push(style::toned(footer, footer_tone)),
    )
}

/// The lines of a tight screen.
pub open spec fn tight_text(start: Startup, tick: u64, elapsed: u64) -> Seq<Seq<SpanView>> {
    let (active, active_tone) = active_view(start, tick);
    Seq::empty().push(
        Seq::empty().push(style::bold_toned("DANMU"@, Tone::Content)).push(
            style::toned(" · Elazer · "@, Tone::Rank),
        ).push(style::toned("elazer.wang"@, Tone::Info)),
    ).push(progress_spans(elapsed, start.data_ready, 12)).push(
        Seq::empty().push(style::toned(active, active_tone)),
    )
}

fn one(content: String, tone: Tone) -> (r: Vec<Span>)
    ensures
        style::span_views(r@) == Seq::<SpanView>::empty().push(style::toned(content@, tone)),
{
    let mut spans: Vec<Span> = style::no_spans();
    style::push_span(&mut spans, Span::styled(content, tone));
    spans
}

fn no_lines() -> (r: Vec<Vec<Span>>)
    ensures
        style::line_views(r@) == Seq::<Seq<SpanView>>::empty(),
{
    let lines: Vec<Vec<Span>> = Vec::new();
    proof {
        assert(style::line_views(lines@) =~= Seq::<Seq<SpanView>>::empty());
    }
    lines
}

impl Startup {
    fn active(&self, tick: u64) -> (r: (String, Tone))
        ensures
            (r.0@, r.1) == active_view(*self, tick),
    {
        match &self.gate {
            StartupGate::Blocked => if self.view.obs_requires_password() {
                ("启动已阻断 · OBS 需要配置".to_owned(), Tone::Warning)
            } else {
                ("启动已阻断 · 检查未通过".to_owned(), Tone::Warning)
            },
            StartupGate::EnteringObsPassword(line) => {
                let count: usize = unicode::split_graphemes(line.as_str()).len();
                let dots: String = unicode::repeat_char(
                    '●',
                    if count < 16 {
                        count
                    } else {
                        16
                    },
                );
                (text::add3("OBS 密码 ", dots.as_str(), blinking(tick)), Tone::Info)
            },
            StartupGate::Skipped => ("已跳过未通过检查".to_owned(), Tone::Warning),
            StartupGate::Checking | StartupGate::Ready => (
                self.view.active_label().to_owned(),
                Tone::Time,
            ),
        }
    }

    fn footer(&self) -> (r: (&'static str, Tone))
        ensures
            (r.0@, r.1) == footer_view(*self),
    {
        match &self.gate {
            StartupGate::Blocked => if self.view.obs_requires_password() {
                ("Enter 配置 OBS · S 跳过 · Ctrl+C 退出", Tone::Warning)
            } else {
                ("Enter 重试 · S 跳过 · Ctrl+C 退出", Tone::Warning)
            },
            StartupGate::EnteringObsPassword(_) => (
                "Enter 保存 · Esc 返回 · Ctrl+C 退出",
                Tone::Info,
            ),
            _ => ("Ctrl+C 取消", Tone::Frame),
        }
    }

    /// The lines of the checks.
    pub fn status_lines(&self, tick: u64, elapsed: u64) -> (r: Vec<Vec<Span>>)
        ensures
            style::line_views(r@) == status_text(*self, tick, elapsed),
    {
        let mut lines: Vec<Vec<Span>> = no_lines();
        let mut head: Vec<Span> = style::no_spans();
        style::push_span(&mut head, Span::bold("启动自检".to_owned(), Tone::Content));
        style::push_spans(&mut lines, head);
        style::push_spans(&mut lines, startup_progress_line(elapsed, self.data_ready, 24));
        let (active, active_tone): (String, Tone) = self.active(tick);
        let mut now: Vec<Span> = one("› ".to_owned(), Tone::Info);
        style::push_span(&mut now, Span::styled(active, active_tone));
        style::push_spans(&mut lines, now);
        style::push_spans(&mut lines, startup_check_line("本地数据", self.view.local));
        style::push_spans(&mut lines, startup_check_line("登录状态", self.view.account));
        style::push_spans(&mut lines, startup_check_line("B 站房间", self.view.room));
        style::push_spans(&mut lines, startup_check_line("直播指标", self.view.metrics));
        style::push_spans(&mut lines, startup_check_line("OBS 连接", self.view.obs));
        let (footer, footer_tone): (&'static str, Tone) = self.footer();
        style::push_spans(&mut lines, one(footer.to_owned(), footer_tone));
        lines
    }

    /// The lines of a tight screen.
    pub fn tight_lines(&self, tick: u64, elapsed: u64) -> (r: Vec<Vec<Span>>)
        ensures
            style::line_views(r@) == tight_text(*self, tick, elapsed),
    {
        let mut lines: Vec<Vec<Span>> = no_lines();
        let mut head: Vec<Span> = style::no_spans();
        style::push_span(&mut head, Span::bold("DANMU".to_owned(), Tone::Content));
        style::push_span(&mut head, Span::styled(" · Elazer · ".to_owned(), Tone::Rank));
        style::push_span(&mut head, Span::styled("elazer.wang".to_owned(), Tone::Info));
        style::push_spans(&mut lines, head);
        style::push_spans(&mut lines, startup_progress_line(elapsed, self.data_ready, 12));
        let (active, active_tone): (String, Tone) = self.active(tick);
        style::push_spans(&mut lines, one(active, active_tone));
        lines
    }
}

/// Each state of a check has its own sign and color, and one that is over shows what it found.
pub proof fn law_checks_show_their_state(status: StartupCheck)
    ensures
        status is Warning <==> check_parts(status).2 == Tone::Warning,
        status is Passed <==> check_parts(status).2 == Tone::Success,
        status is Running <==> check_parts(status).2 == Tone::Info,
        status matches StartupCheck::Warning(detail) ==> check_parts(status).1 == detail@
            && check_parts(status).0 == "! "@,
        status matches StartupCheck::Passed(detail) ==> check_parts(status).1 == detail@
            && check_parts(status).0 == "✓ "@,
{
}

/// A password that is typed shows as dots: two of the same length look alike.
pub proof fn law_typed_passwords_show_as_dots(one: Startup, other: Startup, tick: u64)
    requires
        one.gate is EnteringObsPassword,
        other.gate is EnteringObsPassword,
    ensures
        unicode::graphemes(one.gate->EnteringObsPassword_0.text()).len() == unicode::graphemes(
            other.gate->EnteringObsPassword_0.text(),
        ).len() ==> active_view(one, tick) == active_view(other, tick),
        footer_view(one) == footer_view(other),
{
}

} // verus!
