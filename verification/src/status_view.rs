//! The lines of status: the room, the devices, the assistant, and what is told.
use vstd::prelude::*;
use vstd::string::*;

use crate::app::TerminalApp;
use crate::domain::{RoomLiveStatus, RoomSnapshot};
use crate::meter::MicrophoneState;
use crate::notice::{NoticeBoard, NoticeLevel};
use crate::segments;
use crate::style;
use crate::style::{Span, SpanView, Tone};
use crate::text;
use crate::unicode;

verus! {

/// A colour: its parts, or one that the terminal has of its own.
#[derive(Clone, Copy, Debug, PartialEq, Eq, Structural)]
pub enum Color {
    Rgb { red: u8, green: u8, blue: u8 },
    Own,
}

/// The two colours of the theme that text can have on a coloured ground.
#[derive(Clone, Copy, Debug, PartialEq, Eq, Structural)]
pub struct Canvas {
    pub content: Color,
    pub background: Color,
}

/// How bright a colour is, out of 255, where its parts are known.
pub open spec fn luma(color: Color) -> Option<int> {
    match color {
        Color::Rgb { red, green, blue } => Some((299 * red + 587 * green + 114 * blue) / 1000),
        Color::Own => None,
    }
}

pub fn color_luma(color: Color) -> (r: Option<u32>)
    ensures
        match r {
            Some(value) => luma(color) == Some(value as int),
            None => luma(color) is None,
        },
{
    match color {
        Color::Rgb { red, green, blue } => Some(
            (299 * red as u32 + 587 * green as u32 + 114 * blue as u32) / 1000,
        ),
        Color::Own => None,
    }
}

/// How far a colour stands out from a brightness.
pub open spec fn contrast(color: Color, ground: int) -> int {
    match luma(color) {
        Some(value) => if value < ground {
            ground - value
        } else {
            value - ground
        },
        None => 0,
    }
}

/// The colour of text on a ground: the one that stands out more.
pub open spec fn ink(ground: Color, canvas: Canvas) -> Tone {
    match luma(ground) {
        None => Tone::Content,
        Some(level) => if contrast(canvas.content, level) >= contrast(canvas.background, level) {
            Tone::Content
        } else {
            Tone::Background
        },
    }
}

fn contrast_with(color: Color, ground: u32) -> (r: u32)
    ensures
        r == contrast(color, ground as int),
{
    match color_luma(color) {
        Some(value) => if value < ground {
            ground - value
        } else {
            value - ground
        },
        None => 0,
    }
}

pub fn contrast_foreground(ground: Color, canvas: Canvas) -> (r: Tone)
    ensures
        r == ink(ground, canvas),
{
    match color_luma(ground) {
        None => Tone::Content,
        Some(level) => if contrast_with(canvas.content, level) >= contrast_with(
            canvas.background,
            level,
        ) {
            Tone::Content
        } else {
            Tone::Background
        },
    }
}

/// The grounds of the status lines.
#[derive(Clone, Copy, Debug, PartialEq, Eq, Structural)]
pub enum Ground {
    Orange,
    Green,
    Blue,
}

pub open spec fn ground_color(ground: Ground) -> Color {
    match ground {
        Ground::Orange => Color::Rgb { red: 194, green: 65, blue: 12 },
        Ground::Green => Color::Rgb { red: 21, green: 128, blue: 61 },
        Ground::Blue => Color::Rgb { red: 29, green: 78, blue: 216 },
    }
}

pub open spec fn ground_tone(ground: Ground) -> Tone {
    match ground {
        Ground::Orange => Tone::StatusOrange,
        Ground::Green => Tone::StatusGreen,
        Ground::Blue => Tone::StatusBlue,
    }
}

/// Text on a ground of the status lines.
pub open spec fn status_view(content: Seq<char>, ground: Ground, canvas: Canvas) -> SpanView {
    style::grounded(content, ink(ground_color(ground), canvas), ground_tone(ground))
}

fn status_span(content: String, ground: Ground, canvas: Canvas) -> (r: Span)
    ensures
        r@ == status_view(content@, ground, canvas),
{
    let (color, tone): (Color, Tone) = match ground {
        Ground::Orange => (Color::Rgb { red: 194, green: 65, blue: 12 }, Tone::StatusOrange),
        Ground::Green => (Color::Rgb { red: 21, green: 128, blue: 61 }, Tone::StatusGreen),
        Ground::Blue => (Color::Rgb { red: 29, green: 78, blue: 216 }, Tone::StatusBlue),
    };
    Span::on_ground(content, contrast_foreground(color, canvas), tone)
}

/// The ink of the status lines is never harder to read than the other colour would be.
pub proof fn law_the_ink_stands_out(ground: Color, canvas: Canvas)
    requires
        luma(ground) is Some,
    ensures
        ({
            let level = luma(ground)->0;
            let content = contrast(canvas.content, level);
            let background = contrast(canvas.background, level);
            &&& ink(ground, canvas) == Tone::Content ==> content >= background
            &&& ink(ground, canvas) == Tone::Background ==> background > content
        }),
{
}

pub open spec fn live_text(room: RoomSnapshot) -> Seq<char> {
    match room.live_status {
        RoomLiveStatus::Offline => "○ OFFLINE"@,
        RoomLiveStatus::Live => "● LIVE"@,
        RoomLiveStatus::Rotating => "◉ ROTATING"@,
    }
}

pub fn room_live_label(room: &RoomSnapshot) -> (r: &'static str)
    ensures
        r@ == live_text(*room),
{
    match room.live_status {
        RoomLiveStatus::Offline => "○ OFFLINE",
        RoomLiveStatus::Live => "● LIVE",
        RoomLiveStatus::Rotating => "◉ ROTATING",
    }
}

/// A number with at least two digits.
pub open spec fn two_digits(n: nat) -> Seq<char> {
    if n < 10 {
        "0"@ + text::decimal_digits(n)
    } else {
        text::decimal_digits(n)
    }
}

fn padded(n: u64) -> (r: String)
    ensures
        r@ == two_digits(n as nat),
{
    if n < 10 {
        text::add2("0", text::decimal(n).as_str())
    } else {
        text::decimal(n)
    }
}

/// The whole seconds that a broadcast has run.
pub open spec fn run_seconds(started: int, now: int) -> nat {
    if now < started {
        0
    } else {
        ((now - started) / 1000) as nat
    }
}

/// How long the broadcast has run, as it is shown.
pub open spec fn elapsed_text(room: RoomSnapshot, now: i64) -> Seq<char> {
    if room.live_started_at is None || room.live_status != RoomLiveStatus::Live {
        "--:--:--"@
    } else {
        let seconds = run_seconds(room.live_started_at->0 as int, now as int);
        two_digits(seconds / 3600) + ":"@ + two_digits(seconds / 60 % 60) + ":"@ + two_digits(
            seconds % 60,
        )
    }
}

pub fn live_elapsed(room: &RoomSnapshot, now: i64) -> (r: String)
    ensures
        r@ == elapsed_text(*room, now),
{
    let started: i64 = match room.live_started_at {
        Some(started) => started,
        None => {
            return "--:--:--".to_owned();
        },
    };
    if !room.is_live() {
        return "--:--:--".to_owned();
    }
    let seconds: u64 = if now < started {
        0
    } else {
        ((now as i128 - started as i128) / 1000) as u64
    };
    let mut out: String = padded(seconds / 3600);
    out.append(":");
    out.append(padded(seconds / 60 % 60).as_str());
    out.append(":");
    out.append(padded(seconds % 60).as_str());
    out
}

/// One turn of the wheel that shows that something is going on.
pub open spec fn wheel_frame(tick: u64) -> Seq<char> {
    if tick % 4 == 0 {
        "◐"@
    } else if tick % 4 == 1 {
        "◓"@
    } else if tick % 4 == 2 {
        "◑"@
    } else {
        "◒"@
    }
}

/// What is shown of an assistant that is being started, in the columns that are free.
pub open spec fn starting_text(tick: u64, width: u16) -> Seq<char> {
    if width >= 11 {
        wheel_frame(tick) + " AI启动中 "@
    } else if width >= 8 {
        wheel_frame(tick) + " 启动中"@
    } else {
        wheel_frame(tick)
    }
}

/// What the status lines know of the assistant's runner, and how far the animations are.
#[derive(Clone, Copy, Debug, PartialEq, Eq, Structural)]
pub struct Pulse {
    pub connected: bool,
    /// The runner has a session.
    pub attached: bool,
    pub tick: u64,
}

/// What is shown of the assistant in the columns that are free: nothing while it is off, a wheel
/// while it is being started, and then its mark. Its colour says whether it sends by itself.
pub open spec fn assistant_span(app: TerminalApp, pulse: Pulse, width: u16) -> SpanView {
    if (!app.automation.running && !app.automation.resume_pending) || width == 0 {
        style::plain(""@)
    } else if app.automation.resume_pending || !pulse.connected || !pulse.attached {
        style::bold_toned(starting_text(pulse.tick, width), Tone::Cyan)
    } else {
        style::bold_toned(
            if width >= 2 {
                segments::AI_PREFIX@
            } else {
                segments::AI_MARK@
            },
            if !app.automation.automatic {
                Tone::Green
            } else if app.automation.sending {
                Tone::Red
            } else {
                Tone::Yellow
            },
        )
    }
}

/// The mark of the assistant is red exactly when replies are sent without asking.
pub proof fn law_red_means_automatic(app: TerminalApp, pulse: Pulse, width: u16)
    requires
        width > 0,
        app.automation.running,
        !app.automation.resume_pending,
        pulse.connected && pulse.attached,
    ensures
        (assistant_span(app, pulse, width).tone == Some(Tone::Red)) == (app.automation.automatic
            && app.automation.sending),
{
}

/// The columns that remain of a width.
pub open spec fn left_of(width: u16, taken: int) -> u16 {
    unicode::minus(width as int, taken) as u16
}

fn remaining(width: u16, taken: usize) -> (r: u16)
    ensures
        r == left_of(width, taken as int),
{
    if taken >= width as usize {
        0
    } else {
        width - taken as u16
    }
}

/// What is shown of the broadcast: it blinks while the room is live.
pub open spec fn live_label(room: RoomSnapshot, tick: u64) -> Seq<char> {
    " "@ + (if room.live_status == RoomLiveStatus::Live && tick / 2 % 2 != 0 {
        "      "@
    } else {
        live_text(room)
    }) + " "@
}

pub open spec fn spaces(count: int) -> SpanView {
    style::plain(unicode::repeated(' ', count as nat))
}

/// The first line of status: whether the room is live, its title in the middle, and how long the
/// broadcast has run.
pub open spec fn primary_spans(
    room: RoomSnapshot,
    canvas: Canvas,
    tick: u64,
    now: i64,
    width: u16,
) -> Seq<SpanView> {
    let live = live_label(room, tick);
    let elapsed = " ◷ "@ + elapsed_text(room, now) + " "@;
    let left = unicode::display_width(live) as int;
    let right = unicode::display_width(elapsed) as int;
    let wider = if left < right {
        right
    } else {
        left
    };
    let title = unicode::fitted(room.title@, unicode::minus(width as int, 2 * wider));
    let columns = unicode::display_width(title) as int;
    let start = unicode::minus(width as int, columns) as int / 2;
    let before = unicode::minus(start, left) as int;
    let after = unicode::minus(width as int, left + before + columns + right) as int;
    Seq::empty().push(
        if room.live_status == RoomLiveStatus::Live {
            style::grounded(live, Tone::LightRed, Tone::Background)
        } else {
            status_view(live, Ground::Blue, canvas)
        },
    ).push(spaces(before)).push(style::bold_toned(title, Tone::Rank)).push(spaces(after)).push(
        style::grounded(elapsed, Tone::Content, Tone::Background),
    )
}

fn primary_status_line(
    room: &RoomSnapshot,
    canvas: Canvas,
    tick: u64,
    now: i64,
    width: u16,
) -> (r: Vec<Span>)
    ensures
        style::span_views(r@) == primary_spans(*room, canvas, tick, now, width),
{
    let label: &'static str = if room.is_live() && tick / 2 % 2 != 0 {
        "      "
    } else {
        room_live_label(room)
    };
    let live: String = text::add3(" ", label, " ");
    let elapsed: String = text::add3(" ◷ ", live_elapsed(room, now).as_str(), " ");
    let left: usize = unicode::width_of(live.as_str());
    let right: usize = unicode::width_of(elapsed.as_str());
    let wider: usize = if left < right {
        right
    } else {
        left
    };
    let columns: usize = width as usize;
    let title: String = unicode::fit_display_width(
        room.title.as_str(),
        columns.saturating_sub(wider.saturating_add(wider)),
    );
    let taken: usize = unicode::width_of(title.as_str());
    let before: usize = (columns.saturating_sub(taken) / 2).saturating_sub(left);
    let after: usize = columns.saturating_sub(
        left.saturating_add(before).saturating_add(taken).saturating_add(right),
    );
    let mut spans: Vec<Span> = style::no_spans();
    style::push_span(
        &mut spans,
        if room.is_live() {
            Span::on_ground(live, Tone::LightRed, Tone::Background)
        } else {
            status_span(live, Ground::Blue, canvas)
        },
    );
    style::push_span(&mut spans, Span::raw(unicode::repeat_char(' ', before)));
    style::push_span(&mut spans, Span::bold(title, Tone::Rank));
    style::push_span(&mut spans, Span::raw(unicode::repeat_char(' ', after)));
    style::push_span(&mut spans, Span::on_ground(elapsed, Tone::Content, Tone::Background));
    spans
}

/// The broadcasting software answers.
pub open spec fn obs_answers(app: TerminalApp) -> bool {
    app.stream.status.obs_error is None && app.stream.status.obs is Some
}

/// What is shown of the microphone.
pub open spec fn microphone_view(app: TerminalApp) -> (Seq<char>, Tone) {
    if !obs_answers(app) {
        ("?"@, Tone::Rank)
    } else {
        match app.stream.status.microphone {
            MicrophoneState::Unmuted => ("◉"@, Tone::StatusRed),
            MicrophoneState::Muted => ("○ "@, Tone::Rank),
            MicrophoneState::Unknown => ("?"@, Tone::Rank),
        }
    }
}

/// The second line of status: the broadcaster, the assistant, and at the right edge the devices.
pub open spec fn secondary_spans(
    room: RoomSnapshot,
    app: TerminalApp,
    canvas: Canvas,
    pulse: Pulse,
    width: u16,
) -> Seq<SpanView> {
    let (mic, mic_tone) = microphone_view(app);
    let devices = unicode::display_width("OBS "@) + unicode::display_width("●"@)
        + unicode::display_width("  MIC "@) + unicode::display_width(mic);
    let assistant = assistant_span(app, pulse, left_of(width, (devices + 8) as int));
    let mark = unicode::display_width(assistant.content);
    let name = unicode::fitted(
        " @ "@ + room.broadcaster_name@ + " "@,
        unicode::minus(width as int, (devices + mark) as int),
    );
    let gap = unicode::minus(
        width as int,
        (unicode::display_width(name) + devices + mark) as int,
    ) as int;
    (if name.len() > 0 {
        Seq::empty().push(status_view(name, Ground::Green, canvas))
    } else {
        Seq::empty()
    }).push(assistant).push(spaces(gap)).push(style::bold_toned("OBS "@, Tone::Content)).push(
        style::bold_toned(
            "●"@,
            if obs_answers(app) {
                Tone::StatusGreen
            } else {
                Tone::StatusRed
            },
        ),
    ).push(style::bold_toned("  MIC "@, Tone::Content)).push(style::bold_toned(mic, mic_tone))
}

/// The lines of status.
pub open spec fn status_lines(
    app: TerminalApp,
    canvas: Canvas,
    pulse: Pulse,
    now: i64,
    width: u16,
) -> Seq<Seq<SpanView>> {
    match app.stream.status.room {
        None => Seq::empty().push(
            Seq::empty().push(assistant_span(app, pulse, left_of(width, 8))).push(
                status_view(" ◌ ROOM "@, Ground::Orange, canvas),
            ),
        ),
        Some(room) => Seq::empty().push(
            primary_spans(room, canvas, pulse.tick, now, width),
        ).push(secondary_spans(room, app, canvas, pulse, width)),
    }
}

/// What is told, on one line that fits.
pub open spec fn notice_span(app: TerminalApp, width: u16) -> Option<SpanView> {
    let board = app.stream.board@;
    let (prefix, tone) = match board.notice_level {
        NoticeLevel::Info => ("· "@, Tone::Time),
        NoticeLevel::Success => ("+ "@, Tone::Success),
        NoticeLevel::Progress => ("· "@, Tone::Info),
        NoticeLevel::Warning => ("! "@, Tone::Rank),
        NoticeLevel::Error => ("! "@, Tone::Warning),
    };
    if board.notice.len() == 0 {
        None
    } else {
        Some(
            style::toned(
                prefix + unicode::fitted(
                    text::replaced(text::replaced(board.notice, "\n"@, " "@), "\r"@, " "@),
                    unicode::least(unicode::minus(width as int, 2) as int, 64) as nat,
                ),
                tone,
            ),
        )
    }
}

/// What is said while older messages are read, in the columns that are free.
pub open spec fn history_head(width: u16) -> Seq<char> {
    if width >= 44 {
        " HISTORY · Esc to follow"@
    } else if width >= 24 {
        " HISTORY · Esc"@
    } else {
        " HISTORY"@
    }
}

/// How many messages came meanwhile, and when the newest are followed again by themselves.
pub open spec fn history_tail(app: TerminalApp, idle_seconds: u32, now: u64) -> Seq<char> {
    let new = " +"@ + text::decimal_digits(app.stream.feed.unread_live_count as nat) + " NEW"@;
    if idle_seconds == 0 {
        new + " · MANUAL"@
    } else if app.desk.stop_flow is Some || app.desk.login_qr is Some || app.desk.secret_mode {
        new + " · TIMER PAUSED"@
    } else {
        new + " · AUTO "@ + text::decimal_digits(
            unicode::minus(
                idle_seconds as int,
                unicode::minus(now as int, app.desk.last_user_activity as int) as int / 1000,
            ),
        ) + "s"@
    }
}

/// What is shown of the connection. The clock is the time of the last news, as it is shown.
pub open spec fn badge_text(connection: Seq<char>, clock: Option<Seq<char>>) -> Seq<char> {
    if text::has_prefix(connection, "已连接"@) {
        match clock {
            Some(clock) => "实时 "@ + clock,
            None => "已连接"@,
        }
    } else if text::occurs_in("重连"@, connection) {
        "正在重连"@
    } else {
        "正在连接"@
    }
}

/// What is shown of the connection.
pub fn connection_badge(connection: &str, clock: Option<&str>) -> (r: String)
    ensures
        r@ == badge_text(
            connection@,
            match clock {
                Some(clock) => Some(clock@),
                None => None,
            },
        ),
{
    if text::starts_with(connection, "已连接") {
        match clock {
            Some(clock) => text::add2("实时 ", clock),
            None => "已连接".to_owned(),
        }
    } else if text::contains(connection, "重连") {
        "正在重连".to_owned()
    } else {
        "正在连接".to_owned()
    }
}

impl TerminalApp {
    /// What is shown of the assistant in the columns that are free.
    pub fn compact(&self, pulse: Pulse, width: u16) -> (r: Span)
        ensures
            r@ == assistant_span(*self, pulse, width),
    {
        if (!self.automation.running && !self.automation.resume_pending) || width == 0 {
            return Span::raw("".to_owned());
        }
        if self.automation.resume_pending || !pulse.connected || !pulse.attached {
            let turn: u64 = pulse.tick % 4;
            let frame: &'static str = if turn == 0 {
                "◐"
            } else if turn == 1 {
                "◓"
            } else if turn == 2 {
                "◑"
            } else {
                "◒"
            };
            let label: String = if width >= 11 {
                text::add2(frame, " AI启动中 ")
            } else if width >= 8 {
                text::add2(frame, " 启动中")
            } else {
                frame.to_owned()
            };
            return Span::bold(label, Tone::Cyan);
        }
        let tone: Tone = if !self.automation.automatic {
            Tone::Green
        } else if self.automation.sending {
            Tone::Red
        } else {
            Tone::Yellow
        };
        Span::bold(
            if width >= 2 {
                segments::AI_PREFIX.to_owned()
            } else {
                segments::AI_MARK.to_owned()
            },
            tone,
        )
    }

    fn obs_connected(&self) -> (r: bool)
        ensures
            r == obs_answers(*self),
    {
        self.stream.status.obs_error.is_none() && self.stream.status.obs.is_some()
    }

    fn microphone_indicator(&self) -> (r: (&'static str, Tone))
        ensures
            (r.0@, r.1) == microphone_view(*self),
    {
        if !self.obs_connected() {
            return ("?", Tone::Rank);
        }
        match self.stream.status.microphone {
            MicrophoneState::Unmuted => ("◉", Tone::StatusRed),
            MicrophoneState::Muted => ("○ ", Tone::Rank),
            MicrophoneState::Unknown => ("?", Tone::Rank),
        }
    }

    fn secondary_status_line(
        &self,
        room: &RoomSnapshot,
        canvas: Canvas,
        pulse: Pulse,
        width: u16,
    ) -> (r: Vec<Span>)
        ensures
            style::span_views(r@) == secondary_spans(*room, *self, canvas, pulse, width),
    {
        let (mic, mic_tone): (&'static str, Tone) = self.microphone_indicator();
        let devices: usize = unicode::width_of("OBS ").saturating_add(
            unicode::width_of("●"),
        ).saturating_add(unicode::width_of("  MIC ")).saturating_add(unicode::width_of(mic));
        let assistant: Span = self.compact(pulse, remaining(width, devices.saturating_add(8)));
        let mark: usize = unicode::width_of(assistant.content.as_str());
        let columns: usize = width as usize;
        let name: String = unicode::fit_display_width(
            text::add3(" @ ", room.broadcaster_name.as_str(), " ").as_str(),
            columns.saturating_sub(devices.saturating_add(mark)),
        );
        let gap: usize = columns.saturating_sub(
            unicode::width_of(name.as_str()).saturating_add(devices).saturating_add(mark),
        );
        let mut spans: Vec<Span> = style::no_spans();
        if !name.as_str().is_empty() {
            style::push_span(&mut spans, status_span(name, Ground::Green, canvas));
        }
        style::push_span(&mut spans, assistant);
        style::push_span(&mut spans, Span::raw(unicode::repeat_char(' ', gap)));
        style::push_span(&mut spans, Span::bold("OBS ".to_owned(), Tone::Content));
        style::push_span(
            &mut spans,
            Span::bold(
                "●".to_owned(),
                if self.obs_connected() {
                    Tone::StatusGreen
                } else {
                    Tone::StatusRed
                },
            ),
        );
        style::push_span(&mut spans, Span::bold("  MIC ".to_owned(), Tone::Content));
        style::push_span(&mut spans, Span::bold(mic.to_owned(), mic_tone));
        spans
    }

    /// The lines of status.
    pub fn technical_status_lines(
        &self,
        canvas: Canvas,
        pulse: Pulse,
        now: i64,
        width: u16,
    ) -> (r: Vec<Vec<Span>>)
        ensures
            style::line_views(r@) == status_lines(*self, canvas, pulse, now, width),
    {
        let mut lines: Vec<Vec<Span>> = Vec::new();
        match &self.stream.status.room {
            None => {
                let mut spans: Vec<Span> = style::no_spans();
                style::push_span(&mut spans, self.compact(pulse, remaining(width, 8)));
                style::push_span(
                    &mut spans,
                    status_span(" ◌ ROOM ".to_owned(), Ground::Orange, canvas),
                );
                lines.push(spans);
            },
            Some(room) => {
                lines.push(primary_status_line(room, canvas, pulse.tick, now, width));
                lines.push(self.secondary_status_line(room, canvas, pulse, width));
            },
        }
        proof {
            assert(style::line_views(lines@) =~= status_lines(*self, canvas, pulse, now, width));
        }
        lines
    }

    /// What is told, on one line that fits.
    pub fn application_notice_lines(&self, width: u16) -> (r: Option<Span>)
        ensures
            match r {
                Some(span) => Some(span@),
                None => None,
            } == notice_span(*self, width),
    {
        let board: &NoticeBoard = &self.stream.board;
        if board.notice.as_str().is_empty() {
            return None;
        }
        let (prefix, tone): (&'static str, Tone) = match board.notice_level {
            NoticeLevel::Info => ("· ", Tone::Time),
            NoticeLevel::Success => ("+ ", Tone::Success),
            NoticeLevel::Progress => ("· ", Tone::Info),
            NoticeLevel::Warning => ("! ", Tone::Rank),
            NoticeLevel::Error => ("! ", Tone::Warning),
        };
        let room: usize = (width as usize).saturating_sub(2);
        proof {
            reveal_strlit("\n");
            reveal_strlit("\r");
        }
        let line: String = text::replace(
            text::replace(board.notice.as_str(), "\n", " ").as_str(),
            "\r",
            " ",
        );
        let shown: String = unicode::fit_display_width(
            line.as_str(),
            if room < 64 {
                room
            } else {
                64
            },
        );
        Some(Span::styled(text::add2(prefix, shown.as_str()), tone))
    }

    /// The two lines that are shown while older messages are read.
    pub fn history_status(&self, idle_seconds: u32, now: u64, width: u16) -> (r: (
        &'static str,
        String,
    ))
        ensures
            r.0@ == history_head(width),
            r.1@ == history_tail(*self, idle_seconds, now),
    {
        let first: &'static str = if width >= 44 {
            " HISTORY · Esc to follow"
        } else if width >= 24 {
            " HISTORY · Esc"
        } else {
            " HISTORY"
        };
        let mut second: String = text::add3(
            " +",
            text::decimal(self.stream.feed.unread_live_count).as_str(),
            " NEW",
        );
        if idle_seconds == 0 {
            second.append(" · MANUAL");
        } else if self.desk.stop_flow.is_some() || self.desk.login_qr.is_some()
            || self.desk.secret_mode {
            second.append(" · TIMER PAUSED");
        } else {
            let passed: u64 = now.saturating_sub(self.desk.last_user_activity) / 1000;
            second.append(" · AUTO ");
            second.append(text::decimal((idle_seconds as u64).saturating_sub(passed)).as_str());
            second.append("s");
        }
        (first, second)
    }
}

/// A broadcast is told as on air exactly where it is.
pub proof fn law_only_a_running_broadcast_is_live(room: RoomSnapshot, now: i64)
    ensures
        live_text(room) == "● LIVE"@ <==> room.live_status == RoomLiveStatus::Live,
        room.live_status != RoomLiveStatus::Live || room.live_started_at is None ==> elapsed_text(
            room,
            now,
        ) == "--:--:--"@,
{
    reveal_strlit("○ OFFLINE");
    reveal_strlit("● LIVE");
    reveal_strlit("◉ ROTATING");
    assert("○ OFFLINE"@.len() == 9 && "● LIVE"@.len() == 6 && "◉ ROTATING"@.len() == 10);
}

/// How long a broadcast has been on is told in hours, minutes and seconds that add up to the whole
/// seconds since it began.
pub proof fn law_the_time_on_air_adds_up(room: RoomSnapshot, now: i64, h: nat, m: nat, s: nat)
    requires
        room.live_status == RoomLiveStatus::Live,
        room.live_started_at is Some,
        room.live_started_at->0 <= now,
        m < 60,
        s < 60,
        (h * 3600 + m * 60 + s) * 1000 <= now - room.live_started_at->0 < (h * 3600 + m * 60 + s
            + 1) * 1000,
    ensures
        elapsed_text(room, now) == two_digits(h) + seq![':'] + two_digits(m) + seq![':']
            + two_digits(s),
{
    reveal_strlit(":");
    assert(":"@ =~= seq![':']);
    let seconds = run_seconds(room.live_started_at->0 as int, now as int);
    assert(seconds == h * 3600 + m * 60 + s);
    assert(seconds / 3600 == h);
    assert(seconds / 60 % 60 == m);
    assert(seconds % 60 == s);
}

/// A part of the time has two digits at least, and reads as its number.
pub proof fn law_times_have_two_digits(n: nat)
    ensures
        two_digits(n).len() >= 2,
        n < 100 ==> two_digits(n).len() == 2,
        n < 100 ==> two_digits(n) == seq![(0x30 + n / 10) as char, (0x30 + n % 10) as char],
{
    reveal_strlit("0");
    reveal_with_fuel(text::decimal_digits, 3);
    if n < 10 {
        assert(two_digits(n) =~= seq![(0x30 + n / 10) as char, (0x30 + n % 10) as char]);
    } else {
        assert(text::decimal_digits(n / 10).len() >= 1) by {
            text::law_a_written_number_reads_back(n / 10);
        }
        if n < 100 {
            assert(two_digits(n) =~= seq![(0x30 + n / 10) as char, (0x30 + n % 10) as char]);
        }
    }
}

/// An open microphone shows as such only where OBS answered and said so.
pub proof fn law_an_open_microphone_shows(app: TerminalApp)
    ensures
        microphone_view(app).1 == Tone::StatusRed <==> app.stream.status.obs_error is None
            && app.stream.status.obs is Some && app.stream.status.microphone
            == MicrophoneState::Unmuted,
{
}

/// The assistant shows only while it runs or is about to; green means that each reply is asked for,
/// yellow that it may send and does not, red that it sends.
pub proof fn law_the_assistants_color_tells_what_it_may(app: TerminalApp, pulse: Pulse, width: u16)
    requires
        width > 0,
        pulse.connected && pulse.attached,
    ensures
        !app.automation.running && !app.automation.resume_pending ==> assistant_span(
            app,
            pulse,
            width,
        ).content == ""@,
        app.automation.running && !app.automation.resume_pending ==> assistant_span(
            app,
            pulse,
            width,
        ).tone == Some(
            if !app.automation.automatic {
                Tone::Green
            } else if app.automation.sending {
                Tone::Red
            } else {
                Tone::Yellow
            },
        ),
        app.automation.resume_pending ==> assistant_span(app, pulse, width).tone == Some(Tone::Cyan),
{
}

/// A color whose parts are equal is as light as they are, and green counts for more than red, red
/// for more than blue.
pub proof fn law_light_is_weighed(red: u8, green: u8, blue: u8, level: u8, more: u8)
    requires
        level <= more,
    ensures
        luma(Color::Rgb { red: level, green: level, blue: level }) == Some(level as int),
        luma(Color::Rgb { red, green, blue }) is Some,
        luma(Color::Rgb { red: level, green: more, blue })->0 >= luma(
            Color::Rgb { red: more, green: level, blue },
        )->0,
        luma(Color::Rgb { red: more, green, blue: level })->0 >= luma(
            Color::Rgb { red: level, green, blue: more },
        )->0,
        luma(Color::Own) is None,
{
}

/// A notice shows on one line behind the sign of its level; a level that needs attention has the
/// sign for it, and without a notice nothing shows.
pub proof fn law_notices_show_their_level(app: TerminalApp, width: u16)
    ensures
        notice_span(app, width) is None <==> app.stream.board@.notice.len() == 0,
        notice_span(app, width) is Some ==> {
            let span = notice_span(app, width)->0;
            let level = app.stream.board@.notice_level;
            &&& span.content.len() >= 2
            &&& span.content[0] == '!' <==> level == NoticeLevel::Warning || level
                == NoticeLevel::Error
            &&& span.content[0] == '+' <==> level == NoticeLevel::Success
            &&& span.tone == Some(Tone::Warning) <==> level == NoticeLevel::Error
        },
{
    reveal_strlit("· ");
    reveal_strlit("+ ");
    reveal_strlit("! ");
}

/// The seconds that are left to a reader are those that were set, less those that have passed; with
/// none set, or while a question is open, none are told.
pub proof fn law_the_readers_seconds_are_told(
    app: TerminalApp,
    idle_seconds: u32,
    now: u64,
    passed: nat,
)
    requires
        0 < idle_seconds,
        passed <= idle_seconds,
        app.desk.stop_flow is None,
        app.desk.login_qr is None,
        !app.desk.secret_mode,
        app.desk.last_user_activity + 1000 * passed <= now < app.desk.last_user_activity + 1000 * (
        passed + 1),
    ensures
        history_tail(app, idle_seconds, now) == " +"@ + text::decimal_digits(
            app.stream.feed.unread_live_count as nat,
        ) + " NEW"@ + " · AUTO "@ + text::decimal_digits((idle_seconds - passed) as nat) + "s"@,
{
    let gone = unicode::minus(now as int, app.desk.last_user_activity as int) as int / 1000;
    assert(gone == passed);
}

/// A connection is told as one in real time only where it stands.
pub proof fn law_only_a_connection_is_told_as_real(connection: Seq<char>, clock: Option<Seq<char>>)
    ensures
        !text::has_prefix(connection, "已连接"@) ==> badge_text(connection, clock) == "正在重连"@
            || badge_text(connection, clock) == "正在连接"@,
        text::has_prefix(connection, "已连接"@) && clock is Some ==> text::has_prefix(
            badge_text(connection, clock),
            "实时 "@,
        ),
{
    if text::has_prefix(connection, "已连接"@) && clock is Some {
        let told = "实时 "@ + clock->0;
        assert(told.subrange(0, "实时 "@.len() as int) =~= "实时 "@);
    }
}

} // verus!
