//! How the screen is divided, what lies on top, and which message the list shows.
use vstd::prelude::*;
use vstd::string::*;

use crate::app::TerminalApp;
use crate::desk;
use crate::desk::StopFlow;
use crate::domain;
use crate::domain::DanmuEvent;
use crate::events;
use crate::geometry;
use crate::geometry::Rect;
use crate::text;
use crate::unicode;

verus! {

/// The heights of the parts of the screen, from the top.
#[derive(Clone, Copy, Debug, PartialEq, Eq, Structural)]
pub struct Division {
    pub status: u16,
    pub body: u16,
    pub notice: u16,
    pub review: u16,
    pub input: u16,
}

/// A screen on which only the newest messages and the line fit.
pub open spec fn small(width: u16, height: u16) -> bool {
    width < 32 || height < 7
}

pub fn is_small(width: u16, height: u16) -> (r: bool)
    ensures
        r == small(width, height),
{
    width < 32 || height < 7
}

pub open spec fn larger(a: int, b: int) -> int {
    if a < b {
        b
    } else {
        a
    }
}

/// How the heights are given: the status first, and the messages keep two lines whatever else
/// there is.
pub open spec fn divided(
    height: u16,
    status_lines: nat,
    notice_lines: nat,
    review_lines: u16,
    input_lines: u16,
) -> Division {
    let status = larger(
        unicode::least(status_lines as int, unicode::minus(height as int, 4) as int),
        1,
    );
    let room = unicode::minus(height as int, status + 2) as int;
    let notice = unicode::least(
        unicode::least(notice_lines as int, 3),
        unicode::minus(room, 2) as int,
    );
    let review = unicode::least(review_lines as int, unicode::minus(room, notice + 2) as int);
    let input = larger(
        unicode::least(input_lines as int, unicode::minus(room, notice + review) as int),
        2,
    );
    Division {
        status: status as u16,
        body: unicode::minus(height as int, status + notice + review + input) as u16,
        notice: notice as u16,
        review: review as u16,
        input: input as u16,
    }
}

/// The parts fill the screen exactly, and the messages keep at least two lines.
pub proof fn law_the_parts_fill_the_screen(
    height: u16,
    status_lines: nat,
    notice_lines: nat,
    review_lines: u16,
    input_lines: u16,
)
    requires
        height >= 7,
    ensures
        ({
            let parts = divided(height, status_lines, notice_lines, review_lines, input_lines);
            &&& parts.status + parts.body + parts.notice + parts.review + parts.input == height
            &&& parts.body >= 2
            &&& parts.status >= 1
            &&& parts.input >= 2
        }),
{
}

/// How the screen is divided.
pub fn divide(
    height: u16,
    status_lines: usize,
    notice_lines: usize,
    review_lines: u16,
    input_lines: u16,
) -> (r: Division)
    requires
        height >= 7,
    ensures
        r == divided(
            height,
            status_lines as nat,
            notice_lines as nat,
            review_lines,
            input_lines,
        ),
{
    let most: u16 = height - 4;
    let status: u16 = if status_lines == 0 {
        1
    } else if status_lines < most as usize {
        status_lines as u16
    } else {
        most
    };
    let room: u16 = height - (status + 2);
    let told: u16 = if notice_lines < 3 {
        notice_lines as u16
    } else {
        3
    };
    let notice: u16 = geometry::min_u16(told, room.saturating_sub(2));
    let review: u16 = geometry::min_u16(review_lines, room.saturating_sub(notice + 2));
    let typed: u16 = geometry::min_u16(input_lines, room - notice - review);
    let input: u16 = if typed < 2 {
        2
    } else {
        typed
    };
    Division { status, body: height - status - notice - review - input, notice, review, input }
}

/// What lies on top of the messages.
#[derive(Clone, Copy, Debug, PartialEq, Eq, Structural)]
pub enum Overlay {
    Nothing,
    Stop,
    Qr,
    Panel,
    Help,
    Palette,
}

/// What lies on top. A text that is being edited is never covered by the palette or by help.
pub open spec fn overlay_of(app: TerminalApp) -> Overlay {
    let d = app.desk;
    if d.stop_flow is Some {
        Overlay::Stop
    } else if d.login_qr is Some {
        Overlay::Qr
    } else if d.secret_mode || app.review.edit is Some {
        Overlay::Nothing
    } else if app.panel matches Some(panel) && panel.editor is Some {
        Overlay::Panel
    } else if d.help is Some {
        Overlay::Help
    } else if d.search is Some || desk::slashed(d.input.text()) {
        Overlay::Palette
    } else if app.panel is Some {
        Overlay::Panel
    } else {
        Overlay::Nothing
    }
}

/// The question whether to stop stands at the middle of the screen.
pub fn stop_area(area: Rect) -> (r: Rect)
    requires
        area.wf(),
    ensures
        r == geometry::centered(
            geometry::smaller(area.width, 42),
            geometry::smaller(area.height, 6),
            area,
        ),
        area.covers(r),
{
    geometry::centered_rect(
        geometry::min_u16(area.width, 42),
        geometry::min_u16(area.height, 6),
        area,
    )
}

/// The seconds that remain, counted up: the last second is shown until it is over.
pub open spec fn seconds_left(deadline: u64, now: u64) -> nat {
    larger((unicode::minus(deadline as int, now as int) as int + 999) / 1000, 1) as nat
}

/// What is said while a broadcast is being stopped.
pub open spec fn stop_text(flow: StopFlow, now: u64) -> Seq<char> {
    match flow {
        StopFlow::Confirm { .. } => "直播将中断"@,
        StopFlow::Countdown { deadline } => text::decimal_digits(seconds_left(deadline, now))
            + " 秒后停止推流"@,
        StopFlow::Stopping => "正在停止推流…"@,
    }
}

pub fn stop_message(flow: StopFlow, now: u64) -> (r: String)
    ensures
        r@ == stop_text(flow, now),
{
    match flow {
        StopFlow::Confirm { .. } => "直播将中断".to_owned(),
        StopFlow::Countdown { deadline } => {
            let left: u64 = deadline.saturating_sub(now);
            let whole: u64 = left / 1000;
            let seconds: u64 = if left % 1000 > 0 {
                whole + 1
            } else {
                whole
            };
            text::add2(
                text::decimal(
                    if seconds == 0 {
                        1
                    } else {
                        seconds
                    },
                ).as_str(),
                " 秒后停止推流",
            )
        },
        StopFlow::Stopping => "正在停止推流…".to_owned(),
    }
}

/// A choice in the question whether to stop.
pub open spec fn choice_text(label: Seq<char>, selected: bool) -> Seq<char> {
    (if selected {
        "› "@
    } else {
        "  "@
    }) + label
}

/// The two choices: stopping, and leaving it.
pub fn stop_choices(stop_selected: bool) -> (r: (String, String))
    ensures
        r.0@ == choice_text("停止推流"@, stop_selected),
        r.1@ == choice_text("取消"@, !stop_selected),
{
    let (first, second): (&'static str, &'static str) = if stop_selected {
        ("› ", "  ")
    } else {
        ("  ", "› ")
    };
    (text::add2(first, "停止推流"), text::add2(second, "取消"))
}

/// The message that the reader stands at, where one is selected or the list is scrolled.
pub open spec fn anchor_of(app: TerminalApp) -> Option<int> {
    let feed = app.stream.feed;
    let count = feed.events().len();
    if feed.selection_active && feed.selected < count {
        Some(feed.selected as int)
    } else if feed.scroll_offset > 0 && feed.scroll_offset < count {
        Some(feed.scroll_offset as int)
    } else {
        None
    }
}

/// The message at the reader's place is in the list.
pub open spec fn anchor_listed(app: TerminalApp) -> bool {
    let all = app.stream.feed.events();
    anchor_of(app) is Some && domain::has_id(events::listed(all), all[anchor_of(app)->0].id@)
}

/// The list of messages: whether older ones are read, whether one is selected, and the message
/// that has to be seen.
#[derive(Clone, Copy, Debug, PartialEq, Eq, Structural)]
pub struct EventList {
    pub browsing: bool,
    pub selected: bool,
    pub target: Option<usize>,
}

fn find_listed(list: &Vec<&DanmuEvent>, id: &str, Ghost(all): Ghost<Seq<DanmuEvent>>) -> (r: Option<
    usize,
>)
    requires
        list@.len() == all.len(),
        forall|i: int| 0 <= i < list@.len() ==> *(#[trigger] list@[i]) == all[i],
    ensures
        match r {
            Some(at) => domain::is_first_with_id(all, id@, at as int),
            None => !domain::has_id(all, id@),
        },
{
    let mut i: usize = 0;
    while i < list.len()
        invariant
            i <= list@.len() == all.len(),
            forall|i: int| 0 <= i < list@.len() ==> *(#[trigger] list@[i]) == all[i],
            forall|k: int| 0 <= k < i ==> (#[trigger] all[k]).id@ != id@,
        decreases list@.len() - i,
    {
        proof {
            assert(*list@[i as int] == all[i as int]);
        }
        if text::same(list[i].id.as_str(), id) {
            return Some(i);
        }
        i = i + 1;
    }
    None
}

impl TerminalApp {
    /// What lies on top.
    pub fn overlay(&self) -> (r: Overlay)
        ensures
            r == overlay_of(*self),
    {
        if self.desk.stop_flow.is_some() {
            return Overlay::Stop;
        }
        if self.desk.login_qr.is_some() {
            return Overlay::Qr;
        }
        if self.desk.secret_mode || self.review.edit.is_some() {
            return Overlay::Nothing;
        }
        if let Some(panel) = &self.panel {
            if panel.is_editing() {
                return Overlay::Panel;
            }
        }
        if self.desk.help.is_some() {
            Overlay::Help
        } else if self.desk.search.is_some() || self.desk.is_slashed() {
            Overlay::Palette
        } else if self.panel.is_some() {
            Overlay::Panel
        } else {
            Overlay::Nothing
        }
    }

    /// Which message the list shows: the one that the reader stands at, else the newest.
    pub fn event_list(&self) -> (r: EventList)
        ensures
            r.browsing == anchor_listed(*self),
            r.selected == (anchor_listed(*self) && self.stream.feed.selection_active
                && self.stream.feed.selected < self.stream.feed.events().len()),
            ({
                let all = self.stream.feed.events();
                let list = events::listed(all);
                if r.browsing {
                    r.target is Some && domain::is_first_with_id(
                        list,
                        all[anchor_of(*self)->0].id@,
                        r.target->0 as int,
                    )
                } else if list.len() == 0 {
                    r.target is None
                } else {
                    r.target matches Some(last) && last == list.len() - 1
                }
            }),
    {
        let all: &Vec<DanmuEvent> = &self.stream.feed.session.recent_events;
        let list: Vec<&DanmuEvent> = events::display_events(all);
        let chosen: bool = self.stream.feed.selection_active && self.stream.feed.selected
            < all.len();
        let anchor: Option<usize> = if chosen {
            Some(self.stream.feed.selected)
        } else if self.stream.feed.scroll_offset > 0 && self.stream.feed.scroll_offset
            < all.len() {
            Some(self.stream.feed.scroll_offset)
        } else {
            None
        };
        if let Some(at) = anchor {
            if let Some(place) = find_listed(
                &list,
                all[at].id.as_str(),
                Ghost(events::listed(all@)),
            ) {
                return EventList { browsing: true, selected: chosen, target: Some(place) };
            }
        }
        let target: Option<usize> = if list.len() == 0 {
            None
        } else {
            Some(list.len() - 1)
        };
        EventList { browsing: false, selected: false, target }
    }

    /// What stands above the list.
    pub fn list_title(&self, title: &str) -> (r: String)
        ensures
            r@ == title@ + (if anchor_listed(*self) {
                " · HISTORY"@
            } else {
                " · FOLLOW"@
            }),
    {
        if self.event_list().browsing {
            text::add2(title, " · HISTORY")
        } else {
            text::add2(title, " · FOLLOW")
        }
    }
}

/// What a small screen shows.
#[derive(Clone, Copy, Debug, PartialEq, Eq, Structural)]
pub enum SmallScreen {
    /// Nothing fits.
    Nothing,
    /// Only that older messages are read.
    HistoryOnly,
    /// Only one line of all.
    OneLine,
    /// The messages that are read, and the line below them.
    History { input: u16 },
    /// The newest messages, and the line below them.
    Newest { input: u16 },
}

pub open spec fn small_screen(height: u16, browsing: bool, input_lines: u16) -> SmallScreen {
    let input = larger(
        unicode::least(input_lines as int, unicode::minus(height as int, 1) as int),
        2,
    ) as u16;
    if height == 0 {
        SmallScreen::Nothing
    } else if height < 3 {
        if browsing {
            SmallScreen::HistoryOnly
        } else {
            SmallScreen::OneLine
        }
    } else if browsing {
        SmallScreen::History { input }
    } else {
        SmallScreen::Newest { input }
    }
}

/// What a small screen shows. The height is what remains below the line of the assistant.
pub fn draw_compact(height: u16, browsing: bool, input_lines: u16) -> (r: SmallScreen)
    ensures
        r == small_screen(height, browsing, input_lines),
{
    if height == 0 {
        return SmallScreen::Nothing;
    }
    if height < 3 {
        return if browsing {
            SmallScreen::HistoryOnly
        } else {
            SmallScreen::OneLine
        };
    }
    let typed: u16 = geometry::min_u16(input_lines, height - 1);
    let input: u16 = if typed < 2 {
        2
    } else {
        typed
    };
    if browsing {
        SmallScreen::History { input }
    } else {
        SmallScreen::Newest { input }
    }
}

/// No part of the screen gets more than it asks for beyond what it must have, and where there is
/// room for all that is asked for, each part gets it and the messages get the rest.
pub proof fn law_parts_get_what_they_ask_for(
    height: u16,
    status_lines: nat,
    notice_lines: nat,
    review_lines: u16,
    input_lines: u16,
)
    requires
        height >= 7,
    ensures
        ({
            let parts = divided(height, status_lines, notice_lines, review_lines, input_lines);
            let notice = if notice_lines < 3 {
                notice_lines as int
            } else {
                3
            };
            &&& parts.status <= status_lines || parts.status == 1
            &&& parts.notice <= notice
            &&& parts.review <= review_lines
            &&& parts.input <= input_lines || parts.input == 2
            &&& 1 <= status_lines && 2 <= input_lines && status_lines + notice + review_lines
                + input_lines + 2 <= height ==> parts.status == status_lines && parts.notice
                == notice && parts.review == review_lines && parts.input == input_lines
        }),
{
}

/// The question whether to stop covers everything, a code to scan all but that, and while a secret
/// or a reply is typed nothing else covers the messages.
pub proof fn law_questions_cover_the_rest(app: TerminalApp)
    ensures
        overlay_of(app) == Overlay::Stop <==> app.desk.stop_flow is Some,
        overlay_of(app) == Overlay::Qr <==> app.desk.stop_flow is None && app.desk.login_qr is Some,
        app.desk.stop_flow is None && app.desk.login_qr is None && (app.desk.secret_mode
            || app.review.edit is Some) ==> overlay_of(app) == Overlay::Nothing,
        overlay_of(app) == Overlay::Help ==> app.desk.help is Some,
        overlay_of(app) == Overlay::Panel ==> app.panel is Some,
        overlay_of(app) == Overlay::Palette ==> app.desk.search is Some || (
        app.desk.input.text().len() > 0 && app.desk.input.text()[0] == '/'),
{
}

/// The seconds of a countdown are rounded up, and the last one is told to its end.
pub proof fn law_countdowns_are_rounded_up(deadline: u64, now: u64)
    ensures
        seconds_left(deadline, now) >= 1,
        now < deadline ==> (seconds_left(deadline, now) - 1) * 1000 < deadline - now
            <= seconds_left(deadline, now) * 1000,
{
}

/// The message that is kept in view is the selected one, or else the one scrolled to.
pub proof fn law_the_reader_keeps_the_message_in_view(app: TerminalApp)
    ensures
        ({
            let feed = app.stream.feed;
            &&& feed.selection_active && feed.selected < feed.events().len() ==> anchor_of(app)
                == Some(feed.selected as int)
            &&& !feed.selection_active && 0 < feed.scroll_offset < feed.events().len()
                ==> anchor_of(app) == Some(feed.scroll_offset as int)
            &&& !feed.browses() ==> anchor_of(app) is None
        }),
{
}

/// On a small screen a line to type in stays as long as three rows are there, and reading older
/// messages shows as such.
pub proof fn law_small_screens_keep_a_line_to_type_in(
    height: u16,
    browsing: bool,
    input_lines: u16,
)
    ensures
        ({
            let shown = small_screen(height, browsing, input_lines);
            &&& shown is Nothing <==> height == 0
            &&& shown is History || shown is HistoryOnly ==> browsing
            &&& height > 0 && browsing ==> shown is History || shown is HistoryOnly
            &&& height >= 3 ==> shown is History || shown is Newest
            &&& shown matches SmallScreen::Newest { input } ==> 2 <= input < height
            &&& shown matches SmallScreen::History { input } ==> 2 <= input < height
        }),
{
}

} // verus!
