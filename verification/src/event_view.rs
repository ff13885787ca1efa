//! How messages are shown.
use vstd::prelude::*;
use vstd::string::*;

use crate::app::TerminalApp;
use crate::domain;
use crate::domain::{DanmuEvent, DanmuEventKind, DanmuEventOrigin};
use crate::events;
use crate::style;
use crate::style::{Span, SpanView, Tone};
use crate::text;

verus! {

/// The colour of a kind of message.
pub open spec fn kind_tone(kind: DanmuEventKind) -> Tone {
    match kind {
        DanmuEventKind::Danmu => Tone::Content,
        DanmuEventKind::Gift | DanmuEventKind::Pk | DanmuEventKind::Lottery => Tone::Rank,
        DanmuEventKind::GuardEvent | DanmuEventKind::Follow => Tone::Success,
        DanmuEventKind::Superchat
        | DanmuEventKind::Like
        | DanmuEventKind::Moderation => Tone::Warning,
        DanmuEventKind::Enter | DanmuEventKind::RoomStatus => Tone::Info,
        DanmuEventKind::Share => Tone::Name,
        DanmuEventKind::System => Tone::Time,
    }
}

pub fn event_color(kind: DanmuEventKind) -> (r: Tone)
    ensures
        r == kind_tone(kind),
{
    match kind {
        DanmuEventKind::Danmu => Tone::Content,
        DanmuEventKind::Gift | DanmuEventKind::Pk | DanmuEventKind::Lottery => Tone::Rank,
        DanmuEventKind::GuardEvent | DanmuEventKind::Follow => Tone::Success,
        DanmuEventKind::Superchat
        | DanmuEventKind::Like
        | DanmuEventKind::Moderation => Tone::Warning,
        DanmuEventKind::Enter | DanmuEventKind::RoomStatus => Tone::Info,
        DanmuEventKind::Share => Tone::Name,
        DanmuEventKind::System => Tone::Time,
    }
}

/// How far the assistant is with a message.
#[derive(Clone, Copy, Debug, PartialEq, Eq, Structural)]
pub enum Mark {
    Processing,
    Confirmed,
    Finished,
    Failed,
}

pub open spec fn mark_tone(mark: Mark) -> Tone {
    match mark {
        Mark::Processing => Tone::Yellow,
        Mark::Confirmed => Tone::Green,
        Mark::Finished => Tone::DarkGray,
        Mark::Failed => Tone::Red,
    }
}

/// The message was written by the broadcaster.
pub open spec fn by_broadcaster(app: TerminalApp, event: DanmuEvent) -> bool {
    app.stream.status.room matches Some(room) && text::opt_view(event.author_id) == Some(
        room.broadcaster_id@,
    )
}

/// The message was written by the assistant's own account.
pub open spec fn by_assistant(app: TerminalApp, event: DanmuEvent) -> bool {
    let id = app.automation.accounts.independent_user(app.account_status);
    event.kind == DanmuEventKind::Danmu && id is Some && text::opt_view(event.author_id) == id
}

/// The message was marked.
pub open spec fn is_featured(app: TerminalApp, event: DanmuEvent) -> bool {
    app.stream.feed.session.featured_event matches Some(featured) && featured.id@ == event.id@
}

/// When a message came, where times are shown, and that it came in an earlier run.
pub open spec fn time_spans(
    event: DanmuEvent,
    shown: bool,
    clock: Option<Seq<char>>,
) -> Seq<SpanView> {
    let time = match clock {
        Some(clock) => if shown {
            Seq::empty().push(style::toned(clock + " "@, Tone::Time))
        } else {
            Seq::empty()
        },
        None => Seq::empty(),
    };
    if event.origin == DanmuEventOrigin::Archived {
        time.push(style::toned("↶ "@, Tone::Time))
    } else {
        time
    }
}

/// The badge of a message that is none of a viewer's words.
pub open spec fn badge_spans(before: Seq<SpanView>, kind: DanmuEventKind) -> Seq<SpanView> {
    if kind == DanmuEventKind::Danmu {
        before
    } else {
        before.push(
            style::grounded(
                " "@ + events::marker_text(kind) + " "@ + domain::kind_text(kind) + " "@,
                Tone::Background,
                kind_tone(kind),
            ),
        ).push(style::plain(" "@))
    }
}

/// Who wrote a message, where names are shown.
pub open spec fn name_spans(
    before: Seq<SpanView>,
    event: DanmuEvent,
    shown: bool,
    broadcaster: bool,
    assistant: bool,
) -> Seq<SpanView> {
    if !shown {
        before
    } else {
        match event.username {
            Some(name) => (if broadcaster {
                before.push(style::bold_toned("♚ "@, Tone::Rank))
            } else {
                before
            }).push(
                style::bold_toned(
                    events::without_markup(name@),
                    if assistant {
                        Tone::Assistant
                    } else if broadcaster {
                        Tone::Host
                    } else {
                        Tone::Name
                    },
                ),
            ),
            None => if event.kind == DanmuEventKind::Danmu {
                before.push(style::bold_toned(domain::kind_text(event.kind), Tone::Name))
            } else {
                before
            },
        }
    }
}

/// How far the assistant is with a message.
pub open spec fn mark_spans(before: Seq<SpanView>, mark: Option<Mark>) -> Seq<SpanView> {
    match mark {
        Some(mark) => before.push(style::plain(" "@)).push(
            style::toned("◆"@, mark_tone(mark)),
        ),
        None => before,
    }
}

/// What is shown of a message beside its text.
pub open spec fn metadata_spans(
    app: TerminalApp,
    event: DanmuEvent,
    clock: Option<Seq<char>>,
    mark: Option<Mark>,
) -> Seq<SpanView> {
    mark_spans(
        name_spans(
            badge_spans(time_spans(event, app.show_time, clock), event.kind),
            event,
            app.show_name,
            by_broadcaster(app, event),
            by_assistant(app, event),
        ),
        if app.automation.running {
            mark
        } else {
            None
        },
    )
}

/// The text of a message.
pub open spec fn content_span(app: TerminalApp, event: DanmuEvent) -> SpanView {
    SpanView {
        content: events::visible_content(event),
        tone: Some(kind_tone(event.kind)),
        background: None,
        bold: is_featured(app, event),
    }
}

/// The lines of a message. As a chat, or over several lines, its text stands below the rest;
/// otherwise it follows in the same line.
pub open spec fn event_text(
    app: TerminalApp,
    event: DanmuEvent,
    clock: Option<Seq<char>>,
    mark: Option<Mark>,
    single_line: bool,
    width: nat,
) -> Seq<Seq<SpanView>> {
    let metadata = metadata_spans(app, event, clock, mark);
    let content = content_span(app, event);
    if app.layout_chat || !single_line {
        let lines = style::wrapped_spans(metadata, width) + style::wrapped_spans(
            Seq::empty().push(content),
            width,
        );
        if app.layout_chat {
            lines.push(Seq::empty())
        } else {
            lines
        }
    } else {
        style::wrapped_spans(
            (if metadata.len() > 0 {
                metadata.push(style::plain(" "@))
            } else {
                metadata
            }).push(content),
            width,
        )
    }
}

/// A message as it is shown.
#[derive(Debug)]
pub struct EventLines {
    pub lines: Vec<Vec<Span>>,
    /// The lines stand at the right edge.
    pub right: bool,
}

impl TerminalApp {
    /// The message was written by the broadcaster.
    fn wrote_as_broadcaster(&self, event: &DanmuEvent) -> (r: bool)
        ensures
            r == by_broadcaster(*self, *event),
    {
        match (&self.stream.status.room, &event.author_id) {
            (Some(room), Some(author)) => text::same(
                author.as_str(),
                room.broadcaster_id.as_str(),
            ),
            _ => false,
        }
    }

    /// The message was written by the assistant's own account.
    pub fn is_assistant_message(&self, event: &DanmuEvent) -> (r: bool)
        ensures
            r == by_assistant(*self, *event),
    {
        if event.kind != DanmuEventKind::Danmu {
            return false;
        }
        match (
            self.automation.accounts.independent_user_id(&self.account_status),
            &event.author_id,
        ) {
            (Some(id), Some(author)) => text::same(author.as_str(), id),
            _ => false,
        }
    }

    fn featured(&self, event: &DanmuEvent) -> (r: bool)
        ensures
            r == is_featured(*self, *event),
    {
        match &self.stream.feed.session.featured_event {
            Some(featured) => text::same(featured.id.as_str(), event.id.as_str()),
            None => false,
        }
    }

    fn metadata(&self, event: &DanmuEvent, clock: Option<&str>, mark: Option<Mark>) -> (r: Vec<
        Span,
    >)
        ensures
            style::span_views(r@) == metadata_spans(
                *self,
                *event,
                match clock {
                    Some(clock) => Some(clock@),
                    None => None,
                },
                mark,
            ),
    {
        let broadcaster: bool = self.wrote_as_broadcaster(event);
        let assistant: bool = self.is_assistant_message(event);
        let mut spans: Vec<Span> = style::no_spans();
        if self.show_time {
            if let Some(clock) = clock {
                style::push_span(&mut spans, Span::styled(text::add2(clock, " "), Tone::Time));
            }
        }
        if event.origin == DanmuEventOrigin::Archived {
            style::push_span(&mut spans, Span::styled("↶ ".to_owned(), Tone::Time));
        }
        if event.kind != DanmuEventKind::Danmu {
            let mut badge: String = text::add3(" ", events::event_marker(event.kind), " ");
            badge.append(domain::kind_label(event.kind));
            badge.append(" ");
            style::push_span(
                &mut spans,
                Span::on_ground(badge, Tone::Background, event_color(event.kind)),
            );
            style::push_span(&mut spans, Span::raw(" ".to_owned()));
        }
        if self.show_name {
            match &event.username {
                Some(name) => {
                    if broadcaster {
                        style::push_span(&mut spans, Span::bold("♚ ".to_owned(), Tone::Rank));
                    }
                    let tone: Tone = if assistant {
                        Tone::Assistant
                    } else if broadcaster {
                        Tone::Host
                    } else {
                        Tone::Name
                    };
                    style::push_span(
                        &mut spans,
                        Span::bold(events::clean_platform_markup(name.as_str()), tone),
                    );
                },
                None => {
                    if event.kind == DanmuEventKind::Danmu {
                        style::push_span(
                            &mut spans,
                            Span::bold(domain::kind_label(event.kind).to_owned(), Tone::Name),
                        );
                    }
                },
            }
        }
        if self.automation.running {
            if let Some(mark) = mark {
                let tone: Tone = match mark {
                    Mark::Processing => Tone::Yellow,
                    Mark::Confirmed => Tone::Green,
                    Mark::Finished => Tone::DarkGray,
                    Mark::Failed => Tone::Red,
                };
                style::push_span(&mut spans, Span::raw(" ".to_owned()));
                style::push_span(&mut spans, Span::styled("◆".to_owned(), tone));
            }
        }
        spans
    }

    /// The lines of a message at a width. The clock is the hour and the minute of the message as
    /// they are shown; it is left out where times are not shown.
    pub fn event_lines(
        &self,
        event: &DanmuEvent,
        clock: Option<&str>,
        mark: Option<Mark>,
        single_line: bool,
        width: u16,
    ) -> (r: EventLines)
        ensures
            style::line_views(r.lines@) == event_text(
                *self,
                *event,
                match clock {
                    Some(clock) => Some(clock@),
                    None => None,
                },
                mark,
                single_line,
                width as nat,
            ),
            r.right == (self.layout_chat && by_broadcaster(*self, *event)),
    {
        let mut metadata: Vec<Span> = self.metadata(event, clock, mark);
        let content: Span = Span {
            content: events::visible_event_content(event),
            tone: Some(event_color(event.kind)),
            background: None,
            bold: self.featured(event),
        };
        proof {
            assert(content@ == content_span(*self, *event));
        }
        let right: bool = self.layout_chat && self.wrote_as_broadcaster(event);
        if self.layout_chat || !single_line {
            let mut lines: Vec<Vec<Span>> = style::wrap_styled_spans(&metadata, width);
            let mut only: Vec<Span> = style::no_spans();
            style::push_span(&mut only, content);
            style::append_lines(&mut lines, style::wrap_styled_spans(&only, width));
            if self.layout_chat {
                style::push_spans(&mut lines, style::no_spans());
            }
            EventLines { lines, right }
        } else {
            if metadata.len() > 0 {
                style::push_span(&mut metadata, Span::raw(" ".to_owned()));
            }
            style::push_span(&mut metadata, content);
            EventLines { lines: style::wrap_styled_spans(&metadata, width), right }
        }
    }

    /// What stands above the messages.
    pub fn body_title(&self) -> (r: String)
        ensures
            r@ == title_text(*self),
    {
        match &self.stream.feed.session.featured_event {
            None => "Ghost Stage".to_owned(),
            Some(featured) => if self.show_name {
                let name: &str = match &featured.username {
                    Some(name) => name.as_str(),
                    None => "观众",
                };
                let mut out: String = text::add3("NOW · ", name, "：");
                out.append(featured.shown.as_str());
                out
            } else {
                text::add2("NOW · ", featured.shown.as_str())
            },
        }
    }
}

/// What stands above the messages: the one that was marked, where there is one.
pub open spec fn title_text(app: TerminalApp) -> Seq<char> {
    match app.stream.feed.session.featured_event {
        None => "Ghost Stage"@,
        Some(featured) => if app.show_name {
            "NOW · "@ + (match featured.username {
                Some(name) => name@,
                None => "观众"@,
            }) + "："@ + featured.shown@
        } else {
            "NOW · "@ + featured.shown@
        },
    }
}

/// With times hidden, nothing that is shown of a message depends on when it came.
pub proof fn law_hidden_times_do_not_show(
    app: TerminalApp,
    event: DanmuEvent,
    clock: Option<Seq<char>>,
    other: Option<Seq<char>>,
    mark: Option<Mark>,
    single_line: bool,
    width: nat,
)
    requires
        !app.show_time,
    ensures
        event_text(app, event, clock, mark, single_line, width) == event_text(
            app,
            event,
            other,
            mark,
            single_line,
            width,
        ),
{
}

/// With names hidden, nothing that is shown beside a message depends on who wrote it.
pub proof fn law_hidden_names_do_not_show(
    app: TerminalApp,
    event: DanmuEvent,
    other: DanmuEvent,
    clock: Option<Seq<char>>,
    mark: Option<Mark>,
)
    requires
        !app.show_name,
        event.kind == other.kind,
        event.origin == other.origin,
    ensures
        metadata_spans(app, event, clock, mark) == metadata_spans(app, other, clock, mark),
{
}

/// A message is marked as the host's only where the room is known and its host wrote it, and as the
/// assistant's only where the assistant has an account of its own and that account wrote it.
pub proof fn law_authors_are_marked_by_their_identifier(app: TerminalApp, event: DanmuEvent)
    ensures
        by_broadcaster(app, event) <==> app.stream.status.room is Some && event.author_id is Some
            && event.author_id->0@ == app.stream.status.room->0.broadcaster_id@,
        by_assistant(app, event) ==> event.kind == DanmuEventKind::Danmu && event.author_id is Some,
        by_assistant(app, event) ==> app.automation.accounts.independent_status.user() == Some(
            event.author_id->0@,
        ),
        is_featured(app, event) <==> app.stream.feed.session.featured_event is Some
            && app.stream.feed.session.featured_event->0.id@ == event.id@,
{
}

/// A name that is shown stands in the line as it is, without markers of highlighting; the host's
/// stands behind a crown.
pub proof fn law_shown_names_stand_in_the_line(
    before: Seq<SpanView>,
    event: DanmuEvent,
    broadcaster: bool,
    assistant: bool,
)
    requires
        event.username is Some,
    ensures
        ({
            let spans = name_spans(before, event, true, broadcaster, assistant);
            &&& spans.last().content == events::without_markup(event.username->0@)
            &&& spans.last().bold
            &&& broadcaster ==> spans.len() == before.len() + 2
            &&& !broadcaster ==> spans.len() == before.len() + 1
            &&& assistant ==> spans.last().tone == Some(Tone::Assistant)
            &&& !assistant && broadcaster ==> spans.last().tone == Some(Tone::Host)
            &&& !assistant && !broadcaster ==> spans.last().tone == Some(Tone::Name)
        }),
        name_spans(before, event, false, broadcaster, assistant) == before,
{
}

/// A message that was read from the archive is marked as such and no other is; the time shows only
/// where it is wanted and known.
pub proof fn law_archived_messages_are_marked(
    event: DanmuEvent,
    shown: bool,
    clock: Option<Seq<char>>,
)
    ensures
        time_spans(event, shown, clock).len() == (if shown && clock is Some {
            1int
        } else {
            0
        }) + (if event.origin == DanmuEventOrigin::Archived {
            1int
        } else {
            0
        }),
        shown && clock is Some ==> time_spans(event, shown, clock)[0].content == clock->0 + " "@,
{
}

/// The text of a message is its visible text, bold exactly where it is the marked one.
pub proof fn law_the_marked_message_is_bold(app: TerminalApp, event: DanmuEvent)
    ensures
        content_span(app, event).content == events::visible_content(event),
        content_span(app, event).bold <==> app.stream.feed.session.featured_event is Some
            && app.stream.feed.session.featured_event->0.id@ == event.id@,
{
}

/// How far a message has been dealt with shows only while the assistant runs.
pub proof fn law_marks_show_while_the_assistant_runs(
    app: TerminalApp,
    event: DanmuEvent,
    clock: Option<Seq<char>>,
    mark: Mark,
)
    ensures
        !app.automation.running ==> metadata_spans(app, event, clock, Some(mark)) == metadata_spans(
            app,
            event,
            clock,
            None,
        ),
        app.automation.running ==> metadata_spans(app, event, clock, Some(mark)).len()
            == metadata_spans(app, event, clock, None).len() + 2,
        app.automation.running ==> metadata_spans(app, event, clock, Some(mark)).last().tone == Some(
            match mark {
                Mark::Processing => Tone::Yellow,
                Mark::Confirmed => Tone::Green,
                Mark::Finished => Tone::DarkGray,
                Mark::Failed => Tone::Red,
            },
        ),
{
}

/// A chat message has no badge; every other event has one, with its sign and its name.
pub proof fn law_other_events_have_a_badge(before: Seq<SpanView>, kind: DanmuEventKind)
    ensures
        badge_spans(before, kind) == before <==> kind == DanmuEventKind::Danmu,
        kind != DanmuEventKind::Danmu ==> text::occurs_in(
            domain::kind_text(kind),
            badge_spans(before, kind)[before.len() as int].content,
        ),
{
    if kind != DanmuEventKind::Danmu {
        let badge = badge_spans(before, kind)[before.len() as int].content;
        let head = " "@ + events::marker_text(kind) + " "@;
        let name = domain::kind_text(kind);
        assert(badge =~= head + name + " "@);
        assert(badge.subrange(head.len() as int, (head.len() + name.len()) as int) =~= name);
        assert(text::matches_at(badge, name, head.len() as int));
        assert(badge_spans(before, kind).len() == before.len() + 2);
    }
}

/// Laid out as a chat, a message has its text on lines of its own behind those of its author, and
/// an empty line behind it; as a list it has no such line.
pub proof fn law_chats_put_the_text_below_its_author(
    app: TerminalApp,
    event: DanmuEvent,
    clock: Option<Seq<char>>,
    mark: Option<Mark>,
    single_line: bool,
    width: nat,
)
    ensures
        ({
            let lines = event_text(app, event, clock, mark, single_line, width);
            let author = style::wrapped_spans(metadata_spans(app, event, clock, mark), width);
            let said = style::wrapped_spans(
                Seq::empty().push(content_span(app, event)),
                width,
            );
            &&& app.layout_chat ==> lines == (author + said).push(Seq::empty())
            &&& !app.layout_chat && !single_line ==> lines == author + said
        }),
{
}

} // verus!
