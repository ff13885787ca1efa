//! The program as a whole: which part takes a key, a paste or the wheel, and what follows.
use vstd::prelude::*;
use vstd::string::*;

use crate::activity;
use crate::automation::{Automation, ProfileState};
use crate::desk;
use crate::desk::{Desk, SlashAction, SlashView};
use crate::domain::AccountStatus;
use crate::events;
use crate::feed::Feed;
use crate::input;
use crate::input::{Edit, LineEdit};
use crate::keys::{KeyCode, KeyEvent, KeyKind};
use crate::notice::NoticeLevel;
use crate::panel::{Facts, Panel};
use crate::panel_keys;
use crate::panel_keys::PanelAction;
use crate::review;
use crate::review::{Execution, Reply, Review, ReviewAction, Surfaces};
use crate::stream::Stream;
use crate::text;

verus! {

/// The program.
pub struct TerminalApp {
    pub stream: Stream,
    pub desk: Desk,
    pub review: Review,
    pub panel: Option<Panel>,
    /// The sign-in of the main account that waits to be scanned.
    pub main_login: Option<u64>,
    pub account_status: AccountStatus,
    pub automation: Automation,
    pub profile: ProfileState,
    /// The setting that is being saved outside.
    pub settings_operation: Option<u64>,
    pub layout_chat: bool,
    pub show_name: bool,
    pub show_time: bool,
}

/// Which part of the program takes a key.
#[derive(Clone, Copy, Debug, PartialEq, Eq, Structural)]
pub enum Route {
    Stop,
    CancelMainLogin,
    Quit,
    Pause,
    CancelAssistantLogin,
    Qr,
    Help,
    Panel,
    OpenAssistant,
    /// The key was not pressed just now.
    Unpressed,
    /// The key means nothing here.
    Swallowed,
    Review,
    ToggleSearch,
    SaveEdit,
    CancelEdit,
    Line,
}

/// What a key of the typed line does, where the palette does not take it.
#[derive(Clone, Copy, Debug, PartialEq, Eq, Structural)]
pub enum LineRoute {
    Nothing,
    Edit { edit: LineEdit, resets: bool },
    LeaveSecret,
    ReturnToLive,
    ToggleLayout,
    Select { older: bool },
    Scroll { older: bool },
    Mention,
    Submit,
}

/// What a key asks of the rest of the program.
#[derive(Debug)]
pub enum KeyAction {
    Nothing,
    Quit,
    Pause,
    CancelMainLogin,
    CancelAssistantLogin,
    Panel(PanelAction),
    OpenAssistant,
    Review(ReviewAction),
    SaveEdit,
    ToggleLayout,
    Submit(String),
}

pub ghost enum KeyView {
    Nothing,
    Quit,
    Pause,
    CancelMainLogin,
    CancelAssistantLogin,
    Panel(PanelAction),
    OpenAssistant,
    Review(ReviewAction),
    SaveEdit,
    ToggleLayout,
    Submit(Seq<char>),
}

impl View for KeyAction {
    type V = KeyView;

    open spec fn view(&self) -> KeyView {
        match *self {
            KeyAction::Nothing => KeyView::Nothing,
            KeyAction::Quit => KeyView::Quit,
            KeyAction::Pause => KeyView::Pause,
            KeyAction::CancelMainLogin => KeyView::CancelMainLogin,
            KeyAction::CancelAssistantLogin => KeyView::CancelAssistantLogin,
            KeyAction::Panel(action) => KeyView::Panel(action),
            KeyAction::OpenAssistant => KeyView::OpenAssistant,
            KeyAction::Review(action) => KeyView::Review(action),
            KeyAction::SaveEdit => KeyView::SaveEdit,
            KeyAction::ToggleLayout => KeyView::ToggleLayout,
            KeyAction::Submit(command) => KeyView::Submit(command@),
        }
    }
}

/// The assistant's commands are offered without being searched for.
pub open spec fn offers_ai(facts: Facts) -> bool {
    facts.saved_settings || facts.running || facts.connected || facts.candidates != 0
}

/// The part that takes a key. What is open on top comes first, but ending the program and pausing
/// the assistant are always possible.
pub open spec fn route_of(app: TerminalApp, key: KeyEvent, facts: Facts) -> Route {
    let d = app.desk;
    let pressed = key.kind == KeyKind::Press;
    let escape = key.code == KeyCode::Esc;
    if pressed && d.stop_flow is Some && !key.is_interrupt() && !key.is_pause() {
        Route::Stop
    } else if pressed && escape && app.main_login is Some {
        Route::CancelMainLogin
    } else if pressed && key.is_interrupt() {
        Route::Quit
    } else if pressed && key.is_pause() {
        Route::Pause
    } else if pressed && escape && facts.login_pending {
        Route::CancelAssistantLogin
    } else if pressed && d.login_qr is Some {
        Route::Qr
    } else if pressed && d.help is Some {
        Route::Help
    } else if pressed && d.search is None && app.review.edit is None && !d.secret_mode
        && app.panel is Some {
        Route::Panel
    } else if pressed && key.code == KeyCode::Char('g') && key.modifiers.only_control()
        && d.search is None {
        Route::OpenAssistant
    } else if !pressed {
        Route::Unpressed
    } else if key.code == KeyCode::Enter && key.modifiers.only_shift() {
        if d.secret_mode || d.search is Some {
            Route::Swallowed
        } else {
            Route::Review
        }
    } else if key.code == KeyCode::Char('o') && key.modifiers.only_control() {
        if app.review.edit is None && !d.secret_mode {
            Route::ToggleSearch
        } else {
            Route::Swallowed
        }
    } else if app.review.edit is Some && key.code == KeyCode::Enter {
        Route::SaveEdit
    } else if app.review.edit is Some && escape {
        Route::CancelEdit
    } else if app.review.edit is Some && (key.code == KeyCode::Tab || key.code == KeyCode::Up
        || key.code == KeyCode::Down) {
        Route::Swallowed
    } else {
        Route::Line
    }
}

/// While a message is selected to be answered, only the keys for that mean anything, unless a
/// command is typed.
pub open spec fn selection_holds(app: TerminalApp, key: KeyEvent) -> bool {
    let line = app.desk.input.text();
    let moves = (key.modifiers.none() || key.modifiers.shift) && (key.code == KeyCode::Up
        || key.code == KeyCode::Down);
    app.review.edit is None && !app.desk.secret_mode && app.desk.search is None
        && app.stream.feed.selection_active && !(desk::slashed(line) || (line.len() == 0
        && key.code == KeyCode::Char('/'))) && !moves && key.code != KeyCode::Enter && key.code
        != KeyCode::Esc && key.code != KeyCode::End
}

/// What a key with control held does to the line, where it means something.
pub open spec fn control_edit(key: KeyEvent) -> Option<LineRoute> {
    if !key.modifiers.control {
        None
    } else {
        match key.code {
            KeyCode::Char('u') => Some(
                LineRoute::Edit { edit: LineEdit::Clear, resets: false },
            ),
            KeyCode::Char('a') => Some(
                LineRoute::Edit { edit: LineEdit::Edit(Edit::Start), resets: false },
            ),
            KeyCode::Char('e') => Some(
                LineRoute::Edit { edit: LineEdit::Edit(Edit::End), resets: false },
            ),
            KeyCode::Char('w') => Some(
                LineRoute::Edit { edit: LineEdit::Edit(Edit::DeletePreviousWord), resets: true },
            ),
            KeyCode::Char('k') => Some(
                LineRoute::Edit { edit: LineEdit::Edit(Edit::DeleteToEnd), resets: true },
            ),
            KeyCode::Char('d') => Some(
                LineRoute::Edit { edit: LineEdit::Edit(Edit::DeleteAt), resets: true },
            ),
            _ => None,
        }
    }
}

/// What a key of the typed line does, where the palette does not take it.
pub open spec fn line_route(app: TerminalApp, key: KeyEvent) -> LineRoute {
    let d = app.desk;
    let browses = app.stream.feed.browses();
    if selection_holds(app, key) {
        LineRoute::Nothing
    } else if control_edit(key) is Some {
        control_edit(key)->0
    } else {
        match key.code {
            KeyCode::Esc => if d.secret_mode {
                LineRoute::LeaveSecret
            } else if browses {
                LineRoute::ReturnToLive
            } else {
                LineRoute::Nothing
            },
            KeyCode::Tab => LineRoute::ToggleLayout,
            KeyCode::Up | KeyCode::Down => if key.modifiers.shift {
                LineRoute::Select { older: key.code == KeyCode::Up }
            } else if key.modifiers.none() && !d.secret_mode {
                LineRoute::Scroll { older: key.code == KeyCode::Up }
            } else {
                LineRoute::Nothing
            },
            KeyCode::Home => LineRoute::Edit { edit: LineEdit::Edit(Edit::Start), resets: false },
            KeyCode::End => if app.review.edit is None && d.search is None && browses {
                LineRoute::ReturnToLive
            } else {
                LineRoute::Edit { edit: LineEdit::Edit(Edit::End), resets: false }
            },
            KeyCode::Left => LineRoute::Edit {
                edit: LineEdit::Edit(
                    if key.modifiers.alt {
                        Edit::WordLeft
                    } else {
                        Edit::Left
                    },
                ),
                resets: false,
            },
            KeyCode::Right => LineRoute::Edit {
                edit: LineEdit::Edit(
                    if key.modifiers.alt {
                        Edit::WordRight
                    } else {
                        Edit::Right
                    },
                ),
                resets: false,
            },
            KeyCode::Backspace => LineRoute::Edit {
                edit: LineEdit::Edit(Edit::DeleteBefore),
                resets: true,
            },
            KeyCode::Delete => LineRoute::Edit {
                edit: LineEdit::Edit(Edit::DeleteAt),
                resets: true,
            },
            KeyCode::Enter => if !d.secret_mode && app.stream.feed.selection_active
                && !desk::slashed(d.input.text()) {
                LineRoute::Mention
            } else {
                LineRoute::Submit
            },
            KeyCode::Char(c) => if key.modifiers.control && key.modifiers.alt {
                LineRoute::Nothing
            } else {
                LineRoute::Edit { edit: LineEdit::Type(c), resets: true }
            },
            _ => LineRoute::Nothing,
        }
    }
}

/// Ending the program and pausing the assistant work whatever is open, unless a sign-in of the
/// main account is being cancelled by the same key.
pub proof fn law_safety_keys_always_work(app: TerminalApp, key: KeyEvent, facts: Facts)
    requires
        key.kind == KeyKind::Press,
    ensures
        key.is_interrupt() ==> route_of(app, key, facts) == Route::Quit,
        key.is_pause() ==> route_of(app, key, facts) == Route::Pause,
{
}

/// Nothing that is open on top lets a key through to what lies below it: while a stop is being
/// confirmed, a code is shown or help is open, no key types, sends or decides anything.
pub proof fn law_what_is_open_takes_the_keys(app: TerminalApp, key: KeyEvent, facts: Facts)
    requires
        app.desk.stop_flow is Some || app.desk.login_qr is Some || app.desk.help is Some,
    ensures
        ({
            let route = route_of(app, key, facts);
            &&& route != Route::Line
            &&& route != Route::Review
            &&& route != Route::SaveEdit
            &&& route != Route::Panel
        }),
{
}

/// Holding a key down repeats nothing but time: a key that was not pressed just now changes no
/// text and decides nothing.
pub proof fn law_repeated_keys_decide_nothing(app: TerminalApp, key: KeyEvent, facts: Facts)
    requires
        key.kind != KeyKind::Press,
    ensures
        route_of(app, key, facts) == Route::Unpressed,
{
}

/// A name as it is put into the line: set apart from what stands before it.
pub open spec fn mention_of(before: Option<Seq<char>>, name: Seq<char>) -> Seq<char> {
    (if before is Some && text::trimmed(before->0).len() > 0 {
        " "@
    } else {
        ""@
    }) + "@"@ + name + " "@
}

/// Who is answered.
pub open spec fn selected_name(feed: Feed) -> Option<String> {
    if feed.selected < feed.events().len() {
        feed.events()[feed.selected as int].username
    } else {
        None
    }
}

/// The surfaces that are open.
pub open spec fn surfaces_of(app: TerminalApp) -> Surfaces {
    Surfaces {
        secret: app.desk.secret_mode,
        stopping: app.desk.stop_flow is Some,
        login: app.desk.login_qr is Some,
        panel: app.panel is Some,
    }
}

/// The program with another time of the last key.
pub open spec fn touched(app: TerminalApp, now: u64) -> TerminalApp {
    TerminalApp { desk: Desk { last_user_activity: now, ..app.desk }, ..app }
}

/// Only the notice board has changed.
pub open spec fn only_said(
    before: TerminalApp,
    after: TerminalApp,
    message: Seq<char>,
    level: NoticeLevel,
    now: u64,
) -> bool {
    &&& after == (TerminalApp { stream: after.stream, ..before })
    &&& after.stream == (Stream { board: after.stream.board, ..before.stream })
    &&& after.stream.board@ == before.stream.board@.noticed(message, level, now)
}

/// What a key of the typed line does to the program.
pub open spec fn line_keyed(
    before: TerminalApp,
    after: TerminalApp,
    key: KeyEvent,
    action: KeyView,
    now: u64,
) -> bool {
    let d = before.desk;
    match line_route(before, key) {
        LineRoute::Nothing => action is Nothing && after == before,
        LineRoute::ToggleLayout => action is ToggleLayout && after == before,
        LineRoute::Edit { edit, resets } => {
            &&& action is Nothing
            &&& after == (TerminalApp {
                desk: Desk {
                    input: after.desk.input,
                    slash_selection: if resets {
                        0
                    } else {
                        d.slash_selection
                    },
                    ..d
                },
                ..before
            })
            &&& (after.desk.input.text(), after.desk.input.position()) == input::performed(
                d.input.text(),
                d.input.position(),
                edit,
            )
        },
        LineRoute::LeaveSecret => {
            &&& action is Nothing
            &&& after == (TerminalApp {
                desk: Desk {
                    input: after.desk.input,
                    secret_mode: false,
                    secret_draft: None,
                    ..d
                },
                ..before
            })
            &&& desk::restored(d.secret_draft, after.desk.input)
        },
        LineRoute::ReturnToLive => {
            &&& action is Nothing
            &&& after == with_feed(before, before.stream.feed.live())
        },
        LineRoute::Select { older } => {
            &&& action is Nothing
            &&& after == with_feed(before, before.stream.feed.selection_moved(older))
        },
        LineRoute::Scroll { older } => {
            &&& action is Nothing
            &&& after == with_feed(before, before.stream.feed.scrolled(older))
        },
        LineRoute::Mention => {
            &&& action is Nothing
            &&& mentioned(before, after, now)
        },
        LineRoute::Submit => {
            &&& action == if events::sanitized(d.input.text()).len() > 0 {
                KeyView::Submit(events::sanitized(d.input.text()))
            } else {
                KeyView::Nothing
            }
            &&& after == (TerminalApp { desk: Desk { input: after.desk.input, ..d }, ..before })
            &&& after.desk.input.text().len() == 0
        },
    }
}

pub open spec fn with_feed(app: TerminalApp, feed: Feed) -> TerminalApp {
    TerminalApp { stream: Stream { feed, ..app.stream }, ..app }
}

/// The name of the selected message's author stands in the line, and the newest messages are
/// followed again.
pub open spec fn mentioned(before: TerminalApp, after: TerminalApp, now: u64) -> bool {
    match selected_name(before.stream.feed) {
        None => after == with_feed(before, before.stream.feed.live()),
        Some(name) => {
            let line = before.desk.input;
            &&& after == (TerminalApp { stream: after.stream, desk: after.desk, ..before })
            &&& after.stream == (Stream {
                feed: before.stream.feed.live(),
                board: after.stream.board,
                ..before.stream
            })
            &&& after.stream.board@ == before.stream.board@.noticed(
                "已选择 "@ + name@ + "，继续编辑后按 Enter 发送"@,
                NoticeLevel::Info,
                now,
            )
            &&& after.desk == (Desk {
                input: after.desk.input,
                slash_selection: 0,
                ..before.desk
            })
            &&& after.desk.input.text() == input::inserted(
                line.text(),
                line.position(),
                mention_of(line.cluster_before(), name@),
            )
            &&& after.desk.input.position() == line.position() + mention_of(
                line.cluster_before(),
                name@,
            ).len()
        },
    }
}

/// What a key does to the program.
pub open spec fn keyed(
    before: TerminalApp,
    after: TerminalApp,
    key: KeyEvent,
    facts: Facts,
    candidates: Seq<Reply>,
    generation: u64,
    state: Option<Execution>,
    action: KeyView,
    now: u64,
) -> bool {
    let d = before.desk;
    match route_of(before, key, facts) {
        Route::Stop => {
            let (flow, off) = desk::stop_after(d.stop_flow, key.code, now);
            let stepped = TerminalApp { desk: Desk { stop_flow: flow, ..d }, ..before };
            &&& action is Nothing
            &&& if off {
                only_said(stepped, after, "已取消停止推流"@, NoticeLevel::Info, now)
            } else {
                after == stepped
            }
        },
        Route::CancelMainLogin => {
            &&& action is CancelMainLogin
            &&& only_said(
                TerminalApp {
                    main_login: None,
                    desk: Desk { login_qr: None, ..d },
                    ..before
                },
                after,
                "已取消主账号扫码，原账号未更改"@,
                NoticeLevel::Info,
                now,
            )
        },
        Route::Quit => action is Quit && after == before,
        Route::Pause => action is Pause && after == before,
        Route::CancelAssistantLogin => {
            &&& action is CancelAssistantLogin
            &&& only_said(
                TerminalApp { desk: Desk { login_qr: None, ..d }, ..before },
                after,
                "已取消助手扫码，原账号未更改"@,
                NoticeLevel::Info,
                now,
            )
        },
        Route::Qr => {
            &&& action is Nothing
            &&& after == if key.code == KeyCode::Esc {
                TerminalApp { desk: Desk { login_qr: None, ..d }, ..before }
            } else {
                before
            }
        },
        Route::Help => {
            &&& action is Nothing
            &&& after == (TerminalApp {
                desk: Desk { help: desk::help_after(d.help->0, key.code), ..d },
                ..before
            })
        },
        Route::Panel => {
            &&& action == KeyView::Panel(panel_keys::key_action(before.panel->0, key, facts))
            &&& after == (TerminalApp { panel: after.panel, ..before })
            &&& after.panel is Some
            &&& panel_keys::pressed(before.panel->0, after.panel->0, key, facts)
        },
        Route::OpenAssistant => action is OpenAssistant && after == before,
        Route::Unpressed => {
            &&& action is Nothing
            &&& after == if key.kind == KeyKind::Repeat {
                touched(before, now)
            } else {
                before
            }
        },
        Route::Swallowed => action is Nothing && after == touched(before, now),
        Route::Review => {
            &&& action == KeyView::Review(
                review::review_action(
                    before.review,
                    key,
                    surfaces_of(before),
                    candidates,
                    generation,
                ),
            )
            &&& after == touched(before, now)
        },
        Route::ToggleSearch => {
            &&& action is Nothing
            &&& if d.search is Some {
                &&& after == (TerminalApp { desk: after.desk, ..before })
                &&& touched(before, now).desk.closed(after.desk)
            } else {
                &&& after == (TerminalApp { desk: after.desk, review: after.review, ..before })
                &&& after.desk == (Desk {
                    input: after.desk.input,
                    search: Some(d.input),
                    slash_selection: 0,
                    last_user_activity: now,
                    ..d
                })
                &&& after.desk.input.text().len() == 0
                &&& hidden(before.review, after.review, state)
            }
        },
        Route::SaveEdit => action is SaveEdit && after == touched(before, now),
        Route::CancelEdit => {
            &&& action is Nothing
            &&& only_said(
                TerminalApp {
                    desk: Desk {
                        input: before.review.edit->0.draft,
                        slash_selection: 0,
                        last_user_activity: now,
                        ..d
                    },
                    review: Review {
                        edit: None,
                        selected: Some(
                            (before.review.edit->0.caller, before.review.edit->0.request),
                        ),
                        ..before.review
                    },
                    ..before
                },
                after,
                "已取消回复编辑；人工草稿已恢复"@,
                NoticeLevel::Info,
                now,
            )
        },
        Route::Line => {
            let fresh = touched(before, now);
            if before.review.edit is None && !slash_ignores(fresh, key, facts) {
                &&& after == (TerminalApp { desk: after.desk, ..before })
                &&& match action {
                    KeyView::Submit(command) => fresh.desk.slash_keyed(
                        after.desk,
                        key,
                        offers_ai(facts),
                        SlashView::Submit(command),
                    ),
                    KeyView::Nothing => fresh.desk.slash_keyed(
                        after.desk,
                        key,
                        offers_ai(facts),
                        SlashView::Handled,
                    ),
                    _ => false,
                }
            } else {
                line_keyed(fresh, after, key, action, now)
            }
        },
    }
}

/// The palette does not take a key.
pub open spec fn slash_ignores(app: TerminalApp, key: KeyEvent, facts: Facts) -> bool {
    app.desk.slash_keyed(app.desk, key, offers_ai(facts), SlashView::Ignored)
}

/// The review after its surface was covered.
pub open spec fn hidden(before: Review, after: Review, state: Option<Execution>) -> bool {
    &&& after == (Review { frame: after.frame, ..before })
    &&& match before.frame {
        None => after.frame is None,
        Some(shown) => if !shown.delivery {
            after.frame == Some(review::ReviewFrame { visible: false, ..shown })
        } else {
            match state {
                None | Some(Execution::Confirmed) => after.frame is None,
                Some(state) => after.frame == Some(
                    review::ReviewFrame {
                        visible: false,
                        reply: Reply { state, ..shown.reply },
                        ..shown
                    },
                ),
            }
        },
    }
}

impl TerminalApp {
    pub open spec fn wf(self) -> bool {
        &&& self.stream.wf()
        &&& self.desk.wf()
        &&& self.review.wf()
        &&& self.panel matches Some(panel) ==> panel.wf()
    }

    pub(crate) fn include_ai(facts: &Facts) -> (r: bool)
        ensures
            r == offers_ai(*facts),
    {
        facts.saved_settings || facts.running || facts.connected || facts.candidates != 0
    }

    /// The part that takes a key.
    pub fn route(&self, key: KeyEvent, facts: &Facts) -> (r: Route)
        ensures
            r == route_of(*self, key, *facts),
    {
        let d: &Desk = &self.desk;
        let pressed: bool = matches!(key.kind, KeyKind::Press);
        let escape: bool = matches!(key.code, KeyCode::Esc);
        let editing: bool = self.review.edit.is_some();
        if !pressed {
            return Route::Unpressed;
        }
        if d.stop_flow.is_some() && !key.interrupts() && !key.pauses() {
            return Route::Stop;
        }
        if escape && self.main_login.is_some() {
            return Route::CancelMainLogin;
        }
        if key.interrupts() {
            return Route::Quit;
        }
        if key.pauses() {
            return Route::Pause;
        }
        if escape && facts.login_pending {
            return Route::CancelAssistantLogin;
        }
        if d.login_qr.is_some() {
            return Route::Qr;
        }
        if d.help.is_some() {
            return Route::Help;
        }
        if d.search.is_none() && !editing && !d.secret_mode && self.panel.is_some() {
            return Route::Panel;
        }
        if matches!(key.code, KeyCode::Char('g')) && key.modifiers.is_control()
            && d.search.is_none() {
            return Route::OpenAssistant;
        }
        if matches!(key.code, KeyCode::Enter) && key.modifiers.is_shift() {
            return if d.secret_mode || d.search.is_some() {
                Route::Swallowed
            } else {
                Route::Review
            };
        }
        if matches!(key.code, KeyCode::Char('o')) && key.modifiers.is_control() {
            return if !editing && !d.secret_mode {
                Route::ToggleSearch
            } else {
                Route::Swallowed
            };
        }
        if editing {
            match key.code {
                KeyCode::Enter => {
                    return Route::SaveEdit;
                },
                KeyCode::Esc => {
                    return Route::CancelEdit;
                },
                KeyCode::Tab | KeyCode::Up | KeyCode::Down => {
                    return Route::Swallowed;
                },
                _ => {},
            }
        }
        Route::Line
    }

    fn holds_selection(&self, key: KeyEvent) -> (r: bool)
        ensures
            r == selection_holds(*self, key),
    {
        let moves: bool = (key.modifiers.is_empty() || key.modifiers.shift) && matches!(
            key.code,
            KeyCode::Up | KeyCode::Down
        );
        let typed: bool = self.desk.is_slashed() || (self.desk.input.is_empty() && matches!(
            key.code,
            KeyCode::Char('/')
        ));
        self.review.edit.is_none() && !self.desk.secret_mode && self.desk.search.is_none()
            && self.stream.feed.selection_active && !typed && !moves && !matches!(
            key.code,
            KeyCode::Enter | KeyCode::Esc | KeyCode::End
        )
    }

    fn control_route(key: KeyEvent) -> (r: Option<LineRoute>)
        ensures
            r == control_edit(key),
    {
        if !key.modifiers.control {
            return None;
        }
        match key.code {
            KeyCode::Char('u') => Some(
                LineRoute::Edit { edit: LineEdit::Clear, resets: false },
            ),
            KeyCode::Char('a') => Some(
                LineRoute::Edit { edit: LineEdit::Edit(Edit::Start), resets: false },
            ),
            KeyCode::Char('e') => Some(
                LineRoute::Edit { edit: LineEdit::Edit(Edit::End), resets: false },
            ),
            KeyCode::Char('w') => Some(
                LineRoute::Edit { edit: LineEdit::Edit(Edit::DeletePreviousWord), resets: true },
            ),
            KeyCode::Char('k') => Some(
                LineRoute::Edit { edit: LineEdit::Edit(Edit::DeleteToEnd), resets: true },
            ),
            KeyCode::Char('d') => Some(
                LineRoute::Edit { edit: LineEdit::Edit(Edit::DeleteAt), resets: true },
            ),
            _ => None,
        }
    }

    /// What a key of the typed line does, where the palette does not take it.
    pub fn line_route(&self, key: KeyEvent) -> (r: LineRoute)
        ensures
            r == line_route(*self, key),
    {
        if self.holds_selection(key) {
            return LineRoute::Nothing;
        }
        if let Some(route) = TerminalApp::control_route(key) {
            return route;
        }
        let d: &Desk = &self.desk;
        let browses: bool = self.stream.feed.is_browsing_history();
        let alt: bool = key.modifiers.alt;
        match key.code {
            KeyCode::Esc => if d.secret_mode {
                LineRoute::LeaveSecret
            } else if browses {
                LineRoute::ReturnToLive
            } else {
                LineRoute::Nothing
            },
            KeyCode::Tab => LineRoute::ToggleLayout,
            KeyCode::Up | KeyCode::Down => {
                let older: bool = matches!(key.code, KeyCode::Up);
                if key.modifiers.shift {
                    LineRoute::Select { older }
                } else if key.modifiers.is_empty() && !d.secret_mode {
                    LineRoute::Scroll { older }
                } else {
                    LineRoute::Nothing
                }
            },
            KeyCode::Home => LineRoute::Edit { edit: LineEdit::Edit(Edit::Start), resets: false },
            KeyCode::End => if self.review.edit.is_none() && d.search.is_none() && browses {
                LineRoute::ReturnToLive
            } else {
                LineRoute::Edit { edit: LineEdit::Edit(Edit::End), resets: false }
            },
            KeyCode::Left => LineRoute::Edit {
                edit: LineEdit::Edit(
                    if alt {
                        Edit::WordLeft
                    } else {
                        Edit::Left
                    },
                ),
                resets: false,
            },
            KeyCode::Right => LineRoute::Edit {
                edit: LineEdit::Edit(
                    if alt {
                        Edit::WordRight
                    } else {
                        Edit::Right
                    },
                ),
                resets: false,
            },
            KeyCode::Backspace => LineRoute::Edit {
                edit: LineEdit::Edit(Edit::DeleteBefore),
                resets: true,
            },
            KeyCode::Delete => LineRoute::Edit {
                edit: LineEdit::Edit(Edit::DeleteAt),
                resets: true,
            },
            KeyCode::Enter => if !d.secret_mode && self.stream.feed.selection_active
                && !d.is_slashed() {
                LineRoute::Mention
            } else {
                LineRoute::Submit
            },
            KeyCode::Char(c) => if key.modifiers.control && alt {
                LineRoute::Nothing
            } else {
                LineRoute::Edit { edit: LineEdit::Type(c), resets: true }
            },
            _ => LineRoute::Nothing,
        }
    }

    fn mention(&mut self, now: u64)
        requires
            old(self).wf(),
            now <= activity::LAST_INSTANT,
        ensures
            final(self).wf(),
            mentioned(*old(self), *final(self), now),
    {
        let ghost before = *self;
        let at: usize = self.stream.feed.selected;
        let name: Option<String> = if at < self.stream.feed.session.recent_events.len() {
            match &self.stream.feed.session.recent_events[at].username {
                Some(name) => Some(name.clone()),
                None => None,
            }
        } else {
            None
        };
        self.stream.feed.return_to_live();
        if let Some(name) = name {
            let previous: Option<String> = self.desk.input.previous_grapheme();
            let spaced: bool = match &previous {
                Some(previous) => !text::trim(previous.as_str()).as_str().is_empty(),
                None => false,
            };
            let mut mention: String = if spaced {
                text::add2(" ", "@")
            } else {
                text::add2("", "@")
            };
            mention.append(name.as_str());
            mention.append(" ");
            proof {
                assert(mention@ == mention_of(before.desk.input.cluster_before(), name@));
            }
            self.desk.input.insert_text(mention.as_str());
            self.desk.slash_selection = 0;
            self.stream.board.set_notice_at(
                text::add3("已选择 ", name.as_str(), "，继续编辑后按 Enter 发送"),
                NoticeLevel::Info,
                now,
            );
        }
    }

    fn handle_line_key(&mut self, key: KeyEvent, now: u64) -> (r: KeyAction)
        requires
            old(self).wf(),
            now <= activity::LAST_INSTANT,
        ensures
            final(self).wf(),
            line_keyed(*old(self), *final(self), key, r@, now),
    {
        match self.line_route(key) {
            LineRoute::Nothing => KeyAction::Nothing,
            LineRoute::ToggleLayout => KeyAction::ToggleLayout,
            LineRoute::Edit { edit, resets } => {
                self.desk.edit_line(edit, resets);
                KeyAction::Nothing
            },
            LineRoute::LeaveSecret => {
                self.desk.leave_secret();
                KeyAction::Nothing
            },
            LineRoute::ReturnToLive => {
                self.stream.feed.return_to_live();
                KeyAction::Nothing
            },
            LineRoute::Select { older } => {
                self.stream.feed.move_selection(older);
                KeyAction::Nothing
            },
            LineRoute::Scroll { older } => {
                self.stream.feed.scroll_history(older);
                KeyAction::Nothing
            },
            LineRoute::Mention => {
                self.mention(now);
                KeyAction::Nothing
            },
            LineRoute::Submit => {
                let command: String = events::sanitize_input(self.desk.input.take());
                if command.as_str().is_empty() {
                    KeyAction::Nothing
                } else {
                    KeyAction::Submit(command)
                }
            },
        }
    }

    /// Takes a key.
    #[verifier::rlimit(40)]
    pub fn handle_key(
        &mut self,
        key: KeyEvent,
        facts: &Facts,
        candidates: &Vec<Reply>,
        generation: u64,
        state: Option<Execution>,
        now: u64,
    ) -> (r: KeyAction)
        requires
            old(self).wf(),
            now <= activity::LAST_INSTANT,
        ensures
            final(self).wf(),
            keyed(
                *old(self),
                *final(self),
                key,
                *facts,
                candidates@,
                generation,
                state,
                r@,
                now,
            ),
    {
        let ghost before = *self;
        let route: Route = self.route(key, facts);
        match route {
            Route::Stop => {
                if self.desk.handle_stop_key(key.code, now) {
                    self.stream.board.say("已取消停止推流", NoticeLevel::Info, now);
                }
                return KeyAction::Nothing;
            },
            Route::CancelMainLogin => {
                self.main_login = None;
                self.desk.login_qr = None;
                self.stream.board.say(
                    "已取消主账号扫码，原账号未更改",
                    NoticeLevel::Info,
                    now,
                );
                return KeyAction::CancelMainLogin;
            },
            Route::Quit => {
                return KeyAction::Quit;
            },
            Route::Pause => {
                return KeyAction::Pause;
            },
            Route::CancelAssistantLogin => {
                self.desk.login_qr = None;
                self.stream.board.say(
                    "已取消助手扫码，原账号未更改",
                    NoticeLevel::Info,
                    now,
                );
                return KeyAction::CancelAssistantLogin;
            },
            Route::Qr => {
                if matches!(key.code, KeyCode::Esc) {
                    self.desk.login_qr = None;
                }
                return KeyAction::Nothing;
            },
            Route::Help => {
                self.desk.handle_help_key(key.code);
                return KeyAction::Nothing;
            },
            Route::Panel => {
                if let Some(panel) = &mut self.panel {
                    let action: PanelAction = panel.assistant_key(key, facts);
                    return KeyAction::Panel(action);
                }
                return KeyAction::Nothing;
            },
            Route::OpenAssistant => {
                return KeyAction::OpenAssistant;
            },
            Route::Unpressed => {
                if matches!(key.kind, KeyKind::Repeat) {
                    self.desk.last_user_activity = now;
                }
                return KeyAction::Nothing;
            },
            _ => {},
        }
        self.desk.last_user_activity = now;
        match route {
            Route::Review => {
                let open: Surfaces = Surfaces {
                    secret: self.desk.secret_mode,
                    stopping: self.desk.stop_flow.is_some(),
                    login: self.desk.login_qr.is_some(),
                    panel: self.panel.is_some(),
                };
                KeyAction::Review(self.review.review_key(key, open, candidates, generation))
            },
            Route::ToggleSearch => {
                if self.desk.search.is_some() {
                    self.desk.close_command_search();
                } else {
                    self.desk.open_commands();
                    self.review.clear_review_surface(state);
                }
                KeyAction::Nothing
            },
            Route::SaveEdit => KeyAction::SaveEdit,
            Route::CancelEdit => {
                self.review.finish_candidate_edit(&mut self.desk.input);
                self.desk.slash_selection = 0;
                self.stream.board.say(
                    "已取消回复编辑；人工草稿已恢复",
                    NoticeLevel::Info,
                    now,
                );
                KeyAction::Nothing
            },
            Route::Line => {
                let ghost fresh = *self;
                if self.review.edit.is_none() {
                    match self.desk.handle_slash_key(key, TerminalApp::include_ai(facts)) {
                        SlashAction::Ignored => {
                            proof {
                                assert(self.desk == fresh.desk);
                            }
                        },
                        SlashAction::Handled => {
                            proof {
                                assert(fresh.desk.slash_keyed(
                                    self.desk,
                                    key,
                                    offers_ai(*facts),
                                    SlashView::Handled,
                                ));
                            }
                            return KeyAction::Nothing;
                        },
                        SlashAction::Submit(command) => {
                            proof {
                                assert(fresh.desk.slash_keyed(
                                    self.desk,
                                    key,
                                    offers_ai(*facts),
                                    SlashView::Submit(command@),
                                ));
                            }
                            return KeyAction::Submit(command);
                        },
                    }
                }
                self.handle_line_key(key, now)
            },
            _ => KeyAction::Nothing,
        }
    }
}

/// Nothing is open over the line: no question, no login, no help, no search, no secret, no reply
/// that is edited and no panel.
pub open spec fn is_bare(app: TerminalApp) -> bool {
    &&& app.desk.stop_flow is None
    &&& app.desk.login_qr is None
    &&& app.desk.help is None
    &&& app.desk.search is None
    &&& !app.desk.secret_mode
    &&& app.review.edit is None
    &&& app.panel is None
    &&& app.main_login is None
}

/// With nothing open and nothing selected, enter hands on the typed line, without what cannot be
/// seen and the white space around it, and empties it; an empty line is not handed on.
pub proof fn law_enter_hands_on_the_line(
    before: TerminalApp,
    after: TerminalApp,
    key: KeyEvent,
    facts: Facts,
    candidates: Seq<Reply>,
    generation: u64,
    state: Option<Execution>,
    action: KeyView,
    now: u64,
)
    requires
        keyed(before, after, key, facts, candidates, generation, state, action, now),
        is_bare(before),
        !before.stream.feed.selection_active,
        key.kind == KeyKind::Press,
        key.code == KeyCode::Enter,
        key.modifiers.none(),
        before.desk.input.text().len() == 0 || before.desk.input.text()[0] != '/',
    ensures
        events::sanitized(before.desk.input.text()).len() > 0 ==> action == KeyView::Submit(
            events::sanitized(before.desk.input.text()),
        ),
        events::sanitized(before.desk.input.text()).len() == 0 ==> action is Nothing,
        after.desk.input.text().len() == 0,
        after.stream == before.stream,
{
}

/// With nothing open and nothing selected, a plain character is typed at the cursor and does
/// nothing else.
pub proof fn law_characters_are_typed(
    before: TerminalApp,
    after: TerminalApp,
    key: KeyEvent,
    facts: Facts,
    candidates: Seq<Reply>,
    generation: u64,
    state: Option<Execution>,
    action: KeyView,
    now: u64,
    c: char,
)
    requires
        keyed(before, after, key, facts, candidates, generation, state, action, now),
        is_bare(before),
        before.desk.input.wf(),
        !before.stream.feed.selection_active,
        key.kind == KeyKind::Press,
        key.code == KeyCode::Char(c),
        key.modifiers.none(),
        before.desk.input.text().len() == 0 || before.desk.input.text()[0] != '/',
    ensures
        action is Nothing,
        after.desk.input.text() == before.desk.input.text().insert(
            before.desk.input.position() as int,
            c,
        ),
        after.desk.input.position() == before.desk.input.position() + 1,
        after.stream == before.stream,
        after.review == before.review,
{
    input::law_typing_puts_the_character_at_the_cursor(
        before.desk.input.text(),
        before.desk.input.position(),
        c,
    );
    assert(after.desk.input.text() =~= before.desk.input.text().insert(
        before.desk.input.position() as int,
        c,
    ));
}

/// With nothing open, up and down go to older and newer messages: with shift held they select one,
/// alone they scroll. Nothing is typed or decided.
pub proof fn law_arrows_go_through_the_messages(
    before: TerminalApp,
    after: TerminalApp,
    key: KeyEvent,
    facts: Facts,
    candidates: Seq<Reply>,
    generation: u64,
    state: Option<Execution>,
    action: KeyView,
    now: u64,
)
    requires
        keyed(before, after, key, facts, candidates, generation, state, action, now),
        is_bare(before),
        key.kind == KeyKind::Press,
        key.code == KeyCode::Up || key.code == KeyCode::Down,
        key.modifiers.none() || key.modifiers.only_shift(),
        before.desk.input.text().len() == 0 || before.desk.input.text()[0] != '/',
    ensures
        action is Nothing,
        after.desk.input == before.desk.input,
        key.modifiers.shift && key.code == KeyCode::Up ==> after.stream.feed
            == before.stream.feed.selection_moved(true),
        key.modifiers.shift && key.code == KeyCode::Down ==> after.stream.feed
            == before.stream.feed.selection_moved(false),
        !key.modifiers.shift && key.code == KeyCode::Up ==> after.stream.feed
            == before.stream.feed.scrolled(true),
        !key.modifiers.shift && key.code == KeyCode::Down ==> after.stream.feed
            == before.stream.feed.scrolled(false),
{
}

/// With nothing open, escape leads back from older messages to the live end and keeps the line.
pub proof fn law_escape_returns_to_the_live_end(
    before: TerminalApp,
    after: TerminalApp,
    key: KeyEvent,
    facts: Facts,
    candidates: Seq<Reply>,
    generation: u64,
    state: Option<Execution>,
    action: KeyView,
    now: u64,
)
    requires
        keyed(before, after, key, facts, candidates, generation, state, action, now),
        is_bare(before),
        !facts.login_pending,
        key.kind == KeyKind::Press,
        key.code == KeyCode::Esc,
        key.modifiers.none(),
        before.desk.input.text().len() == 0 || before.desk.input.text()[0] != '/',
    ensures
        action is Nothing,
        !after.stream.feed.selection_active,
        after.stream.feed.scroll_offset == 0,
        after.stream.feed.session == before.stream.feed.session,
        after.desk.input == before.desk.input,
{
}

/// Enter on a selected message puts its author's name, behind an `@` and before a space, at the
/// cursor, goes back to the live end and sends nothing; what was typed stays around it.
pub proof fn law_enter_mentions_the_selected_author(
    before: TerminalApp,
    after: TerminalApp,
    key: KeyEvent,
    facts: Facts,
    candidates: Seq<Reply>,
    generation: u64,
    state: Option<Execution>,
    action: KeyView,
    now: u64,
    name: Seq<char>,
)
    requires
        keyed(before, after, key, facts, candidates, generation, state, action, now),
        is_bare(before),
        before.desk.input.wf(),
        before.stream.feed.selection_active,
        before.stream.feed.selected < before.stream.feed.events().len(),
        text::opt_view(
            before.stream.feed.events()[before.stream.feed.selected as int].username,
        ) == Some(name),
        key.kind == KeyKind::Press,
        key.code == KeyCode::Enter,
        key.modifiers.none(),
        before.desk.input.text().len() == 0 || before.desk.input.text()[0] != '/',
    ensures
        action is Nothing,
        !after.stream.feed.selection_active,
        ({
            let line = before.desk.input.text();
            let at = before.desk.input.position() as int;
            let head = line.subrange(0, at);
            let tail = line.subrange(at, line.len() as int);
            let mention = seq!['@'] + name + seq![' '];
            ||| after.desk.input.text() == head + mention + tail && after.desk.input.position()
                == at + mention.len()
            ||| at > 0 && after.desk.input.text() == head + seq![' '] + mention + tail
                && after.desk.input.position() == at + 1 + mention.len()
        }),
{
    reveal_strlit(" ");
    reveal_strlit("");
    reveal_strlit("@");
    let line = before.desk.input.text();
    let at = before.desk.input.position() as int;
    let prior = before.desk.input.cluster_before();
    let gap = if prior is Some && text::trimmed(prior->0).len() > 0 {
        seq![' ']
    } else {
        Seq::<char>::empty()
    };
    assert(mention_of(prior, name) =~= gap + seq!['@'] + name + seq![' ']);
    assert(line.take(at) =~= line.subrange(0, at));
    assert(line.skip(at) =~= line.subrange(at, line.len() as int));
    let mention = seq!['@'] + name + seq![' '];
    let tail = line.subrange(at, line.len() as int);
    if gap.len() == 0 {
        assert(after.desk.input.text() =~= line.subrange(0, at) + mention + tail);
    } else {
        assert(after.desk.input.text() =~= line.subrange(0, at) + seq![' '] + mention + tail);
    }
}

/// Leaving the edit of a reply brings back what was typed before it and decides nothing.
pub proof fn law_leaving_an_edit_restores_the_line(
    before: TerminalApp,
    after: TerminalApp,
    key: KeyEvent,
    facts: Facts,
    candidates: Seq<Reply>,
    generation: u64,
    state: Option<Execution>,
    action: KeyView,
    now: u64,
)
    requires
        keyed(before, after, key, facts, candidates, generation, state, action, now),
        before.review.edit is Some,
        before.desk.stop_flow is None,
        before.desk.login_qr is None,
        before.desk.help is None,
        before.main_login is None,
        !facts.login_pending,
        key.kind == KeyKind::Press,
        key.code == KeyCode::Esc,
        key.modifiers.none(),
    ensures
        action is Nothing,
        after.review.edit is None,
        after.desk.input == before.review.edit->0.draft,
        after.automation == before.automation,
{
}

/// Looking for a command with control and `o` puts the typed line aside, and the same keys bring
/// it back.
pub proof fn law_looking_for_a_command_keeps_the_line(
    before: TerminalApp,
    during: TerminalApp,
    after: TerminalApp,
    key: KeyEvent,
    facts: Facts,
    candidates: Seq<Reply>,
    generation: u64,
    state: Option<Execution>,
    first: KeyView,
    second: KeyView,
    now: u64,
    later: u64,
)
    requires
        is_bare(before),
        key.kind == KeyKind::Press,
        key.code == KeyCode::Char('o'),
        key.modifiers.only_control(),
        keyed(before, during, key, facts, candidates, generation, state, first, now),
        keyed(during, after, key, facts, candidates, generation, state, second, later),
    ensures
        first is Nothing,
        second is Nothing,
        during.desk.search == Some(before.desk.input),
        during.desk.input.text().len() == 0,
        after.desk.input == before.desk.input,
        after.desk.search is None,
{
}

/// Shift and enter never hand on the typed line: they are about the reply on the screen.
pub proof fn law_shift_enter_sends_no_line(
    before: TerminalApp,
    after: TerminalApp,
    key: KeyEvent,
    facts: Facts,
    candidates: Seq<Reply>,
    generation: u64,
    state: Option<Execution>,
    action: KeyView,
    now: u64,
)
    requires
        keyed(before, after, key, facts, candidates, generation, state, action, now),
        key.code == KeyCode::Enter,
        key.modifiers.only_shift(),
    ensures
        !(action is Submit),
        after.desk.input == before.desk.input || before.panel is Some,
{
}

/// Leaving a reply that is not decided keeps it to be looked at again; one that was sent is
/// followed until it has arrived.
pub proof fn law_a_hidden_reply_waits(before: Review, after: Review, state: Option<Execution>)
    requires
        hidden(before, after, state),
    ensures
        after.edit == before.edit,
        after.selected == before.selected,
        before.frame is None ==> after.frame is None,
        before.frame is Some && !before.frame->0.delivery ==> after.frame is Some
            && !after.frame->0.visible && after.frame->0.reply == before.frame->0.reply,
        before.frame is Some && before.frame->0.delivery ==> (after.frame is Some <==> state is Some
            && state != Some(Execution::Confirmed)),
        after.frame is Some ==> !after.frame->0.visible,
{
}

/// A press goes to what is on top: the question whether to stop, then a login of the main account
/// that escape ends, then one of the assistant, then a code, then the help, then the panel.
pub proof fn law_a_press_goes_to_what_is_on_top(app: TerminalApp, key: KeyEvent, facts: Facts)
    requires
        key.kind == KeyKind::Press,
        !(key.modifiers.control && (key.code == KeyCode::Char('c') || key.code == KeyCode::Char(
            'p',
        ))),
    ensures
        ({
            let route = route_of(app, key, facts);
            let escape = key.code == KeyCode::Esc;
            &&& route == Route::Stop <==> app.desk.stop_flow is Some
            &&& route == Route::CancelMainLogin <==> app.desk.stop_flow is None && escape
                && app.main_login is Some
            &&& route == Route::CancelAssistantLogin <==> app.desk.stop_flow is None && escape
                && app.main_login is None && facts.login_pending
            &&& app.desk.stop_flow is None && !escape && app.desk.login_qr is Some ==> route
                == Route::Qr
            &&& app.desk.stop_flow is None && !escape && app.desk.login_qr is None && app.desk.help
                is Some ==> route == Route::Help
            &&& route == Route::Panel ==> app.panel is Some && app.desk.help is None
                && app.desk.login_qr is None && app.desk.stop_flow is None && app.desk.search
                is None
            &&& app.desk.stop_flow is None && !escape && app.desk.login_qr is None && app.desk.help
                is None && app.desk.search is None && app.review.edit is None
                && !app.desk.secret_mode && app.panel is Some ==> route == Route::Panel
        }),
{
}

/// Ending a login by escape ends that login, keeps the account and the line, and does nothing else.
pub proof fn law_escape_ends_a_login(
    before: TerminalApp,
    after: TerminalApp,
    key: KeyEvent,
    facts: Facts,
    candidates: Seq<Reply>,
    generation: u64,
    state: Option<Execution>,
    action: KeyView,
    now: u64,
)
    requires
        keyed(before, after, key, facts, candidates, generation, state, action, now),
        key.kind == KeyKind::Press,
        key.code == KeyCode::Esc,
        before.desk.stop_flow is None,
        before.main_login is Some || facts.login_pending,
    ensures
        before.main_login is Some ==> action is CancelMainLogin && after.main_login is None,
        before.main_login is None ==> action is CancelAssistantLogin,
        after.desk.login_qr is None,
        after.desk.input == before.desk.input,
        after.account_status == before.account_status,
        after.automation == before.automation,
{
}

/// While a panel is open its keys change the panel alone.
pub proof fn law_panel_keys_change_the_panel_alone(
    before: TerminalApp,
    after: TerminalApp,
    key: KeyEvent,
    facts: Facts,
    candidates: Seq<Reply>,
    generation: u64,
    state: Option<Execution>,
    action: KeyView,
    now: u64,
)
    requires
        keyed(before, after, key, facts, candidates, generation, state, action, now),
        route_of(before, key, facts) == Route::Panel,
    ensures
        after.desk == before.desk,
        after.stream == before.stream,
        after.review == before.review,
        after.panel is Some,
        action == KeyView::Panel(panel_keys::key_action(before.panel->0, key, facts)),
{
}

} // verus!
