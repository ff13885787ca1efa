//! The line that is typed, and what can be open above it: the palette, help, and the confirmation
//! before a broadcast is stopped.
use vstd::prelude::*;
use vstd::string::*;

use crate::activity;
use crate::commands;
use crate::commands::CommandSpec;
use crate::events;
use crate::input::{EditorInput, LineEdit};
use crate::input;
use crate::keys::{KeyCode, KeyEvent};
use crate::text;

verus! {

/// Stopping a broadcast: it is confirmed, then counted down, then asked for once.
#[derive(Clone, Copy, Debug, PartialEq, Eq, Structural)]
pub enum StopFlow {
    Confirm { stop_selected: bool },
    Countdown { deadline: u64 },
    Stopping,
}

/// The milliseconds that are counted down before a broadcast is stopped.
pub const STOP_DELAY: u64 = 3000;

/// The confirmation after a key, and whether the key called it off.
pub open spec fn stop_after(flow: Option<StopFlow>, code: KeyCode, now: u64) -> (
    Option<StopFlow>,
    bool,
) {
    match flow {
        Some(StopFlow::Confirm { stop_selected }) => match code {
            KeyCode::Up | KeyCode::Left => (Some(StopFlow::Confirm { stop_selected: true }), false),
            KeyCode::Down | KeyCode::Right => (
                Some(StopFlow::Confirm { stop_selected: false }),
                false,
            ),
            KeyCode::Enter => if stop_selected {
                (Some(StopFlow::Countdown { deadline: (now + STOP_DELAY) as u64 }), false)
            } else {
                (None, true)
            },
            KeyCode::Esc => (None, true),
            _ => (flow, false),
        },
        Some(StopFlow::Countdown { .. }) => if code == KeyCode::Esc {
            (None, true)
        } else {
            (flow, false)
        },
        _ => (flow, false),
    }
}

/// The countdown is over.
pub open spec fn stop_due(flow: Option<StopFlow>, now: u64) -> bool {
    flow matches Some(StopFlow::Countdown { deadline }) && now >= deadline
}

/// A broadcast is stopped only after it was chosen, confirmed and counted down: before that no
/// key leads there, and once it is asked for it is not asked for again.
pub proof fn law_stopping_takes_a_choice_and_a_countdown(
    flow: Option<StopFlow>,
    code: KeyCode,
    now: u64,
    later: u64,
)
    requires
        now <= activity::LAST_INSTANT,
        stop_due(stop_after(flow, code, now).0, later),
        !stop_due(flow, later),
    ensures
        flow == Some(StopFlow::Confirm { stop_selected: true }),
        code == KeyCode::Enter,
        later >= now + STOP_DELAY,
{
}

#[derive(Clone, Copy, Debug, PartialEq, Eq, Structural)]
pub struct HelpState {
    pub scroll: usize,
    pub max_scroll: usize,
    pub page_rows: usize,
}

pub open spec fn capped(a: int, b: int) -> int {
    if a < b {
        a
    } else {
        b
    }
}

pub open spec fn lowered(a: int, b: int) -> int {
    if a < b {
        0
    } else {
        a - b
    }
}

/// The help after a key; none where it closes.
pub open spec fn help_after(help: HelpState, code: KeyCode) -> Option<HelpState> {
    let s = help.scroll as int;
    match code {
        KeyCode::Esc | KeyCode::Enter => None,
        KeyCode::Up => Some(HelpState { scroll: lowered(s, 1) as usize, ..help }),
        KeyCode::Down => Some(
            HelpState { scroll: capped(s + 1, help.max_scroll as int) as usize, ..help },
        ),
        KeyCode::PageUp => Some(
            HelpState { scroll: lowered(s, help.page_rows as int) as usize, ..help },
        ),
        KeyCode::PageDown => Some(
            HelpState {
                scroll: capped(s + help.page_rows, help.max_scroll as int) as usize,
                ..help
            },
        ),
        KeyCode::Home => Some(HelpState { scroll: 0, ..help }),
        KeyCode::End => Some(HelpState { scroll: help.max_scroll, ..help }),
        _ => Some(help),
    }
}

fn cap_add(a: usize, b: usize, limit: usize) -> (r: usize)
    ensures
        r == capped(a + b, limit as int),
{
    let sum: usize = a.saturating_add(b);
    if sum < limit {
        sum
    } else {
        limit
    }
}

fn step_help(help: HelpState, code: KeyCode) -> (r: Option<HelpState>)
    ensures
        r == help_after(help, code),
{
    let scroll: usize = match code {
        KeyCode::Esc | KeyCode::Enter => {
            return None;
        },
        KeyCode::Up => help.scroll.saturating_sub(1),
        KeyCode::Down => cap_add(help.scroll, 1, help.max_scroll),
        KeyCode::PageUp => help.scroll.saturating_sub(help.page_rows),
        KeyCode::PageDown => cap_add(help.scroll, help.page_rows, help.max_scroll),
        KeyCode::Home => 0,
        KeyCode::End => help.max_scroll,
        _ => help.scroll,
    };
    Some(HelpState { scroll, max_scroll: help.max_scroll, page_rows: help.page_rows })
}

/// What a key on the palette asks for.
#[derive(Debug)]
pub enum SlashAction {
    Ignored,
    Handled,
    Submit(String),
}

pub ghost enum SlashView {
    Ignored,
    Handled,
    Submit(Seq<char>),
}

impl View for SlashAction {
    type V = SlashView;

    open spec fn view(&self) -> SlashView {
        match *self {
            SlashAction::Ignored => SlashView::Ignored,
            SlashAction::Handled => SlashView::Handled,
            SlashAction::Submit(command) => SlashView::Submit(command@),
        }
    }
}

/// The typed line and what is open above it.
pub struct Desk {
    pub input: EditorInput,
    /// The line that was being typed when the search for commands was opened.
    pub search: Option<EditorInput>,
    pub secret_mode: bool,
    pub secret_draft: Option<EditorInput>,
    pub slash_selection: usize,
    pub stop_flow: Option<StopFlow>,
    pub help: Option<HelpState>,
    pub login_qr: Option<Vec<String>>,
    pub quit_requested: bool,
    pub last_user_activity: u64,
}

pub open spec fn draft_wf(draft: Option<EditorInput>) -> bool {
    draft matches Some(draft) ==> draft.wf()
}

/// The line after a draft came back: the draft, or an empty line where there is none.
pub open spec fn restored(draft: Option<EditorInput>, line: EditorInput) -> bool {
    match draft {
        Some(draft) => line == draft,
        None => line.text().len() == 0 && line.position() == 0,
    }
}

/// The typed text opens the palette.
pub open spec fn slashed(line: Seq<char>) -> bool {
    line.len() > 0 && line[0] == '/'
}

fn starts_slashed(line: &EditorInput) -> (r: bool)
    ensures
        r == slashed(line.text()),
{
    let chars: Vec<char> = text::chars_of(line.as_str());
    chars.len() > 0 && chars[0] == '/'
}

/// The typed text is a command with something behind it.
pub open spec fn has_arguments(line: Seq<char>, completion: Seq<char>) -> bool {
    let raw = text::trimmed(line);
    let base = text::trimmed_end(completion);
    text::has_prefix(raw, base) && raw.len() > base.len() && raw[base.len() as int] == ' '
}

fn carries_arguments(line: &str, completion: &str) -> (r: bool)
    ensures
        r == has_arguments(line@, completion@),
{
    let raw: Vec<char> = text::chars_of(text::trim(line).as_str());
    let base: Vec<char> = text::chars_of(text::trim_end(completion).as_str());
    text::chars_match_at(&raw, &base, 0) && raw.len() > base.len() && raw[base.len()] == ' '
}

pub open spec fn ends_blank(completion: Seq<char>) -> bool {
    completion.len() > 0 && completion.last() == ' '
}

fn is_open_ended(completion: &str) -> (r: bool)
    ensures
        r == ends_blank(completion@),
{
    let chars: Vec<char> = text::chars_of(completion);
    chars.len() > 0 && chars[chars.len() - 1] == ' '
}

impl Desk {
    pub open spec fn wf(self) -> bool {
        self.input.wf() && draft_wf(self.search) && draft_wf(self.secret_draft)
    }

    pub fn new() -> (r: Self)
        ensures
            r.wf(),
            r.input.text().len() == 0,
            r.search is None,
            !r.secret_mode,
            r.secret_draft is None,
            r.slash_selection == 0,
            r.stop_flow is None,
            r.help is None,
            r.login_qr is None,
            !r.quit_requested,
            r.last_user_activity == 0,
    {
        Desk {
            input: EditorInput::new(),
            search: None,
            secret_mode: false,
            secret_draft: None,
            slash_selection: 0,
            stop_flow: None,
            help: None,
            login_qr: None,
            quit_requested: false,
            last_user_activity: 0,
        }
    }

    pub fn is_slashed(&self) -> (r: bool)
        ensures
            r == slashed(self.input.text()),
    {
        starts_slashed(&self.input)
    }

    /// The commands that the palette offers.
    pub open spec fn offered(self, include_ai: bool) -> Seq<CommandSpec> {
        if self.search is Some || slashed(self.input.text()) {
            commands::suggestions(self.input.text(), include_ai)
        } else {
            Seq::empty()
        }
    }

    /// The commands that the palette offers.
    pub fn command_suggestions(&self, include_ai: bool) -> (r: Vec<CommandSpec>)
        ensures
            r@ == self.offered(include_ai),
    {
        if self.search.is_some() || self.is_slashed() {
            commands::command_suggestions(self.input.as_str(), include_ai)
        } else {
            Vec::new()
        }
    }

    /// The desk after the search for commands was closed: the line that was being typed is back.
    pub open spec fn closed(self, after: Desk) -> bool {
        &&& after == (Desk {
            input: after.input,
            search: None,
            slash_selection: 0,
            ..self
        })
        &&& restored(self.search, after.input)
    }

    pub fn close_command_search(&mut self)
        requires
            old(self).wf(),
        ensures
            final(self).wf(),
            old(self).closed(*final(self)),
    {
        self.input = match self.search.take() {
            Some(draft) => draft,
            None => EditorInput::new(),
        };
        self.slash_selection = 0;
    }

    /// Opens the search for commands. The line that was being typed is put aside.
    pub fn open_commands(&mut self)
        requires
            old(self).wf(),
        ensures
            final(self).wf(),
            if old(self).search is Some {
                *final(self) == (Desk { slash_selection: 0, ..*old(self) })
            } else {
                &&& *final(self) == (Desk {
                    input: final(self).input,
                    search: Some(old(self).input),
                    slash_selection: 0,
                    ..*old(self)
                })
                &&& final(self).input.text().len() == 0
            },
    {
        if self.search.is_none() {
            let mut line: EditorInput = EditorInput::new();
            std::mem::swap(&mut line, &mut self.input);
            self.search = Some(line);
        }
        self.slash_selection = 0;
    }

    /// What activating a row of the palette does.
    pub open spec fn activated(
        self,
        after: Desk,
        offers: Seq<CommandSpec>,
        index: int,
        action: SlashView,
    ) -> bool {
        if index >= offers.len() {
            action is Handled && after == self
        } else {
            let completion = offers[index].completion@;
            let arguments = has_arguments(self.input.text(), completion);
            if ends_blank(completion) && !arguments {
                &&& action is Handled
                &&& after == (Desk { input: after.input, slash_selection: 0, ..self })
                &&& after.input.text() == completion
                &&& after.input.position() == completion.len()
            } else {
                let command = if arguments {
                    text::trimmed(self.input.text())
                } else {
                    completion
                };
                &&& action == SlashView::Submit(events::sanitized(command))
                &&& self.closed(after)
            }
        }
    }

    /// Activates a row of the palette: completes a command that takes more, else runs it.
    pub fn activate_palette_row(&mut self, index: usize, include_ai: bool) -> (r: SlashAction)
        requires
            old(self).wf(),
        ensures
            final(self).wf(),
            old(self).activated(
                *final(self),
                old(self).offered(include_ai),
                index as int,
                r@,
            ),
    {
        let offers: Vec<CommandSpec> = self.command_suggestions(include_ai);
        if index >= offers.len() {
            return SlashAction::Handled;
        }
        let completion: &'static str = offers[index].completion;
        let arguments: bool = carries_arguments(self.input.as_str(), completion);
        if is_open_ended(completion) && !arguments {
            self.input.replace(completion.to_owned());
            self.slash_selection = 0;
            return SlashAction::Handled;
        }
        let command: String = if arguments {
            text::trim(self.input.as_str())
        } else {
            completion.to_owned()
        };
        self.close_command_search();
        SlashAction::Submit(events::sanitize_input(command))
    }

    /// What a key on the palette does.
    pub open spec fn slash_keyed(
        self,
        after: Desk,
        key: KeyEvent,
        include_ai: bool,
        action: SlashView,
    ) -> bool {
        let offers = self.offered(include_ai);
        let count = offers.len() as int;
        let selection = self.slash_selection as int;
        if self.secret_mode || (self.search is None && !slashed(self.input.text())) {
            action is Ignored && after == self
        } else if key.code == KeyCode::Esc {
            action is Handled && self.closed(after)
        } else if count == 0 {
            if self.search is Some && (key.code == KeyCode::Enter || key.code == KeyCode::Tab
                || key.code == KeyCode::Up || key.code == KeyCode::Down) {
                if key.code == KeyCode::Enter && slashed(self.input.text()) {
                    &&& action == SlashView::Submit(events::sanitized(self.input.text()))
                    &&& self.closed(after)
                } else {
                    action is Handled && after == self
                }
            } else {
                action is Ignored && after == self
            }
        } else if key.code == KeyCode::Up {
            &&& action is Handled
            &&& after == (Desk {
                slash_selection: (if selection == 0 {
                    count - 1
                } else {
                    selection - 1
                }) as usize,
                ..self
            })
        } else if key.code == KeyCode::Down || (key.modifiers.control && key.code
            == KeyCode::Char('n')) {
            &&& action is Handled
            &&& after == (Desk { slash_selection: ((selection + 1) % count) as usize, ..self })
        } else {
            let selected = if selection < count {
                selection
            } else {
                count - 1
            };
            if key.code == KeyCode::Tab {
                &&& action is Handled
                &&& after == (Desk { input: after.input, slash_selection: 0, ..self })
                &&& after.input.text() == offers[selected].completion@
                &&& after.input.position() == offers[selected].completion@.len()
            } else if key.code == KeyCode::Enter {
                self.activated(after, offers, selected, action)
            } else {
                action is Ignored && after == self
            }
        }
    }

    /// Takes a key on the palette.
    pub fn handle_slash_key(&mut self, key: KeyEvent, include_ai: bool) -> (r: SlashAction)
        requires
            old(self).wf(),
        ensures
            final(self).wf(),
            old(self).slash_keyed(*final(self), key, include_ai, r@),
    {
        let searching: bool = self.search.is_some();
        if self.secret_mode || (!searching && !self.is_slashed()) {
            return SlashAction::Ignored;
        }
        if matches!(key.code, KeyCode::Esc) {
            self.close_command_search();
            return SlashAction::Handled;
        }
        let offers: Vec<CommandSpec> = self.command_suggestions(include_ai);
        let count: usize = offers.len();
        if count == 0 {
            if searching && matches!(
                key.code,
                KeyCode::Enter | KeyCode::Tab | KeyCode::Up | KeyCode::Down
            ) {
                if matches!(key.code, KeyCode::Enter) && self.is_slashed() {
                    let command: String = events::sanitize_input(self.input.as_str().to_owned());
                    self.close_command_search();
                    return SlashAction::Submit(command);
                }
                return SlashAction::Handled;
            }
            return SlashAction::Ignored;
        }
        if matches!(key.code, KeyCode::Up) {
            self.slash_selection = if self.slash_selection == 0 {
                count - 1
            } else {
                self.slash_selection - 1
            };
            return SlashAction::Handled;
        }
        if matches!(key.code, KeyCode::Down) || (key.modifiers.control && matches!(
            key.code,
            KeyCode::Char('n')
        )) {
            let next: u128 = (self.slash_selection as u128 + 1) % (count as u128);
            self.slash_selection = next as usize;
            return SlashAction::Handled;
        }
        let selected: usize = if self.slash_selection < count {
            self.slash_selection
        } else {
            count - 1
        };
        if matches!(key.code, KeyCode::Tab) {
            self.input.replace(offers[selected].completion.to_owned());
            self.slash_selection = 0;
            return SlashAction::Handled;
        }
        if matches!(key.code, KeyCode::Enter) {
            return self.activate_palette_row(selected, include_ai);
        }
        SlashAction::Ignored
    }

    /// Takes a key while a stop is being confirmed. The answer says that it was called off.
    pub fn handle_stop_key(&mut self, code: KeyCode, now: u64) -> (r: bool)
        requires
            now <= activity::LAST_INSTANT,
        ensures
            r == stop_after(old(self).stop_flow, code, now).1,
            *final(self) == (Desk {
                stop_flow: stop_after(old(self).stop_flow, code, now).0,
                ..*old(self)
            }),
    {
        match self.stop_flow {
            Some(StopFlow::Confirm { stop_selected }) => match code {
                KeyCode::Up | KeyCode::Left => {
                    self.stop_flow = Some(StopFlow::Confirm { stop_selected: true });
                    false
                },
                KeyCode::Down | KeyCode::Right => {
                    self.stop_flow = Some(StopFlow::Confirm { stop_selected: false });
                    false
                },
                KeyCode::Enter => if stop_selected {
                    self.stop_flow = Some(StopFlow::Countdown { deadline: now + STOP_DELAY });
                    false
                } else {
                    self.stop_flow = None;
                    true
                },
                KeyCode::Esc => {
                    self.stop_flow = None;
                    true
                },
                _ => false,
            },
            Some(StopFlow::Countdown { .. }) => if matches!(code, KeyCode::Esc) {
                self.stop_flow = None;
                true
            } else {
                false
            },
            _ => false,
        }
    }

    /// Goes on once the countdown is over. The answer says that the broadcast is to be stopped
    /// now, which it says once.
    pub fn advance_stop_at(&mut self, now: u64) -> (r: bool)
        ensures
            r == stop_due(old(self).stop_flow, now),
            *final(self) == (if r {
                Desk { stop_flow: Some(StopFlow::Stopping), ..*old(self) }
            } else {
                *old(self)
            }),
            !stop_due(final(self).stop_flow, u64::MAX) || !r,
    {
        let due: bool = match self.stop_flow {
            Some(StopFlow::Countdown { deadline }) => now >= deadline,
            _ => false,
        };
        if due {
            self.stop_flow = Some(StopFlow::Stopping);
        }
        due
    }

    /// Takes a key while help is open. The answer says whether it is.
    pub fn handle_help_key(&mut self, code: KeyCode) -> (r: bool)
        ensures
            r == old(self).help is Some,
            *final(self) == (match old(self).help {
                Some(help) => Desk { help: help_after(help, code), ..*old(self) },
                None => *old(self),
            }),
    {
        match self.help {
            Some(help) => {
                self.help = step_help(help, code);
                true
            },
            None => false,
        }
    }

    /// Leaves the hidden line: what was typed there is gone, and the line before is back.
    pub fn leave_secret(&mut self)
        requires
            old(self).wf(),
        ensures
            final(self).wf(),
            *final(self) == (Desk {
                input: final(self).input,
                secret_mode: false,
                secret_draft: None,
                ..*old(self)
            }),
            restored(old(self).secret_draft, final(self).input),
    {
        self.secret_mode = false;
        self.input = match self.secret_draft.take() {
            Some(draft) => draft,
            None => EditorInput::new(),
        };
    }

    /// Asks for a secret in place of the line that was being typed.
    pub fn enter_secret(&mut self)
        requires
            old(self).wf(),
        ensures
            final(self).wf(),
            *final(self) == (Desk {
                input: final(self).input,
                secret_mode: true,
                secret_draft: Some(old(self).input),
                ..*old(self)
            }),
            final(self).input.text().len() == 0,
    {
        let mut line: EditorInput = EditorInput::new();
        std::mem::swap(&mut line, &mut self.input);
        self.secret_draft = Some(line);
        self.secret_mode = true;
    }

    /// Carries out a key of the line. Most changes of the text begin the palette anew.
    pub fn edit_line(&mut self, edit: LineEdit, resets: bool)
        requires
            old(self).wf(),
        ensures
            final(self).wf(),
            *final(self) == (Desk {
                input: final(self).input,
                slash_selection: if resets {
                    0
                } else {
                    old(self).slash_selection
                },
                ..*old(self)
            }),
            (final(self).input.text(), final(self).input.position()) == input::performed(
                old(self).input.text(),
                old(self).input.position(),
                edit,
            ),
    {
        self.input.perform(edit);
        if resets {
            self.slash_selection = 0;
        }
    }

    /// Moves the selection of the palette with the wheel.
    pub fn palette_wheel(&mut self, up: bool, include_ai: bool)
        requires
            old(self).wf(),
        ensures
            final(self).wf(),
            ({
                let count = old(self).offered(include_ai).len() as int;
                let selection = old(self).slash_selection as int;
                *final(self) == (Desk {
                    slash_selection: (if count == 0 {
                        selection
                    } else if up {
                        lowered(selection, 1)
                    } else {
                        capped(selection + 1, count - 1)
                    }) as usize,
                    ..*old(self)
                })
            }),
    {
        let count: usize = self.command_suggestions(include_ai).len();
        if count > 0 {
            self.slash_selection = if up {
                self.slash_selection.saturating_sub(1)
            } else {
                cap_add(self.slash_selection, 1, count - 1)
            };
        }
    }
}

/// Searching for commands never loses the line that was being typed.
pub proof fn law_searching_keeps_the_draft(before: Desk, searching: Desk, after: Desk)
    requires
        before.search is None,
        searching.search == Some(before.input),
        searching.closed(after),
    ensures
        after.input == before.input,
        after.search is None,
{
}

/// In the question whether to stop, up and left choose stopping and down and right choose staying,
/// whatever was chosen before; entering the one starts a countdown of three seconds, entering the
/// other leaves the question.
pub proof fn law_the_stop_question_does_what_is_chosen(
    chosen: bool,
    arrow: KeyCode,
    asked: u64,
    now: u64,
)
    requires
        now <= activity::LAST_INSTANT,
    ensures
        ({
            let moved = stop_after(
                Some(StopFlow::Confirm { stop_selected: chosen }),
                arrow,
                asked,
            );
            let entered = stop_after(moved.0, KeyCode::Enter, now);
            &&& arrow == KeyCode::Up || arrow == KeyCode::Left ==> !moved.1 && !entered.1
                && entered.0 == Some(StopFlow::Countdown { deadline: (now + 3000) as u64 })
            &&& arrow == KeyCode::Down || arrow == KeyCode::Right ==> !moved.1 && entered == (
                None::<StopFlow>,
                true,
            )
        }),
{
}

/// Escape leaves the question and the countdown, at any time; nothing else leaves the countdown,
/// which ends at its deadline and not before.
pub proof fn law_escape_keeps_the_stream(flow: StopFlow, code: KeyCode, now: u64)
    requires
        flow is Confirm || flow is Countdown,
    ensures
        stop_after(Some(flow), KeyCode::Esc, now) == (None::<StopFlow>, true),
        flow is Countdown && code != KeyCode::Esc ==> stop_after(Some(flow), code, now) == (
            Some(flow),
            false,
        ),
        stop_due(Some(flow), now) <==> flow is Countdown && flow->deadline <= now,
{
}

/// Within the help, each key that scrolls is undone by its counterpart where there is room, no key
/// leaves the text, and only escape and enter close it.
pub proof fn law_the_help_scrolls_within_its_text(help: HelpState, code: KeyCode)
    requires
        help.scroll <= help.max_scroll,
    ensures
        help_after(help, code) is None <==> code == KeyCode::Esc || code == KeyCode::Enter,
        help_after(help, code) is Some ==> help_after(help, code)->0.scroll <= help.max_scroll
            && help_after(help, code)->0.max_scroll == help.max_scroll && help_after(
            help,
            code,
        )->0.page_rows == help.page_rows,
        help.scroll < help.max_scroll ==> help_after(help, KeyCode::Down)->0.scroll == help.scroll
            + 1,
        help.scroll > 0 ==> help_after(help, KeyCode::Up)->0.scroll == help.scroll - 1,
        help.scroll + help.page_rows <= help.max_scroll ==> help_after(
            help,
            KeyCode::PageDown,
        )->0.scroll == help.scroll + help.page_rows,
        help.scroll >= help.page_rows ==> help_after(help, KeyCode::PageUp)->0.scroll == help.scroll
            - help.page_rows,
        help_after(help, KeyCode::Home)->0.scroll == 0,
        help_after(help, KeyCode::End)->0.scroll == help.max_scroll,
{
}

/// In the list of commands, down goes one further and up goes one back, around the ends; the one
/// undoes the other and nothing is typed.
pub proof fn law_palette_steps_undo_each_other(
    before: Desk,
    down: Desk,
    after: Desk,
    key: KeyEvent,
    back: KeyEvent,
    include_ai: bool,
    first: SlashView,
    second: SlashView,
)
    requires
        !before.secret_mode,
        before.slash_selection < before.offered(include_ai).len(),
        before.offered(include_ai).len() <= usize::MAX,
        key.code == KeyCode::Down,
        back.code == KeyCode::Up,
        before.slash_keyed(down, key, include_ai, first),
        down.slash_keyed(after, back, include_ai, second),
    ensures
        first is Handled,
        second is Handled,
        down.slash_selection == before.slash_selection + 1 || (down.slash_selection == 0
            && before.slash_selection + 1 == before.offered(include_ai).len()),
        down.input == before.input,
        after == before,
{
    let count = before.offered(include_ai).len() as int;
    let selection = before.slash_selection as int;
    assert(down.offered(include_ai) == before.offered(include_ai));
    if selection + 1 < count {
        assert((selection + 1) % count == selection + 1) by (nonlinear_arith)
            requires
                0 <= selection + 1 < count,
        ;
    } else {
        assert(count % count == 0) by (nonlinear_arith)
            requires
                count > 0,
        ;
    }
}

/// Enter runs the command that is chosen in the list, and what was typed before the list was opened
/// is back in the line.
pub proof fn law_enter_runs_the_chosen_command(
    before: Desk,
    after: Desk,
    key: KeyEvent,
    include_ai: bool,
    action: SlashView,
)
    requires
        !before.secret_mode,
        before.slash_selection < before.offered(include_ai).len(),
        key.code == KeyCode::Enter,
        before.slash_keyed(after, key, include_ai, action),
        ({
            let chosen = before.offered(include_ai)[before.slash_selection as int].completion@;
            &&& chosen.len() > 0
            &&& chosen.last() != ' '
            &&& !has_arguments(before.input.text(), chosen)
        }),
    ensures
        action == SlashView::Submit(
            events::sanitized(
                before.offered(include_ai)[before.slash_selection as int].completion@,
            ),
        ),
        after.search is None,
        before.search is Some ==> after.input == before.search->0,
        before.search is None ==> after.input.text().len() == 0,
{
}

/// Words that are typed behind a command go along with it.
pub proof fn law_typed_arguments_go_along(
    before: Desk,
    after: Desk,
    key: KeyEvent,
    include_ai: bool,
    action: SlashView,
    base: Seq<char>,
    value: Seq<char>,
)
    requires
        !before.secret_mode,
        before.slash_selection < before.offered(include_ai).len(),
        key.code == KeyCode::Enter,
        before.slash_keyed(after, key, include_ai, action),
        base.len() > 0,
        !text::is_whitespace(base.last()),
        before.offered(include_ai)[before.slash_selection as int].completion@ == base,
        text::trimmed(before.input.text()) == base + seq![' '] + value,
    ensures
        action == SlashView::Submit(events::sanitized(base + seq![' '] + value)),
{
    let raw = text::trimmed(before.input.text());
    assert(text::trimmed_end(base) == base);
    assert(raw.subrange(0, base.len() as int) =~= base);
    assert(raw[base.len() as int] == ' ');
}

/// A secret that is being typed is never looked up among the commands.
pub proof fn law_secrets_are_not_looked_up(
    before: Desk,
    after: Desk,
    key: KeyEvent,
    include_ai: bool,
    action: SlashView,
)
    requires
        before.secret_mode,
        before.slash_keyed(after, key, include_ai, action),
    ensures
        action is Ignored,
        after == before,
{
}

/// Commands are offered only while one is looked for or typed.
pub proof fn law_commands_are_offered_behind_a_slash(desk: Desk, include_ai: bool)
    ensures
        desk.search is None && (desk.input.text().len() == 0 || desk.input.text()[0] != '/')
            ==> desk.offered(include_ai).len() == 0,
        desk.search is Some || (desk.input.text().len() > 0 && desk.input.text()[0] == '/')
            ==> desk.offered(include_ai) == commands::suggestions(desk.input.text(), include_ai),
{
}

/// Tab completes the line with the chosen command and runs nothing.
pub proof fn law_tab_completes_and_runs_nothing(
    before: Desk,
    after: Desk,
    key: KeyEvent,
    include_ai: bool,
    action: SlashView,
)
    requires
        !before.secret_mode,
        before.slash_selection < before.offered(include_ai).len(),
        key.code == KeyCode::Tab,
        before.slash_keyed(after, key, include_ai, action),
    ensures
        action is Handled,
        after.input.text() == before.offered(
            include_ai,
        )[before.slash_selection as int].completion@,
        after.input.position() == after.input.text().len(),
        after.search == before.search,
{
}

} // verus!
