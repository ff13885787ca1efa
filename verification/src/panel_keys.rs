//! How keys and the mouse move through the panel.
use vstd::prelude::*;

use crate::input;
use crate::input::{Edit, LineEdit};
use crate::keys::{KeyCode, KeyEvent, MouseKind};
use crate::panel;
use crate::panel::{Action, Choices, Facts, Field, Page, Panel, Row};

verus! {

/// What a key asks of the program.
#[derive(Clone, Copy, Debug, PartialEq, Eq, Structural)]
pub enum PanelAction {
    Keep,
    Close,
    Choose(usize),
    RestoreTopic,
    SaveEditor,
    Apply(Row),
    NextCandidate,
    Activate(usize),
}

/// A row can be used.
pub open spec fn usable(rows: Seq<Row>, facts: Facts, i: int) -> bool {
    panel::readonly_text(rows[i], facts) is None
}

/// The neighbour of a row, around the ends.
pub open spec fn neighbour(i: int, count: int, forward: bool) -> int {
    if forward {
        if i + 1 >= count {
            0
        } else {
            i + 1
        }
    } else {
        if i <= 0 {
            count - 1
        } else {
            i - 1
        }
    }
}

/// How many steps lead from a row to the starting row.
pub open spec fn steps_to(i: int, start: int, count: int, forward: bool) -> int {
    if forward {
        if i < start {
            start - i
        } else {
            start + count - i
        }
    } else {
        if i > start {
            i - start
        } else {
            i + count - start
        }
    }
}

/// The first row after the given one that can be used, or the starting row.
pub open spec fn next_usable(
    rows: Seq<Row>,
    facts: Facts,
    start: int,
    at: int,
    forward: bool,
    steps: nat,
) -> int
    decreases steps,
{
    let next = neighbour(at, rows.len() as int, forward);
    if steps == 0 || usable(rows, facts, next) || next == start {
        next
    } else {
        next_usable(rows, facts, start, next, forward, (steps - 1) as nat)
    }
}

/// A place within a count, held to its last one.
pub open spec fn held_to(row: int, count: int) -> int {
    if row < count {
        row
    } else if count == 0 {
        0
    } else {
        count - 1
    }
}

/// The row that the selection moves to.
pub open spec fn selection_moved(
    rows: Seq<Row>,
    facts: Facts,
    row: int,
    forward: bool,
) -> int {
    if rows.len() == 0 {
        0
    } else {
        let start = held_to(row, rows.len() as int);
        next_usable(rows, facts, start, start, forward, rows.len())
    }
}

proof fn lemma_next_usable(
    rows: Seq<Row>,
    facts: Facts,
    start: int,
    at: int,
    forward: bool,
    steps: nat,
)
    requires
        0 <= start < rows.len(),
        0 <= at < rows.len(),
        steps == steps_to(at, start, rows.len() as int, forward),
    ensures
        0 <= next_usable(rows, facts, start, at, forward, steps) < rows.len(),
        ({
            let r = next_usable(rows, facts, start, at, forward, steps);
            &&& usable(rows, facts, r) || r == start
            &&& r == start ==> forall|j: int|
                0 <= j < rows.len() && j != start && steps_to(
                    j,
                    start,
                    rows.len() as int,
                    forward,
                ) < steps ==> !#[trigger] usable(rows, facts, j)
        }),
    decreases steps,
{
    let next = neighbour(at, rows.len() as int, forward);
    if !(usable(rows, facts, next) || next == start) {
        lemma_next_usable(rows, facts, start, next, forward, (steps - 1) as nat);
        let r = next_usable(rows, facts, start, at, forward, steps);
        assert forall|j: int|
            r == start && 0 <= j < rows.len() && j != start && steps_to(
                j,
                start,
                rows.len() as int,
                forward,
            ) < steps implies !#[trigger] usable(rows, facts, j) by {
            if j != next {
                assert(steps_to(j, start, rows.len() as int, forward) < steps - 1);
            }
        }
    }
}

/// Moving the selection lands on a row that can be used; where it stays, no other row can.
pub proof fn law_selection_lands_on_usable_rows(
    rows: Seq<Row>,
    facts: Facts,
    row: int,
    forward: bool,
)
    requires
        rows.len() > 0,
        row >= 0,
    ensures
        ({
            let start = held_to(row, rows.len() as int);
            let r = selection_moved(rows, facts, row, forward);
            &&& 0 <= r < rows.len()
            &&& usable(rows, facts, r) || r == start
            &&& r == start ==> forall|j: int|
                0 <= j < rows.len() && j != start ==> !#[trigger] usable(rows, facts, j)
        }),
{
    let start = held_to(row, rows.len() as int);
    lemma_next_usable(rows, facts, start, start, forward, rows.len());
}

/// What a key does to the text that is edited.
pub open spec fn editor_key(key: KeyEvent) -> LineEdit {
    if key.modifiers.control {
        match key.code {
            KeyCode::Char('u') => LineEdit::Clear,
            KeyCode::Char('a') => LineEdit::Edit(Edit::Start),
            KeyCode::Char('e') => LineEdit::Edit(Edit::End),
            KeyCode::Char('w') => LineEdit::Edit(Edit::DeletePreviousWord),
            KeyCode::Char('k') => LineEdit::Edit(Edit::DeleteToEnd),
            _ => LineEdit::Nothing,
        }
    } else {
        match key.code {
            KeyCode::Char(c) => if key.modifiers.alt {
                LineEdit::Nothing
            } else {
                LineEdit::Type(c)
            },
            KeyCode::Backspace => LineEdit::Edit(Edit::DeleteBefore),
            KeyCode::Delete => LineEdit::Edit(Edit::DeleteAt),
            KeyCode::Left => LineEdit::Edit(Edit::Left),
            KeyCode::Right => LineEdit::Edit(Edit::Right),
            KeyCode::Home => LineEdit::Edit(Edit::Start),
            KeyCode::End => LineEdit::Edit(Edit::End),
            _ => LineEdit::Nothing,
        }
    }
}

fn line_edit(key: KeyEvent) -> (r: LineEdit)
    ensures
        r == editor_key(key),
{
    if key.modifiers.control {
        match key.code {
            KeyCode::Char('u') => LineEdit::Clear,
            KeyCode::Char('a') => LineEdit::Edit(Edit::Start),
            KeyCode::Char('e') => LineEdit::Edit(Edit::End),
            KeyCode::Char('w') => LineEdit::Edit(Edit::DeletePreviousWord),
            KeyCode::Char('k') => LineEdit::Edit(Edit::DeleteToEnd),
            _ => LineEdit::Nothing,
        }
    } else {
        match key.code {
            KeyCode::Char(c) => if key.modifiers.alt {
                LineEdit::Nothing
            } else {
                LineEdit::Type(c)
            },
            KeyCode::Backspace => LineEdit::Edit(Edit::DeleteBefore),
            KeyCode::Delete => LineEdit::Edit(Edit::DeleteAt),
            KeyCode::Left => LineEdit::Edit(Edit::Left),
            KeyCode::Right => LineEdit::Edit(Edit::Right),
            KeyCode::Home => LineEdit::Edit(Edit::Start),
            KeyCode::End => LineEdit::Edit(Edit::End),
            _ => LineEdit::Nothing,
        }
    }
}

/// The parts of the panel, in the order in which they take a key.
#[derive(Clone, Copy, Debug, PartialEq, Eq, Structural)]
pub enum Focus {
    Saving,
    Explanation,
    Choices,
    LiveTitle,
    Editor,
    Menu,
}

pub open spec fn asks_explanation(key: KeyEvent) -> bool {
    key.code == KeyCode::F(1) || (key.code == KeyCode::Char('?') && key.modifiers.none())
}

pub open spec fn edits_topic(panel: Panel) -> bool {
    match panel.editor {
        Some((field, _)) => field == Field::Topic,
        None => false,
    }
}

/// Who takes a key.
pub open spec fn focus_of(panel: Panel, key: KeyEvent) -> Focus {
    if panel.pending_save is Some {
        Focus::Saving
    } else if panel.editor is None && asks_explanation(key) {
        Focus::Explanation
    } else if panel.choices is Some {
        Focus::Choices
    } else if edits_topic(panel) && key.code == KeyCode::F(2) {
        Focus::LiveTitle
    } else if panel.editor is Some {
        Focus::Editor
    } else {
        Focus::Menu
    }
}

/// What a key does to a choice.
pub open spec fn choice_moved(selected: int, count: int, code: KeyCode) -> int {
    match code {
        KeyCode::Up | KeyCode::Left | KeyCode::BackTab => neighbour(selected, count, false),
        KeyCode::Down | KeyCode::Right | KeyCode::Tab => neighbour(selected, count, true),
        KeyCode::Home => 0,
        KeyCode::End => count - 1,
        _ => selected,
    }
}

/// What a key on the list of replies asks for, where it means something there.
pub open spec fn candidate_key(key: KeyEvent) -> Option<PanelAction> {
    match key.code {
        KeyCode::Char('a') => if key.modifiers.none() {
            Some(PanelAction::Apply(Row::Action(Action::ApproveAllCandidates)))
        } else {
            None
        },
        KeyCode::Char('d') => if key.modifiers.none() {
            Some(PanelAction::Apply(Row::Action(Action::DiscardAllCandidates)))
        } else {
            None
        },
        KeyCode::Enter => if key.modifiers.only_shift() {
            Some(PanelAction::Apply(Row::Action(Action::ApproveCandidate)))
        } else {
            None
        },
        KeyCode::Char('e') => if key.modifiers.none() {
            Some(PanelAction::Apply(Row::Action(Action::EditCandidate)))
        } else {
            None
        },
        KeyCode::Delete => Some(PanelAction::Apply(Row::Action(Action::DiscardCandidate))),
        KeyCode::Tab => Some(PanelAction::NextCandidate),
        KeyCode::PageDown | KeyCode::PageUp => Some(PanelAction::Keep),
        _ => None,
    }
}

/// The scroll after moving by some lines.
pub open spec fn scrolled(scroll: u16, lines: int, down: bool) -> u16 {
    if down {
        if scroll + lines > u16::MAX {
            u16::MAX
        } else {
            (scroll + lines) as u16
        }
    } else {
        if scroll < lines {
            0
        } else {
            (scroll - lines) as u16
        }
    }
}

/// The keys of the list of replies apply.
pub open spec fn reviews(panel: Panel, facts: Facts) -> bool {
    panel.page == Page::Candidates && facts.candidates != 0
}

/// The menu height that a page key moves by.
pub open spec fn page_height(panel: Panel) -> int {
    if panel.menu_height == 0 {
        1
    } else {
        panel.menu_height as int
    }
}

/// The panel after a key of the menu.
pub open spec fn menu_result(panel: Panel, key: KeyEvent, facts: Facts) -> Panel {
    let rows = panel::page_rows(panel, facts);
    let count = rows.len() as int;
    let row = held_to(panel.row as int, count);
    let held = Panel { row: row as usize, ..panel };
    match key.code {
        KeyCode::Tab | KeyCode::BackTab => if panel::in_settings(panel.page) {
            Panel {
                page: panel::next_settings_page(panel.page, key.code == KeyCode::Tab),
                row: 0,
                list_offset: 0,
                scroll: 0,
                expanded: false,
                thanks_expanded: false,
                advanced_group: None,
                error: None,
                ..panel
            }
        } else if count > 0 {
            Panel {
                row: selection_moved(rows, facts, row, key.code == KeyCode::Tab) as usize,
                scroll: 0,
                ..panel
            }
        } else {
            held
        },
        KeyCode::Up | KeyCode::Left => if count > 0 {
            Panel { row: selection_moved(rows, facts, row, false) as usize, scroll: 0, ..panel }
        } else {
            held
        },
        KeyCode::Down | KeyCode::Right => if count > 0 {
            Panel { row: selection_moved(rows, facts, row, true) as usize, scroll: 0, ..panel }
        } else {
            held
        },
        KeyCode::Home => Panel { row: 0, ..panel },
        KeyCode::End => Panel { row: held_to(count, count) as usize, ..panel },
        KeyCode::PageDown => if panel.expanded {
            Panel { scroll: scrolled(panel.scroll, 3, true), ..held }
        } else {
            Panel { row: held_to(row + page_height(panel), count) as usize, ..panel }
        },
        KeyCode::PageUp => if panel.expanded {
            Panel { scroll: scrolled(panel.scroll, 3, false), ..held }
        } else if row < page_height(panel) {
            Panel { row: 0, ..panel }
        } else {
            Panel { row: (row - page_height(panel)) as usize, ..panel }
        },
        _ => held,
    }
}

/// What a key asks of the program.
pub open spec fn key_action(panel: Panel, key: KeyEvent, facts: Facts) -> PanelAction {
    match focus_of(panel, key) {
        Focus::Saving => if key.code == KeyCode::Esc {
            PanelAction::Close
        } else {
            PanelAction::Keep
        },
        Focus::Explanation => PanelAction::Keep,
        Focus::Choices => if key.code == KeyCode::Enter {
            PanelAction::Choose(panel.choices->0.selected)
        } else {
            PanelAction::Keep
        },
        Focus::LiveTitle => PanelAction::RestoreTopic,
        Focus::Editor => if key.code == KeyCode::Enter && !key.modifiers.control {
            PanelAction::SaveEditor
        } else {
            PanelAction::Keep
        },
        Focus::Menu => if reviews(panel, facts) && candidate_key(key) is Some {
            candidate_key(key)->0
        } else if key.code == KeyCode::Esc {
            if panel.history@.len() == 0 {
                PanelAction::Close
            } else {
                PanelAction::Keep
            }
        } else if key.code == KeyCode::Enter && panel::page_rows(panel, facts).len() > 0 {
            PanelAction::Activate(
                held_to(panel.row as int, panel::page_rows(panel, facts).len() as int) as usize,
            )
        } else {
            PanelAction::Keep
        },
    }
}

/// The panel after a key, where the key neither types into the editor nor goes back a page.
pub open spec fn key_result(panel: Panel, key: KeyEvent, facts: Facts) -> Panel {
    match focus_of(panel, key) {
        Focus::Saving => panel,
        Focus::Explanation => Panel { expanded: !panel.expanded, scroll: 0, ..panel },
        Focus::Choices => match key.code {
            KeyCode::Enter => panel,
            KeyCode::Esc => Panel { choices: None, ..panel },
            _ => Panel {
                choices: Some(
                    Choices {
                        selected: choice_moved(
                            panel.choices->0.selected as int,
                            panel.choices->0.values@.len() as int,
                            key.code,
                        ) as usize,
                        ..panel.choices->0
                    },
                ),
                ..panel
            },
        },
        Focus::LiveTitle => panel,
        Focus::Editor => if key.code == KeyCode::Esc && !key.modifiers.control {
            Panel { editor: None, error: None, ..panel }
        } else {
            panel
        },
        Focus::Menu => if reviews(panel, facts) && candidate_key(key) is Some {
            if key.code == KeyCode::PageDown {
                Panel { scroll: scrolled(panel.scroll, 4, true), ..panel }
            } else if key.code == KeyCode::PageUp {
                Panel { scroll: scrolled(panel.scroll, 4, false), ..panel }
            } else if key.code == KeyCode::Tab {
                Panel { scroll: 0, ..panel }
            } else {
                panel
            }
        } else {
            menu_result(panel, key, facts)
        },
    }
}

/// The key goes into the text that is edited.
pub open spec fn types(panel: Panel, key: KeyEvent) -> bool {
    focus_of(panel, key) == Focus::Editor && (key.modifiers.control || (key.code != KeyCode::Esc
        && key.code != KeyCode::Enter))
}

/// The key leaves the page.
pub open spec fn leaves(panel: Panel, key: KeyEvent, facts: Facts) -> bool {
    focus_of(panel, key) == Focus::Menu && key.code == KeyCode::Esc
}

/// The panel after it went back a page, or stayed where there is none.
pub open spec fn went_back(before: Panel, after: Panel) -> bool {
    if before.history@.len() == 0 {
        after == before
    } else {
        &&& after.history@ == before.history@.drop_last()
        &&& after == (Panel { error: None, history: after.history, ..before }).at(
            before.history@.last(),
        )
    }
}

/// The text of the editor after a key, with the rest of the panel unchanged.
pub open spec fn typed(before: Panel, after: Panel, key: KeyEvent) -> bool {
    &&& after == (Panel { editor: after.editor, ..before })
    &&& match (before.editor, after.editor) {
        (Some((field, line)), Some((field_after, line_after))) => {
            &&& field_after == field
            &&& (line_after.text(), line_after.position()) == input::performed(
                line.text(),
                line.position(),
                editor_key(key),
            )
        },
        _ => false,
    }
}

/// The panel after a key.
pub open spec fn pressed(before: Panel, after: Panel, key: KeyEvent, facts: Facts) -> bool {
    if types(before, key) {
        typed(before, after, key)
    } else if leaves(before, key, facts) {
        went_back(before, after)
    } else {
        after == key_result(before, key, facts)
    }
}

fn scroll_by(scroll: u16, lines: u16, down: bool) -> (r: u16)
    ensures
        r == scrolled(scroll, lines as int, down),
{
    if down {
        scroll.saturating_add(lines)
    } else {
        scroll.saturating_sub(lines)
    }
}

fn hold_to(row: usize, count: usize) -> (r: usize)
    ensures
        r == held_to(row as int, count as int),
{
    if row < count {
        row
    } else if count == 0 {
        0
    } else {
        count - 1
    }
}

fn step(i: usize, count: usize, forward: bool) -> (r: usize)
    requires
        i < count,
    ensures
        r == neighbour(i as int, count as int, forward),
        r < count,
{
    if forward {
        if i + 1 >= count {
            0
        } else {
            i + 1
        }
    } else if i == 0 {
        count - 1
    } else {
        i - 1
    }
}

fn review_action(key: KeyEvent) -> (r: Option<PanelAction>)
    ensures
        r == candidate_key(key),
{
    let plain: bool = key.modifiers.is_empty();
    match key.code {
        KeyCode::Char('a') => if plain {
            Some(PanelAction::Apply(Row::Action(Action::ApproveAllCandidates)))
        } else {
            None
        },
        KeyCode::Char('d') => if plain {
            Some(PanelAction::Apply(Row::Action(Action::DiscardAllCandidates)))
        } else {
            None
        },
        KeyCode::Enter => if key.modifiers.is_shift() {
            Some(PanelAction::Apply(Row::Action(Action::ApproveCandidate)))
        } else {
            None
        },
        KeyCode::Char('e') => if plain {
            Some(PanelAction::Apply(Row::Action(Action::EditCandidate)))
        } else {
            None
        },
        KeyCode::Delete => Some(PanelAction::Apply(Row::Action(Action::DiscardCandidate))),
        KeyCode::Tab => Some(PanelAction::NextCandidate),
        KeyCode::PageDown | KeyCode::PageUp => Some(PanelAction::Keep),
        _ => None,
    }
}

impl Panel {
    /// Moves the selection to the next row that can be used.
    pub fn move_assistant_selection(&mut self, forward: bool, facts: &Facts)
        ensures
            ({
                let rows = panel::page_rows(*old(self), *facts);
                *final(self) == if rows.len() == 0 {
                    (Panel { row: 0, ..*old(self) })
                } else {
                    (Panel {
                        row: selection_moved(rows, *facts, old(self).row as int, forward) as usize,
                        scroll: 0,
                        ..*old(self)
                    })
                }
            }),
    {
        let rows: Vec<Row> = self.rows(facts);
        if rows.len() == 0 {
            self.row = 0;
            return;
        }
        let ghost row = self.row as int;
        let count: usize = rows.len();
        let start: usize = hold_to(self.row, count);
        let mut at: usize = start;
        let mut next: usize = step(at, count, forward);
        let ghost mut steps = rows@.len();
        while panel::readonly_reason(rows[next], facts).is_some() && next != start
            invariant
                count == rows@.len(),
                start < count,
                at < count,
                next == neighbour(at as int, count as int, forward),
                next < count,
                steps == steps_to(at as int, start as int, count as int, forward),
                next_usable(rows@, *facts, start as int, at as int, forward, steps)
                    == next_usable(rows@, *facts, start as int, start as int, forward, rows@.len()),
            decreases steps,
        {
            proof {
                assert(!usable(rows@, *facts, next as int));
                steps = (steps - 1) as nat;
            }
            at = next;
            next = step(at, count, forward);
        }
        proof {
            assert(usable(rows@, *facts, next as int) || next == start);
        }
        self.row = next;
        self.scroll = 0;
    }

    fn focus(&self, key: KeyEvent) -> (r: Focus)
        ensures
            r == focus_of(*self, key),
    {
        let explains: bool = match key.code {
            KeyCode::F(1) => true,
            KeyCode::Char('?') => key.modifiers.is_empty(),
            _ => false,
        };
        let topic: bool = match &self.editor {
            Some((field, _)) => matches!(*field, Field::Topic),
            None => false,
        };
        if self.pending_save.is_some() {
            Focus::Saving
        } else if self.editor.is_none() && explains {
            Focus::Explanation
        } else if self.choices.is_some() {
            Focus::Choices
        } else if topic && matches!(key.code, KeyCode::F(2)) {
            Focus::LiveTitle
        } else if self.editor.is_some() {
            Focus::Editor
        } else {
            Focus::Menu
        }
    }

    fn choice_key(&mut self, key: KeyEvent) -> (r: PanelAction)
        requires
            old(self).wf(),
            old(self).choices is Some,
        ensures
            final(self).wf(),
            r == if key.code == KeyCode::Enter {
                PanelAction::Choose(old(self).choices->0.selected)
            } else {
                PanelAction::Keep
            },
            *final(self) == match key.code {
                KeyCode::Enter => *old(self),
                KeyCode::Esc => (Panel { choices: None, ..*old(self) }),
                _ => (Panel {
                    choices: Some(
                        Choices {
                            selected: choice_moved(
                                old(self).choices->0.selected as int,
                                old(self).choices->0.values@.len() as int,
                                key.code,
                            ) as usize,
                            ..old(self).choices->0
                        },
                    ),
                    ..*old(self)
                }),
            },
    {
        if matches!(key.code, KeyCode::Esc) {
            self.choices = None;
            return PanelAction::Keep;
        }
        if let Some(choices) = &mut self.choices {
            let count: usize = choices.values.len();
            match key.code {
                KeyCode::Enter => {
                    return PanelAction::Choose(choices.selected);
                },
                KeyCode::Up | KeyCode::Left | KeyCode::BackTab => {
                    choices.selected = step(choices.selected, count, false);
                },
                KeyCode::Down | KeyCode::Right | KeyCode::Tab => {
                    choices.selected = step(choices.selected, count, true);
                },
                KeyCode::Home => {
                    choices.selected = 0;
                },
                KeyCode::End => {
                    choices.selected = count - 1;
                },
                _ => {},
            }
        }
        PanelAction::Keep
    }

    fn change_category(&mut self, forward: bool)
        requires
            panel::in_settings(old(self).page),
        ensures
            *final(self) == (Panel {
                page: panel::next_settings_page(old(self).page, forward),
                row: 0,
                list_offset: 0,
                scroll: 0,
                expanded: false,
                thanks_expanded: false,
                advanced_group: None,
                error: None,
                ..*old(self)
            }),
    {
        self.page = panel::step_settings_page(self.page, forward);
        self.row = 0;
        self.list_offset = 0;
        self.scroll = 0;
        self.expanded = false;
        self.thanks_expanded = false;
        self.advanced_group = None;
        self.error = None;
    }

    fn menu_key(&mut self, key: KeyEvent, facts: &Facts) -> (r: PanelAction)
        requires
            key.code != KeyCode::Esc,
        ensures
            *final(self) == menu_result(*old(self), key, *facts),
            r == if key.code == KeyCode::Enter && panel::page_rows(*old(self), *facts).len() > 0 {
                PanelAction::Activate(
                    held_to(
                        old(self).row as int,
                        panel::page_rows(*old(self), *facts).len() as int,
                    ) as usize,
                )
            } else {
                PanelAction::Keep
            },
    {
        let ghost before = *self;
        let count: usize = self.rows(facts).len();
        self.row = hold_to(self.row, count);
        proof {
            assert(panel::page_rows(*self, *facts) == panel::page_rows(before, *facts));
            assert(held_to(self.row as int, count as int) == self.row);
        }
        let height: usize = if self.menu_height == 0 {
            1
        } else {
            self.menu_height
        };
        match key.code {
            KeyCode::Tab | KeyCode::BackTab => {
                let forward: bool = matches!(key.code, KeyCode::Tab);
                if panel::is_settings_page(self.page) {
                    self.change_category(forward);
                } else if count > 0 {
                    self.move_assistant_selection(forward, facts);
                }
            },
            KeyCode::Up | KeyCode::Left => if count > 0 {
                self.move_assistant_selection(false, facts);
            },
            KeyCode::Down | KeyCode::Right => if count > 0 {
                self.move_assistant_selection(true, facts);
            },
            KeyCode::Home => {
                self.row = 0;
            },
            KeyCode::End => {
                self.row = hold_to(count, count);
            },
            KeyCode::PageDown => if self.expanded {
                self.scroll = scroll_by(self.scroll, 3, true);
            } else {
                self.row = hold_to(self.row.saturating_add(height), count);
            },
            KeyCode::PageUp => if self.expanded {
                self.scroll = scroll_by(self.scroll, 3, false);
            } else {
                self.row = self.row.saturating_sub(height);
            },
            KeyCode::Enter => if count > 0 {
                return PanelAction::Activate(self.row);
            },
            _ => {},
        }
        PanelAction::Keep
    }

    /// Takes a key that was pressed.
    pub fn assistant_key(&mut self, key: KeyEvent, facts: &Facts) -> (r: PanelAction)
        requires
            old(self).wf(),
        ensures
            final(self).wf(),
            r == key_action(*old(self), key, *facts),
            pressed(*old(self), *final(self), key, *facts),
    {
        match self.focus(key) {
            Focus::Saving => if matches!(key.code, KeyCode::Esc) {
                PanelAction::Close
            } else {
                PanelAction::Keep
            },
            Focus::Explanation => {
                self.expanded = !self.expanded;
                self.scroll = 0;
                PanelAction::Keep
            },
            Focus::Choices => self.choice_key(key),
            Focus::LiveTitle => PanelAction::RestoreTopic,
            Focus::Editor => {
                if !key.modifiers.control {
                    match key.code {
                        KeyCode::Esc => {
                            self.editor = None;
                            self.error = None;
                            return PanelAction::Keep;
                        },
                        KeyCode::Enter => {
                            return PanelAction::SaveEditor;
                        },
                        _ => {},
                    }
                }
                if let Some((_, line)) = &mut self.editor {
                    line.perform(line_edit(key));
                }
                PanelAction::Keep
            },
            Focus::Menu => {
                if matches!(self.page, Page::Candidates) && facts.candidates != 0 {
                    if let Some(action) = review_action(key) {
                        match key.code {
                            KeyCode::PageDown => {
                                self.scroll = scroll_by(self.scroll, 4, true);
                            },
                            KeyCode::PageUp => {
                                self.scroll = scroll_by(self.scroll, 4, false);
                            },
                            KeyCode::Tab => {
                                self.scroll = 0;
                            },
                            _ => {},
                        }
                        return action;
                    }
                }
                if matches!(key.code, KeyCode::Esc) {
                    if self.back() {
                        PanelAction::Close
                    } else {
                        PanelAction::Keep
                    }
                } else {
                    self.menu_key(key, facts)
                }
            },
        }
    }

    /// Takes a turn of the wheel.
    pub fn assistant_mouse(&mut self, kind: MouseKind, facts: &Facts)
        requires
            old(self).wf(),
        ensures
            final(self).wf(),
            *final(self) == wheel_result(*old(self), kind, *facts),
    {
        let down: bool = match kind {
            MouseKind::ScrollDown => true,
            MouseKind::ScrollUp => false,
            MouseKind::Other => {
                return;
            },
        };
        if self.editor.is_some() {
            return;
        }
        if self.expanded || matches!(self.page, Page::Candidates) {
            self.scroll = scroll_by(self.scroll, 3, down);
        } else if self.choices.is_some() {
            if let Some(choices) = &mut self.choices {
                if down {
                    choices.selected = hold_to(choices.selected.saturating_add(1), choices.values.len());
                } else {
                    choices.selected = choices.selected.saturating_sub(1);
                }
            }
        } else {
            self.move_assistant_selection(down, facts);
        }
    }
}

/// The panel after a turn of the wheel.
pub open spec fn wheel_result(panel: Panel, kind: MouseKind, facts: Facts) -> Panel {
    let rows = panel::page_rows(panel, facts);
    let down = kind == MouseKind::ScrollDown;
    if kind == MouseKind::Other || panel.editor is Some {
        panel
    } else if panel.expanded || panel.page == Page::Candidates {
        Panel { scroll: scrolled(panel.scroll, 3, down), ..panel }
    } else if panel.choices is Some {
        let selected = panel.choices->0.selected as int;
        let count = panel.choices->0.values@.len() as int;
        Panel {
            choices: Some(
                Choices {
                    selected: (if down {
                        held_to(selected + 1, count)
                    } else if selected == 0 {
                        0
                    } else {
                        selected - 1
                    }) as usize,
                    ..panel.choices->0
                },
            ),
            ..panel
        }
    } else if rows.len() == 0 {
        Panel { row: 0, ..panel }
    } else {
        Panel {
            row: selection_moved(rows, facts, panel.row as int, down) as usize,
            scroll: 0,
            ..panel
        }
    }
}

/// While a text is edited, letters and the keys of the menu only change the text: no command runs
/// and the panel stays open.
pub proof fn law_editing_runs_nothing(panel: Panel, key: KeyEvent, facts: Facts)
    requires
        focus_of(panel, key) == Focus::Editor,
        key.code != KeyCode::Enter,
    ensures
        key_action(panel, key, facts) == PanelAction::Keep,
{
}

/// Going down selects the nearest row further down that can be used, and only where there is none
/// goes on from the top; going up likewise.
pub proof fn law_the_selection_goes_to_the_nearest_row(
    rows: Seq<Row>,
    facts: Facts,
    row: int,
    k: int,
)
    requires
        0 <= row < rows.len(),
        0 <= k < rows.len(),
        panel::readonly_text(rows[k], facts) is None,
    ensures
        k > row ==> row < selection_moved(rows, facts, row, true) <= k,
        k < row ==> k <= selection_moved(rows, facts, row, false) < row,
        k > row ==> panel::readonly_text(
            rows[selection_moved(rows, facts, row, true)],
            facts,
        ) is None,
        k < row ==> panel::readonly_text(
            rows[selection_moved(rows, facts, row, false)],
            facts,
        ) is None,
{
    if k > row {
        lemma_nearest_down(rows, facts, row, row, k, rows.len());
    }
    if k < row {
        lemma_nearest_up(rows, facts, row, row, k, rows.len());
    }
}

proof fn lemma_nearest_down(
    rows: Seq<Row>,
    facts: Facts,
    start: int,
    at: int,
    k: int,
    steps: nat,
)
    requires
        0 <= start <= at < k < rows.len(),
        usable(rows, facts, k),
        steps >= k - at,
    ensures
        at < next_usable(rows, facts, start, at, true, steps) <= k,
        usable(rows, facts, next_usable(rows, facts, start, at, true, steps)),
    decreases steps,
{
    let next = at + 1;
    assert(neighbour(at, rows.len() as int, true) == next);
    if !usable(rows, facts, next) {
        lemma_nearest_down(rows, facts, start, next, k, (steps - 1) as nat);
    }
}

proof fn lemma_nearest_up(
    rows: Seq<Row>,
    facts: Facts,
    start: int,
    at: int,
    k: int,
    steps: nat,
)
    requires
        0 <= k < at <= start < rows.len(),
        usable(rows, facts, k),
        steps >= at - k,
    ensures
        k <= next_usable(rows, facts, start, at, false, steps) < at,
        usable(rows, facts, next_usable(rows, facts, start, at, false, steps)),
    decreases steps,
{
    let next = at - 1;
    assert(neighbour(at, rows.len() as int, false) == next);
    if !usable(rows, facts, next) {
        lemma_nearest_up(rows, facts, start, next, k, (steps - 1) as nat);
    }
}

/// Among choices, down goes one further and up one back, around the ends, so that one undoes the
/// other.
pub proof fn law_choice_steps_undo_each_other(selected: int, count: int)
    requires
        0 <= selected < count,
    ensures
        choice_moved(choice_moved(selected, count, KeyCode::Down), count, KeyCode::Up) == selected,
        choice_moved(choice_moved(selected, count, KeyCode::Up), count, KeyCode::Down) == selected,
        selected + 1 < count ==> choice_moved(selected, count, KeyCode::Down) == selected + 1,
        selected + 1 == count ==> choice_moved(selected, count, KeyCode::Down) == 0,
        choice_moved(selected, count, KeyCode::Home) == 0,
        choice_moved(selected, count, KeyCode::End) == count - 1,
        choice_moved(selected, count, KeyCode::Right) == choice_moved(
            selected,
            count,
            KeyCode::Down,
        ),
        choice_moved(selected, count, KeyCode::Left) == choice_moved(selected, count, KeyCode::Up),
{
}

/// In the list of replies, each key decides what it stands for: `a` and `d` alone all of them,
/// shift and enter or delete the shown one; without a reply none of them decides anything.
pub proof fn law_reply_keys_decide_what_they_say(panel: Panel, key: KeyEvent, facts: Facts)
    requires
        panel.page == Page::Candidates,
        panel.editor is None,
        panel.choices is None,
        panel.pending_save is None,
    ensures
        ({
            let action = key_action(panel, key, facts);
            let alone = !key.modifiers.shift && !key.modifiers.control && !key.modifiers.alt
                && !key.modifiers.extra;
            let any = facts.candidates != 0;
            &&& action == PanelAction::Apply(Row::Action(Action::ApproveAllCandidates)) <==> any
                && alone && key.code == KeyCode::Char('a')
            &&& action == PanelAction::Apply(Row::Action(Action::DiscardAllCandidates)) <==> any
                && alone && key.code == KeyCode::Char('d')
            &&& action == PanelAction::Apply(Row::Action(Action::ApproveCandidate)) <==> any
                && key.code == KeyCode::Enter && key.modifiers.shift && !key.modifiers.control
                && !key.modifiers.alt && !key.modifiers.extra
            &&& action == PanelAction::Apply(Row::Action(Action::DiscardCandidate)) <==> any
                && key.code == KeyCode::Delete
            &&& action == PanelAction::Apply(Row::Action(Action::EditCandidate)) <==> any && alone
                && key.code == KeyCode::Char('e')
            &&& action == PanelAction::NextCandidate <==> any && key.code == KeyCode::Tab
        }),
{
}

/// Scrolling down and up by the same lines undo each other while there is room.
pub proof fn law_scrolling_undoes_itself(scroll: u16, lines: u16)
    ensures
        scroll + lines <= u16::MAX ==> scrolled(scroll, lines as int, true) == scroll + lines
            && scrolled(scrolled(scroll, lines as int, true), lines as int, false) == scroll,
        scroll >= lines ==> scrolled(scroll, lines as int, false) == scroll - lines,
        scroll < lines ==> scrolled(scroll, lines as int, false) == 0,
{
}

/// In a menu the arrows and the page keys move the selection their way and nothing else changes;
/// enter activates the selected row, and escape goes back, or closes where there is nothing behind.
pub proof fn law_menu_keys_do_what_they_say(panel: Panel, key: KeyEvent, facts: Facts)
    requires
        panel.editor is None,
        panel.choices is None,
        panel.pending_save is None,
        panel.page != Page::Candidates,
        !asks_explanation(key),
        panel.row < panel::page_rows(panel, facts).len(),
        panel::page_rows(panel, facts).len() <= usize::MAX,
    ensures
        ({
            let rows = panel::page_rows(panel, facts);
            let after = key_result(panel, key, facts);
            let action = key_action(panel, key, facts);
            &&& key.code == KeyCode::Down || key.code == KeyCode::Right ==> after.row
                == selection_moved(rows, facts, panel.row as int, true) as usize && after.page
                == panel.page
            &&& key.code == KeyCode::Up || key.code == KeyCode::Left ==> after.row
                == selection_moved(rows, facts, panel.row as int, false) as usize && after.page
                == panel.page
            &&& key.code == KeyCode::Home ==> after.row == 0
            &&& key.code == KeyCode::End ==> after.row == rows.len() - 1
            &&& key.code == KeyCode::PageDown && !panel.expanded ==> after.row >= panel.row
            &&& key.code == KeyCode::PageUp && !panel.expanded ==> after.row <= panel.row
            &&& action == PanelAction::Activate(panel.row) <==> key.code == KeyCode::Enter
            &&& action is Activate ==> key.code == KeyCode::Enter
            &&& action == PanelAction::Close <==> key.code == KeyCode::Esc && panel.history@.len()
                == 0
            &&& action is Apply || action is Choose || action is SaveEditor ==> false
        }),
{
}

/// While a value is being saved nothing but escape does anything, an open list of choices is
/// answered by enter with the choice under the cursor, and a line that is edited is saved by enter.
pub proof fn law_what_is_open_gets_the_keys(panel: Panel, key: KeyEvent, facts: Facts)
    ensures
        panel.pending_save is Some ==> key_result(panel, key, facts) == panel && (key_action(
            panel,
            key,
            facts,
        ) == PanelAction::Close <==> key.code == KeyCode::Esc) && (key.code != KeyCode::Esc
            ==> key_action(panel, key, facts) == PanelAction::Keep),
        panel.pending_save is None && panel.choices is Some && panel.editor is None
            && !asks_explanation(key) ==> (key_action(panel, key, facts) == PanelAction::Choose(
            panel.choices->0.selected,
        ) <==> key.code == KeyCode::Enter),
        panel.pending_save is None && panel.choices is Some && panel.editor is None && key.code
            == KeyCode::Esc ==> key_result(panel, key, facts).choices is None,
        panel.pending_save is None && panel.choices is None && panel.editor is Some && !(edits_topic(
            panel,
        ) && key.code == KeyCode::F(2)) ==> (key_action(panel, key, facts)
            == PanelAction::SaveEditor <==> key.code == KeyCode::Enter && !key.modifiers.control),
        panel.pending_save is None && panel.choices is None && panel.editor is Some && key.code
            == KeyCode::Esc && !key.modifiers.control ==> key_result(panel, key, facts).editor
            is None,
{
}

/// In a line, a plain character is typed, a held control key types nothing, and the keys that move
/// and delete do so in their own direction.
pub proof fn law_line_keys_do_what_they_say(key: KeyEvent)
    ensures
        key.modifiers.control ==> !(editor_key(key) is Type),
        editor_key(key) is Type ==> key.code == KeyCode::Char(editor_key(key)->Type_0)
            && !key.modifiers.alt,
        key.code is Char && !key.modifiers.control && !key.modifiers.alt ==> editor_key(key)
            == LineEdit::Type(key.code->Char_0),
        key.code == KeyCode::Backspace && !key.modifiers.control ==> editor_key(key)
            == LineEdit::Edit(Edit::DeleteBefore),
        key.code == KeyCode::Delete && !key.modifiers.control ==> editor_key(key)
            == LineEdit::Edit(Edit::DeleteAt),
        key.code == KeyCode::Left && !key.modifiers.control ==> editor_key(key) == LineEdit::Edit(
            Edit::Left,
        ),
        key.code == KeyCode::Right && !key.modifiers.control ==> editor_key(key) == LineEdit::Edit(
            Edit::Right,
        ),
        key.code == KeyCode::Home && !key.modifiers.control ==> editor_key(key) == LineEdit::Edit(
            Edit::Start,
        ),
        key.code == KeyCode::End && !key.modifiers.control ==> editor_key(key) == LineEdit::Edit(
            Edit::End,
        ),
        editor_key(key) is Clear ==> key.modifiers.control && key.code == KeyCode::Char('u'),
{
}

/// Going back leads to the page that was left last, as it was left.
pub proof fn law_going_back_leads_to_the_last_page(before: Panel, after: Panel)
    requires
        went_back(before, after),
        before.history@.len() > 0,
    ensures
        after.page == before.history@.last().page,
        after.row == before.history@.last().row,
        after.scroll == before.history@.last().scroll,
        after.history@.len() == before.history@.len() - 1,
        after.error is None,
{
}

/// The wheel goes through the choices one by one and stops at the ends, goes through the rows as the
/// arrows do, and leaves a line that is edited alone.
pub proof fn law_the_wheel_goes_one_by_one(panel: Panel, facts: Facts, down: bool)
    requires
        panel.wf(),
    ensures
        ({
            let kind = if down {
                MouseKind::ScrollDown
            } else {
                MouseKind::ScrollUp
            };
            let after = wheel_result(panel, kind, facts);
            let rows = panel::page_rows(panel, facts);
            let listed = panel.editor is None && !panel.expanded && panel.page != Page::Candidates;
            &&& panel.editor is Some ==> after == panel
            &&& listed && panel.choices is Some ==> {
                let at = panel.choices->0.selected as int;
                let to = after.choices->0.selected as int;
                &&& after.choices is Some
                &&& down && at + 1 < panel.choices->0.values@.len() ==> to == at + 1
                &&& down && at + 1 == panel.choices->0.values@.len() ==> to == at
                &&& !down && at > 0 ==> to == at - 1
                &&& !down && at == 0 ==> to == 0
            }
            &&& listed && panel.choices is None && rows.len() > 0 ==> after.row == selection_moved(
                rows,
                facts,
                panel.row as int,
                down,
            ) as usize
        }),
{
    if panel.choices is Some {
        assert(panel.choices->0.values.len() == panel.choices->0.values@.len());
    }
}

/// A plain character goes into the line that is edited, at its cursor, and nowhere else.
pub proof fn law_an_edited_line_takes_the_characters(
    before: Panel,
    after: Panel,
    key: KeyEvent,
    facts: Facts,
    c: char,
)
    requires
        pressed(before, after, key, facts),
        before.wf(),
        before.editor is Some,
        before.choices is None,
        before.pending_save is None,
        key.code == KeyCode::Char(c),
        key.modifiers.none(),
    ensures
        after.editor is Some,
        after.page == before.page,
        after.row == before.row,
        (before.editor, after.editor) matches (Some((field, line)), Some((edited, typed))) ==> {
            &&& edited == field
            &&& typed.text() == line.text().insert(line.position() as int, c)
            &&& typed.position() == line.position() + 1
        },
{
    if let (Some((field, line)), Some((edited, typed))) = (before.editor, after.editor) {
        input::law_typing_puts_the_character_at_the_cursor(line.text(), line.position(), c);
        assert(typed.text() =~= line.text().insert(line.position() as int, c));
    }
}

/// In the list of replies the page keys scroll the shown one by four lines, and going to the next
/// one begins at its top.
pub proof fn law_page_keys_scroll_the_reply(panel: Panel, key: KeyEvent, facts: Facts)
    requires
        panel.page == Page::Candidates,
        facts.candidates != 0,
        panel.editor is None,
        panel.choices is None,
        panel.pending_save is None,
    ensures
        ({
            let after = key_result(panel, key, facts);
            &&& key.code == KeyCode::PageDown && panel.scroll + 4 <= u16::MAX ==> after.scroll
                == panel.scroll + 4
            &&& key.code == KeyCode::PageUp && panel.scroll >= 4 ==> after.scroll == panel.scroll
                - 4
            &&& key.code == KeyCode::PageUp && panel.scroll < 4 ==> after.scroll == 0
            &&& key.code == KeyCode::Tab ==> after.scroll == 0
            &&& key.code == KeyCode::PageDown || key.code == KeyCode::PageUp ==> after.row
                == panel.row && after.page == panel.page
        }),
{
}

} // verus!
